use vstd::prelude::*;

use crate::bytes::{le_bytes_of_u64, lemma_le_round_trip, u64_from_le, u64_of_le_bytes};
use crate::error::ErrorThingy;

verus! {

/// Number of bytes a target storage account is provisioned with, and the
/// capacity budget the persisted record must fit in.
pub const RECORD_CAPACITY: usize = 100;

/// Number of bytes the encoded record occupies at the front of the buffer.
pub const RECORD_ENCODED_LEN: usize = 8;

/// The persisted domain record: a single 64-bit value.
#[derive(Clone, Copy, Debug, PartialEq, Eq, Structural)]
pub struct AccountThingy {
    pub thing: u64,
}

/// The fixed binary archive of a record: its field, little-endian, at the
/// front of the buffer.
pub open spec fn encoded_record(r: AccountThingy) -> Seq<u8> {
    le_bytes_of_u64(r.thing)
}

/// Serializes `record` into `buffer`, overwriting its first
/// `RECORD_ENCODED_LEN` bytes and leaving the rest of the region as it was.
/// If the encoding does not fit, fails with `SerializationOverflow` and
/// leaves the buffer byte-for-byte unchanged: the overflow check precedes
/// every write.
pub fn write(buffer: &mut Vec<u8>, record: &AccountThingy) -> (r: Result<(), ErrorThingy>)
    ensures
        old(buffer)@.len() < RECORD_ENCODED_LEN ==> r == Err::<(), ErrorThingy>(
            ErrorThingy::SerializationOverflow,
        ) && final(buffer)@ == old(buffer)@,
        old(buffer)@.len() >= RECORD_ENCODED_LEN ==> r == Ok::<(), ErrorThingy>(())
            && final(buffer)@ == encoded_record(*record) + old(buffer)@.skip(
            RECORD_ENCODED_LEN as int,
        ),
{
    if buffer.len() < RECORD_ENCODED_LEN {
        return Err(ErrorThingy::SerializationOverflow);
    }
    let v = record.thing;
    buffer[0] = ((v >> 0u64) & 0xff) as u8;
    buffer[1] = ((v >> 8u64) & 0xff) as u8;
    buffer[2] = ((v >> 16u64) & 0xff) as u8;
    buffer[3] = ((v >> 24u64) & 0xff) as u8;
    buffer[4] = ((v >> 32u64) & 0xff) as u8;
    buffer[5] = ((v >> 40u64) & 0xff) as u8;
    buffer[6] = ((v >> 48u64) & 0xff) as u8;
    buffer[7] = ((v >> 56u64) & 0xff) as u8;
    proof {
        assert(buffer@ =~= encoded_record(*record) + old(buffer)@.skip(RECORD_ENCODED_LEN as int));
    }
    Ok(())
}

/// Deserializes the record archived at the front of `buffer`. A buffer too
/// short to hold an archive is a `DecodeError`.
pub fn read(buffer: &Vec<u8>) -> (r: Result<AccountThingy, ErrorThingy>)
    ensures
        buffer@.len() < RECORD_ENCODED_LEN ==> r == Err::<AccountThingy, ErrorThingy>(
            ErrorThingy::DecodeError,
        ),
        buffer@.len() >= RECORD_ENCODED_LEN ==> r == Ok::<AccountThingy, ErrorThingy>(
            AccountThingy { thing: u64_of_le_bytes(buffer@) },
        ),
{
    if buffer.len() < RECORD_ENCODED_LEN {
        return Err(ErrorThingy::DecodeError);
    }
    let thing = u64_from_le(buffer, 0);
    proof {
        assert(buffer@.skip(0) =~= buffer@);
    }
    Ok(AccountThingy { thing })
}

/// Law: the state codec round-trips. For any record and any destination
/// region large enough for its encoding, the buffer `write` produces decodes
/// to the record that was written.
pub proof fn lemma_codec_round_trip(record: AccountThingy, buffer: Seq<u8>)
    requires
        buffer.len() >= RECORD_ENCODED_LEN,
    ensures
        ({
            let written = encoded_record(record) + buffer.skip(RECORD_ENCODED_LEN as int);
            written.len() == buffer.len() && u64_of_le_bytes(written) == record.thing
        }),
{
    let written = encoded_record(record) + buffer.skip(RECORD_ENCODED_LEN as int);
    lemma_le_round_trip(record.thing);
    assert(written[0] == le_bytes_of_u64(record.thing)[0]);
    assert(written[1] == le_bytes_of_u64(record.thing)[1]);
    assert(written[2] == le_bytes_of_u64(record.thing)[2]);
    assert(written[3] == le_bytes_of_u64(record.thing)[3]);
    assert(written[4] == le_bytes_of_u64(record.thing)[4]);
    assert(written[5] == le_bytes_of_u64(record.thing)[5]);
    assert(written[6] == le_bytes_of_u64(record.thing)[6]);
    assert(written[7] == le_bytes_of_u64(record.thing)[7]);
}

} // verus!
