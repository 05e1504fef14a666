use vstd::prelude::*;

use crate::bytes::{le_bytes_of_u64, lemma_le_round_trip, u64_from_le, u64_of_le_bytes, u64_to_le_vec};
use crate::error::ErrorThingy;

verus! {

/// Wire tag of the single instruction variant.
pub const INSTRUCTION_THING_TAG: u8 = 0;

/// Total wire length of the instruction: a 1-byte tag and an 8-byte argument.
pub const INSTRUCTION_ENCODED_LEN: usize = 9;

/// The argument struct carried by the instruction.
#[derive(Clone, Copy, Debug, PartialEq, Eq, Structural)]
pub struct InstructionThingArgs {
    pub value: u64,
}

/// The tagged instruction set of this program: a single variant carrying one
/// 64-bit unsigned argument.
#[derive(Clone, Copy, Debug, PartialEq, Eq, Structural)]
pub enum InstructionThingy {
    InstructionThing(InstructionThingArgs),
}

/// The instruction wire format: the variant tag followed by the argument's
/// fields, fixed-width and little-endian, with no padding.
pub open spec fn encoded_instruction(ins: InstructionThingy) -> Seq<u8> {
    match ins {
        InstructionThingy::InstructionThing(args) => seq![INSTRUCTION_THING_TAG] + le_bytes_of_u64(
            args.value,
        ),
    }
}

/// Whether `data` is the encoding of some instruction: a recognized tag and
/// exactly the declared argument width behind it.
pub open spec fn is_valid_instruction_encoding(data: Seq<u8>) -> bool {
    data.len() == INSTRUCTION_ENCODED_LEN && data[0] == INSTRUCTION_THING_TAG
}

/// The instruction a valid encoding stands for.
pub open spec fn decoded_instruction(data: Seq<u8>) -> InstructionThingy
    recommends
        is_valid_instruction_encoding(data),
{
    InstructionThingy::InstructionThing(
        InstructionThingArgs { value: u64_of_le_bytes(data.skip(1)) },
    )
}

/// Decodes the tagged instruction. An unrecognized tag, missing bytes or
/// trailing bytes are a `DecodeError`; decoding has no side effect.
pub fn decode_instruction(data: &Vec<u8>) -> (r: Result<InstructionThingy, ErrorThingy>)
    ensures
        is_valid_instruction_encoding(data@) ==> r == Ok::<InstructionThingy, ErrorThingy>(
            decoded_instruction(data@),
        ),
        !is_valid_instruction_encoding(data@) ==> r == Err::<InstructionThingy, ErrorThingy>(
            ErrorThingy::DecodeError,
        ),
{
    if data.len() != INSTRUCTION_ENCODED_LEN {
        return Err(ErrorThingy::DecodeError);
    }
    if data[0] != INSTRUCTION_THING_TAG {
        return Err(ErrorThingy::DecodeError);
    }
    let value = u64_from_le(data, 1);
    Ok(InstructionThingy::InstructionThing(InstructionThingArgs { value }))
}

/// Encodes an instruction onto the wire format `decode_instruction` accepts.
pub fn encode_instruction(ins: &InstructionThingy) -> (r: Vec<u8>)
    ensures
        r@ == encoded_instruction(*ins),
{
    match ins {
        InstructionThingy::InstructionThing(args) => {
            let mut out: Vec<u8> = Vec::new();
            out.push(INSTRUCTION_THING_TAG);
            let mut tail = u64_to_le_vec(args.value);
            out.append(&mut tail);
            proof {
                assert(out@ =~= encoded_instruction(*ins));
            }
            out
        },
    }
}

/// Law: the instruction codec round-trips; decoding an encoded instruction
/// yields that instruction, for every instruction value.
pub proof fn lemma_instruction_round_trip(ins: InstructionThingy)
    ensures
        is_valid_instruction_encoding(encoded_instruction(ins)),
        decoded_instruction(encoded_instruction(ins)) == ins,
{
    let data = encoded_instruction(ins);
    match ins {
        InstructionThingy::InstructionThing(args) => {
            lemma_le_round_trip(args.value);
            assert(data.skip(1) =~= le_bytes_of_u64(args.value));
        },
    }
}

} // verus!
