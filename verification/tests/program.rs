use thingy_program::account::Account;
use thingy_program::allocator::ensure;
use thingy_program::bytes::u64_to_le_vec;
use thingy_program::derivation::validate;
use thingy_program::error::ErrorThingy;
use thingy_program::instruction::{
    decode_instruction, encode_instruction, InstructionThingArgs, InstructionThingy,
};
use thingy_program::processor::Processor;
use thingy_program::state::{read, AccountThingy, RECORD_CAPACITY};

fn seeds_for(payer_key: &[u8; 32], value: u64) -> Vec<Vec<u8>> {
    let mut seeds: Vec<Vec<u8>> = Vec::new();
    seeds.push(b"test".to_vec());
    seeds.push(payer_key.to_vec());
    seeds.push(value.to_le_bytes().to_vec());
    seeds
}

fn fresh_account(key: [u8; 32], is_signer: bool, is_writable: bool) -> Account {
    Account {
        key,
        lamports: 0,
        owner: [0u8; 32],
        data: Vec::new(),
        is_signer,
        is_writable,
    }
}

fn scenario_accounts(payer_key: [u8; 32], target_key: [u8; 32], payer_lamports: u64) -> Vec<Account> {
    let mut payer = fresh_account(payer_key, true, true);
    payer.lamports = payer_lamports;
    let target = fresh_account(target_key, false, true);
    let system = fresh_account([0u8; 32], false, false);
    vec![payer, target, system]
}

#[test]
fn derivation_matches_host_search() {
    let pid = [7u8; 32];
    let payer_key = [1u8; 32];
    let value: u64 = 42;
    let seeds = seeds_for(&payer_key, value);
    let (addr, bump) = thingy_program::derivation::derive(&pid, &seeds).expect("derivation should succeed");
    let host_pid = solana_program::pubkey::Pubkey::new_from_array(pid);
    let (host_addr, host_bump) = solana_program::pubkey::Pubkey::find_program_address(
        &[b"test", &payer_key, &value.to_le_bytes()],
        &host_pid,
    );
    assert_eq!(addr, host_addr.to_bytes());
    assert_eq!(bump, host_bump);
}

#[test]
fn derivation_round_trip() {
    let pid = [3u8; 32];
    let payer_key = [250u8; 32];
    let value: u64 = 999;
    let seeds = seeds_for(&payer_key, value);
    let (addr, bump) = thingy_program::derivation::derive(&pid, &seeds).expect("derivation should succeed");
    assert_eq!(validate(&pid, &seeds, &addr), Ok(bump));
}

#[test]
fn derivation_deterministic() {
    let pid = [11u8; 32];
    let payer_key = [4u8; 32];
    let seeds = seeds_for(&payer_key, 5);
    assert_eq!(thingy_program::derivation::derive(&pid, &seeds), thingy_program::derivation::derive(&pid, &seeds));
}

#[test]
fn validate_rejects_wrong_address() {
    let pid = [3u8; 32];
    let payer_key = [250u8; 32];
    let seeds = seeds_for(&payer_key, 999);
    let (addr, _) = thingy_program::derivation::derive(&pid, &seeds).expect("derivation should succeed");
    let mut wrong = addr;
    wrong[0] = wrong[0].wrapping_add(1);
    assert_eq!(validate(&pid, &seeds, &wrong), Err(ErrorThingy::DerivationMismatch));
}

#[test]
fn instruction_codec_round_trip() {
    let ins = InstructionThingy::InstructionThing(InstructionThingArgs { value: 777 });
    let bytes = encode_instruction(&ins);
    assert_eq!(bytes.len(), 9);
    assert_eq!(bytes[0], 0);
    assert_eq!(decode_instruction(&bytes), Ok(ins));
}

#[test]
fn instruction_decode_rejects_bad_tag() {
    let mut bytes = vec![0u8; 9];
    bytes[0] = 1;
    assert_eq!(decode_instruction(&bytes), Err(ErrorThingy::DecodeError));
}

#[test]
fn instruction_decode_rejects_short_input() {
    let bytes = vec![0u8; 8];
    assert_eq!(decode_instruction(&bytes), Err(ErrorThingy::DecodeError));
}

#[test]
fn instruction_decode_rejects_trailing_bytes() {
    let bytes = vec![0u8; 10];
    assert_eq!(decode_instruction(&bytes), Err(ErrorThingy::DecodeError));
}

#[test]
fn instruction_argument_matches_borsh() {
    let value: u64 = 123456789;
    let ins = InstructionThingy::InstructionThing(InstructionThingArgs { value });
    let bytes = encode_instruction(&ins);
    let borsh_arg = borsh::to_vec(&value).expect("borsh encoding should succeed");
    assert_eq!(&bytes[1..], &borsh_arg[..]);
    let decoded: u64 = borsh::BorshDeserialize::try_from_slice(&bytes[1..]).unwrap();
    assert_eq!(decoded, value);
}

#[test]
fn state_codec_round_trip() {
    let mut buffer = vec![0xaau8; RECORD_CAPACITY];
    let record = AccountThingy { thing: 42 };
    assert_eq!(thingy_program::state::write(&mut buffer, &record), Ok(()));
    assert_eq!(buffer.len(), RECORD_CAPACITY);
    assert_eq!(read(&buffer), Ok(record));
}

#[test]
fn state_codec_matches_rkyv_archive() {
    let value: u64 = 42;
    let mut buffer = vec![0u8; RECORD_CAPACITY];
    thingy_program::state::write(&mut buffer, &AccountThingy { thing: value }).unwrap();
    let archived = rkyv::to_bytes::<u64, 100>(&value).expect("rkyv archiving should succeed");
    assert_eq!(&buffer[..8], &archived[..]);
}

#[test]
fn write_overflow_leaves_buffer_unchanged() {
    let mut buffer = vec![0u8; 4];
    let record = AccountThingy { thing: 0x1234 };
    assert_eq!(thingy_program::state::write(&mut buffer, &record), Err(ErrorThingy::SerializationOverflow));
    assert_eq!(buffer, vec![0u8; 4]);
}

#[test]
fn read_rejects_short_buffer() {
    let buffer = vec![0u8; 7];
    assert_eq!(read(&buffer), Err(ErrorThingy::DecodeError));
}

#[test]
fn ensure_is_idempotent() {
    let pid = [9u8; 32];
    let mut target = fresh_account([5u8; 32], false, true);
    let mut funder = fresh_account([1u8; 32], true, true);
    funder.lamports = 10_000_000;
    assert_eq!(ensure(&mut target, &mut funder, 100, 2_000_000, &pid), Ok(()));
    assert_eq!(target.owner, pid);
    assert_eq!(target.lamports, 2_000_000);
    assert_eq!(target.data, vec![0u8; 100]);
    assert_eq!(funder.lamports, 8_000_000);
    let lamports_before = target.lamports;
    let data_before = target.data.clone();
    assert_eq!(ensure(&mut target, &mut funder, 100, 2_000_000, &pid), Ok(()));
    assert_eq!(target.lamports, lamports_before);
    assert_eq!(target.data, data_before);
    assert_eq!(target.owner, pid);
    assert_eq!(funder.lamports, 8_000_000);
}

#[test]
fn ensure_rejects_foreign_owner() {
    let pid = [9u8; 32];
    let mut target = fresh_account([5u8; 32], false, true);
    target.owner = [8u8; 32];
    let mut funder = fresh_account([1u8; 32], true, true);
    funder.lamports = 10_000_000;
    assert_eq!(
        ensure(&mut target, &mut funder, 100, 2_000_000, &pid),
        Err(ErrorThingy::AllocationFailure)
    );
    assert_eq!(target.lamports, 0);
    assert_eq!(funder.lamports, 10_000_000);
}

#[test]
fn ensure_rejects_poor_funder() {
    let pid = [9u8; 32];
    let mut target = fresh_account([5u8; 32], false, true);
    let mut funder = fresh_account([1u8; 32], true, true);
    funder.lamports = 100;
    assert_eq!(
        ensure(&mut target, &mut funder, 100, 2_000_000, &pid),
        Err(ErrorThingy::AllocationFailure)
    );
    assert_eq!(target.lamports, 0);
    assert_eq!(target.data.len(), 0);
    assert_eq!(funder.lamports, 100);
}

#[test]
fn end_to_end_success() {
    let pid = [7u8; 32];
    let payer_key = [1u8; 32];
    let value: u64 = 42;
    let seeds = seeds_for(&payer_key, value);
    let (addr, _bump) = thingy_program::derivation::derive(&pid, &seeds).expect("derivation should succeed");
    let mut accounts = scenario_accounts(payer_key, addr, 10_000_000);
    let data = encode_instruction(&InstructionThingy::InstructionThing(InstructionThingArgs {
        value,
    }));
    let r = Processor::process_instruction(&pid, &mut accounts, &data, 2_000_000);
    assert_eq!(r, Ok(()));
    assert_eq!(accounts[0].lamports, 8_000_000);
    assert_eq!(accounts[1].owner, pid);
    assert_eq!(accounts[1].lamports, 2_000_000);
    assert_eq!(accounts[1].data.len(), RECORD_CAPACITY);
    assert_eq!(read(&accounts[1].data), Ok(AccountThingy { thing: 42 }));
}

#[test]
fn end_to_end_wrong_target_is_mismatch() {
    let pid = [7u8; 32];
    let payer_key = [1u8; 32];
    let value: u64 = 42;
    let seeds = seeds_for(&payer_key, value);
    let (addr, _bump) = thingy_program::derivation::derive(&pid, &seeds).expect("derivation should succeed");
    let mut wrong = addr;
    wrong[31] = wrong[31].wrapping_add(1);
    let mut accounts = scenario_accounts(payer_key, wrong, 10_000_000);
    let data = encode_instruction(&InstructionThingy::InstructionThing(InstructionThingArgs {
        value,
    }));
    let r = Processor::process_instruction(&pid, &mut accounts, &data, 2_000_000);
    assert_eq!(r, Err(ErrorThingy::DerivationMismatch));
    assert_eq!(accounts[0].lamports, 10_000_000);
    assert_eq!(accounts[1].lamports, 0);
    assert_eq!(accounts[1].data.len(), 0);
    assert_eq!(accounts[1].owner, [0u8; 32]);
}

#[test]
fn end_to_end_missing_accounts() {
    let pid = [7u8; 32];
    let mut accounts = vec![fresh_account([1u8; 32], true, true)];
    let data = encode_instruction(&InstructionThingy::InstructionThing(InstructionThingArgs {
        value: 1,
    }));
    let r = Processor::process_instruction(&pid, &mut accounts, &data, 2_000_000);
    assert_eq!(r, Err(ErrorThingy::AccountOrderError));
    assert_eq!(accounts.len(), 1);
}

#[test]
fn end_to_end_unsigned_payer() {
    let pid = [7u8; 32];
    let payer_key = [1u8; 32];
    let value: u64 = 42;
    let seeds = seeds_for(&payer_key, value);
    let (addr, _bump) = thingy_program::derivation::derive(&pid, &seeds).expect("derivation should succeed");
    let mut accounts = scenario_accounts(payer_key, addr, 10_000_000);
    accounts[0].is_signer = false;
    let data = encode_instruction(&InstructionThingy::InstructionThing(InstructionThingArgs {
        value,
    }));
    let r = Processor::process_instruction(&pid, &mut accounts, &data, 2_000_000);
    assert_eq!(r, Err(ErrorThingy::AccountOrderError));
    assert_eq!(accounts[0].lamports, 10_000_000);
}

#[test]
fn end_to_end_bad_instruction_bytes() {
    let pid = [7u8; 32];
    let mut accounts = scenario_accounts([1u8; 32], [2u8; 32], 10_000_000);
    let data = vec![5u8; 9];
    let r = Processor::process_instruction(&pid, &mut accounts, &data, 2_000_000);
    assert_eq!(r, Err(ErrorThingy::DecodeError));
    assert_eq!(accounts[0].lamports, 10_000_000);
}

#[test]
fn end_to_end_foreign_owned_target() {
    let pid = [7u8; 32];
    let payer_key = [1u8; 32];
    let value: u64 = 42;
    let seeds = seeds_for(&payer_key, value);
    let (addr, _bump) = thingy_program::derivation::derive(&pid, &seeds).expect("derivation should succeed");
    let mut accounts = scenario_accounts(payer_key, addr, 10_000_000);
    accounts[1].owner = [8u8; 32];
    let data = encode_instruction(&InstructionThingy::InstructionThing(InstructionThingArgs {
        value,
    }));
    let r = Processor::process_instruction(&pid, &mut accounts, &data, 2_000_000);
    assert_eq!(r, Err(ErrorThingy::AllocationFailure));
    assert_eq!(accounts[0].lamports, 10_000_000);
    assert_eq!(accounts[1].data.len(), 0);
}

#[test]
fn end_to_end_overwrites_previous_record() {
    let pid = [7u8; 32];
    let payer_key = [1u8; 32];
    let value: u64 = 42;
    let seeds = seeds_for(&payer_key, value);
    let (addr, _bump) = thingy_program::derivation::derive(&pid, &seeds).expect("derivation should succeed");
    let mut accounts = scenario_accounts(payer_key, addr, 10_000_000);
    let data = encode_instruction(&InstructionThingy::InstructionThing(InstructionThingArgs {
        value,
    }));
    assert_eq!(Processor::process_instruction(&pid, &mut accounts, &data, 2_000_000), Ok(()));
    assert_eq!(Processor::process_instruction(&pid, &mut accounts, &data, 2_000_000), Ok(()));
    assert_eq!(accounts[0].lamports, 8_000_000);
    assert_eq!(read(&accounts[1].data), Ok(AccountThingy { thing: 42 }));
}

#[test]
fn little_endian_seed_bytes() {
    let v: u64 = 0x0102030405060708;
    let bytes = u64_to_le_vec(v);
    assert_eq!(bytes, vec![8, 7, 6, 5, 4, 3, 2, 1]);
    assert_eq!(bytes, v.to_le_bytes().to_vec());
}
