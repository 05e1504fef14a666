use vstd::prelude::*;

use crate::account::{Account, AccountState};
use crate::allocator::{ensure, ensure_model};
use crate::bytes::{le_bytes_of_u64, u64_of_le_bytes, u64_to_le_vec};
use crate::derivation::{
    canonical_bump, derivation_exhausted, lemma_canonical_unique, pda_of, seeds_ok,
    seeds_with_bump, validate,
};
use crate::error::ErrorThingy;
use crate::instruction::{
    decode_instruction, is_valid_instruction_encoding, InstructionThingy,
};
use crate::state::{AccountThingy, RECORD_CAPACITY, RECORD_ENCODED_LEN};

verus! {

/// The constant domain tag that opens every seed list: the ASCII bytes of
/// "test".
pub open spec fn seed_tag() -> Seq<u8> {
    seq![116u8, 101u8, 115u8, 116u8]
}

/// The ordered seed list of the instruction: the domain tag, the requesting
/// party's 32-byte key, and the 8-byte little-endian encoding of the
/// argument. Order and byte encoding are part of the derivation contract.
pub open spec fn instruction_seeds(payer_key: Seq<u8>, value: u64) -> Seq<Seq<u8>> {
    seq![seed_tag(), payer_key, le_bytes_of_u64(value)]
}

/// The accounts arrive in the required order with the required flags: a
/// signing, writable funding account; a writable target account; and the
/// read-only account-creation service.
pub open spec fn accounts_well_formed(av: Seq<AccountState>) -> bool {
    av.len() >= 3 && av[0].is_signer && av[0].is_writable && av[1].is_writable
        && !av[2].is_writable
}

/// What one invocation does, as a pure transition on the account values: the
/// final accounts and the reported outcome. Every failing branch returns the
/// accounts exactly as they came.
pub open spec fn process_model(
    program_id: Seq<u8>,
    av: Seq<AccountState>,
    data: Seq<u8>,
    rent_minimum: u64,
) -> (Seq<AccountState>, Result<(), ErrorThingy>) {
    if !is_valid_instruction_encoding(data) {
        (av, Err(ErrorThingy::DecodeError))
    } else if !accounts_well_formed(av) {
        (av, Err(ErrorThingy::AccountOrderError))
    } else {
        let value = u64_of_le_bytes(data.skip(1));
        let seeds = instruction_seeds(av[0].key, value);
        if derivation_exhausted(seeds, program_id) {
            (av, Err(ErrorThingy::DerivationExhausted))
        } else if !(exists|b: u8|
            #[trigger] canonical_bump(seeds, program_id, b) && pda_of(
                seeds_with_bump(seeds, b),
                program_id,
            ) == Some(av[1].key)) {
            (av, Err(ErrorThingy::DerivationMismatch))
        } else {
            let (t2, f2, ok) = ensure_model(
                av[1],
                av[0],
                RECORD_CAPACITY as nat,
                rent_minimum,
                program_id,
            );
            if !ok {
                (av, Err(ErrorThingy::AllocationFailure))
            } else {
                let written = AccountState {
                    data: le_bytes_of_u64(value) + t2.data.skip(RECORD_ENCODED_LEN as int),
                    ..t2
                };
                (av.update(0, f2).update(1, written), Ok(()))
            }
        }
    }
}

/// The single entry point of the program.
pub struct Processor;

impl Processor {
    /// Decodes the instruction, consumes the accounts in their required
    /// order, validates the target against the canonical derivation from
    /// the requesting party's key and the argument, provisions the target
    /// for `RECORD_CAPACITY` bytes, and archives the record into it. The
    /// first failing step aborts the invocation with its error and leaves
    /// every account unchanged; `rent_minimum` is the host-supplied funding
    /// floor for that capacity.
    pub fn process_instruction(
        program_id: &[u8; 32],
        accounts: &mut Vec<Account>,
        instruction_data: &Vec<u8>,
        rent_minimum: u64,
    ) -> (r: Result<(), ErrorThingy>)
        ensures
            ({
                let (av2, r2) = process_model(
                    program_id@,
                    old(accounts).deep_view(),
                    instruction_data@,
                    rent_minimum,
                );
                final(accounts).deep_view() == av2 && r == r2
            }),
    {
        let ghost av0 = accounts.deep_view();
        let ins = match decode_instruction(instruction_data) {
            Ok(i) => i,
            Err(e) => {
                return Err(e);
            },
        };
        let InstructionThingy::InstructionThing(args) = ins;
        if accounts.len() < 3 {
            return Err(ErrorThingy::AccountOrderError);
        }
        let mut payer = accounts.remove(0);
        let mut target = accounts.remove(0);
        if !(payer.is_signer && payer.is_writable && target.is_writable
            && !accounts[0].is_writable) {
            accounts.insert(0, target);
            accounts.insert(0, payer);
            proof {
                assert(accounts@ =~= old(accounts)@);
            }
            return Err(ErrorThingy::AccountOrderError);
        }
        let mut seeds: Vec<Vec<u8>> = Vec::new();
        seeds.push(seed_tag_vec());
        seeds.push(key_bytes(&payer.key));
        seeds.push(u64_to_le_vec(args.value));
        let ghost seeds_spec = instruction_seeds(av0[0].key, args.value);
        proof {
            assert(seeds.deep_view() =~~= seeds_spec);
            assert(seeds_ok(seeds_spec));
        }
        let bump = match validate(program_id, &seeds, &target.key) {
            Ok(b) => b,
            Err(e) => {
                accounts.insert(0, target);
                accounts.insert(0, payer);
                proof {
                    assert(accounts@ =~= old(accounts)@);
                    if e == ErrorThingy::DerivationMismatch {
                        let b = choose|b: u8|
                            #[trigger] canonical_bump(seeds_spec, program_id@, b) && pda_of(
                                seeds_with_bump(seeds_spec, b),
                                program_id@,
                            ) != Some(av0[1].key);
                        assert(!derivation_exhausted(seeds_spec, program_id@));
                        if exists|b2: u8|
                            #[trigger] canonical_bump(seeds_spec, program_id@, b2) && pda_of(
                                seeds_with_bump(seeds_spec, b2),
                                program_id@,
                            ) == Some(av0[1].key) {
                            let b2 = choose|b2: u8|
                                #[trigger] canonical_bump(seeds_spec, program_id@, b2) && pda_of(
                                    seeds_with_bump(seeds_spec, b2),
                                    program_id@,
                                ) == Some(av0[1].key);
                            lemma_canonical_unique(
                                seeds_spec,
                                program_id@,
                                pda_of(seeds_with_bump(seeds_spec, b), program_id@)->Some_0,
                                b,
                                av0[1].key,
                                b2,
                            );
                        }
                    }
                }
                return Err(e);
            },
        };
        proof {
            assert(!derivation_exhausted(seeds_spec, program_id@));
        }
        match ensure(&mut target, &mut payer, RECORD_CAPACITY, rent_minimum, program_id) {
            Ok(()) => {},
            Err(e) => {
                accounts.insert(0, target);
                accounts.insert(0, payer);
                proof {
                    assert(accounts.deep_view() =~~= av0);
                }
                return Err(e);
            },
        }
        let record = AccountThingy { thing: args.value };
        let archived = crate::state::write(&mut target.data, &record);
        proof {
            // The target was just provisioned to RECORD_CAPACITY bytes, so the
            // record always fits.
            assert(archived == Ok::<(), ErrorThingy>(()));
        }
        accounts.insert(0, target);
        accounts.insert(0, payer);
        proof {
            let (av2, r2) = process_model(
                program_id@,
                av0,
                instruction_data@,
                rent_minimum,
            );
            assert(accounts.deep_view() =~~= av2);
        }
        Ok(())
    }
}

/// The domain tag as a seed value.
pub fn seed_tag_vec() -> (r: Vec<u8>)
    ensures
        r@ == seed_tag(),
{
    let mut v: Vec<u8> = Vec::new();
    v.push(116u8);
    v.push(101u8);
    v.push(115u8);
    v.push(116u8);
    proof {
        assert(v@ =~= seed_tag());
    }
    v
}

/// A 32-byte key as a seed value.
pub fn key_bytes(k: &[u8; 32]) -> (r: Vec<u8>)
    ensures
        r@ == k@,
{
    let mut v: Vec<u8> = Vec::new();
    let mut i: usize = 0;
    while i < 32
        invariant
            i <= 32,
            v@.len() == i,
            forall|j: int| 0 <= j < i ==> v@[j] == k@[j],
        decreases 32 - i,
    {
        v.push(k[i]);
        i = i + 1;
    }
    proof {
        assert(v@ =~= k@);
    }
    v
}

} // verus!
