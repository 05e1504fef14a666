use vstd::prelude::*;

use crate::error::ErrorThingy;

verus! {

/// The host's limit on the number of seeds a derivation may take, leaving
/// room for the discriminator seed that this module appends.
pub const MAX_BASE_SEEDS: usize = 15;

/// The host's limit on the length of one seed.
pub const MAX_SEED_LEN: usize = 32;

/// What the host's hash-based derivation returns for a full seed list and a
/// program identifier: the 32-byte derived address, or nothing when the hash
/// lands in the disallowed ("on-curve") subset. The outcome is a function of
/// the seed bytes and the program identifier alone.
pub uninterp spec fn pda_of(seeds: Seq<Seq<u8>>, program_id: Seq<u8>) -> Option<Seq<u8>>;

/// The base seed list with the discriminator byte appended as one more seed.
pub open spec fn seeds_with_bump(seeds: Seq<Seq<u8>>, bump: u8) -> Seq<Seq<u8>> {
    seeds.push(seq![bump])
}

/// A base seed list the host accepts: within the seed-count limit (with room
/// for the discriminator) and the per-seed length limit.
pub open spec fn seeds_ok(seeds: Seq<Seq<u8>>) -> bool {
    seeds.len() <= MAX_BASE_SEEDS && forall|i: int|
        0 <= i < seeds.len() ==> (#[trigger] seeds[i]).len() <= MAX_SEED_LEN
}

/// `bump` is the canonical discriminator for `(seeds, program_id)`: the
/// highest byte whose derivation lies outside the disallowed subset.
pub open spec fn canonical_bump(seeds: Seq<Seq<u8>>, program_id: Seq<u8>, bump: u8) -> bool {
    pda_of(seeds_with_bump(seeds, bump), program_id) is Some && forall|b: u8|
        b > bump ==> #[trigger] pda_of(seeds_with_bump(seeds, b), program_id) is None
}

/// `(addr, bump)` is the canonical derivation for `(seeds, program_id)`.
pub open spec fn canonical_derivation(
    seeds: Seq<Seq<u8>>,
    program_id: Seq<u8>,
    addr: Seq<u8>,
    bump: u8,
) -> bool {
    canonical_bump(seeds, program_id, bump) && pda_of(seeds_with_bump(seeds, bump), program_id)
        == Some(addr)
}

/// Every discriminator byte derives into the disallowed subset: the search
/// must fail.
pub open spec fn derivation_exhausted(seeds: Seq<Seq<u8>>, program_id: Seq<u8>) -> bool {
    forall|b: u8| #[trigger] pda_of(seeds_with_bump(seeds, b), program_id) is None
}

/// Relies on solana_program::pubkey::Pubkey::create_program_address: for a
/// seed list within the host's limits it returns the 32-byte address hashed
/// from the seed bytes and the program identifier, or an error exactly when
/// that hash is a curve point; the outcome is a deterministic function of
/// the seed bytes and the program identifier alone. The call is made with
/// the base seeds followed by the one-byte discriminator seed.
#[verifier::external_body]
fn candidate_address(program_id: &[u8; 32], seeds: &Vec<Vec<u8>>, bump: u8) -> (r: Option<
    [u8; 32],
>)
    requires
        seeds_ok(seeds.deep_view()),
    ensures
        match r {
            Some(a) => pda_of(seeds_with_bump(seeds.deep_view(), bump), program_id@) == Some(a@),
            None => pda_of(seeds_with_bump(seeds.deep_view(), bump), program_id@) is None,
        },
{
    let pk = solana_program::pubkey::Pubkey::new_from_array(*program_id);
    let mut refs: Vec<&[u8]> = Vec::with_capacity(seeds.len() + 1);
    for s in seeds.iter() {
        refs.push(s.as_slice());
    }
    let bump_seed = [bump];
    refs.push(&bump_seed);
    match solana_program::pubkey::Pubkey::create_program_address(&refs, &pk) {
        Ok(a) => Some(a.to_bytes()),
        Err(_) => None,
    }
}

/// Computes the canonical derivation for `(program_id, seeds)`: descending
/// from discriminator 255, the first one whose derived address lies outside
/// the disallowed subset is returned with that address. If all 256 values
/// fail, the failure is surfaced as `DerivationExhausted`.
pub fn derive(program_id: &[u8; 32], seeds: &Vec<Vec<u8>>) -> (r: Result<
    ([u8; 32], u8),
    ErrorThingy,
>)
    requires
        seeds_ok(seeds.deep_view()),
    ensures
        match r {
            Ok(p) => canonical_derivation(seeds.deep_view(), program_id@, p.0@, p.1),
            Err(e) => e == ErrorThingy::DerivationExhausted && derivation_exhausted(
                seeds.deep_view(),
                program_id@,
            ),
        },
{
    let mut bump: u8 = 255;
    loop
        invariant
            seeds_ok(seeds.deep_view()),
            forall|b: u8|
                b > bump ==> #[trigger] pda_of(
                    seeds_with_bump(seeds.deep_view(), b),
                    program_id@,
                ) is None,
        decreases bump,
    {
        match candidate_address(program_id, seeds, bump) {
            Some(addr) => {
                return Ok((addr, bump));
            },
            None => {},
        }
        if bump == 0 {
            return Err(ErrorThingy::DerivationExhausted);
        }
        bump = bump - 1;
    }
}

/// Recomputes the canonical derivation and holds `candidate` against it
/// byte-for-byte: the canonical discriminator is returned only when the
/// supplied address is exactly the canonical one; any difference is
/// `DerivationMismatch`, and an impossible derivation is surfaced as
/// `DerivationExhausted`.
pub fn validate(program_id: &[u8; 32], seeds: &Vec<Vec<u8>>, candidate: &[u8; 32]) -> (r: Result<
    u8,
    ErrorThingy,
>)
    requires
        seeds_ok(seeds.deep_view()),
    ensures
        validate_post(seeds.deep_view(), program_id@, candidate@, r),
{
    match derive(program_id, seeds) {
        Ok((addr, bump)) => {
            if bytes32_equal(&addr, candidate) {
                Ok(bump)
            } else {
                Err(ErrorThingy::DerivationMismatch)
            }
        },
        Err(_) => Err(ErrorThingy::DerivationExhausted),
    }
}

/// Everything `validate` promises of its result: the discriminator comes
/// back exactly when the candidate address is the canonical derivation, a
/// mismatch is reported exactly when a canonical derivation exists but
/// differs from the candidate, and exhaustion is reported exactly when no
/// discriminator derives at all.
pub open spec fn validate_post(
    seeds: Seq<Seq<u8>>,
    program_id: Seq<u8>,
    candidate: Seq<u8>,
    r: Result<u8, ErrorThingy>,
) -> bool {
    match r {
        Ok(bump) => canonical_derivation(seeds, program_id, candidate, bump),
        Err(e) => (e == ErrorThingy::DerivationMismatch && exists|b: u8|
            #[trigger] canonical_bump(seeds, program_id, b) && pda_of(
                seeds_with_bump(seeds, b),
                program_id,
            ) != Some(candidate)) || (e == ErrorThingy::DerivationExhausted
            && derivation_exhausted(seeds, program_id)),
    }
}

/// Compares two 32-byte values byte-for-byte.
pub fn bytes32_equal(a: &[u8; 32], b: &[u8; 32]) -> (r: bool)
    ensures
        r <==> a@ == b@,
{
    let mut i: usize = 0;
    while i < 32
        invariant
            i <= 32,
            forall|j: int| 0 <= j < i ==> a@[j] == b@[j],
        decreases 32 - i,
    {
        if a[i] != b[i] {
            return false;
        }
        i = i + 1;
    }
    proof {
        assert(a@ =~= b@);
    }
    true
}

/// Law: the canonical derivation is unique. For fixed seeds and program
/// identifier there is exactly one canonical discriminator, and re-deriving
/// with it reproduces the same address, so no two derivations on identical
/// inputs can disagree.
pub proof fn lemma_canonical_unique(
    seeds: Seq<Seq<u8>>,
    program_id: Seq<u8>,
    a1: Seq<u8>,
    b1: u8,
    a2: Seq<u8>,
    b2: u8,
)
    requires
        canonical_derivation(seeds, program_id, a1, b1),
        canonical_derivation(seeds, program_id, a2, b2),
    ensures
        b1 == b2,
        a1 == a2,
{
    if b1 < b2 {
        assert(pda_of(seeds_with_bump(seeds, b2), program_id) is None);
    }
    if b2 < b1 {
        assert(pda_of(seeds_with_bump(seeds, b1), program_id) is None);
    }
}

/// Law: derivation round-trips through validation. Whenever `(addr, bump)`
/// is the canonical derivation, the only outcome `validate` may report for
/// the candidate `addr` is that very discriminator: self-consistency of
/// `derive` and `validate`.
pub proof fn lemma_derivation_round_trip(
    seeds: Seq<Seq<u8>>,
    program_id: Seq<u8>,
    addr: Seq<u8>,
    bump: u8,
    r: Result<u8, ErrorThingy>,
)
    requires
        canonical_derivation(seeds, program_id, addr, bump),
        validate_post(seeds, program_id, addr, r),
    ensures
        r == Ok::<u8, ErrorThingy>(bump),
{
    match r {
        Ok(b) => {
            lemma_canonical_unique(seeds, program_id, addr, b, addr, bump);
        },
        Err(e) => {
            if e == ErrorThingy::DerivationMismatch {
                let b = choose|b: u8|
                    #[trigger] canonical_bump(seeds, program_id, b) && pda_of(
                        seeds_with_bump(seeds, b),
                        program_id,
                    ) != Some(addr);
                if canonical_bump(seeds, program_id, b) {
                    let ab = pda_of(seeds_with_bump(seeds, b), program_id);
                    lemma_canonical_unique(seeds, program_id, ab->Some_0, b, addr, bump);
                }
            } else {
                assert(pda_of(seeds_with_bump(seeds, bump), program_id) is None);
            }
        },
    }
}

} // verus!
