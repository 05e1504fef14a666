use vstd::prelude::*;

use crate::account::{system_owner, system_owner_key, Account, AccountState};
use crate::error::ErrorThingy;

verus! {

/// The target is already provisioned for this system: owned by `owner`,
/// holding at least `cap` bytes, and funded to at least `rent_minimum`.
pub open spec fn allocated(a: AccountState, cap: nat, rent_minimum: u64, owner: Seq<u8>) -> bool {
    a.owner == owner && a.data.len() >= cap && a.lamports >= rent_minimum
}

/// The target can still be claimed: it belongs to the account-creation
/// service and holds no data yet.
pub open spec fn claimable(a: AccountState) -> bool {
    a.owner == system_owner() && a.data.len() == 0
}

/// The funding a claimable target still misses: it must end at
/// `max(rent_minimum, 1)`, and whatever it already holds counts.
pub open spec fn funding_shortfall(a: AccountState, rent_minimum: u64) -> u64 {
    let required: u64 = if rent_minimum >= 1 {
        rent_minimum
    } else {
        1u64
    };
    if a.lamports >= required {
        0u64
    } else {
        (required - a.lamports) as u64
    }
}

/// What one call of `ensure` does, as a pure transition on the mathematical
/// account values: the final target, the final funder, and whether the call
/// succeeds. On every failing input both accounts are left as they were.
pub open spec fn ensure_model(
    t: AccountState,
    f: AccountState,
    cap: nat,
    rent_minimum: u64,
    owner: Seq<u8>,
) -> (AccountState, AccountState, bool) {
    if allocated(t, cap, rent_minimum, owner) {
        (t, f, true)
    } else if claimable(t) {
        let shortfall = funding_shortfall(t, rent_minimum);
        if f.lamports < shortfall {
            (t, f, false)
        } else {
            (
                AccountState {
                    lamports: (t.lamports + shortfall) as u64,
                    owner: owner,
                    data: Seq::new(cap, |i: int| 0u8),
                    ..t
                },
                AccountState { lamports: (f.lamports - shortfall) as u64, ..f },
                true,
            )
        }
    } else {
        (t, f, false)
    }
}

/// Ensures the target account is provisioned for this system: owned by
/// `owner_id`, at least `required_capacity` bytes of zero-initialized
/// storage, and funding of at least `rent_minimum` (never below 1). A target
/// already in that state is left untouched, and the funder is not charged
/// again. An unclaimed target is funded from `funder`, allocated and
/// assigned. Anything else — foreign ownership, or a funder too poor to
/// cover the shortfall — is an `AllocationFailure` that changes nothing.
pub fn ensure(
    target: &mut Account,
    funder: &mut Account,
    required_capacity: usize,
    rent_minimum: u64,
    owner_id: &[u8; 32],
) -> (r: Result<(), ErrorThingy>)
    ensures
        ({
            let (t2, f2, ok) = ensure_model(
                old(target)@,
                old(funder)@,
                required_capacity as nat,
                rent_minimum,
                owner_id@,
            );
            final(target)@ == t2 && final(funder)@ == f2 && (r is Ok <==> ok) && (r is Err ==> r
                == Err::<(), ErrorThingy>(ErrorThingy::AllocationFailure))
        }),
{
    let owned = crate::derivation::bytes32_equal(&target.owner, owner_id);
    if owned && target.data.len() >= required_capacity && target.lamports >= rent_minimum {
        return Ok(());
    }
    let system_key = system_owner_key();
    let unclaimed = crate::derivation::bytes32_equal(&target.owner, &system_key) && target.data.len()
        == 0;
    if !unclaimed {
        return Err(ErrorThingy::AllocationFailure);
    }
    let required: u64 = if rent_minimum >= 1 {
        rent_minimum
    } else {
        1
    };
    let shortfall: u64 = if target.lamports >= required {
        0
    } else {
        required - target.lamports
    };
    if funder.lamports < shortfall {
        return Err(ErrorThingy::AllocationFailure);
    }
    funder.lamports = funder.lamports - shortfall;
    target.lamports = target.lamports + shortfall;
    target.owner = *owner_id;
    target.data = zero_vec(required_capacity);
    proof {
        assert(final(target)@ =~= ensure_model(
            old(target)@,
            old(funder)@,
            required_capacity as nat,
            rent_minimum,
            owner_id@,
        ).0);
    }
    Ok(())
}

/// A buffer of `n` zero bytes.
pub fn zero_vec(n: usize) -> (r: Vec<u8>)
    ensures
        r@ == Seq::new(n as nat, |i: int| 0u8),
{
    let mut v: Vec<u8> = Vec::new();
    let mut i: usize = 0;
    while i < n
        invariant
            i <= n,
            v@.len() == i,
            forall|j: int| 0 <= j < i ==> v@[j] == 0u8,
        decreases n - i,
    {
        v.push(0u8);
        i = i + 1;
    }
    proof {
        assert(v@ =~= Seq::new(n as nat, |j: int| 0u8));
    }
    v
}

/// Law: provisioning is idempotent. After a successful `ensure`, running the
/// same transition again succeeds and moves neither the target nor the
/// funder: no second funding transfer, no capacity change.
pub proof fn lemma_ensure_idempotent(
    t: AccountState,
    f: AccountState,
    cap: nat,
    rent_minimum: u64,
    owner: Seq<u8>,
)
    requires
        ensure_model(t, f, cap, rent_minimum, owner).2,
    ensures
        ({
            let (t2, f2, _) = ensure_model(t, f, cap, rent_minimum, owner);
            ensure_model(t2, f2, cap, rent_minimum, owner) == (t2, f2, true)
        }),
{
    let (t2, f2, _) = ensure_model(t, f, cap, rent_minimum, owner);
    assert(allocated(t2, cap, rent_minimum, owner));
}

} // verus!
