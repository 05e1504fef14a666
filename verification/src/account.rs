use vstd::prelude::*;

verus! {

/// Host-managed storage as this core sees it: an address, an owner, a
/// funding balance, a mutable byte buffer, and the caller-supplied flags.
pub struct Account {
    pub key: [u8; 32],
    pub lamports: u64,
    pub owner: [u8; 32],
    pub data: Vec<u8>,
    pub is_signer: bool,
    pub is_writable: bool,
}

/// The mathematical value of an `Account`.
#[verifier::ext_equal]
pub ghost struct AccountState {
    pub key: Seq<u8>,
    pub lamports: u64,
    pub owner: Seq<u8>,
    pub data: Seq<u8>,
    pub is_signer: bool,
    pub is_writable: bool,
}

impl View for Account {
    type V = AccountState;

    open spec fn view(&self) -> AccountState {
        AccountState {
            key: self.key@,
            lamports: self.lamports,
            owner: self.owner@,
            data: self.data@,
            is_signer: self.is_signer,
            is_writable: self.is_writable,
        }
    }
}

impl DeepView for Account {
    type V = AccountState;

    open spec fn deep_view(&self) -> AccountState {
        self@
    }
}

/// The owner identifier of storage nobody has claimed yet: the host-level
/// account-creation service, whose identifier is all zero bytes.
pub open spec fn system_owner() -> Seq<u8> {
    Seq::new(32, |i: int| 0u8)
}

/// The system service's identifier as a key value.
pub fn system_owner_key() -> (r: [u8; 32])
    ensures
        r@ == system_owner(),
{
    let r = [0u8; 32];
    proof {
        assert(r@ =~= system_owner());
    }
    r
}

} // verus!
