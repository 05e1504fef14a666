use vstd::prelude::*;

verus! {

/// Every way an invocation of this program can fail. Exactly one kind is
/// reported per failed invocation, and a failed invocation leaves every
/// account unchanged.
#[derive(Clone, Copy, Debug, PartialEq, Eq, Structural)]
pub enum ErrorThingy {
    /// The instruction bytes are not a well-formed encoding.
    DecodeError,
    /// Fewer accounts than required, or an account misses a required flag.
    AccountOrderError,
    /// No discriminator in 255..=0 yields an off-curve derived address.
    DerivationExhausted,
    /// The caller-supplied target address differs from the canonical derivation.
    DerivationMismatch,
    /// Funding, capacity or ownership of the target cannot be reconciled.
    AllocationFailure,
    /// The record's encoding does not fit the destination buffer.
    SerializationOverflow,
}

} // verus!
