//! The protocol's closed error taxonomy.

use vstd::prelude::*;

verus! {

/// Every failure of the codec or of the state machine is one of these two
/// conditions; each carries a distinct numeric code across the host
/// boundary.
#[derive(Clone, Copy, Debug, PartialEq, Eq, Structural)]
pub enum EscrowError {
    /// A malformed instruction buffer (bad tag, truncated amount) or, by
    /// convention, an invalid-account condition raised while validating a
    /// command against the supplied accounts.
    InvalidInstruction,
    /// The escrow record account holds less than the minimum balance that
    /// guarantees it durable storage.
    NotRentExempt,
}

impl EscrowError {
    /// The numeric code this error presents at the host boundary.
    pub open spec fn spec_code(self) -> u32 {
        match self {
            EscrowError::InvalidInstruction => 0u32,
            EscrowError::NotRentExempt => 1u32,
        }
    }

    /// Returns the error's numeric boundary code.
    pub fn code(self) -> (c: u32)
        ensures
            c == self.spec_code(),
    {
        match self {
            EscrowError::InvalidInstruction => 0,
            EscrowError::NotRentExempt => 1,
        }
    }
}

/// Distinct errors carry distinct boundary codes.
pub proof fn lemma_error_codes_distinct(a: EscrowError, b: EscrowError)
    ensures
        a.spec_code() == b.spec_code() ==> a == b,
{
}

} // verus!
