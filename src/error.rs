use vstd::prelude::*;

verus! {

/// Why an operation on a vault was refused. No funds move when one of these
/// is returned.
#[derive(Clone, Copy, Debug, PartialEq, Eq, Structural)]
pub enum VaultError {
    /// The requested amount is zero.
    AmountIsZero,
    /// A basis-point share is above 10,000, the shares sum above 10,000, or a
    /// referrer share was asked for with no referrer to receive it.
    InvalidBasisPoints,
    /// The vault's holding account holds less than the requested amount.
    InsufficientVaultBalance,
    /// The split left a negative remainder for the owner.
    InvalidSettlement,
    /// The caller is not the vault's owner.
    NotAuthorized,
}

} // verus!
