use vstd::prelude::*;

verus! {

/// Every way an operation of the registry can be refused.
#[derive(Clone, Copy, Debug, PartialEq, Eq, Structural)]
pub enum RegistryError {
    /// A required signature or authority check failed.
    Unauthorized,
    /// A record is not owned by the expected program.
    InvalidAccountOwner,
    /// A record has not been initialized.
    NotInitialized,
    /// The entity belongs to another registrar.
    EntityRegistrarMismatch,
    /// The member belongs to another entity.
    MemberEntityMismatch,
    /// The supplied authority is not the member's delegate.
    MemberDelegateMismatch,
    /// The supplied authority is not the member's beneficiary.
    MemberBeneficiaryMismatch,
    /// The vault is not the registrar's vault for the chosen stake class.
    RegistrarVaultMismatch,
    /// The clock input is not the clock sysvar.
    InvalidClockSysvar,
    /// The rent input is not the rent sysvar.
    InvalidRentSysvar,
    /// No vault authority can be derived from the given nonce.
    InvalidVaultNonce,
    /// The vault is not owned by the derived vault authority.
    InvalidVaultAuthority,
    /// The vault does not hold enough lamports to be rent exempt.
    NotRentExempt,
    /// A balance would exceed the range of `u64`.
    ArithmeticOverflow,
    /// A balance would go below zero.
    InsufficientBalance,
    /// The fund ledger refused the transfer.
    ExternalTransferFailed,
}

} // verus!
