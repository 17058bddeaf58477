use vstd::prelude::*;

verus! {

/// Why an instruction was rejected. A rejected instruction changes nothing.
#[derive(Clone, Copy, Debug, PartialEq, Eq, Structural)]
pub enum ErrorCode {
    /// The maker of an offer tried to take it.
    TakerShouldNotBeMaker,
    /// The offer record or its vault does not exist.
    AccountNotInitialized,
    /// An offer record or vault already exists at the derived address.
    AccountAlreadyInUse,
    /// The offer record's address is not the one derived from its maker and id.
    ConstraintSeeds,
    /// The offer record names another maker or other mints than the accounts given.
    ConstraintHasOne,
    /// The vault's address is not the canonical one for the offer and asset A.
    AccountNotAssociatedTokenAccount,
    /// A token account holds another asset than the one expected.
    ConstraintTokenMint,
    /// A token account belongs to another owner than the one expected.
    ConstraintTokenOwner,
    /// A transfer names a mint that is not the asset of both accounts.
    MintMismatch,
    /// A transfer declares a precision other than the mint's.
    MintDecimalsMismatch,
    /// A transfer or close is not authorized by the account's owner.
    OwnerMismatch,
    /// The source of a transfer holds less than the amount.
    InsufficientFunds,
    /// A balance would exceed the largest amount.
    Overflow,
    /// An account still holding assets cannot be closed.
    NonNativeHasBalance,
}

} // verus!
