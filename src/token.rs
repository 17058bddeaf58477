use vstd::prelude::*;
use crate::address::{Address, same_address};
use crate::error::ErrorCode;
use crate::state::{Mint, TokenAccount, account_error, opened, optional_account_error};

verus! {

/// Why a checked transfer of `amount` from `from` to `to` is rejected, if it is.
pub open spec fn transfer_error(
    from: TokenAccount,
    to: TokenAccount,
    mint: Mint,
    authority: Address,
    amount: u64,
    decimals: u8,
) -> Option<ErrorCode> {
    if from.mint != mint.key || to.mint != mint.key {
        Some(ErrorCode::MintMismatch)
    } else if decimals != mint.decimals {
        Some(ErrorCode::MintDecimalsMismatch)
    } else if authority != from.owner {
        Some(ErrorCode::OwnerMismatch)
    } else if from.amount < amount {
        Some(ErrorCode::InsufficientFunds)
    } else if to.amount + amount > u64::MAX {
        Some(ErrorCode::Overflow)
    } else {
        None
    }
}

/// The result that a rejection reason, if any, gives.
pub open spec fn result_of(e: Option<ErrorCode>) -> Result<(), ErrorCode> {
    match e {
        Some(e) => Err(e),
        None => Ok(()),
    }
}

/// Moves exactly `amount` of `mint` from `from` to `to`, authorized by `authority`.
/// Both accounts must hold `mint`, `decimals` must be the mint's precision, the
/// authority must own `from`, and `from` must hold the amount.
pub fn transfer_checked(
    from: &mut TokenAccount,
    to: &mut TokenAccount,
    mint: &Mint,
    authority: &Address,
    amount: u64,
    decimals: u8,
) -> (r: Result<(), ErrorCode>)
    ensures
        r == result_of(transfer_error(*old(from), *old(to), *mint, *authority, amount, decimals)),
        r is Ok ==> *final(from) == (TokenAccount { amount: (old(from).amount - amount) as u64, ..*old(from) }),
        r is Ok ==> *final(to) == (TokenAccount { amount: (old(to).amount + amount) as u64, ..*old(to) }),
        r is Err ==> *final(from) == *old(from) && *final(to) == *old(to),
{
    if !same_address(&from.mint, &mint.key) || !same_address(&to.mint, &mint.key) {
        return Err(ErrorCode::MintMismatch);
    }
    if decimals != mint.decimals {
        return Err(ErrorCode::MintDecimalsMismatch);
    }
    if !same_address(authority, &from.owner) {
        return Err(ErrorCode::OwnerMismatch);
    }
    if from.amount < amount {
        return Err(ErrorCode::InsufficientFunds);
    }
    if to.amount > u64::MAX - amount {
        return Err(ErrorCode::Overflow);
    }
    from.amount = from.amount - amount;
    to.amount = to.amount + amount;
    Ok(())
}

/// Why closing `account` on the authority of `authority` is rejected, if it is.
pub open spec fn close_error(account: TokenAccount, authority: Address) -> Option<ErrorCode> {
    if authority != account.owner {
        Some(ErrorCode::OwnerMismatch)
    } else if account.amount != 0 {
        Some(ErrorCode::NonNativeHasBalance)
    } else {
        None
    }
}

/// Destroys a drained account on its owner's authority.
pub fn close_account(account: &mut Option<TokenAccount>, authority: &Address) -> (r: Result<(), ErrorCode>)
    ensures
        r == match *old(account) {
            Some(a) => result_of(close_error(a, *authority)),
            None => Err(ErrorCode::AccountNotInitialized),
        },
        r is Ok ==> *final(account) == None::<TokenAccount>,
        r is Err ==> *final(account) == *old(account),
{
    match account {
        Some(a) => {
            if !same_address(authority, &a.owner) {
                return Err(ErrorCode::OwnerMismatch);
            }
            if a.amount != 0 {
                return Err(ErrorCode::NonNativeHasBalance);
            }
        },
        None => {
            return Err(ErrorCode::AccountNotInitialized);
        },
    }
    *account = None;
    Ok(())
}

/// Checks that an account holds `mint` and belongs to `owner`.
pub fn check_account(account: &TokenAccount, mint: &Address, owner: &Address) -> (r: Result<(), ErrorCode>)
    ensures
        r == result_of(account_error(*account, *mint, *owner)),
{
    if !same_address(&account.mint, mint) {
        return Err(ErrorCode::ConstraintTokenMint);
    }
    if !same_address(&account.owner, owner) {
        return Err(ErrorCode::ConstraintTokenOwner);
    }
    Ok(())
}

/// The same check for an account that is created if it does not exist.
pub fn check_optional_account(account: &Option<TokenAccount>, mint: &Address, owner: &Address) -> (r:
    Result<(), ErrorCode>)
    ensures
        r == result_of(optional_account_error(*account, *mint, *owner)),
{
    match account {
        Some(a) => check_account(a, mint, owner),
        None => Ok(()),
    }
}

/// Creates the empty account for `mint` owned by `owner` where none exists yet.
pub fn open_if_needed(account: &mut Option<TokenAccount>, mint: &Address, owner: &Address)
    ensures
        *final(account) == Some(opened(*old(account), *mint, *owner)),
{
    if account.is_none() {
        *account = Some(TokenAccount { mint: *mint, owner: *owner, amount: 0 });
    }
}

} // verus!
