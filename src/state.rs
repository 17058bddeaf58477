use vstd::prelude::*;
use crate::address::Address;

verus! {

/// An asset type and its decimal precision.
#[derive(Clone, Copy, Debug)]
pub struct Mint {
    pub key: Address,
    pub decimals: u8,
}

/// An account holding `amount` units of the asset `mint`, debited only with the
/// authorization of `owner`.
#[derive(Clone, Copy, Debug)]
pub struct TokenAccount {
    pub mint: Address,
    pub owner: Address,
    pub amount: u64,
}

/// The persistent record of one open offer.
#[derive(Clone, Copy, Debug)]
pub struct Offer {
    pub id: u64,
    pub maker: Address,
    pub token_mint_a: Address,
    pub token_mint_b: Address,
    pub token_b_amount_wanted: u64,
    pub bump: u8,
}

/// An empty account for `mint` owned by `owner`.
pub open spec fn empty_account(mint: Address, owner: Address) -> TokenAccount {
    TokenAccount { mint, owner, amount: 0 }
}

/// The account as it stands, or an empty one where it does not exist yet.
pub open spec fn opened(account: Option<TokenAccount>, mint: Address, owner: Address) -> TokenAccount {
    match account {
        Some(a) => a,
        None => empty_account(mint, owner),
    }
}

/// Why an existing account does not fit the expected asset and owner, if it does not.
pub open spec fn account_error(account: TokenAccount, mint: Address, owner: Address) -> Option<
    crate::error::ErrorCode,
> {
    if account.mint != mint {
        Some(crate::error::ErrorCode::ConstraintTokenMint)
    } else if account.owner != owner {
        Some(crate::error::ErrorCode::ConstraintTokenOwner)
    } else {
        None
    }
}

/// The same, for an account that is created where it does not exist.
pub open spec fn optional_account_error(account: Option<TokenAccount>, mint: Address, owner: Address) -> Option<
    crate::error::ErrorCode,
> {
    match account {
        Some(a) => account_error(a, mint, owner),
        None => None,
    }
}

} // verus!
