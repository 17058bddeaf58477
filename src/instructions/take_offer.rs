use vstd::prelude::*;
use crate::address::{Address, same_address};
use crate::error::ErrorCode;
use crate::state::{Mint, Offer, TokenAccount, account_error, opened, optional_account_error};
use crate::token::{check_account, check_optional_account, result_of, transfer_checked, transfer_error};
use crate::vault::{check_offer_record, offer_record_error, release_error, release_vault};

verus! {

/// The accounts that taking an offer reads and writes.
#[derive(Clone, Copy, Debug)]
pub struct TakeOffer {
    /// The escrow program, under which the offer address is derived.
    pub program_id: Address,
    /// The asset program that keeps the token accounts.
    pub token_program: Address,
    /// The taker, who signs.
    pub taker: Address,
    /// The maker of the offer, who receives asset B.
    pub maker: Address,
    /// The asset offered.
    pub token_mint_a: Mint,
    /// The asset wanted in return.
    pub token_mint_b: Mint,
    /// The taker's account of asset A, created if it does not exist.
    pub taker_token_account_a: Option<TokenAccount>,
    /// The taker's account of asset B, which pays.
    pub taker_token_account_b: TokenAccount,
    /// The maker's account of asset B, created if it does not exist.
    pub maker_token_account_b: Option<TokenAccount>,
    /// The address of the offer record.
    pub offer_key: Address,
    /// The record at that address, if it exists.
    pub offer: Option<Offer>,
    /// The address given for the vault.
    pub vault_key: Address,
    /// The vault owned by that address, if it exists.
    pub vault: Option<TokenAccount>,
}

/// Whether the taker is the maker, by the accounts given or by the record.
pub open spec fn is_self_trade(c: TakeOffer) -> bool {
    c.taker == c.maker || (c.offer matches Some(o) && c.taker == o.maker)
}

/// Why the accounts given for taking an offer are rejected, if they are.
pub open spec fn take_offer_accounts_error(c: TakeOffer) -> Option<ErrorCode> {
    if is_self_trade(c) {
        Some(ErrorCode::TakerShouldNotBeMaker)
    } else {
        match (c.offer, c.vault) {
            (Some(o), Some(v)) => if offer_record_error(
                c.program_id,
                c.token_program,
                c.offer_key,
                c.vault_key,
                o,
                v,
                c.maker,
                c.token_mint_a.key,
            ) is Some {
                offer_record_error(
                c.program_id,
                c.token_program,
                c.offer_key,
                c.vault_key,
                o,
                v,
                c.maker,
                c.token_mint_a.key,
            )
            } else if o.token_mint_b != c.token_mint_b.key {
                Some(ErrorCode::ConstraintHasOne)
            } else if account_error(c.taker_token_account_b, c.token_mint_b.key, c.taker) is Some {
                account_error(c.taker_token_account_b, c.token_mint_b.key, c.taker)
            } else if optional_account_error(c.taker_token_account_a, c.token_mint_a.key, c.taker) is Some {
                optional_account_error(c.taker_token_account_a, c.token_mint_a.key, c.taker)
            } else {
                optional_account_error(c.maker_token_account_b, c.token_mint_b.key, c.maker)
            },
            _ => Some(ErrorCode::AccountNotInitialized),
        }
    }
}

/// The taker's account of asset A once it exists.
pub open spec fn taker_account_a(c: TakeOffer) -> TokenAccount {
    opened(c.taker_token_account_a, c.token_mint_a.key, c.taker)
}

/// The maker's account of asset B once it exists.
pub open spec fn maker_account_b(c: TakeOffer) -> TokenAccount {
    opened(c.maker_token_account_b, c.token_mint_b.key, c.maker)
}

/// Why taking the offer is rejected, if it is: the accounts, then the taker's
/// payment, then a balance that would overflow.
pub open spec fn take_offer_error(c: TakeOffer) -> Option<ErrorCode> {
    if take_offer_accounts_error(c) is Some {
        take_offer_accounts_error(c)
    } else if c.taker_token_account_b.amount < c.offer->0.token_b_amount_wanted {
        Some(ErrorCode::InsufficientFunds)
    } else if maker_account_b(c).amount + c.offer->0.token_b_amount_wanted > u64::MAX {
        Some(ErrorCode::Overflow)
    } else if taker_account_a(c).amount + c.vault->0.amount > u64::MAX {
        Some(ErrorCode::Overflow)
    } else {
        None
    }
}

/// The accounts after the offer is taken: the taker has paid the amount wanted to
/// the maker, has received the vault's whole balance, and record and vault are gone.
pub open spec fn taken_offer(c: TakeOffer) -> TakeOffer {
    TakeOffer {
        taker_token_account_a: Some(
            TokenAccount {
                amount: (taker_account_a(c).amount + c.vault->0.amount) as u64,
                ..taker_account_a(c)
            },
        ),
        taker_token_account_b: TokenAccount {
            amount: (c.taker_token_account_b.amount - c.offer->0.token_b_amount_wanted) as u64,
            ..c.taker_token_account_b
        },
        maker_token_account_b: Some(
            TokenAccount {
                amount: (maker_account_b(c).amount + c.offer->0.token_b_amount_wanted) as u64,
                ..maker_account_b(c)
            },
        ),
        offer: None,
        vault: None,
        ..c
    }
}

/// Checks the accounts given for taking an offer.
pub fn check_take_offer_accounts(ctx: &TakeOffer) -> (r: Result<(), ErrorCode>)
    ensures
        r == result_of(take_offer_accounts_error(*ctx)),
{
    if same_address(&ctx.taker, &ctx.maker) {
        return Err(ErrorCode::TakerShouldNotBeMaker);
    }
    if let Some(o) = &ctx.offer {
        if same_address(&ctx.taker, &o.maker) {
            return Err(ErrorCode::TakerShouldNotBeMaker);
        }
    }
    let (o, v) = match (ctx.offer, ctx.vault) {
        (Some(o), Some(v)) => (o, v),
        _ => {
            return Err(ErrorCode::AccountNotInitialized);
        },
    };
    check_offer_record(
        &ctx.program_id,
        &ctx.token_program,
        &ctx.offer_key,
        &ctx.vault_key,
        &o,
        &v,
        &ctx.maker,
        &ctx.token_mint_a.key,
    )?;
    if !same_address(&o.token_mint_b, &ctx.token_mint_b.key) {
        return Err(ErrorCode::ConstraintHasOne);
    }
    check_account(&ctx.taker_token_account_b, &ctx.token_mint_b.key, &ctx.taker)?;
    check_optional_account(&ctx.taker_token_account_a, &ctx.token_mint_a.key, &ctx.taker)?;
    check_optional_account(&ctx.maker_token_account_b, &ctx.token_mint_b.key, &ctx.maker)
}

/// Moves the amount wanted of asset B from the taker to the maker, on the taker's
/// authority.
pub fn send_tokens_from_taker_to_maker(ctx: &mut TakeOffer) -> (r: Result<(), ErrorCode>)
    requires
        old(ctx).offer is Some,
        old(ctx).maker_token_account_b is Some,
    ensures
        r == result_of(
            transfer_error(
                old(ctx).taker_token_account_b,
                old(ctx).maker_token_account_b->0,
                old(ctx).token_mint_b,
                old(ctx).taker,
                old(ctx).offer->0.token_b_amount_wanted,
                old(ctx).token_mint_b.decimals,
            ),
        ),
        r is Ok ==> *final(ctx) == (TakeOffer {
            taker_token_account_b: TokenAccount {
                amount: (old(ctx).taker_token_account_b.amount - old(ctx).offer->0.token_b_amount_wanted) as u64,
                ..old(ctx).taker_token_account_b
            },
            maker_token_account_b: Some(
                TokenAccount {
                    amount: (old(ctx).maker_token_account_b->0.amount
                        + old(ctx).offer->0.token_b_amount_wanted) as u64,
                    ..old(ctx).maker_token_account_b->0
                },
            ),
            ..*old(ctx)
        }),
        r is Err ==> *final(ctx) == *old(ctx),
{
    let wanted = ctx.offer.unwrap().token_b_amount_wanted;
    let mut to = ctx.maker_token_account_b.unwrap();
    let r = transfer_checked(
        &mut ctx.taker_token_account_b,
        &mut to,
        &ctx.token_mint_b,
        &ctx.taker,
        wanted,
        ctx.token_mint_b.decimals,
    );
    ctx.maker_token_account_b = Some(to);
    r
}

/// Releases the vault's whole current balance to the taker, then closes the vault
/// and the record.
pub fn withdraw_from_vault_and_close_it(ctx: &mut TakeOffer) -> (r: Result<(), ErrorCode>)
    requires
        old(ctx).offer is Some,
        old(ctx).vault is Some,
        old(ctx).taker_token_account_a is Some,
    ensures
        r == result_of(
            release_error(
                old(ctx).program_id,
                old(ctx).offer->0,
                old(ctx).vault->0,
                old(ctx).taker_token_account_a->0,
                old(ctx).token_mint_a,
            ),
        ),
        r is Ok ==> *final(ctx) == (TakeOffer {
            taker_token_account_a: Some(
                TokenAccount {
                    amount: (old(ctx).taker_token_account_a->0.amount + old(ctx).vault->0.amount) as u64,
                    ..old(ctx).taker_token_account_a->0
                },
            ),
            offer: None,
            vault: None,
            ..*old(ctx)
        }),
        r is Err ==> *final(ctx) == *old(ctx),
{
    let mut destination = ctx.taker_token_account_a.unwrap();
    let r = release_vault(&ctx.program_id, &mut ctx.offer, &mut ctx.vault, &mut destination, &ctx.token_mint_a);
    ctx.taker_token_account_a = Some(destination);
    r
}

} // verus!
