use vstd::prelude::*;
use crate::address::Address;
use crate::error::ErrorCode;
use crate::state::{Mint, Offer, TokenAccount, opened, optional_account_error};
use crate::token::{check_optional_account, result_of};
use crate::vault::{check_offer_record, offer_record_error, release_error, release_vault};

verus! {

/// The accounts that cancelling an offer reads and writes.
#[derive(Clone, Copy, Debug)]
pub struct CancelOffer {
    /// The escrow program, under which the offer address is derived.
    pub program_id: Address,
    /// The asset program that keeps the token accounts.
    pub token_program: Address,
    /// The maker, who signs.
    pub maker: Address,
    /// The asset offered.
    pub token_mint_a: Mint,
    /// The maker's account of asset A, created if it does not exist.
    pub maker_token_account_a: Option<TokenAccount>,
    /// The address of the offer record.
    pub offer_key: Address,
    /// The record at that address, if it exists.
    pub offer: Option<Offer>,
    /// The address given for the vault.
    pub vault_key: Address,
    /// The vault owned by that address, if it exists.
    pub vault: Option<TokenAccount>,
}

/// Why the accounts given for cancelling an offer are rejected, if they are. A
/// signer who is not the record's maker is rejected.
pub open spec fn cancel_offer_accounts_error(c: CancelOffer) -> Option<ErrorCode> {
    match (c.offer, c.vault) {
        (Some(o), Some(v)) => if offer_record_error(
            c.program_id,
            c.token_program,
            c.offer_key,
            c.vault_key,
            o,
            v,
            c.maker,
            c.token_mint_a.key,
        ) is Some {
            offer_record_error(
                c.program_id,
                c.token_program,
                c.offer_key,
                c.vault_key,
                o,
                v,
                c.maker,
                c.token_mint_a.key,
            )
        } else {
            optional_account_error(c.maker_token_account_a, c.token_mint_a.key, c.maker)
        },
        _ => Some(ErrorCode::AccountNotInitialized),
    }
}

/// The maker's account of asset A once it exists.
pub open spec fn maker_account_a(c: CancelOffer) -> TokenAccount {
    opened(c.maker_token_account_a, c.token_mint_a.key, c.maker)
}

/// Why cancelling the offer is rejected, if it is.
pub open spec fn cancel_offer_error(c: CancelOffer) -> Option<ErrorCode> {
    if cancel_offer_accounts_error(c) is Some {
        cancel_offer_accounts_error(c)
    } else if maker_account_a(c).amount + c.vault->0.amount > u64::MAX {
        Some(ErrorCode::Overflow)
    } else {
        None
    }
}

/// The accounts after the offer is cancelled: the vault's whole balance is back with
/// the maker, and record and vault are gone.
pub open spec fn cancelled_offer(c: CancelOffer) -> CancelOffer {
    CancelOffer {
        maker_token_account_a: Some(
            TokenAccount {
                amount: (maker_account_a(c).amount + c.vault->0.amount) as u64,
                ..maker_account_a(c)
            },
        ),
        offer: None,
        vault: None,
        ..c
    }
}

/// Checks the accounts given for cancelling an offer.
pub fn check_cancel_offer_accounts(ctx: &CancelOffer) -> (r: Result<(), ErrorCode>)
    ensures
        r == result_of(cancel_offer_accounts_error(*ctx)),
{
    let (o, v) = match (ctx.offer, ctx.vault) {
        (Some(o), Some(v)) => (o, v),
        _ => {
            return Err(ErrorCode::AccountNotInitialized);
        },
    };
    check_offer_record(
        &ctx.program_id,
        &ctx.token_program,
        &ctx.offer_key,
        &ctx.vault_key,
        &o,
        &v,
        &ctx.maker,
        &ctx.token_mint_a.key,
    )?;
    check_optional_account(&ctx.maker_token_account_a, &ctx.token_mint_a.key, &ctx.maker)
}

/// Releases the vault's whole current balance back to the maker, then closes the
/// vault and the record.
pub fn withdraw_from_vault_and_close_it(ctx: &mut CancelOffer) -> (r: Result<(), ErrorCode>)
    requires
        old(ctx).offer is Some,
        old(ctx).vault is Some,
        old(ctx).maker_token_account_a is Some,
    ensures
        r == result_of(
            release_error(
                old(ctx).program_id,
                old(ctx).offer->0,
                old(ctx).vault->0,
                old(ctx).maker_token_account_a->0,
                old(ctx).token_mint_a,
            ),
        ),
        r is Ok ==> *final(ctx) == (CancelOffer {
            maker_token_account_a: Some(
                TokenAccount {
                    amount: (old(ctx).maker_token_account_a->0.amount + old(ctx).vault->0.amount) as u64,
                    ..old(ctx).maker_token_account_a->0
                },
            ),
            offer: None,
            vault: None,
            ..*old(ctx)
        }),
        r is Err ==> *final(ctx) == *old(ctx),
{
    let mut destination = ctx.maker_token_account_a.unwrap();
    let r = release_vault(&ctx.program_id, &mut ctx.offer, &mut ctx.vault, &mut destination, &ctx.token_mint_a);
    ctx.maker_token_account_a = Some(destination);
    r
}

} // verus!
