//! A two-party escrow: a maker locks asset A in a vault owned by an address derived
//! from the offer, and a taker swaps asset B for it, or the maker takes it back.

use vstd::prelude::*;

pub mod address;
pub mod error;
pub mod state;
pub mod token;
pub mod vault;
pub mod instructions;
pub mod laws;

pub use error::ErrorCode;
pub use instructions::cancel_offer::{CancelOffer, cancel_offer_error, cancelled_offer};
pub use instructions::make_offer::{MakeOffer, made_offer, make_offer_error};
pub use instructions::take_offer::{TakeOffer, take_offer_error, taken_offer};
use instructions::cancel_offer::check_cancel_offer_accounts;
use instructions::make_offer::{check_make_offer_accounts, save_offer, send_offered_tokens_to_vault};
use instructions::take_offer::{check_take_offer_accounts, send_tokens_from_taker_to_maker};
use state::TokenAccount;
use token::{open_if_needed, result_of};

verus! {

/// Opens offer `offer_id`: checks the accounts, creates the vault, moves
/// `token_a_offered_amount` of asset A into it and writes the record. Either all of
/// it happens or nothing does.
pub fn make_offer(
    ctx: &mut MakeOffer,
    offer_id: u64,
    token_a_offered_amount: u64,
    token_b_amount_wanted: u64,
) -> (r: Result<(), ErrorCode>)
    ensures
        r == result_of(make_offer_error(*old(ctx), offer_id, token_a_offered_amount)),
        r is Ok ==> *final(ctx) == made_offer(*old(ctx), offer_id, token_a_offered_amount, token_b_amount_wanted),
        r is Err ==> *final(ctx) == *old(ctx),
{
    let bump = check_make_offer_accounts(ctx, offer_id)?;
    let mut next = *ctx;
    next.vault = Some(TokenAccount { mint: ctx.token_mint_a.key, owner: ctx.offer_key, amount: 0 });
    send_offered_tokens_to_vault(&mut next, token_a_offered_amount)?;
    save_offer(&mut next, offer_id, token_b_amount_wanted, bump);
    *ctx = next;
    Ok(())
}


/// Takes the offer: the taker pays the amount wanted of asset B to the maker and
/// receives the vault's whole balance of asset A; vault and record are closed.
/// Either all of it happens or nothing does.
pub fn take_offer(ctx: &mut TakeOffer) -> (r: Result<(), ErrorCode>)
    ensures
        r == result_of(take_offer_error(*old(ctx))),
        r is Ok ==> *final(ctx) == taken_offer(*old(ctx)),
        r is Err ==> *final(ctx) == *old(ctx),
{
    check_take_offer_accounts(ctx)?;
    let mut next = *ctx;
    open_if_needed(&mut next.taker_token_account_a, &ctx.token_mint_a.key, &ctx.taker);
    open_if_needed(&mut next.maker_token_account_b, &ctx.token_mint_b.key, &ctx.maker);
    send_tokens_from_taker_to_maker(&mut next)?;
    instructions::take_offer::withdraw_from_vault_and_close_it(&mut next)?;
    *ctx = next;
    Ok(())
}


/// Cancels the offer: the vault's whole balance goes back to the maker; vault and
/// record are closed. Either all of it happens or nothing does.
pub fn cancel_offer(ctx: &mut CancelOffer) -> (r: Result<(), ErrorCode>)
    ensures
        r == result_of(cancel_offer_error(*old(ctx))),
        r is Ok ==> *final(ctx) == cancelled_offer(*old(ctx)),
        r is Err ==> *final(ctx) == *old(ctx),
{
    check_cancel_offer_accounts(ctx)?;
    let mut next = *ctx;
    open_if_needed(&mut next.maker_token_account_a, &ctx.token_mint_a.key, &ctx.maker);
    instructions::cancel_offer::withdraw_from_vault_and_close_it(&mut next)?;
    *ctx = next;
    Ok(())
}


} // verus!
