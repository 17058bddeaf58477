use vstd::prelude::*;
use crate::address::Address;
use crate::error::ErrorCode;
use crate::instructions::cancel_offer::{CancelOffer, cancel_offer_error, cancelled_offer, maker_account_a};
use crate::instructions::make_offer::{MakeOffer, made_offer, make_offer_error};
use crate::instructions::take_offer::{
    TakeOffer,
    is_self_trade,
    maker_account_b,
    take_offer_error,
    taken_offer,
    taker_account_a,
};
use crate::state::{Mint, TokenAccount};
use crate::token::transfer_error;
use crate::vault::{derived_offer_address, release_error};

verus! {

/// Opening an offer moves exactly the deposit: the vault then holds `amount_a` and
/// the maker's account of asset A holds `amount_a` less than before.
pub proof fn lemma_make_offer_conserves(c: MakeOffer, id: u64, amount_a: u64, amount_b_wanted: u64)
    requires
        make_offer_error(c, id, amount_a) is None,
    ensures
        made_offer(c, id, amount_a, amount_b_wanted).vault->0.amount == amount_a,
        made_offer(c, id, amount_a, amount_b_wanted).maker_token_account_a.amount
            == c.maker_token_account_a.amount - amount_a,
{
}

/// Once an offer is open, its vault is owned by the offer's derived address: a
/// transfer out of it on any other authority is rejected, whatever it moves.
pub proof fn lemma_vault_moves_only_on_offer_authority(
    c: MakeOffer,
    id: u64,
    amount_a: u64,
    amount_b_wanted: u64,
    to: TokenAccount,
    mint: Mint,
    authority: Address,
    amount: u64,
    decimals: u8,
)
    requires
        make_offer_error(c, id, amount_a) is None,
        authority != c.offer_key,
    ensures
        made_offer(c, id, amount_a, amount_b_wanted).vault->0.owner == c.offer_key,
        transfer_error(made_offer(c, id, amount_a, amount_b_wanted).vault->0, to, mint, authority, amount, decimals)
            is Some,
{
}

/// The program releases a vault only as the address derived from that offer's own
/// maker, id and bump, and only where that address owns the vault.
pub proof fn lemma_release_only_for_own_offer(
    program_id: Address,
    o: crate::state::Offer,
    v: TokenAccount,
    destination: TokenAccount,
    mint: Mint,
)
    requires
        release_error(program_id, o, v, destination, mint) is None,
    ensures
        derived_offer_address(program_id, o) == Some(v.owner@),
{
}

/// Taking an offer swaps atomically: the taker pays exactly the amount wanted of
/// asset B, the maker receives exactly that, the taker receives the vault's whole
/// balance, and record and vault are gone.
pub proof fn lemma_take_offer_swaps(c: TakeOffer)
    requires
        take_offer_error(c) is None,
    ensures
        taken_offer(c).taker_token_account_b.amount == c.taker_token_account_b.amount
            - c.offer->0.token_b_amount_wanted,
        taken_offer(c).maker_token_account_b->0.amount == maker_account_b(c).amount
            + c.offer->0.token_b_amount_wanted,
        taken_offer(c).taker_token_account_a->0.amount == taker_account_a(c).amount + c.vault->0.amount,
        taken_offer(c).offer is None,
        taken_offer(c).vault is None,
{
}

/// Cancelling an offer gives the vault's whole balance back to the maker, and record
/// and vault are gone.
pub proof fn lemma_cancel_offer_restores(c: CancelOffer)
    requires
        cancel_offer_error(c) is None,
    ensures
        cancelled_offer(c).maker_token_account_a->0.amount == maker_account_a(c).amount + c.vault->0.amount,
        cancelled_offer(c).offer is None,
        cancelled_offer(c).vault is None,
{
}

/// The maker of an offer can never take it: the attempt is rejected as a self-trade,
/// and a rejected instruction changes nothing.
pub proof fn lemma_no_self_trade(c: TakeOffer)
    requires
        c.offer is Some,
        c.taker == c.offer->0.maker,
    ensures
        take_offer_error(c) == Some(ErrorCode::TakerShouldNotBeMaker),
{
    assert(is_self_trade(c));
}

/// An offer is consumed once: after it is taken, the record is absent, so a later
/// take or cancel at the same address is rejected, as a missing record unless it is
/// a self-trade, and a rejected instruction changes nothing.
pub proof fn lemma_taken_offer_is_consumed(c: TakeOffer, later_take: TakeOffer, later_cancel: CancelOffer)
    requires
        take_offer_error(c) is None,
        later_take.offer == taken_offer(c).offer,
        later_cancel.offer == taken_offer(c).offer,
    ensures
        take_offer_error(later_take) is Some,
        !is_self_trade(later_take) ==> take_offer_error(later_take) == Some(ErrorCode::AccountNotInitialized),
        cancel_offer_error(later_cancel) == Some(ErrorCode::AccountNotInitialized),
{
}

/// An offer is consumed once: after it is cancelled, the record is absent, so a later
/// take or cancel at the same address is rejected, as a missing record unless it is
/// a self-trade, and a rejected instruction changes nothing.
pub proof fn lemma_cancelled_offer_is_consumed(c: CancelOffer, later_take: TakeOffer, later_cancel: CancelOffer)
    requires
        cancel_offer_error(c) is None,
        later_take.offer == cancelled_offer(c).offer,
        later_cancel.offer == cancelled_offer(c).offer,
    ensures
        take_offer_error(later_take) is Some,
        !is_self_trade(later_take) ==> take_offer_error(later_take) == Some(ErrorCode::AccountNotInitialized),
        cancel_offer_error(later_cancel) == Some(ErrorCode::AccountNotInitialized),
{
}

} // verus!
