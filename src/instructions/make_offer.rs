use vstd::prelude::*;
use crate::address::{
    Address,
    associated_account_address,
    find_associated_account_address,
    find_offer_address, found_program_address, offer_seeds, same_address};
use crate::error::ErrorCode;
use crate::state::{Mint, Offer, TokenAccount, account_error};
use crate::token::{check_account, result_of, transfer_checked, transfer_error};

verus! {

/// The accounts that opening an offer reads and writes.
#[derive(Clone, Copy, Debug)]
pub struct MakeOffer {
    /// The escrow program, under which the offer address is derived.
    pub program_id: Address,
    /// The asset program that keeps the token accounts.
    pub token_program: Address,
    /// The maker, who signs.
    pub maker: Address,
    /// The asset offered.
    pub token_mint_a: Mint,
    /// The asset wanted in return.
    pub token_mint_b: Mint,
    /// The maker's account of asset A, debited by the deposit.
    pub maker_token_account_a: TokenAccount,
    /// The address given for the new offer record.
    pub offer_key: Address,
    /// The record at that address; it must not exist yet.
    pub offer: Option<Offer>,
    /// The address given for the vault.
    pub vault_key: Address,
    /// The vault owned by that address; it must not exist yet.
    pub vault: Option<TokenAccount>,
}

/// Why the accounts given for opening offer `id` are rejected, if they are.
pub open spec fn make_offer_accounts_error(c: MakeOffer, id: u64) -> Option<ErrorCode> {
    if account_error(c.maker_token_account_a, c.token_mint_a.key, c.maker) is Some {
        account_error(c.maker_token_account_a, c.token_mint_a.key, c.maker)
    } else {
        match found_program_address(offer_seeds(c.maker, id), c.program_id@) {
            None => Some(ErrorCode::ConstraintSeeds),
            Some(f) => if f.0 != c.offer_key@ {
                Some(ErrorCode::ConstraintSeeds)
            } else if c.offer is Some {
                Some(ErrorCode::AccountAlreadyInUse)
            } else if associated_account_address(c.offer_key, c.token_program, c.token_mint_a.key) != Some(
                c.vault_key@,
            ) {
                Some(ErrorCode::AccountNotAssociatedTokenAccount)
            } else if c.vault is Some {
                Some(ErrorCode::AccountAlreadyInUse)
            } else {
                None
            },
        }
    }
}

/// Why opening offer `id` with a deposit of `amount_a` is rejected, if it is.
pub open spec fn make_offer_error(c: MakeOffer, id: u64, amount_a: u64) -> Option<ErrorCode> {
    if make_offer_accounts_error(c, id) is Some {
        make_offer_accounts_error(c, id)
    } else if c.maker_token_account_a.amount < amount_a {
        Some(ErrorCode::InsufficientFunds)
    } else {
        None
    }
}

/// The bump found for the offer address of `id`.
pub open spec fn offer_bump(c: MakeOffer, id: u64) -> u8 {
    match found_program_address(offer_seeds(c.maker, id), c.program_id@) {
        Some(f) => f.1,
        None => 0,
    }
}

/// The record that opening offer `id` writes.
pub open spec fn new_offer(c: MakeOffer, id: u64, amount_b_wanted: u64) -> Offer {
    Offer {
        id,
        maker: c.maker,
        token_mint_a: c.token_mint_a.key,
        token_mint_b: c.token_mint_b.key,
        token_b_amount_wanted: amount_b_wanted,
        bump: offer_bump(c, id),
    }
}

/// The accounts after offer `id` is opened: the deposit has moved from the maker's
/// account into a new vault owned by the offer address, and the record is written.
pub open spec fn made_offer(c: MakeOffer, id: u64, amount_a: u64, amount_b_wanted: u64) -> MakeOffer {
    MakeOffer {
        maker_token_account_a: TokenAccount {
            amount: (c.maker_token_account_a.amount - amount_a) as u64,
            ..c.maker_token_account_a
        },
        offer: Some(new_offer(c, id, amount_b_wanted)),
        vault: Some(TokenAccount { mint: c.token_mint_a.key, owner: c.offer_key, amount: amount_a }),
        ..c
    }
}

/// Checks the accounts given for opening offer `offer_id` and returns the bump of
/// the offer address.
pub fn check_make_offer_accounts(ctx: &MakeOffer, offer_id: u64) -> (r: Result<u8, ErrorCode>)
    ensures
        r matches Err(e) ==> make_offer_accounts_error(*ctx, offer_id) == Some(e),
        r is Ok ==> make_offer_accounts_error(*ctx, offer_id) is None,
        r matches Ok(b) ==> b == offer_bump(*ctx, offer_id),
{
    check_account(&ctx.maker_token_account_a, &ctx.token_mint_a.key, &ctx.maker)?;
    match find_offer_address(&ctx.program_id, &ctx.maker, offer_id) {
        None => Err(ErrorCode::ConstraintSeeds),
        Some(f) => {
            if !same_address(&f.0, &ctx.offer_key) {
                Err(ErrorCode::ConstraintSeeds)
            } else if ctx.offer.is_some() {
                Err(ErrorCode::AccountAlreadyInUse)
            } else {
                match find_associated_account_address(&ctx.offer_key, &ctx.token_program, &ctx.token_mint_a.key) {
                    None => Err(ErrorCode::AccountNotAssociatedTokenAccount),
                    Some(a) => {
                        if !same_address(&a, &ctx.vault_key) {
                            Err(ErrorCode::AccountNotAssociatedTokenAccount)
                        } else if ctx.vault.is_some() {
                            Err(ErrorCode::AccountAlreadyInUse)
                        } else {
                            Ok(f.1)
                        }
                    },
                }
            }
        },
    }
}

/// Moves the deposit from the maker's account into the vault, on the maker's
/// authority.
pub fn send_offered_tokens_to_vault(ctx: &mut MakeOffer, token_a_offered_amount: u64) -> (r: Result<
    (),
    ErrorCode,
>)
    requires
        old(ctx).vault is Some,
    ensures
        r == result_of(
            transfer_error(
                old(ctx).maker_token_account_a,
                old(ctx).vault->0,
                old(ctx).token_mint_a,
                old(ctx).maker,
                token_a_offered_amount,
                old(ctx).token_mint_a.decimals,
            ),
        ),
        r is Ok ==> *final(ctx) == (MakeOffer {
            maker_token_account_a: TokenAccount {
                amount: (old(ctx).maker_token_account_a.amount - token_a_offered_amount) as u64,
                ..old(ctx).maker_token_account_a
            },
            vault: Some(
                TokenAccount {
                    amount: (old(ctx).vault->0.amount + token_a_offered_amount) as u64,
                    ..old(ctx).vault->0
                },
            ),
            ..*old(ctx)
        }),
        r is Err ==> *final(ctx) == *old(ctx),
{
    let mut vault = ctx.vault.unwrap();
    let r = transfer_checked(
        &mut ctx.maker_token_account_a,
        &mut vault,
        &ctx.token_mint_a,
        &ctx.maker,
        token_a_offered_amount,
        ctx.token_mint_a.decimals,
    );
    ctx.vault = Some(vault);
    r
}

/// Writes the offer record.
pub fn save_offer(ctx: &mut MakeOffer, offer_id: u64, token_b_amount_wanted: u64, bump: u8)
    ensures
        *final(ctx) == (MakeOffer {
            offer: Some(
                Offer {
                    id: offer_id,
                    maker: old(ctx).maker,
                    token_mint_a: old(ctx).token_mint_a.key,
                    token_mint_b: old(ctx).token_mint_b.key,
                    token_b_amount_wanted,
                    bump,
                },
            ),
            ..*old(ctx)
        }),
{
    ctx.offer = Some(
        Offer {
            id: offer_id,
            maker: ctx.maker,
            token_mint_a: ctx.token_mint_a.key,
            token_mint_b: ctx.token_mint_b.key,
            token_b_amount_wanted,
            bump,
        },
    );
}

} // verus!
