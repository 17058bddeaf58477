use vstd::prelude::*;
use crate::address::{
    Address,
    associated_account_address,
    find_associated_account_address,
    lemma_address_view_eq, offer_address, offer_seeds_with_bump, program_address, same_address};
use crate::error::ErrorCode;
use crate::state::{Mint, Offer, TokenAccount, account_error};
use crate::token::{check_account, close_account, result_of, transfer_checked, transfer_error};

verus! {

/// The address that the offer record's own seeds and stored bump derive.
pub open spec fn derived_offer_address(program_id: Address, o: Offer) -> Option<Seq<u8>> {
    program_address(offer_seeds_with_bump(o.maker, o.id, o.bump), program_id@)
}

/// Why an offer record at `offer_key` and its vault at `vault_key` do not belong to
/// `maker` and the asset `mint_a`, if they do not: the record must name both, its
/// address must be the one derived from its maker, id and bump, the vault's address
/// must be the canonical one for the record's address and asset A, and the vault
/// must hold asset A and be owned by the record's address.
pub open spec fn offer_record_error(
    program_id: Address,
    token_program: Address,
    offer_key: Address,
    vault_key: Address,
    o: Offer,
    v: TokenAccount,
    maker: Address,
    mint_a: Address,
) -> Option<ErrorCode> {
    if o.maker != maker || o.token_mint_a != mint_a {
        Some(ErrorCode::ConstraintHasOne)
    } else if derived_offer_address(program_id, o) != Some(offer_key@) {
        Some(ErrorCode::ConstraintSeeds)
    } else if associated_account_address(offer_key, token_program, mint_a) != Some(vault_key@) {
        Some(ErrorCode::AccountNotAssociatedTokenAccount)
    } else {
        account_error(v, mint_a, offer_key)
    }
}

/// Checks that the offer record and its vault belong to `maker` and `mint_a`.
pub fn check_offer_record(
    program_id: &Address,
    token_program: &Address,
    offer_key: &Address,
    vault_key: &Address,
    o: &Offer,
    v: &TokenAccount,
    maker: &Address,
    mint_a: &Address,
) -> (r: Result<(), ErrorCode>)
    ensures
        r == result_of(
            offer_record_error(*program_id, *token_program, *offer_key, *vault_key, *o, *v, *maker, *mint_a),
        ),
{
    if !same_address(&o.maker, maker) || !same_address(&o.token_mint_a, mint_a) {
        return Err(ErrorCode::ConstraintHasOne);
    }
    match offer_address(program_id, &o.maker, o.id, o.bump) {
        None => {
            return Err(ErrorCode::ConstraintSeeds);
        },
        Some(a) => {
            if !same_address(&a, offer_key) {
                return Err(ErrorCode::ConstraintSeeds);
            }
        },
    }
    match find_associated_account_address(offer_key, token_program, mint_a) {
        None => {
            return Err(ErrorCode::AccountNotAssociatedTokenAccount);
        },
        Some(a) => {
            if !same_address(&a, vault_key) {
                return Err(ErrorCode::AccountNotAssociatedTokenAccount);
            }
        },
    }
    check_account(v, mint_a, offer_key)
}

/// Why releasing the vault's whole balance to `destination` and closing the vault is
/// rejected, if it is. The program signs as the address derived from the record; the
/// vault must be owned by that address.
pub open spec fn release_error(program_id: Address, o: Offer, v: TokenAccount, destination: TokenAccount, mint: Mint) -> Option<
    ErrorCode,
> {
    match derived_offer_address(program_id, o) {
        None => Some(ErrorCode::ConstraintSeeds),
        Some(a) => if a != v.owner@ {
            Some(ErrorCode::OwnerMismatch)
        } else {
            transfer_error(v, destination, mint, v.owner, v.amount, mint.decimals)
        },
    }
}

/// Moves the vault's current balance to `destination` under the authority derived
/// from the record, then closes the vault and the record.
pub fn release_vault(
    program_id: &Address,
    offer: &mut Option<Offer>,
    vault: &mut Option<TokenAccount>,
    destination: &mut TokenAccount,
    mint: &Mint,
) -> (r: Result<(), ErrorCode>)
    requires
        (*old(offer)) is Some,
        (*old(vault)) is Some,
    ensures
        r == result_of(release_error(*program_id, (*old(offer))->0, (*old(vault))->0, *old(destination), *mint)),
        r is Ok ==> *final(destination) == (TokenAccount {
            amount: (old(destination).amount + (*old(vault))->0.amount) as u64,
            ..*old(destination)
        }),
        r is Ok ==> *final(offer) == None::<Offer> && *final(vault) == None::<TokenAccount>,
        r is Err ==> *final(offer) == *old(offer) && *final(vault) == *old(vault) && *final(destination)
            == *old(destination),
{
    let o = offer.unwrap();
    let authority = match offer_address(program_id, &o.maker, o.id, o.bump) {
        None => {
            return Err(ErrorCode::ConstraintSeeds);
        },
        Some(a) => a,
    };
    let mut v = vault.unwrap();
    proof {
        lemma_address_view_eq(authority, v.owner);
    }
    if !same_address(&authority, &v.owner) {
        return Err(ErrorCode::OwnerMismatch);
    }
    let amount = v.amount;
    let mut dest = *destination;
    transfer_checked(&mut v, &mut dest, mint, &authority, amount, mint.decimals)?;
    let mut emptied = Some(v);
    close_account(&mut emptied, &authority)?;
    *destination = dest;
    *vault = None;
    *offer = None;
    Ok(())
}

} // verus!
