use std::str::FromStr;

use anchor_lang::solana_program::pubkey::Pubkey;
use anchor_spl::associated_token::get_associated_token_address_with_program_id;
use escrow_app::address::{
    Address, find_associated_account_address, find_offer_address, le_bytes_of, offer_address, same_address,
};
use escrow_app::instructions::take_offer::check_take_offer_accounts;
use escrow_app::state::{Mint, Offer, TokenAccount};
use escrow_app::token::{close_account, transfer_checked};
use escrow_app::{cancel_offer, take_offer, CancelOffer, ErrorCode, MakeOffer, TakeOffer};

const MAKER: Address = [1u8; 32];
const TAKER: Address = [2u8; 32];
const MINT_A: Address = [3u8; 32];
const MINT_B: Address = [4u8; 32];
const DECIMALS: u8 = 10;
const UNIT: u64 = 10_000_000_000;

fn program_id() -> Address {
    Pubkey::from_str("5gdV4b4cPnnRkVSvBq8WxCxRfyq7i5z9R5scwm3BA4ps").unwrap().to_bytes()
}

fn offer_pda(maker: &Address, id: u64) -> (Address, u8) {
    let (p, b) = Pubkey::find_program_address(
        &[b"offer", maker.as_ref(), &id.to_le_bytes()],
        &Pubkey::new_from_array(program_id()),
    );
    (p.to_bytes(), b)
}

fn token_program() -> Address {
    anchor_spl::token::ID.to_bytes()
}

fn vault_of(offer_key: &Address) -> Address {
    get_associated_token_address_with_program_id(
        &Pubkey::new_from_array(*offer_key),
        &Pubkey::new_from_array(MINT_A),
        &Pubkey::new_from_array(token_program()),
    )
    .to_bytes()
}

fn account(mint: Address, owner: Address, amount: u64) -> TokenAccount {
    TokenAccount { mint, owner, amount }
}

fn make_ctx(id: u64, maker_balance_a: u64) -> MakeOffer {
    MakeOffer {
        program_id: program_id(),
        token_program: token_program(),
        maker: MAKER,
        token_mint_a: Mint { key: MINT_A, decimals: DECIMALS },
        token_mint_b: Mint { key: MINT_B, decimals: DECIMALS },
        maker_token_account_a: account(MINT_A, MAKER, maker_balance_a),
        offer_key: offer_pda(&MAKER, id).0,
        offer: None,
        vault_key: vault_of(&offer_pda(&MAKER, id).0),
        vault: None,
    }
}

fn open_offer(id: u64, amount_a: u64, amount_b: u64) -> MakeOffer {
    let mut ctx = make_ctx(id, amount_a);
    assert_eq!(escrow_app::make_offer(&mut ctx, id, amount_a, amount_b), Ok(()));
    ctx
}

fn take_ctx(made: &MakeOffer, taker_balance_b: u64) -> TakeOffer {
    TakeOffer {
        program_id: made.program_id,
        token_program: made.token_program,
        taker: TAKER,
        maker: made.maker,
        token_mint_a: made.token_mint_a,
        token_mint_b: made.token_mint_b,
        taker_token_account_a: None,
        taker_token_account_b: account(MINT_B, TAKER, taker_balance_b),
        maker_token_account_b: None,
        offer_key: made.offer_key,
        offer: made.offer,
        vault_key: made.vault_key,
        vault: made.vault,
    }
}

fn cancel_ctx(made: &MakeOffer) -> CancelOffer {
    CancelOffer {
        program_id: made.program_id,
        token_program: made.token_program,
        maker: made.maker,
        token_mint_a: made.token_mint_a,
        maker_token_account_a: Some(made.maker_token_account_a),
        offer_key: made.offer_key,
        offer: made.offer,
        vault_key: made.vault_key,
        vault: made.vault,
    }
}

fn assert_offer(o: &Offer, id: u64, wanted: u64) {
    assert_eq!(o.id, id);
    assert_eq!(o.maker, MAKER);
    assert_eq!(o.token_mint_a, MINT_A);
    assert_eq!(o.token_mint_b, MINT_B);
    assert_eq!(o.token_b_amount_wanted, wanted);
    assert_eq!(o.bump, offer_pda(&MAKER, id).1);
}

#[test]
fn make_offer() {
    let offer_id: u64 = 1;
    let token_a_offered_amount = 100 * UNIT;
    let token_b_amount_wanted = 80 * UNIT;
    let mut ctx = make_ctx(offer_id, token_a_offered_amount);
    assert_eq!(
        escrow_app::make_offer(&mut ctx, offer_id, token_a_offered_amount, token_b_amount_wanted),
        Ok(())
    );
    let vault = ctx.vault.unwrap();
    assert_eq!(vault.amount, token_a_offered_amount);
    assert_eq!(vault.mint, MINT_A);
    assert_eq!(vault.owner, ctx.offer_key);
    assert_eq!(ctx.maker_token_account_a.amount, 0);
    assert_offer(&ctx.offer.unwrap(), offer_id, token_b_amount_wanted);
}

#[test]
fn make_and_take_offer() {
    let offer_id: u64 = 1;
    let token_a_offered_amount = 100 * UNIT;
    let token_b_amount_wanted = 80 * UNIT;
    let made = open_offer(offer_id, token_a_offered_amount, token_b_amount_wanted);
    let mut ctx = take_ctx(&made, token_b_amount_wanted);
    assert_eq!(take_offer(&mut ctx), Ok(()));
    assert_eq!(made.maker_token_account_a.amount, 0);
    assert_eq!(ctx.maker_token_account_b.unwrap().amount, token_b_amount_wanted);
    assert_eq!(ctx.maker_token_account_b.unwrap().owner, MAKER);
    assert_eq!(ctx.taker_token_account_a.unwrap().amount, token_a_offered_amount);
    assert_eq!(ctx.taker_token_account_a.unwrap().owner, TAKER);
    assert_eq!(ctx.taker_token_account_b.amount, 0);
    assert!(ctx.offer.is_none(), "Offer account should be closed after take");
    assert!(ctx.vault.is_none(), "Vault ATA should be closed after take");
}

#[test]
fn make_and_cancel_offer() {
    let offer_id: u64 = 1;
    let token_a_offered_amount = 100 * UNIT;
    let token_b_amount_wanted = 80 * UNIT;
    let made = open_offer(offer_id, token_a_offered_amount, token_b_amount_wanted);
    let mut ctx = cancel_ctx(&made);
    assert_eq!(cancel_offer(&mut ctx), Ok(()));
    assert_eq!(ctx.maker_token_account_a.unwrap().amount, token_a_offered_amount);
    assert!(ctx.offer.is_none(), "Offer account should be closed after cancel");
    assert!(ctx.vault.is_none(), "Vault ATA should be closed after cancel");
}

#[test]
fn make_offer_keeps_the_rest_of_the_maker_balance() {
    let mut ctx = make_ctx(7, 150);
    assert_eq!(escrow_app::make_offer(&mut ctx, 7, 100, 80), Ok(()));
    assert_eq!(ctx.maker_token_account_a.amount, 50);
    assert_eq!(ctx.vault.unwrap().amount, 100);
    assert_offer(&ctx.offer.unwrap(), 7, 80);
}

#[test]
fn make_offer_with_insufficient_balance_changes_nothing() {
    let mut ctx = make_ctx(1, 99);
    assert_eq!(escrow_app::make_offer(&mut ctx, 1, 100, 80), Err(ErrorCode::InsufficientFunds));
    assert_eq!(ctx.maker_token_account_a.amount, 99);
    assert!(ctx.offer.is_none());
    assert!(ctx.vault.is_none());
}

#[test]
fn make_offer_twice_at_one_address_is_rejected() {
    let mut ctx = open_offer(1, 100, 80);
    ctx.maker_token_account_a.amount = 100;
    assert_eq!(escrow_app::make_offer(&mut ctx, 1, 100, 80), Err(ErrorCode::AccountAlreadyInUse));
    assert_eq!(ctx.vault.unwrap().amount, 100);
}

#[test]
fn make_offer_at_another_address_is_rejected() {
    let mut ctx = make_ctx(1, 100);
    assert_eq!(escrow_app::make_offer(&mut ctx, 2, 100, 80), Err(ErrorCode::ConstraintSeeds));
    assert!(ctx.offer.is_none());
}

#[test]
fn make_offer_from_another_asset_account_is_rejected() {
    let mut ctx = make_ctx(1, 100);
    ctx.maker_token_account_a.mint = MINT_B;
    assert_eq!(escrow_app::make_offer(&mut ctx, 1, 100, 80), Err(ErrorCode::ConstraintTokenMint));
    let mut ctx = make_ctx(1, 100);
    ctx.maker_token_account_a.owner = TAKER;
    assert_eq!(escrow_app::make_offer(&mut ctx, 1, 100, 80), Err(ErrorCode::ConstraintTokenOwner));
}

#[test]
fn maker_cannot_take_own_offer() {
    let made = open_offer(1, 100, 80);
    let mut ctx = take_ctx(&made, 80);
    ctx.taker = MAKER;
    ctx.taker_token_account_b.owner = MAKER;
    assert_eq!(take_offer(&mut ctx), Err(ErrorCode::TakerShouldNotBeMaker));
    assert_eq!(ctx.vault.unwrap().amount, 100);
    assert_eq!(ctx.taker_token_account_b.amount, 80);
    assert!(ctx.offer.is_some());
}

#[test]
fn take_offer_without_enough_b_changes_nothing() {
    let made = open_offer(1, 100, 80);
    let mut ctx = take_ctx(&made, 79);
    assert_eq!(take_offer(&mut ctx), Err(ErrorCode::InsufficientFunds));
    assert_eq!(ctx.taker_token_account_b.amount, 79);
    assert!(ctx.taker_token_account_a.is_none());
    assert!(ctx.maker_token_account_b.is_none());
    assert_eq!(ctx.vault.unwrap().amount, 100);
}

#[test]
fn take_offer_pays_from_a_larger_balance() {
    let made = open_offer(3, 100, 80);
    let mut ctx = take_ctx(&made, 200);
    ctx.taker_token_account_a = Some(account(MINT_A, TAKER, 5));
    ctx.maker_token_account_b = Some(account(MINT_B, MAKER, 1));
    assert_eq!(take_offer(&mut ctx), Ok(()));
    assert_eq!(ctx.taker_token_account_b.amount, 120);
    assert_eq!(ctx.maker_token_account_b.unwrap().amount, 81);
    assert_eq!(ctx.taker_token_account_a.unwrap().amount, 105);
}

#[test]
fn take_offer_releases_the_live_vault_balance() {
    let made = open_offer(1, 100, 80);
    let mut ctx = take_ctx(&made, 80);
    ctx.vault = Some(account(MINT_A, made.offer_key, 130));
    assert_eq!(take_offer(&mut ctx), Ok(()));
    assert_eq!(ctx.taker_token_account_a.unwrap().amount, 130);
}

#[test]
fn take_offer_twice_is_rejected() {
    let made = open_offer(1, 100, 80);
    let mut first = take_ctx(&made, 160);
    assert_eq!(take_offer(&mut first), Ok(()));
    let mut again = first;
    assert_eq!(take_offer(&mut again), Err(ErrorCode::AccountNotInitialized));
    assert_eq!(again.taker_token_account_b.amount, 80);
    let mut cancel = cancel_ctx(&made);
    cancel.offer = first.offer;
    cancel.vault = first.vault;
    assert_eq!(cancel_offer(&mut cancel), Err(ErrorCode::AccountNotInitialized));
}

#[test]
fn cancelled_offer_cannot_be_taken() {
    let made = open_offer(1, 100, 80);
    let mut cancel = cancel_ctx(&made);
    assert_eq!(cancel_offer(&mut cancel), Ok(()));
    let mut ctx = take_ctx(&made, 80);
    ctx.offer = cancel.offer;
    ctx.vault = cancel.vault;
    assert_eq!(take_offer(&mut ctx), Err(ErrorCode::AccountNotInitialized));
    assert_eq!(ctx.taker_token_account_b.amount, 80);
    let mut again = cancel;
    assert_eq!(cancel_offer(&mut again), Err(ErrorCode::AccountNotInitialized));
}

#[test]
fn cancel_by_another_signer_is_rejected() {
    let made = open_offer(1, 100, 80);
    let mut ctx = cancel_ctx(&made);
    ctx.maker = TAKER;
    ctx.maker_token_account_a = None;
    assert_eq!(cancel_offer(&mut ctx), Err(ErrorCode::ConstraintHasOne));
    assert_eq!(ctx.vault.unwrap().amount, 100);
}

#[test]
fn cancel_creates_the_maker_account_if_needed() {
    let made = open_offer(1, 100, 80);
    let mut ctx = cancel_ctx(&made);
    ctx.maker_token_account_a = None;
    assert_eq!(cancel_offer(&mut ctx), Ok(()));
    let a = ctx.maker_token_account_a.unwrap();
    assert_eq!((a.mint, a.owner, a.amount), (MINT_A, MAKER, 100));
}

#[test]
fn take_offer_with_wrong_mint_b_is_rejected() {
    let made = open_offer(1, 100, 80);
    let mut ctx = take_ctx(&made, 80);
    ctx.token_mint_b.key = MINT_A;
    assert_eq!(check_take_offer_accounts(&ctx), Err(ErrorCode::ConstraintHasOne));
    assert_eq!(take_offer(&mut ctx), Err(ErrorCode::ConstraintHasOne));
}

#[test]
fn take_offer_with_a_forged_bump_is_rejected() {
    let made = open_offer(1, 100, 80);
    let mut ctx = take_ctx(&made, 80);
    let mut o = made.offer.unwrap();
    o.id = 2;
    ctx.offer = Some(o);
    assert_eq!(take_offer(&mut ctx), Err(ErrorCode::ConstraintSeeds));
}

#[test]
fn take_offer_with_a_foreign_vault_is_rejected() {
    let made = open_offer(1, 100, 80);
    let mut ctx = take_ctx(&made, 80);
    ctx.vault = Some(account(MINT_A, TAKER, 100));
    assert_eq!(take_offer(&mut ctx), Err(ErrorCode::ConstraintTokenOwner));
    ctx.vault = Some(account(MINT_B, made.offer_key, 100));
    assert_eq!(take_offer(&mut ctx), Err(ErrorCode::ConstraintTokenMint));
}

#[test]
fn take_offer_that_would_overflow_is_rejected() {
    let made = open_offer(1, 100, 80);
    let mut ctx = take_ctx(&made, 80);
    ctx.maker_token_account_b = Some(account(MINT_B, MAKER, u64::MAX - 79));
    assert_eq!(take_offer(&mut ctx), Err(ErrorCode::Overflow));
    assert_eq!(ctx.taker_token_account_b.amount, 80);
}

#[test]
fn transfer_checked_moves_exact_amount() {
    let mint = Mint { key: MINT_A, decimals: 6 };
    let mut from = account(MINT_A, MAKER, 10);
    let mut to = account(MINT_A, TAKER, 3);
    assert_eq!(transfer_checked(&mut from, &mut to, &mint, &MAKER, 4, 6), Ok(()));
    assert_eq!((from.amount, to.amount), (6, 7));
    assert_eq!(transfer_checked(&mut from, &mut to, &mint, &TAKER, 1, 6), Err(ErrorCode::OwnerMismatch));
    assert_eq!(transfer_checked(&mut from, &mut to, &mint, &MAKER, 1, 9), Err(ErrorCode::MintDecimalsMismatch));
    assert_eq!(transfer_checked(&mut from, &mut to, &mint, &MAKER, 7, 6), Err(ErrorCode::InsufficientFunds));
    let other = Mint { key: MINT_B, decimals: 6 };
    assert_eq!(transfer_checked(&mut from, &mut to, &other, &MAKER, 1, 6), Err(ErrorCode::MintMismatch));
    to.amount = u64::MAX;
    assert_eq!(transfer_checked(&mut from, &mut to, &mint, &MAKER, 1, 6), Err(ErrorCode::Overflow));
    assert_eq!(from.amount, 6);
}

#[test]
fn close_account_needs_an_empty_account_and_its_owner() {
    let mut a = Some(account(MINT_A, MAKER, 1));
    assert_eq!(close_account(&mut a, &MAKER), Err(ErrorCode::NonNativeHasBalance));
    a = Some(account(MINT_A, MAKER, 0));
    assert_eq!(close_account(&mut a, &TAKER), Err(ErrorCode::OwnerMismatch));
    assert_eq!(close_account(&mut a, &MAKER), Ok(()));
    assert!(a.is_none());
    assert_eq!(close_account(&mut a, &MAKER), Err(ErrorCode::AccountNotInitialized));
}

#[test]
fn derived_offer_address_matches_the_ledger_derivation() {
    let (pda, bump) = offer_pda(&MAKER, 1);
    assert_eq!(find_offer_address(&program_id(), &MAKER, 1), Some((pda, bump)));
    assert_eq!(offer_address(&program_id(), &MAKER, 1, bump), Some(pda));
    assert_ne!(pda, program_id());
    assert_ne!(find_offer_address(&program_id(), &MAKER, 2).unwrap().0, pda);
}

#[test]
fn le_bytes_of_is_little_endian() {
    assert_eq!(le_bytes_of(0x0102030405060708), vec![8, 7, 6, 5, 4, 3, 2, 1]);
    assert_eq!(le_bytes_of(1), 1u64.to_le_bytes().to_vec());
}

#[test]
fn same_address_compares_every_byte() {
    let mut b = MAKER;
    assert!(same_address(&MAKER, &b));
    b[31] = 0;
    assert!(!same_address(&MAKER, &b));
}

#[test]
fn vault_address_is_the_canonical_account_of_the_offer() {
    let (pda, _) = offer_pda(&MAKER, 1);
    assert_eq!(find_associated_account_address(&pda, &token_program(), &MINT_A), Some(vault_of(&pda)));
    assert_ne!(vault_of(&pda), pda);
}

#[test]
fn make_offer_with_a_foreign_vault_address_is_rejected() {
    let mut ctx = make_ctx(1, 100);
    ctx.vault_key = vault_of(&offer_pda(&MAKER, 2).0);
    assert_eq!(escrow_app::make_offer(&mut ctx, 1, 100, 80), Err(ErrorCode::AccountNotAssociatedTokenAccount));
    assert!(ctx.vault.is_none());
}

#[test]
fn take_offer_with_a_foreign_vault_address_is_rejected() {
    let made = open_offer(1, 100, 80);
    let mut ctx = take_ctx(&made, 80);
    ctx.vault_key = MAKER;
    assert_eq!(take_offer(&mut ctx), Err(ErrorCode::AccountNotAssociatedTokenAccount));
    let mut cancel = cancel_ctx(&made);
    cancel.vault_key = TAKER;
    assert_eq!(cancel_offer(&mut cancel), Err(ErrorCode::AccountNotAssociatedTokenAccount));
    assert_eq!(cancel.vault.unwrap().amount, 100);
}
