use coconut_finance::ops::{book_room, initialize_hotel, invest};
use coconut_finance::state::{BookRoom, Hotel, HotelError, Initialize, Invest};

fn fresh_invest_ctx() -> Invest {
    Invest {
        hotel: Hotel { authority: 1, total_supply: 10, usdc_vault: 9 },
        investor: 7,
        investor_usdc_account: 50,
        investor_hotel_token_account: 2,
        usdc_vault: 100,
    }
}

#[test]
fn initialize_sets_ledger_and_passes_mint_config_through() {
    let ctx = Initialize { authority: 11, usdc_vault: 22 };
    let (hotel, config) = initialize_hotel(&ctx, 250, -30);
    assert_eq!(hotel.authority, 11);
    assert_eq!(hotel.total_supply, 0);
    assert_eq!(hotel.usdc_vault, 22);
    assert_eq!(config.transfer_fee_basis_points, 250);
    assert_eq!(config.interest_rate, -30);
}

#[test]
fn invest_moves_deposit_and_mints_one_to_one() {
    let mut ctx = fresh_invest_ctx();
    let ev = invest(&mut ctx, 30).unwrap();
    assert_eq!(ev.investor, 7);
    assert_eq!(ev.usdc_amount, 30);
    assert_eq!(ev.hotel_tokens, 30);
    assert_eq!(ctx.investor_usdc_account, 20);
    assert_eq!(ctx.usdc_vault, 130);
    assert_eq!(ctx.investor_hotel_token_account, 32);
    assert_eq!(ctx.hotel.total_supply, 40);
}

#[test]
fn invest_of_zero_moves_and_mints_nothing() {
    let mut ctx = fresh_invest_ctx();
    let ev = invest(&mut ctx, 0).unwrap();
    assert_eq!(ev.hotel_tokens, 0);
    assert_eq!(ctx, fresh_invest_ctx());
}

#[test]
fn invest_with_short_balance_fails_and_changes_nothing() {
    let mut ctx = fresh_invest_ctx();
    let r = invest(&mut ctx, 51);
    assert_eq!(r, Err(HotelError::InsufficientBalance));
    assert_eq!(ctx, fresh_invest_ctx());
}

#[test]
fn invest_overflowing_the_vault_fails_and_changes_nothing() {
    let mut ctx = fresh_invest_ctx();
    ctx.usdc_vault = u64::MAX - 10;
    let before = ctx;
    let r = invest(&mut ctx, 11);
    assert_eq!(r, Err(HotelError::ArithmeticOverflow));
    assert_eq!(ctx, before);
}

#[test]
fn book_room_pays_into_the_vault_and_leaves_the_supply_alone() {
    let mut ctx = BookRoom {
        hotel: Hotel { authority: 1, total_supply: 10, usdc_vault: 9 },
        tourist: 5,
        tourist_usdc_account: 80,
        usdc_vault: 100,
    };
    let ev = book_room(&mut ctx, 60).unwrap();
    assert_eq!(ev.tourist, 5);
    assert_eq!(ev.price, 60);
    assert_eq!(ctx.tourist_usdc_account, 20);
    assert_eq!(ctx.usdc_vault, 160);
    assert_eq!(ctx.hotel.total_supply, 10);
}

#[test]
fn book_room_with_short_balance_fails_and_changes_nothing() {
    let mut ctx = BookRoom {
        hotel: Hotel { authority: 1, total_supply: 10, usdc_vault: 9 },
        tourist: 5,
        tourist_usdc_account: 59,
        usdc_vault: 100,
    };
    let before = ctx;
    let r = book_room(&mut ctx, 60);
    assert_eq!(r, Err(HotelError::InsufficientBalance));
    assert_eq!(ctx, before);
}

#[test]
fn book_room_overflowing_the_vault_fails_and_changes_nothing() {
    let mut ctx = BookRoom {
        hotel: Hotel { authority: 1, total_supply: 10, usdc_vault: 9 },
        tourist: 5,
        tourist_usdc_account: u64::MAX,
        usdc_vault: u64::MAX - 1,
    };
    let before = ctx;
    let r = book_room(&mut ctx, 2);
    assert_eq!(r, Err(HotelError::ArithmeticOverflow));
    assert_eq!(ctx, before);
}
