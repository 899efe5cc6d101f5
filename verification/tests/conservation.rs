//! Concrete runs of the conservation and atomicity laws that
//! `coconut_finance::laws` proves over the whole-system model.

use coconut_finance::ops::{book_room, distribute_profits, invest};
use coconut_finance::state::{BookRoom, DistributeProfits, Hotel, HotelError, Invest};

#[test]
fn supply_and_vault_balance_over_a_mixed_sequence() {
    // Two investors, one booking, one distribution, tracked by hand:
    // the supply must equal the sum of the minted amounts, each holder's
    // shares the sum of that holder's deposits, and the vault must equal
    // investments + bookings - payouts.
    let mut hotel = Hotel { authority: 1, total_supply: 0, usdc_vault: 9 };
    let mut vault: u64 = 0;

    let mut first = Invest {
        hotel,
        investor: 100,
        investor_usdc_account: 40,
        investor_hotel_token_account: 0,
        usdc_vault: vault,
    };
    invest(&mut first, 10).unwrap();
    hotel = first.hotel;
    vault = first.usdc_vault;

    let mut second = Invest {
        hotel,
        investor: 200,
        investor_usdc_account: 70,
        investor_hotel_token_account: 0,
        usdc_vault: vault,
    };
    invest(&mut second, 30).unwrap();
    hotel = second.hotel;
    vault = second.usdc_vault;

    let mut booking = BookRoom {
        hotel,
        tourist: 300,
        tourist_usdc_account: 90,
        usdc_vault: vault,
    };
    book_room(&mut booking, 60).unwrap();
    hotel = booking.hotel;
    vault = booking.usdc_vault;

    let mut payout = DistributeProfits {
        hotel,
        investor: 100,
        investor_hotel_token_account: first.investor_hotel_token_account,
        investor_usdc_account: first.investor_usdc_account,
        usdc_vault: vault,
    };
    // Rate: floor(100 / 40) = 2; the holder of 10 shares is paid 20.
    let paid = distribute_profits(&mut payout).unwrap().amount;
    hotel = payout.hotel;
    vault = payout.usdc_vault;

    assert_eq!(paid, 20);
    // Supply conservation: 10 + 30 minted, nothing else moves the supply.
    assert_eq!(hotel.total_supply, 10 + 30);
    assert_eq!(first.investor_hotel_token_account, 10);
    assert_eq!(second.investor_hotel_token_account, 30);
    // Vault conservation: investments + bookings - payouts.
    assert_eq!(vault, 10 + 30 + 60 - 20);
}

#[test]
fn investment_refused_at_the_bookkeeping_step_leaves_no_trace() {
    // The transfer leg on its own could go through (the investor holds the
    // amount, the vault has room), but the supply increment would overflow:
    // the whole operation must fail with nothing moved, transfer included.
    let mut ctx = Invest {
        hotel: Hotel { authority: 1, total_supply: u64::MAX - 5, usdc_vault: 9 },
        investor: 7,
        investor_usdc_account: 50,
        investor_hotel_token_account: 0,
        usdc_vault: 100,
    };
    let before = ctx;
    let r = invest(&mut ctx, 6);
    assert_eq!(r, Err(HotelError::ArithmeticOverflow));
    assert_eq!(ctx, before);
}

#[test]
fn share_account_refusing_the_mint_leaves_no_trace() {
    // Same all-or-nothing demand when the mint leg is the one that cannot
    // land: the investor's share account would overflow.
    let mut ctx = Invest {
        hotel: Hotel { authority: 1, total_supply: 10, usdc_vault: 9 },
        investor: 7,
        investor_usdc_account: 50,
        investor_hotel_token_account: u64::MAX - 5,
        usdc_vault: 100,
    };
    let before = ctx;
    let r = invest(&mut ctx, 6);
    assert_eq!(r, Err(HotelError::ArithmeticOverflow));
    assert_eq!(ctx, before);
}
