//! The four pool operations, executable and verified.
//!
//! Each operation takes the balances it touches, applies the rules of
//! [`crate::rules`], and either commits every movement at once or returns a
//! typed error having changed nothing: there is no input on which one of
//! these functions leaves a partial state behind.

use vstd::prelude::*;

use crate::rules::{book_error, distribute_error, holder_payout, invest_error};
use crate::state::{
    BookRoom, BookingEvent, DistributeProfits, Hotel, HotelError, Initialize, Invest,
    InvestmentEvent, MintConfig, ProfitDistributionEvent,
};

verus! {

/// Creates the pool ledger record with no shares outstanding, and returns
/// beside it the configuration the caller must hand to the external
/// share-token initializer.
pub fn initialize_hotel(
    ctx: &Initialize,
    transfer_fee_basis_points: u16,
    interest_rate: i16,
) -> (r: (Hotel, MintConfig))
    ensures
        r.0.authority == ctx.authority,
        r.0.total_supply == 0,
        r.0.usdc_vault == ctx.usdc_vault,
        r.1.transfer_fee_basis_points == transfer_fee_basis_points,
        r.1.interest_rate == interest_rate,
{
    let hotel = Hotel {
        authority: ctx.authority,
        total_supply: 0,
        usdc_vault: ctx.usdc_vault,
    };
    let config = MintConfig { transfer_fee_basis_points, interest_rate };
    (hotel, config)
}

/// Invests `usdc_amount`: moves that much stable asset from the investor to
/// the vault, mints the same number of shares (1:1, no price discovery) to
/// the investor, and grows the supply by it. On any refusal nothing changes.
pub fn invest(ctx: &mut Invest, usdc_amount: u64) -> (r: Result<InvestmentEvent, HotelError>)
    ensures
        match r {
            Ok(ev) => {
                &&& invest_error(
                    old(ctx).investor_usdc_account,
                    old(ctx).investor_hotel_token_account,
                    old(ctx).hotel.total_supply,
                    old(ctx).usdc_vault,
                    usdc_amount,
                ) is None
                &&& final(ctx).investor_usdc_account == old(ctx).investor_usdc_account
                    - usdc_amount
                &&& final(ctx).usdc_vault == old(ctx).usdc_vault + usdc_amount
                &&& final(ctx).investor_hotel_token_account == old(
                    ctx,
                ).investor_hotel_token_account + usdc_amount
                &&& final(ctx).hotel.total_supply == old(ctx).hotel.total_supply + usdc_amount
                &&& final(ctx).hotel.authority == old(ctx).hotel.authority
                &&& final(ctx).hotel.usdc_vault == old(ctx).hotel.usdc_vault
                &&& final(ctx).investor == old(ctx).investor
                &&& ev.investor == old(ctx).investor
                &&& ev.usdc_amount == usdc_amount
                &&& ev.hotel_tokens == usdc_amount
            },
            Err(e) => {
                &&& Some(e) == invest_error(
                    old(ctx).investor_usdc_account,
                    old(ctx).investor_hotel_token_account,
                    old(ctx).hotel.total_supply,
                    old(ctx).usdc_vault,
                    usdc_amount,
                )
                &&& *final(ctx) == *old(ctx)
            },
        },
{
    if ctx.investor_usdc_account < usdc_amount {
        return Err(HotelError::InsufficientBalance);
    }
    if usdc_amount > u64::MAX - ctx.usdc_vault || usdc_amount > u64::MAX
        - ctx.investor_hotel_token_account || usdc_amount > u64::MAX - ctx.hotel.total_supply {
        return Err(HotelError::ArithmeticOverflow);
    }
    ctx.investor_usdc_account = ctx.investor_usdc_account - usdc_amount;
    ctx.usdc_vault = ctx.usdc_vault + usdc_amount;
    ctx.investor_hotel_token_account = ctx.investor_hotel_token_account + usdc_amount;
    ctx.hotel.total_supply = ctx.hotel.total_supply + usdc_amount;
    Ok(InvestmentEvent {
        investor: ctx.investor,
        usdc_amount,
        hotel_tokens: usdc_amount,
    })
}

/// Books a room for `booking_price`: moves that much stable asset from the
/// tourist to the vault. The share supply does not change. On any refusal
/// nothing changes.
pub fn book_room(ctx: &mut BookRoom, booking_price: u64) -> (r: Result<BookingEvent, HotelError>)
    ensures
        match r {
            Ok(ev) => {
                &&& book_error(
                    old(ctx).tourist_usdc_account,
                    old(ctx).usdc_vault,
                    booking_price,
                ) is None
                &&& final(ctx).tourist_usdc_account == old(ctx).tourist_usdc_account
                    - booking_price
                &&& final(ctx).usdc_vault == old(ctx).usdc_vault + booking_price
                &&& final(ctx).hotel == old(ctx).hotel
                &&& final(ctx).tourist == old(ctx).tourist
                &&& ev.tourist == old(ctx).tourist
                &&& ev.price == booking_price
            },
            Err(e) => {
                &&& Some(e) == book_error(
                    old(ctx).tourist_usdc_account,
                    old(ctx).usdc_vault,
                    booking_price,
                )
                &&& *final(ctx) == *old(ctx)
            },
        },
{
    if ctx.tourist_usdc_account < booking_price {
        return Err(HotelError::InsufficientBalance);
    }
    if booking_price > u64::MAX - ctx.usdc_vault {
        return Err(HotelError::ArithmeticOverflow);
    }
    ctx.tourist_usdc_account = ctx.tourist_usdc_account - booking_price;
    ctx.usdc_vault = ctx.usdc_vault + booking_price;
    Ok(BookingEvent { tourist: ctx.tourist, price: booking_price })
}

/// Distributes profit to one holder: pays the per-share rate — the vault
/// balance floor-divided by the shares outstanding, recomputed on this very
/// call — times the holder's share balance, out of the vault. The share
/// supply and the holder's share balance do not change; rounding dust and
/// the other holders' entitlement stay in the vault for later calls. On any
/// refusal nothing changes.
pub fn distribute_profits(ctx: &mut DistributeProfits) -> (r: Result<
    ProfitDistributionEvent,
    HotelError,
>)
    ensures
        match r {
            Ok(ev) => {
                &&& distribute_error(
                    old(ctx).usdc_vault,
                    old(ctx).hotel.total_supply,
                    old(ctx).investor_hotel_token_account,
                    old(ctx).investor_usdc_account,
                ) is None
                &&& ev.amount == holder_payout(
                    old(ctx).usdc_vault,
                    old(ctx).hotel.total_supply,
                    old(ctx).investor_hotel_token_account,
                )
                &&& ev.investor == old(ctx).investor
                &&& final(ctx).usdc_vault == old(ctx).usdc_vault - ev.amount
                &&& final(ctx).investor_usdc_account == old(ctx).investor_usdc_account + ev.amount
                &&& final(ctx).investor_hotel_token_account == old(
                    ctx,
                ).investor_hotel_token_account
                &&& final(ctx).hotel == old(ctx).hotel
                &&& final(ctx).investor == old(ctx).investor
            },
            Err(e) => {
                &&& Some(e) == distribute_error(
                    old(ctx).usdc_vault,
                    old(ctx).hotel.total_supply,
                    old(ctx).investor_hotel_token_account,
                    old(ctx).investor_usdc_account,
                )
                &&& *final(ctx) == *old(ctx)
            },
        },
{
    let total_profit = ctx.usdc_vault;
    if total_profit == 0 {
        return Err(HotelError::NoProfitToDistribute);
    }
    if ctx.hotel.total_supply == 0 {
        return Err(HotelError::NoSharesOutstanding);
    }
    let profit_per_token = total_profit / ctx.hotel.total_supply;
    let user_token_balance = ctx.investor_hotel_token_account;
    let user_profit = match profit_per_token.checked_mul(user_token_balance) {
        Some(p) => p,
        None => {
            return Err(HotelError::ArithmeticOverflow);
        },
    };
    if user_profit > ctx.usdc_vault {
        return Err(HotelError::InsufficientBalance);
    }
    if user_profit > u64::MAX - ctx.investor_usdc_account {
        return Err(HotelError::ArithmeticOverflow);
    }
    ctx.usdc_vault = ctx.usdc_vault - user_profit;
    ctx.investor_usdc_account = ctx.investor_usdc_account + user_profit;
    Ok(ProfitDistributionEvent { investor: ctx.investor, amount: user_profit })
}

} // verus!
