//! The accounting rules, as spec functions over plain balances.
//!
//! Each operation's acceptance test and arithmetic is written down once,
//! here; the executable operations in [`crate::ops`] and the whole-system
//! model in [`crate::model`] both speak in terms of these functions, so the
//! contracts of the one and the laws of the other say the same thing.

use vstd::prelude::*;

use crate::state::HotelError;

verus! {

/// Which error, if any, refuses an investment of `amount`, judged on the
/// balances before the operation. The transfer into the vault is attempted
/// first, so a short source balance is reported ahead of any overflow of the
/// vault, the holder's share account, or the share supply.
pub open spec fn invest_error(
    investor_usdc: u64,
    share_balance: u64,
    total_supply: u64,
    vault: u64,
    amount: u64,
) -> Option<HotelError> {
    if investor_usdc < amount {
        Some(HotelError::InsufficientBalance)
    } else if vault + amount > u64::MAX || share_balance + amount > u64::MAX
        || total_supply + amount > u64::MAX {
        Some(HotelError::ArithmeticOverflow)
    } else {
        None
    }
}

/// Which error, if any, refuses a booking payment of `price`, judged on the
/// balances before the operation.
pub open spec fn book_error(tourist_usdc: u64, vault: u64, price: u64) -> Option<HotelError> {
    if tourist_usdc < price {
        Some(HotelError::InsufficientBalance)
    } else if vault + price > u64::MAX {
        Some(HotelError::ArithmeticOverflow)
    } else {
        None
    }
}

/// The per-share rate: the whole vault balance floor-divided by the shares
/// outstanding. Recomputed afresh on every distribution call, so the rate a
/// later caller sees reflects what earlier calls already drained.
pub open spec fn profit_per_share(vault: u64, total_supply: u64) -> int
    recommends
        total_supply > 0,
{
    vault as int / total_supply as int
}

/// What one holder is paid: the per-share rate times the holder's share
/// balance. The floor division leaves rounding dust, and the other holders'
/// entitlement, in the vault for later calls.
pub open spec fn holder_payout(vault: u64, total_supply: u64, share_balance: u64) -> int
    recommends
        total_supply > 0,
{
    profit_per_share(vault, total_supply) * share_balance
}

/// Which error, if any, refuses a distribution to a holder, judged on the
/// balances before the operation. The guards are tested in this order: an
/// empty vault, a zero share supply, the payout computation leaving `u64`,
/// the payout exceeding the vault (cannot happen while the holder's balance
/// is at most the supply, but tested defensively), and the holder's account
/// overflowing on receipt.
pub open spec fn distribute_error(
    vault: u64,
    total_supply: u64,
    share_balance: u64,
    holder_usdc: u64,
) -> Option<HotelError> {
    if vault == 0 {
        Some(HotelError::NoProfitToDistribute)
    } else if total_supply == 0 {
        Some(HotelError::NoSharesOutstanding)
    } else if holder_payout(vault, total_supply, share_balance) > u64::MAX {
        Some(HotelError::ArithmeticOverflow)
    } else if holder_payout(vault, total_supply, share_balance) > vault {
        Some(HotelError::InsufficientBalance)
    } else if holder_usdc + holder_payout(vault, total_supply, share_balance) > u64::MAX {
        Some(HotelError::ArithmeticOverflow)
    } else {
        None
    }
}

} // verus!
