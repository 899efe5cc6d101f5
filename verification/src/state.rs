//! The pool ledger record, the account views each operation works on, the
//! audit-trail events, and the error taxonomy.
//!
//! Account identities and balances are plain `u64` values: the external
//! token runtime owns the real accounts, and the accounting here reads and
//! writes nothing of them but the balance and the identity.

use vstd::prelude::*;

verus! {

/// The pool ledger record, created once and mutated by every investment.
#[derive(Clone, Copy, Debug, PartialEq, Eq, Structural)]
pub struct Hotel {
    /// Identity permitted to administer the pool.
    pub authority: u64,
    /// Pool shares outstanding; grows 1:1 with deposits, never shrinks.
    pub total_supply: u64,
    /// Identity of the account holding the pooled stable-asset balance.
    pub usdc_vault: u64,
}

/// Configuration handed to the external share-token initializer at pool
/// creation; recorded nowhere in the ledger, only passed through.
#[derive(Clone, Copy, Debug, PartialEq, Eq, Structural)]
pub struct MintConfig {
    /// Transfer fee, in basis points, to configure on the share token.
    pub transfer_fee_basis_points: u16,
    /// Interest rate to configure on the share token.
    pub interest_rate: i16,
}

/// Identities read by pool creation.
#[derive(Clone, Copy, Debug, PartialEq, Eq, Structural)]
pub struct Initialize {
    /// Identity of the pool's administrator.
    pub authority: u64,
    /// Identity of the vault account.
    pub usdc_vault: u64,
}

/// Balances read and written by one investment.
#[derive(Clone, Copy, Debug, PartialEq, Eq, Structural)]
pub struct Invest {
    /// The pool ledger record.
    pub hotel: Hotel,
    /// Identity of the investor.
    pub investor: u64,
    /// Stable-asset balance of the investor's account.
    pub investor_usdc_account: u64,
    /// Share balance of the investor's pool-share account.
    pub investor_hotel_token_account: u64,
    /// Stable-asset balance of the pool vault.
    pub usdc_vault: u64,
}

/// Balances read and written by one booking payment.
#[derive(Clone, Copy, Debug, PartialEq, Eq, Structural)]
pub struct BookRoom {
    /// The pool ledger record.
    pub hotel: Hotel,
    /// Identity of the paying tourist.
    pub tourist: u64,
    /// Stable-asset balance of the tourist's account.
    pub tourist_usdc_account: u64,
    /// Stable-asset balance of the pool vault.
    pub usdc_vault: u64,
}

/// Balances read and written by one profit distribution.
#[derive(Clone, Copy, Debug, PartialEq, Eq, Structural)]
pub struct DistributeProfits {
    /// The pool ledger record.
    pub hotel: Hotel,
    /// Identity of the holder being paid.
    pub investor: u64,
    /// Share balance of the holder's pool-share account.
    pub investor_hotel_token_account: u64,
    /// Stable-asset balance of the holder's account.
    pub investor_usdc_account: u64,
    /// Stable-asset balance of the pool vault.
    pub usdc_vault: u64,
}

/// Why an operation was refused. Every error aborts the whole operation
/// with no state change.
#[derive(Clone, Copy, Debug, PartialEq, Eq, Structural)]
pub enum HotelError {
    /// The vault holds nothing, so there is no profit to distribute.
    NoProfitToDistribute,
    /// No shares are outstanding, so a per-share rate cannot be computed.
    NoSharesOutstanding,
    /// A balance or supply computation would leave the `u64` range.
    ArithmeticOverflow,
    /// A source account holds less than the operation must move.
    InsufficientBalance,
}

/// Audit record of a successful investment.
#[derive(Clone, Copy, Debug, PartialEq, Eq, Structural)]
pub struct InvestmentEvent {
    /// Identity of the investor.
    pub investor: u64,
    /// Stable-asset units deposited.
    pub usdc_amount: u64,
    /// Shares minted for the deposit; always equal to the deposit (1:1).
    pub hotel_tokens: u64,
}

/// Audit record of a successful booking payment.
#[derive(Clone, Copy, Debug, PartialEq, Eq, Structural)]
pub struct BookingEvent {
    /// Identity of the paying tourist.
    pub tourist: u64,
    /// Stable-asset units paid into the vault.
    pub price: u64,
}

/// Audit record of a successful profit distribution.
#[derive(Clone, Copy, Debug, PartialEq, Eq, Structural)]
pub struct ProfitDistributionEvent {
    /// Identity of the holder paid.
    pub investor: u64,
    /// Stable-asset units paid out of the vault.
    pub amount: u64,
}

} // verus!
