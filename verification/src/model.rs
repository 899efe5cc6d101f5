//! A whole-system model of the pool, for stating and proving the laws that
//! span holders and operation sequences.
//!
//! The per-operation functions in [`crate::ops`] each see only the balances
//! of one holder. The `Ledger` here carries every holder's balances at once,
//! and `step` applies one operation to it by exactly the rules of
//! [`crate::rules`] — the same acceptance tests and the same arithmetic —
//! so what is proved of runs of this model is proved of the accounting the
//! operations implement.

use vstd::prelude::*;

use crate::rules::{book_error, distribute_error, holder_payout, invest_error};
use crate::state::HotelError;

verus! {

/// One pool operation, named by the identities of the accounts it touches.
pub enum Op {
    /// Deposit `amount` of stable asset and mint as many shares.
    Invest { investor: int, amount: u64 },
    /// Pay `price` of stable asset into the vault.
    BookRoom { tourist: int, price: u64 },
    /// Pay one holder's pro-rata profit out of the vault.
    DistributeProfits { holder: int },
}

/// The whole system: the share supply, the vault balance, and every
/// holder's share and stable-asset balances. The vault's own stable-asset
/// account stands apart from the holder accounts in `usdc`.
pub struct Ledger {
    /// Pool shares outstanding.
    pub total_supply: u64,
    /// Stable-asset balance of the pool vault.
    pub vault: u64,
    /// Each holder's pool-share balance.
    pub shares: Map<int, u64>,
    /// Each holder's stable-asset balance.
    pub usdc: Map<int, u64>,
}

/// A holder's balance in a balance map: what the map holds, or zero for a
/// holder the map has never seen.
pub open spec fn bal(m: Map<int, u64>, who: int) -> u64 {
    if m.dom().contains(who) {
        m[who]
    } else {
        0
    }
}

/// Which error, if any, refuses `op` in state `s` — the rules of
/// [`crate::rules`], read on the balances of the accounts `op` names.
pub open spec fn op_error(s: Ledger, op: Op) -> Option<HotelError> {
    match op {
        Op::Invest { investor, amount } => invest_error(
            bal(s.usdc, investor),
            bal(s.shares, investor),
            s.total_supply,
            s.vault,
            amount,
        ),
        Op::BookRoom { tourist, price } => book_error(bal(s.usdc, tourist), s.vault, price),
        Op::DistributeProfits { holder } => distribute_error(
            s.vault,
            s.total_supply,
            bal(s.shares, holder),
            bal(s.usdc, holder),
        ),
    }
}

/// The state after `op`: the committed movements when `op` is accepted, and
/// `s` itself — all or nothing — when it is refused.
pub open spec fn step(s: Ledger, op: Op) -> Ledger {
    if op_error(s, op) is Some {
        s
    } else {
        match op {
            Op::Invest { investor, amount } => Ledger {
                total_supply: (s.total_supply + amount) as u64,
                vault: (s.vault + amount) as u64,
                shares: s.shares.insert(investor, (bal(s.shares, investor) + amount) as u64),
                usdc: s.usdc.insert(investor, (bal(s.usdc, investor) - amount) as u64),
            },
            Op::BookRoom { tourist, price } => Ledger {
                total_supply: s.total_supply,
                vault: (s.vault + price) as u64,
                shares: s.shares,
                usdc: s.usdc.insert(tourist, (bal(s.usdc, tourist) - price) as u64),
            },
            Op::DistributeProfits { holder } => Ledger {
                total_supply: s.total_supply,
                vault: (s.vault - holder_payout(s.vault, s.total_supply, bal(s.shares, holder)))
                    as u64,
                shares: s.shares,
                usdc: s.usdc.insert(
                    holder,
                    (bal(s.usdc, holder) + holder_payout(
                        s.vault,
                        s.total_supply,
                        bal(s.shares, holder),
                    )) as u64,
                ),
            },
        }
    }
}

/// The state after a whole sequence of operations, first to last.
pub open spec fn run(s: Ledger, ops: Seq<Op>) -> Ledger
    decreases ops.len(),
{
    if ops.len() == 0 {
        s
    } else {
        run(step(s, ops[0]), ops.drop_first())
    }
}

/// What `op` mints in state `s`: the deposit of an accepted investment —
/// shares are minted 1:1 against it — and zero for anything else.
pub open spec fn op_minted(s: Ledger, op: Op) -> int {
    match op {
        Op::Invest { amount, .. } => if op_error(s, op) is None {
            amount as int
        } else {
            0
        },
        _ => 0,
    }
}

/// What `op` mints for holder `who` in state `s`.
pub open spec fn op_minted_for(s: Ledger, op: Op, who: int) -> int {
    match op {
        Op::Invest { investor, amount } => if investor == who && op_error(s, op) is None {
            amount as int
        } else {
            0
        },
        _ => 0,
    }
}

/// What `op` pays into the vault as a booking in state `s`.
pub open spec fn op_booked(s: Ledger, op: Op) -> int {
    match op {
        Op::BookRoom { price, .. } => if op_error(s, op) is None {
            price as int
        } else {
            0
        },
        _ => 0,
    }
}

/// What `op` pays out of the vault as a distribution in state `s`.
pub open spec fn op_paid(s: Ledger, op: Op) -> int {
    match op {
        Op::DistributeProfits { holder } => if op_error(s, op) is None {
            holder_payout(s.vault, s.total_supply, bal(s.shares, holder))
        } else {
            0
        },
        _ => 0,
    }
}

/// Sum of the amounts the accepted investments of a run mint (equally: the
/// amounts they deposit, the rate being 1:1).
pub open spec fn minted_total(s: Ledger, ops: Seq<Op>) -> int
    decreases ops.len(),
{
    if ops.len() == 0 {
        0
    } else {
        op_minted(s, ops[0]) + minted_total(step(s, ops[0]), ops.drop_first())
    }
}

/// Sum of the amounts the accepted investments of a run mint for `who`.
pub open spec fn minted_total_for(s: Ledger, ops: Seq<Op>, who: int) -> int
    decreases ops.len(),
{
    if ops.len() == 0 {
        0
    } else {
        op_minted_for(s, ops[0], who) + minted_total_for(step(s, ops[0]), ops.drop_first(), who)
    }
}

/// Sum of the prices the accepted bookings of a run pay into the vault.
pub open spec fn booked_total(s: Ledger, ops: Seq<Op>) -> int
    decreases ops.len(),
{
    if ops.len() == 0 {
        0
    } else {
        op_booked(s, ops[0]) + booked_total(step(s, ops[0]), ops.drop_first())
    }
}

/// Sum of the payouts the accepted distributions of a run take from the vault.
pub open spec fn paid_total(s: Ledger, ops: Seq<Op>) -> int
    decreases ops.len(),
{
    if ops.len() == 0 {
        0
    } else {
        op_paid(s, ops[0]) + paid_total(step(s, ops[0]), ops.drop_first())
    }
}

} // verus!
