//! The laws of the pool's accounting, stated over the whole-system model of
//! [`crate::model`] and proved for arbitrary starting states and arbitrary
//! operation sequences.

use vstd::prelude::*;

use vstd::arithmetic::div_mod::{
    lemma_div_is_ordered, lemma_div_pos_is_pos, lemma_fundamental_div_mod, lemma_mod_bound,
};
use vstd::arithmetic::mul::{lemma_mul_inequality, lemma_mul_is_commutative, lemma_mul_nonnegative};

use crate::model::{
    bal, booked_total, minted_total, minted_total_for, op_error, paid_total, run, step, Ledger, Op,
};
use crate::rules::{distribute_error, holder_payout, profit_per_share};
use crate::state::HotelError;

verus! {

/// A payout is never negative: the per-share rate is a floor division of
/// non-negative values, and the share balance is non-negative.
pub proof fn lemma_holder_payout_nonneg(vault: u64, total_supply: u64, share_balance: u64)
    requires
        total_supply > 0,
    ensures
        0 <= holder_payout(vault, total_supply, share_balance),
{
    lemma_div_pos_is_pos(vault as int, total_supply as int);
    lemma_mul_nonnegative(profit_per_share(vault, total_supply), share_balance as int);
}

/// A payout never exceeds the vault while the holder owns at most the whole
/// supply: rate times balance is at most rate times supply, which the
/// fundamental law of floor division bounds by the vault.
pub proof fn lemma_holder_payout_le_vault(vault: u64, total_supply: u64, share_balance: u64)
    requires
        total_supply > 0,
        share_balance <= total_supply,
    ensures
        holder_payout(vault, total_supply, share_balance) <= vault,
{
    let q = profit_per_share(vault, total_supply);
    lemma_div_pos_is_pos(vault as int, total_supply as int);
    lemma_mul_inequality(share_balance as int, total_supply as int, q);
    lemma_mul_is_commutative(share_balance as int, q);
    lemma_mul_is_commutative(total_supply as int, q);
    lemma_fundamental_div_mod(vault as int, total_supply as int);
    lemma_mod_bound(vault as int, total_supply as int);
}

/// When success is owed: a distribution is refused on no ground but the four
/// its rules name, so with profit in the vault, shares outstanding, a holder
/// owning at most the whole supply, and room in the holder's account for the
/// payout, it goes through, and pays at most the vault.
pub proof fn lemma_distribute_succeeds(
    vault: u64,
    total_supply: u64,
    share_balance: u64,
    holder_usdc: u64,
)
    requires
        vault > 0,
        total_supply > 0,
        share_balance <= total_supply,
        holder_usdc + holder_payout(vault, total_supply, share_balance) <= u64::MAX,
    ensures
        distribute_error(vault, total_supply, share_balance, holder_usdc) is None,
        0 <= holder_payout(vault, total_supply, share_balance) <= vault,
{
    lemma_holder_payout_nonneg(vault, total_supply, share_balance);
    lemma_holder_payout_le_vault(vault, total_supply, share_balance);
}

/// No-profit guard: with an empty vault a distribution fails with
/// `NoProfitToDistribute` and changes nothing, whoever the holder.
pub proof fn lemma_no_profit_guard(s: Ledger, holder: int)
    requires
        s.vault == 0,
    ensures
        op_error(s, Op::DistributeProfits { holder }) == Some(HotelError::NoProfitToDistribute),
        step(s, Op::DistributeProfits { holder }) == s,
{
}

/// Zero-supply guard: with profit in the vault but no shares outstanding a
/// distribution fails with `NoSharesOutstanding` — no division happens —
/// and changes nothing, whoever the holder.
pub proof fn lemma_zero_supply_guard(s: Ledger, holder: int)
    requires
        s.vault > 0,
        s.total_supply == 0,
    ensures
        op_error(s, Op::DistributeProfits { holder }) == Some(HotelError::NoSharesOutstanding),
        step(s, Op::DistributeProfits { holder }) == s,
{
}

/// Atomicity: an operation that is refused, on whatever ground, leaves the
/// whole system exactly as it was — no partial state is ever observable.
pub proof fn lemma_refused_op_changes_nothing(s: Ledger, op: Op)
    requires
        op_error(s, op) is Some,
    ensures
        step(s, op) == s,
{
}

/// An accepted investment moves exactly what its contract names: the deposit
/// from the investor's stable-asset account into the vault, as many shares
/// into the investor's share account and onto the supply — and not one unit
/// on any other account.
pub proof fn lemma_invest_step_effect(s: Ledger, investor: int, amount: u64)
    requires
        op_error(s, Op::Invest { investor, amount }) is None,
    ensures
        ({
            let t = step(s, Op::Invest { investor, amount });
            &&& t.total_supply == s.total_supply + amount
            &&& t.vault == s.vault + amount
            &&& bal(t.shares, investor) == bal(s.shares, investor) + amount
            &&& bal(t.usdc, investor) == bal(s.usdc, investor) - amount
            &&& forall|w: int|
                w != investor ==> bal(t.shares, w) == bal(s.shares, w) && bal(t.usdc, w) == bal(
                    s.usdc,
                    w,
                )
        }),
{
}

/// An accepted booking moves exactly the price from the tourist's
/// stable-asset account into the vault; shares, supply and every other
/// account stay as they were.
pub proof fn lemma_book_step_effect(s: Ledger, tourist: int, price: u64)
    requires
        op_error(s, Op::BookRoom { tourist, price }) is None,
    ensures
        ({
            let t = step(s, Op::BookRoom { tourist, price });
            &&& t.total_supply == s.total_supply
            &&& t.vault == s.vault + price
            &&& t.shares == s.shares
            &&& bal(t.usdc, tourist) == bal(s.usdc, tourist) - price
            &&& forall|w: int| w != tourist ==> bal(t.usdc, w) == bal(s.usdc, w)
        }),
{
}

/// An accepted distribution moves exactly the holder's payout from the vault
/// into the holder's stable-asset account; the supply, every share balance,
/// and every other stable-asset account stay as they were.
pub proof fn lemma_distribute_step_effect(s: Ledger, holder: int)
    requires
        op_error(s, Op::DistributeProfits { holder }) is None,
    ensures
        ({
            let t = step(s, Op::DistributeProfits { holder });
            let payout = holder_payout(s.vault, s.total_supply, bal(s.shares, holder));
            &&& t.total_supply == s.total_supply
            &&& t.vault == s.vault - payout
            &&& t.shares == s.shares
            &&& bal(t.usdc, holder) == bal(s.usdc, holder) + payout
            &&& forall|w: int| w != holder ==> bal(t.usdc, w) == bal(s.usdc, w)
        }),
{
    lemma_holder_payout_nonneg(s.vault, s.total_supply, bal(s.shares, holder));
}

/// Rate drift across sequential calls is downward: the per-share rate is
/// recomputed from the live vault on every call, so after one holder is paid
/// the rate the next caller sees is never higher — and usually lower, as
/// when a vault of 100 over two shares pays the first holder at 50 and the
/// second at 25. It need not be strictly lower even when the first payout
/// drained something: a vault of 3 over two shares pays the first holder 1
/// and still rates the second call at floor(2 / 2) = 1.
pub proof fn lemma_rate_drift_is_downward(s: Ledger, holder: int)
    requires
        s.total_supply > 0,
    ensures
        profit_per_share(step(s, Op::DistributeProfits { holder }).vault, s.total_supply)
            <= profit_per_share(s.vault, s.total_supply),
{
    let op = Op::DistributeProfits { holder };
    if op_error(s, op) is None {
        lemma_holder_payout_nonneg(s.vault, s.total_supply, bal(s.shares, holder));
        lemma_div_is_ordered(step(s, op).vault as int, s.vault as int, s.total_supply as int);
    }
}

/// Supply conservation, first half: over any sequence of operations the
/// shares outstanding grow by exactly the sum of the amounts the accepted
/// investments mint; bookings and distributions never touch the supply.
pub proof fn lemma_supply_conservation(s: Ledger, ops: Seq<Op>)
    ensures
        run(s, ops).total_supply == s.total_supply + minted_total(s, ops),
    decreases ops.len(),
{
    if ops.len() == 0 {
    } else {
        lemma_supply_conservation(step(s, ops[0]), ops.drop_first());
    }
}

/// Supply conservation, second half: over any sequence of operations each
/// holder's share balance grows by exactly the sum of that holder's accepted
/// deposits — the mint rate being 1:1 — and nothing else moves it.
pub proof fn lemma_holder_share_conservation(s: Ledger, ops: Seq<Op>, who: int)
    ensures
        bal(run(s, ops).shares, who) == bal(s.shares, who) + minted_total_for(s, ops, who),
    decreases ops.len(),
{
    if ops.len() == 0 {
    } else {
        lemma_holder_share_conservation(step(s, ops[0]), ops.drop_first(), who);
    }
}

/// Vault conservation: after any sequence of operations the vault balance is
/// what it began with, plus every accepted investment, plus every accepted
/// booking, minus every payout the accepted distributions made.
pub proof fn lemma_vault_conservation(s: Ledger, ops: Seq<Op>)
    ensures
        run(s, ops).vault == s.vault + minted_total(s, ops) + booked_total(s, ops) - paid_total(
            s,
            ops,
        ),
    decreases ops.len(),
{
    if ops.len() == 0 {
    } else {
        let op = ops[0];
        match op {
            Op::DistributeProfits { holder } => {
                if op_error(s, op) is None {
                    lemma_holder_payout_nonneg(s.vault, s.total_supply, bal(s.shares, holder));
                }
            },
            _ => {},
        }
        lemma_vault_conservation(step(s, op), ops.drop_first());
    }
}

} // verus!
