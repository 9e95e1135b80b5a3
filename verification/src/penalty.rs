use vstd::prelude::*;

use crate::types::{EscrowConfig, BPS_DENOMINATOR, LEDGERS_PER_MONTH};

verus! {

/// Months elapsed since `start` at ledger `current`, counted from 1: the
/// first `LEDGERS_PER_MONTH` ledgers after the start are month 1, and a
/// ledger at or before the start is month 1 too.
pub open spec fn months_since(start: u32, current: u32) -> int {
    if current > start {
        1 + (current - start) / (LEDGERS_PER_MONTH as int)
    } else {
        1
    }
}

/// The penalty tier in effect in a given month: tier 1 for months 1-2,
/// tier 2 for months 3-4, tier 3 for months 5-6 and tier 4 from month 7 on.
pub open spec fn tier_bps<A>(config: EscrowConfig<A>, months: int) -> u32 {
    if months <= 2 {
        config.penalty_bps_tier1
    } else if months <= 4 {
        config.penalty_bps_tier2
    } else if months <= 6 {
        config.penalty_bps_tier3
    } else {
        config.penalty_bps_tier4
    }
}

/// Integer division rounding toward zero, as Rust's `/` does, for `d > 0`.
pub open spec fn div_toward_zero(a: int, d: int) -> int
    recommends
        d > 0,
{
    if a >= 0 {
        a / d
    } else {
        -((-a) / d)
    }
}

/// The penalty kept on an early withdrawal of `deposited` at `bps` basis points.
pub open spec fn penalty_amount(deposited: int, bps: int) -> int {
    div_toward_zero(deposited * bps, BPS_DENOMINATOR as int)
}

/// What is paid back on an early withdrawal of `deposited` at `bps` basis points.
pub open spec fn refund_amount(deposited: int, bps: int) -> int {
    deposited - penalty_amount(deposited, bps)
}

/// `deposited * bps` can be computed in an `i128`.
pub open spec fn product_fits(deposited: i128, bps: u32) -> bool {
    i128::MIN <= deposited * bps <= i128::MAX
}

/// Months elapsed since the ledger `start_ledger`, at `current_ledger`.
pub fn months_elapsed(start_ledger: u32, current_ledger: u32) -> (months: u32)
    ensures
        months == months_since(start_ledger, current_ledger),
        months >= 1,
        current_ledger <= start_ledger ==> months == 1,
        current_ledger > start_ledger ==> (months - 1) * LEDGERS_PER_MONTH <= current_ledger
            - start_ledger < months * LEDGERS_PER_MONTH,
{
    let mut months: u32 = 1;
    if current_ledger > start_ledger {
        let diff: u32 = current_ledger - start_ledger;
        months = 1 + diff / LEDGERS_PER_MONTH;
    }
    months
}

/// The penalty, in basis points, that `config` sets for the given month.
pub fn penalty_bps_for<A>(config: &EscrowConfig<A>, months: u32) -> (bps: u32)
    ensures
        bps == tier_bps(*config, months as int),
        months <= 2 ==> bps == config.penalty_bps_tier1,
        3 <= months <= 4 ==> bps == config.penalty_bps_tier2,
        5 <= months <= 6 ==> bps == config.penalty_bps_tier3,
        months >= 7 ==> bps == config.penalty_bps_tier4,
{
    if months <= 2 {
        config.penalty_bps_tier1
    } else if months <= 4 {
        config.penalty_bps_tier2
    } else if months <= 6 {
        config.penalty_bps_tier3
    } else {
        config.penalty_bps_tier4
    }
}

/// Splits `deposited` into the penalty kept at `bps` basis points and the refund.
pub fn penalty_split(deposited: i128, bps: u32) -> (split: (i128, i128))
    requires
        product_fits(deposited, bps),
    ensures
        split.0 == penalty_amount(deposited as int, bps as int),
        split.1 == refund_amount(deposited as int, bps as int),
{
    proof {
        let d = deposited as int;
        let b = bps as int;
        assert(d >= 0 ==> d * b >= 0) by (nonlinear_arith)
            requires b >= 0;
        assert(d < 0 ==> d * b <= 0) by (nonlinear_arith)
            requires b >= 0;
    }
    let product: i128 = deposited * (bps as i128);
    let penalty: i128 = product / BPS_DENOMINATOR;
    assert(penalty == div_toward_zero(product as int, 10000));
    let refund: i128 = deposited - penalty;
    (penalty, refund)
}

} // verus!
