use vstd::prelude::*;

use crate::contract::{
    deposit_fits, deposit_outcome, initialize_outcome, quote_fits, quote_outcome, release_fits,
    release_outcome, withdraw_fits, withdraw_outcome, Deposited, Payout,
};
use crate::penalty::tier_bps;
use crate::types::{is_open, record_or_empty, total_or_zero, BorrowerRecord, EscrowConfig, EscrowError};

verus! {

// What each operation does, stated directly over its inputs and results.

/// The penalty tier of a month count: months 1-2 pay tier 1, months 3-4
/// tier 2, months 5-6 tier 3, and every month from the 7th on tier 4.
pub proof fn law_tier_of_month<A>(config: EscrowConfig<A>, m: int)
    ensures
        1 <= m <= 2 ==> tier_bps(config, m) == config.penalty_bps_tier1,
        3 <= m <= 4 ==> tier_bps(config, m) == config.penalty_bps_tier2,
        5 <= m <= 6 ==> tier_bps(config, m) == config.penalty_bps_tier3,
        m >= 7 ==> tier_bps(config, m) == config.penalty_bps_tier4,
{
}

/// The rate a borrower is charged, by ledgers since the first deposit: less
/// than two months' worth of ledgers after `start_ledger` (or a ledger at or
/// before it) is tier 1, then two months each of tier 2 and tier 3, and from
/// six months' worth of ledgers on, tier 4. The quote reports that rate,
/// and `withdraw` charges the same rate.
pub proof fn law_rate_by_ledgers_since_start<A>(
    config: EscrowConfig<A>,
    rec: BorrowerRecord,
    total: int,
    ledger: u32,
)
    requires
        rec.deposited != 0,
        quote_fits(config, rec, ledger),
    ensures
        quote_outcome(config, rec, ledger) matches Ok((rate, _)) && {
            let s = rec.start_ledger as int;
            let l = ledger as int;
            &&& l < s + 2 * 518_400 ==> rate == config.penalty_bps_tier1
            &&& s + 2 * 518_400 <= l < s + 4 * 518_400 ==> rate == config.penalty_bps_tier2
            &&& s + 4 * 518_400 <= l < s + 6 * 518_400 ==> rate == config.penalty_bps_tier3
            &&& s + 6 * 518_400 <= l ==> rate == config.penalty_bps_tier4
        },
{
    let s = rec.start_ledger as int;
    let l = ledger as int;
    if l > s {
        let d = l - s;
        assert(d < 2 * 518_400 ==> d / 518_400 <= 1);
        assert(2 * 518_400 <= d < 4 * 518_400 ==> 2 <= d / 518_400 <= 3);
        assert(4 * 518_400 <= d < 6 * 518_400 ==> 4 <= d / 518_400 <= 5);
        assert(6 * 518_400 <= d ==> 6 <= d / 518_400);
    }
}

/// The quoted rate and refund depend on the ledger only through the ledgers
/// elapsed since the borrower's first deposit: moving the start ledger and
/// the current ledger by the same amount changes nothing.
pub proof fn law_quote_is_shift_invariant<A>(
    config: EscrowConfig<A>,
    rec: BorrowerRecord,
    ledger: u32,
    shift: u32,
)
    requires
        rec.start_ledger + shift <= u32::MAX,
        ledger + shift <= u32::MAX,
    ensures
        quote_outcome(
            config,
            BorrowerRecord { start_ledger: (rec.start_ledger + shift) as u32, ..rec },
            (ledger + shift) as u32,
        ) == quote_outcome(config, rec, ledger),
{
}

/// The refund a withdrawal pays (and the quote reports) is the deposit minus
/// `deposit * rate / 10_000`, the division rounding toward zero; for a
/// non-negative deposit, exactly `deposit - deposit * rate / 10_000`.
pub proof fn law_refund_formula<A>(config: EscrowConfig<A>, rec: BorrowerRecord, ledger: u32)
    requires
        quote_fits(config, rec, ledger),
    ensures
        quote_outcome(config, rec, ledger) matches Ok((rate, refund)) ==> {
            let d = rec.deposited as int;
            let r = rate as int;
            &&& d >= 0 ==> refund == d - (d * r) / 10_000
            &&& d < 0 ==> refund == d + ((-d) * r) / 10_000
        },
{
    if quote_outcome(config, rec, ledger) is Ok {
        let d = rec.deposited as int;
        let r = tier_bps(config, crate::penalty::months_since(rec.start_ledger, ledger)) as int;
        assert(d >= 0 ==> d * r >= 0) by (nonlinear_arith)
            requires
                r >= 0,
        ;
        assert(d < 0 ==> (-d) * r == -(d * r)) by (nonlinear_arith);
    }
}

/// A withdrawal pays exactly what the quote at the same ledger reports, and
/// succeeds on every open record holding a deposit: it takes the whole
/// deposit out of the pool and closes the record as withdrawn.
pub proof fn law_withdraw_succeeds_on_open_records<A>(
    config: EscrowConfig<A>,
    rec: BorrowerRecord,
    total: int,
    ledger: u32,
)
    requires
        withdraw_fits(config, rec, total, ledger),
    ensures
        (withdraw_outcome(config, rec, total, ledger) is Ok) == (rec.deposited != 0 && is_open(rec)),
        withdraw_outcome(config, rec, total, ledger) matches Ok(p) ==> {
            &&& (quote_outcome(config, rec, ledger) matches Ok((_, refund)) && p.amount == refund)
            &&& p.total_pooled == total - rec.deposited
            &&& p.record.deposited == 0
            &&& p.record.withdrawn && !p.record.released
            &&& p.record.start_ledger == rec.start_ledger
        },
        rec.deposited == 0 ==> withdraw_outcome(config, rec, total, ledger) == Err::<Payout, EscrowError>(
            EscrowError::BorrowerNotFound,
        ),
        rec.deposited != 0 && rec.released ==> withdraw_outcome(config, rec, total, ledger) == Err::<
            Payout,
            EscrowError,
        >(EscrowError::AlreadyReleased),
        rec.deposited != 0 && !rec.released && rec.withdrawn ==> withdraw_outcome(
            config,
            rec,
            total,
            ledger,
        ) == Err::<Payout, EscrowError>(EscrowError::AlreadyWithdrawn),
{
}

/// A positive deposit on a record that is neither released nor withdrawn
/// succeeds at any ledger and whatever the balance already held: the
/// balance and the pooled total grow by the amount, the record stays open,
/// and its start ledger is the ledger of the borrower's first deposit.
/// Every other deposit is refused: a non-positive amount with
/// `InvalidAmount`, then a released record, then a withdrawn one.
pub proof fn law_deposit_succeeds_on_open_records(
    rec: BorrowerRecord,
    total: i128,
    amount: i128,
    ledger: u32,
)
    requires
        deposit_fits(rec, total as int, amount),
    ensures
        amount > 0 && is_open(rec) ==> (deposit_outcome(rec, total as int, amount, ledger) matches Ok(d)
            && {
            &&& d.record.deposited == rec.deposited + amount
            &&& d.total_pooled == total + amount
            &&& !d.record.released && !d.record.withdrawn
            &&& d.record.start_ledger == (if rec.deposited == 0 {
                ledger
            } else {
                rec.start_ledger
            })
        }),
        amount <= 0 ==> deposit_outcome(rec, total as int, amount, ledger) == Err::<Deposited, EscrowError>(
            EscrowError::InvalidAmount,
        ),
        amount > 0 && rec.released ==> deposit_outcome(rec, total as int, amount, ledger) == Err::<
            Deposited,
            EscrowError,
        >(EscrowError::AlreadyReleased),
        amount > 0 && !rec.released && rec.withdrawn ==> deposit_outcome(rec, total as int, amount, ledger)
            == Err::<Deposited, EscrowError>(EscrowError::AlreadyWithdrawn),
{
}

/// Two deposits at different ledgers: whether a deposit succeeds, and the
/// balance and pooled total it leaves, do not depend on the ledger.
pub proof fn law_deposit_ignores_ledger_but_for_start(
    rec: BorrowerRecord,
    total: int,
    amount: i128,
    ledger1: u32,
    ledger2: u32,
)
    ensures
        (deposit_outcome(rec, total, amount, ledger1) is Ok) == (deposit_outcome(
            rec,
            total,
            amount,
            ledger2,
        ) is Ok),
        deposit_outcome(rec, total, amount, ledger1) matches Ok(d1) ==> (deposit_outcome(
            rec,
            total,
            amount,
            ledger2,
        ) matches Ok(d2) && d1.total_pooled == d2.total_pooled && d1.record.deposited
            == d2.record.deposited),
        deposit_outcome(rec, total, amount, ledger1) matches Err(e1) ==> deposit_outcome(
            rec,
            total,
            amount,
            ledger2,
        ) == Err::<Deposited, EscrowError>(e1),
{
}

/// A release of an open record holding at least the savings target (and a
/// nonzero amount) succeeds whatever the pooled total holds for other
/// borrowers: it pays out the whole deposit, takes it out of the pool and
/// closes the record as released. A release is refused exactly when the
/// record holds nothing, is closed, or is below the target.
pub proof fn law_release_succeeds_at_target<A>(config: EscrowConfig<A>, rec: BorrowerRecord, total: int)
    requires
        release_fits(rec, total),
    ensures
        (release_outcome(config, rec, total) is Ok) == (rec.deposited != 0 && is_open(rec)
            && rec.deposited >= config.savings_target),
        release_outcome(config, rec, total) matches Ok(p) ==> {
            &&& p.amount == rec.deposited
            &&& p.total_pooled == total - rec.deposited
            &&& p.record.deposited == 0
            &&& p.record.released && !p.record.withdrawn
            &&& p.record.start_ledger == rec.start_ledger
        },
        rec.deposited == 0 ==> release_outcome(config, rec, total) == Err::<Payout, EscrowError>(
            EscrowError::BorrowerNotFound,
        ),
        rec.deposited != 0 && is_open(rec) && rec.deposited < config.savings_target
            ==> release_outcome(config, rec, total) == Err::<Payout, EscrowError>(
            EscrowError::TargetNotReached,
        ),
{
}

/// Whether a release succeeds, and what it pays, do not depend on the pooled
/// total; only the total it leaves does, by the amount paid.
pub proof fn law_release_ignores_pool<A>(
    config: EscrowConfig<A>,
    rec: BorrowerRecord,
    total1: int,
    total2: int,
)
    ensures
        (release_outcome(config, rec, total1) is Ok) == (release_outcome(config, rec, total2) is Ok),
        release_outcome(config, rec, total1) matches Ok(p1) ==> (release_outcome(
            config,
            rec,
            total2,
        ) matches Ok(p2) && p1.amount == p2.amount && p1.record == p2.record),
{
}

/// Initializing an escrow that has no configuration yet, with a positive
/// savings target, succeeds for any admin, token, duration and penalty
/// tiers, stores exactly the configuration given, and starts the pool at 0.
/// A non-positive target is refused with `InvalidAmount`, and a second
/// initialization with `AlreadyInitialized`.
pub proof fn law_initialize_accepts_any_tiers<A>(config: EscrowConfig<A>)
    ensures
        config.savings_target > 0 ==> initialize_outcome(false, config) == Ok::<
            (EscrowConfig<A>, i128),
            EscrowError,
        >((config, 0)),
        config.savings_target <= 0 ==> initialize_outcome(false, config) == Err::<
            (EscrowConfig<A>, i128),
            EscrowError,
        >(EscrowError::InvalidAmount),
        initialize_outcome(true, config) == Err::<(EscrowConfig<A>, i128), EscrowError>(
            EscrowError::AlreadyInitialized,
        ),
{
}

/// What the queries read back: a stored record or total is returned as
/// stored; a borrower never seen has a zero balance, start ledger 0 and is
/// neither released nor withdrawn; a pool never written holds 0.
pub proof fn law_reads_of_storage(stored: BorrowerRecord, total: i128)
    ensures
        record_or_empty(Some(stored)) == stored,
        record_or_empty(None) == (BorrowerRecord {
            deposited: 0,
            start_ledger: 0,
            released: false,
            withdrawn: false,
        }),
        total_or_zero(Some(total)) == total,
        total_or_zero(None) == 0,
{
}

/// A quote is refused exactly for a record holding no deposit; any record
/// holding one, open or closed, gets a quote.
pub proof fn law_quote_needs_a_deposit<A>(config: EscrowConfig<A>, rec: BorrowerRecord, ledger: u32)
    ensures
        (quote_outcome(config, rec, ledger) is Ok) == (rec.deposited != 0),
        rec.deposited == 0 ==> quote_outcome(config, rec, ledger) == Err::<(u32, i128), EscrowError>(
            EscrowError::BorrowerNotFound,
        ),
{
}

} // verus!
