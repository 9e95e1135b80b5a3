use vstd::prelude::*;

use crate::contract::{
    current_bps, deposit_fits, deposit_outcome, initialize_outcome, quote_outcome, release_fits,
    release_outcome, withdraw_fits, withdraw_outcome,
};
use crate::penalty::{months_since, penalty_amount, product_fits};
use crate::types::{
    empty_record, is_open, record_or_empty, total_or_zero, BorrowerRecord, EscrowConfig,
    EscrowError, BPS_DENOMINATOR,
};

verus! {

/// The sum of the deposits held for a list of borrowers.
pub open spec fn sum_deposited(records: Seq<BorrowerRecord>) -> int
    decreases records.len(),
{
    if records.len() == 0 {
        0
    } else {
        sum_deposited(records.drop_last()) + records.last().deposited
    }
}

/// The escrow's books balance: every borrower's deposit is non-negative and
/// the pooled total is the sum of all of them. `records` holds one record
/// per borrower (the empty record for a borrower never seen).
pub open spec fn pool_consistent(records: Seq<BorrowerRecord>, total: int) -> bool {
    &&& forall|i: int| 0 <= i < records.len() ==> #[trigger] records[i].deposited >= 0
    &&& total == sum_deposited(records)
}

/// Replacing one record changes the sum by the difference of the two deposits.
pub proof fn lemma_sum_update(records: Seq<BorrowerRecord>, i: int, r: BorrowerRecord)
    requires
        0 <= i < records.len(),
    ensures
        sum_deposited(records.update(i, r)) == sum_deposited(records) - records[i].deposited
            + r.deposited,
    decreases records.len(),
{
    let updated = records.update(i, r);
    if i == records.len() - 1 {
        assert(updated.drop_last() =~= records.drop_last());
    } else {
        lemma_sum_update(records.drop_last(), i, r);
        assert(updated.drop_last() =~= records.drop_last().update(i, r));
    }
}

/// With non-negative deposits, the sum is at least any single deposit.
pub proof fn lemma_sum_covers_each(records: Seq<BorrowerRecord>, i: int)
    requires
        0 <= i < records.len(),
        forall|j: int| 0 <= j < records.len() ==> #[trigger] records[j].deposited >= 0,
    ensures
        sum_deposited(records) >= records[i].deposited,
        sum_deposited(records) >= 0,
    decreases records.len(),
{
    let prefix = records.drop_last();
    assert forall|j: int| 0 <= j < prefix.len() implies #[trigger] prefix[j].deposited >= 0 by {
        assert(prefix[j] == records[j]);
    }
    if i < records.len() - 1 {
        lemma_sum_covers_each(prefix, i);
    } else if prefix.len() > 0 {
        lemma_sum_covers_each(prefix, 0);
    }
}

/// Borrowers nobody has deposited for add nothing to the pool.
pub proof fn lemma_sum_of_empty(records: Seq<BorrowerRecord>)
    requires
        forall|j: int| 0 <= j < records.len() ==> #[trigger] records[j] == empty_record(),
    ensures
        sum_deposited(records) == 0,
    decreases records.len(),
{
    if records.len() > 0 {
        let prefix = records.drop_last();
        assert forall|j: int| 0 <= j < prefix.len() implies #[trigger] prefix[j]
            == empty_record() by {
            assert(prefix[j] == records[j]);
        }
        lemma_sum_of_empty(prefix);
    }
}

/// A fresh escrow balances: the pooled total that `initialize` sets is the
/// sum of the deposits of borrowers that have none.
pub proof fn law_initialize_balances<A>(config: EscrowConfig<A>, records: Seq<BorrowerRecord>)
    requires
        forall|j: int| 0 <= j < records.len() ==> #[trigger] records[j] == empty_record(),
    ensures
        initialize_outcome(false, config) matches Ok((c, total)) ==> pool_consistent(
            records,
            total as int,
        ),
{
    lemma_sum_of_empty(records);
}

/// Initialization happens once: once a configuration is stored, every
/// further `initialize` is refused with `AlreadyInitialized`.
pub proof fn law_initialize_once<A>(config: EscrowConfig<A>)
    ensures
        initialize_outcome(true, config) == Err::<(EscrowConfig<A>, i128), EscrowError>(
            EscrowError::AlreadyInitialized,
        ),
{
}

/// A deposit keeps the books balanced: the borrower's deposit and the pooled
/// total both grow by the amount.
pub proof fn law_deposit_keeps_pool_balanced(
    records: Seq<BorrowerRecord>,
    i: int,
    total: i128,
    amount: i128,
    ledger: u32,
)
    requires
        0 <= i < records.len(),
        pool_consistent(records, total as int),
        deposit_fits(records[i], total as int, amount),
    ensures
        deposit_outcome(records[i], total as int, amount, ledger) matches Ok(d) ==> pool_consistent(
            records.update(i, d.record),
            d.total_pooled as int,
        ),
{
    if let Ok(d) = deposit_outcome(records[i], total as int, amount, ledger) {
        lemma_sum_update(records, i, d.record);
        let updated = records.update(i, d.record);
        assert forall|j: int| 0 <= j < updated.len() implies #[trigger] updated[j].deposited
            >= 0 by {
            if j != i {
                assert(updated[j] == records[j]);
            }
        }
    }
}

/// In a balanced escrow the pooled total covers every borrower's deposit,
/// so taking one deposit out of the pool never overflows: a release always
/// fits, and a withdrawal fits whenever its penalty product does.
pub proof fn law_balanced_pool_covers_payouts<A>(
    config: EscrowConfig<A>,
    records: Seq<BorrowerRecord>,
    i: int,
    total: i128,
    ledger: u32,
)
    requires
        0 <= i < records.len(),
        pool_consistent(records, total as int),
    ensures
        release_fits(records[i], total as int),
        0 <= total - records[i].deposited <= total,
        product_fits(records[i].deposited, current_bps(config, records[i], ledger)) ==> withdraw_fits(
            config,
            records[i],
            total as int,
            ledger,
        ),
{
    lemma_sum_covers_each(records, i);
}

/// A withdrawal keeps the books balanced: the borrower's deposit leaves the
/// pool in full (the penalty is no longer pooled) and the record is zeroed.
pub proof fn law_withdraw_keeps_pool_balanced<A>(
    config: EscrowConfig<A>,
    records: Seq<BorrowerRecord>,
    i: int,
    total: i128,
    ledger: u32,
)
    requires
        0 <= i < records.len(),
        pool_consistent(records, total as int),
        withdraw_fits(config, records[i], total as int, ledger),
    ensures
        withdraw_outcome(config, records[i], total as int, ledger) matches Ok(p)
            ==> pool_consistent(records.update(i, p.record), p.total_pooled as int),
{
    if let Ok(p) = withdraw_outcome(config, records[i], total as int, ledger) {
        lemma_sum_update(records, i, p.record);
        let updated = records.update(i, p.record);
        assert forall|j: int| 0 <= j < updated.len() implies #[trigger] updated[j].deposited
            >= 0 by {
            if j != i {
                assert(updated[j] == records[j]);
            }
        }
    }
}

/// A release keeps the books balanced: the released deposit leaves the pool
/// and the record is zeroed.
pub proof fn law_release_keeps_pool_balanced<A>(
    config: EscrowConfig<A>,
    records: Seq<BorrowerRecord>,
    i: int,
    total: i128,
)
    requires
        0 <= i < records.len(),
        pool_consistent(records, total as int),
    ensures
        release_outcome(config, records[i], total as int) matches Ok(p) ==> pool_consistent(
            records.update(i, p.record),
            p.total_pooled as int,
        ),
{
    lemma_sum_covers_each(records, i);
    if let Ok(p) = release_outcome(config, records[i], total as int) {
        lemma_sum_update(records, i, p.record);
        let updated = records.update(i, p.record);
        assert forall|j: int| 0 <= j < updated.len() implies #[trigger] updated[j].deposited
            >= 0 by {
            if j != i {
                assert(updated[j] == records[j]);
            }
        }
    }
}

/// A record is well formed: it is never both released and withdrawn, and a
/// closed (released or withdrawn) record holds no deposit.
pub open spec fn record_well_formed(r: BorrowerRecord) -> bool {
    &&& !(r.released && r.withdrawn)
    &&& !is_open(r) ==> r.deposited == 0
}

/// Every record the escrow holds is well formed: the record of a borrower
/// never seen is, and every record that a deposit, a withdrawal or a release
/// stores is.
pub proof fn law_records_stay_well_formed<A>(
    config: EscrowConfig<A>,
    rec: BorrowerRecord,
    total: int,
    amount: i128,
    ledger: u32,
)
    ensures
        record_well_formed(empty_record()),
        deposit_outcome(rec, total, amount, ledger) matches Ok(d) ==> record_well_formed(d.record),
        withdraw_outcome(config, rec, total, ledger) matches Ok(p) ==> record_well_formed(p.record),
        release_outcome(config, rec, total) matches Ok(p) ==> record_well_formed(p.record),
{
}

/// An early withdrawal splits the deposit into the refund paid out and the
/// penalty kept, `deposited * bps / 10_000` rounded toward zero. With a
/// rate of at most 100% the refund lies between zero and the deposit.
pub proof fn law_withdraw_refund_split<A>(
    config: EscrowConfig<A>,
    rec: BorrowerRecord,
    total: int,
    ledger: u32,
)
    requires
        withdraw_fits(config, rec, total, ledger),
    ensures
        withdraw_outcome(config, rec, total, ledger) matches Ok(p) ==> {
            let bps = current_bps(config, rec, ledger) as int;
            &&& p.amount + penalty_amount(rec.deposited as int, bps) == rec.deposited
            &&& (rec.deposited >= 0 && bps <= BPS_DENOMINATOR) ==> 0 <= penalty_amount(
                rec.deposited as int,
                bps,
            ) <= rec.deposited
            &&& (rec.deposited >= 0 && bps <= BPS_DENOMINATOR) ==> 0 <= p.amount
                <= rec.deposited
        },
{
    if let Ok(p) = withdraw_outcome(config, rec, total, ledger) {
        let d = rec.deposited as int;
        let bps = current_bps(config, rec, ledger) as int;
        assert(d >= 0 ==> d * bps >= 0) by (nonlinear_arith)
            requires
                bps >= 0,
        ;
        assert(d < 0 ==> d * bps <= 0) by (nonlinear_arith)
            requires
                bps >= 0,
        ;
        if d >= 0 && bps <= 10000 {
            assert(0 <= d * bps <= d * 10000) by (nonlinear_arith)
                requires
                    d >= 0,
                    0 <= bps <= 10000,
            ;
        }
    }
}

/// The penalty quote agrees with a withdrawal at the same ledger: for an
/// open record, `get_current_penalty` succeeds exactly when `withdraw` does,
/// and quotes the rate applied and the refund paid.
pub proof fn law_quote_matches_withdraw<A>(
    config: EscrowConfig<A>,
    rec: BorrowerRecord,
    total: int,
    ledger: u32,
)
    requires
        is_open(rec),
        withdraw_fits(config, rec, total, ledger),
    ensures
        (quote_outcome(config, rec, ledger) is Ok) == (withdraw_outcome(config, rec, total, ledger) is Ok),
        withdraw_outcome(config, rec, total, ledger) matches Ok(p) ==> quote_outcome(
            config,
            rec,
            ledger,
        ) == Ok::<(u32, i128), EscrowError>((current_bps(config, rec, ledger), p.amount)),
{
}

/// A withdrawn or released record is closed for good: no deposit,
/// withdrawal or release on it ever succeeds again.
pub proof fn law_closed_records_stay_closed<A>(
    config: EscrowConfig<A>,
    rec: BorrowerRecord,
    total: int,
    ledger: u32,
    later_config: EscrowConfig<A>,
    later_total: int,
    amount: i128,
    later_ledger: u32,
)
    ensures
        withdraw_outcome(config, rec, total, ledger) matches Ok(p) ==> {
            &&& deposit_outcome(p.record, later_total, amount, later_ledger) is Err
            &&& withdraw_outcome(later_config, p.record, later_total, later_ledger) is Err
            &&& release_outcome(later_config, p.record, later_total) is Err
        },
        release_outcome(config, rec, total) matches Ok(p) ==> {
            &&& deposit_outcome(p.record, later_total, amount, later_ledger) is Err
            &&& withdraw_outcome(later_config, p.record, later_total, later_ledger) is Err
            &&& release_outcome(later_config, p.record, later_total) is Err
        },
{
}

/// A release pays out the borrower's whole deposit, which has reached the
/// savings target.
pub proof fn law_release_meets_target<A>(config: EscrowConfig<A>, rec: BorrowerRecord, total: int)
    ensures
        release_outcome(config, rec, total) matches Ok(p) ==> {
            &&& p.amount == rec.deposited
            &&& p.amount >= config.savings_target
        },
        rec.deposited != 0 && is_open(rec) && rec.deposited < config.savings_target
            ==> release_outcome(config, rec, total) == Err::<crate::contract::Payout, EscrowError>(
            EscrowError::TargetNotReached,
        ),
{
}

/// Reading back after a deposit: the balance and the pooled total each grew
/// by the amount, and the start ledger is the ledger of the first deposit.
pub proof fn law_balance_after_deposit(
    stored_record: Option<BorrowerRecord>,
    stored_total: Option<i128>,
    amount: i128,
    ledger: u32,
)
    requires
        deposit_fits(record_or_empty(stored_record), total_or_zero(stored_total), amount),
    ensures
        deposit_outcome(
            record_or_empty(stored_record),
            total_or_zero(stored_total),
            amount,
            ledger,
        ) matches Ok(d) ==> {
            &&& record_or_empty(Some(d.record)).deposited == record_or_empty(stored_record).deposited + amount
            &&& total_or_zero(Some(d.total_pooled)) == total_or_zero(stored_total) + amount
            &&& d.record.start_ledger == if record_or_empty(stored_record).deposited == 0 {
                ledger
            } else {
                record_or_empty(stored_record).start_ledger
            }
        },
{
}

/// Months since the first deposit never decrease as the ledger advances,
/// and count from 1.
pub proof fn law_months_never_decrease(start: u32, earlier: u32, later: u32)
    requires
        earlier <= later,
    ensures
        1 <= months_since(start, earlier) <= months_since(start, later),
{
    if earlier > start {
        assert((earlier - start) / 518_400int <= (later - start) / 518_400int) by (nonlinear_arith)
            requires
                0 <= earlier - start <= later - start,
        ;
    }
}

} // verus!
