use vstd::prelude::*;

use crate::penalty::{
    months_elapsed, months_since, penalty_bps_for, penalty_split, product_fits, refund_amount,
    tier_bps,
};
use crate::types::{
    is_open, record_or_empty, total_or_zero, BorrowerRecord, EscrowConfig,
    EscrowError,
};

verus! {

/// The escrow contract: holds borrower contributions toward a down-payment
/// savings target, tracks individual balances and the pooled total, and
/// releases funds once the target is met, or refunds the borrower, minus a
/// penalty, on early withdrawal.
///
/// Each operation takes what the contract has in storage (the configuration,
/// the borrower's record, the pooled total; `None` where nothing is stored)
/// together with the call's arguments, decides the outcome, and returns the
/// values to store and the amount to transfer. Authorization, storage and
/// token transfers are performed by the host around these calls.
///
/// Reading the configuration of an escrow that was never initialized is a
/// fault (the contract panics): every operation that needs the configuration
/// requires it.
pub struct EscrowContract;

/// New stored values after a deposit.
#[derive(Clone, Copy, Debug, PartialEq, Eq, Structural)]
pub struct Deposited {
    /// The borrower's record to store.
    pub record: BorrowerRecord,
    /// The pooled total to store.
    pub total_pooled: i128,
}

/// New stored values after a withdrawal or a release, and the amount paid out.
#[derive(Clone, Copy, Debug, PartialEq, Eq, Structural)]
pub struct Payout {
    /// The borrower's record to store.
    pub record: BorrowerRecord,
    /// The pooled total to store.
    pub total_pooled: i128,
    /// The amount transferred out of the escrow.
    pub amount: i128,
}

// ── What each operation decides ───────────────────────────────────────────

/// Outcome of `initialize`: the configuration to store and the initial pooled total.
pub open spec fn initialize_outcome<A>(
    initialized: bool,
    config: EscrowConfig<A>,
) -> Result<(EscrowConfig<A>, i128), EscrowError> {
    if initialized {
        Err(EscrowError::AlreadyInitialized)
    } else if config.savings_target <= 0 {
        Err(EscrowError::InvalidAmount)
    } else {
        Ok((config, 0))
    }
}

/// No arithmetic of a deposit overflows an `i128`.
pub open spec fn deposit_fits(rec: BorrowerRecord, total: int, amount: i128) -> bool {
    amount > 0 && is_open(rec) ==> {
        &&& rec.deposited + amount <= i128::MAX
        &&& total + amount <= i128::MAX
    }
}

/// Outcome of a deposit of `amount` at ledger `ledger` into an initialized escrow.
pub open spec fn deposit_outcome(
    rec: BorrowerRecord,
    total: int,
    amount: i128,
    ledger: u32,
) -> Result<Deposited, EscrowError> {
    if amount <= 0 {
        Err(EscrowError::InvalidAmount)
    } else if rec.released {
        Err(EscrowError::AlreadyReleased)
    } else if rec.withdrawn {
        Err(EscrowError::AlreadyWithdrawn)
    } else {
        Ok(
            Deposited {
                record: BorrowerRecord {
                    deposited: (rec.deposited + amount) as i128,
                    start_ledger: if rec.deposited == 0 {
                        ledger
                    } else {
                        rec.start_ledger
                    },
                    released: false,
                    withdrawn: false,
                },
                total_pooled: (total + amount) as i128,
            },
        )
    }
}

/// The penalty rate in effect for `rec` at ledger `ledger`.
pub open spec fn current_bps<A>(config: EscrowConfig<A>, rec: BorrowerRecord, ledger: u32) -> u32 {
    tier_bps(config, months_since(rec.start_ledger, ledger))
}

/// No arithmetic of a withdrawal overflows an `i128`.
pub open spec fn withdraw_fits<A>(
    config: EscrowConfig<A>,
    rec: BorrowerRecord,
    total: int,
    ledger: u32,
) -> bool {
    rec.deposited != 0 && is_open(rec) ==> {
        &&& product_fits(rec.deposited, current_bps(config, rec, ledger))
        &&& i128::MIN <= total - rec.deposited <= i128::MAX
    }
}

/// Outcome of an early withdrawal at ledger `ledger`.
pub open spec fn withdraw_outcome<A>(
    config: EscrowConfig<A>,
    rec: BorrowerRecord,
    total: int,
    ledger: u32,
) -> Result<Payout, EscrowError> {
    if rec.deposited == 0 {
        Err(EscrowError::BorrowerNotFound)
    } else if rec.released {
        Err(EscrowError::AlreadyReleased)
    } else if rec.withdrawn {
        Err(EscrowError::AlreadyWithdrawn)
    } else {
        Ok(
            Payout {
                record: BorrowerRecord {
                    deposited: 0,
                    start_ledger: rec.start_ledger,
                    released: false,
                    withdrawn: true,
                },
                total_pooled: (total - rec.deposited) as i128,
                amount: refund_amount(rec.deposited as int, current_bps(config, rec, ledger) as int)
                    as i128,
            },
        )
    }
}

/// No arithmetic of a release overflows an `i128`.
pub open spec fn release_fits(rec: BorrowerRecord, total: int) -> bool {
    rec.deposited != 0 && is_open(rec) ==> i128::MIN <= total - rec.deposited <= i128::MAX
}

/// Outcome of a release of the borrower's savings.
pub open spec fn release_outcome<A>(
    config: EscrowConfig<A>,
    rec: BorrowerRecord,
    total: int,
) -> Result<Payout, EscrowError> {
    if rec.deposited == 0 {
        Err(EscrowError::BorrowerNotFound)
    } else if rec.released {
        Err(EscrowError::AlreadyReleased)
    } else if rec.withdrawn {
        Err(EscrowError::AlreadyWithdrawn)
    } else if rec.deposited < config.savings_target {
        Err(EscrowError::TargetNotReached)
    } else {
        Ok(
            Payout {
                record: BorrowerRecord {
                    deposited: 0,
                    start_ledger: rec.start_ledger,
                    released: true,
                    withdrawn: false,
                },
                total_pooled: (total - rec.deposited) as i128,
                amount: rec.deposited,
            },
        )
    }
}

/// No arithmetic of a penalty quote overflows an `i128`.
pub open spec fn quote_fits<A>(config: EscrowConfig<A>, rec: BorrowerRecord, ledger: u32) -> bool {
    rec.deposited != 0 ==> product_fits(rec.deposited, current_bps(config, rec, ledger))
}

/// Outcome of a penalty quote: the rate in effect and the refund a withdrawal would pay.
pub open spec fn quote_outcome<A>(
    config: EscrowConfig<A>,
    rec: BorrowerRecord,
    ledger: u32,
) -> Result<(u32, i128), EscrowError> {
    if rec.deposited == 0 {
        Err(EscrowError::BorrowerNotFound)
    } else {
        let bps = current_bps(config, rec, ledger);
        Ok((bps, refund_amount(rec.deposited as int, bps as int) as i128))
    }
}

// ── The operations ────────────────────────────────────────────────────────

impl EscrowContract {
    /// The stored configuration; the escrow must have been initialized.
    fn get_config<A>(stored: &Option<EscrowConfig<A>>) -> (config: &EscrowConfig<A>)
        requires
            stored is Some,
        ensures
            *config == stored->0,
    {
        stored.as_ref().unwrap()
    }

    /// The stored record of a borrower, or the empty record when there is none.
    fn get_borrower(stored: Option<BorrowerRecord>) -> (record: BorrowerRecord)
        ensures
            record == record_or_empty(stored),
    {
        match stored {
            Some(r) => r,
            None => BorrowerRecord { deposited: 0, start_ledger: 0, released: false, withdrawn: false },
        }
    }

    /// The stored pooled total, or zero when there is none.
    fn read_total_pooled(stored: Option<i128>) -> (total: i128)
        ensures
            total == total_or_zero(stored),
    {
        match stored {
            Some(t) => t,
            None => 0,
        }
    }

    /// Initializes the escrow: refused when a configuration is already stored
    /// (`initialized`) or when the savings target is not positive; otherwise
    /// returns the configuration to store and the initial pooled total, zero.
    pub fn initialize<A>(
        initialized: bool,
        admin: A,
        token: A,
        savings_target: i128,
        max_duration_ledgers: u32,
        penalty_bps_tier1: u32,
        penalty_bps_tier2: u32,
        penalty_bps_tier3: u32,
        penalty_bps_tier4: u32,
    ) -> (result: Result<(EscrowConfig<A>, i128), EscrowError>)
        ensures
            result == initialize_outcome(
                initialized,
                EscrowConfig {
                    admin,
                    token,
                    savings_target,
                    max_duration_ledgers,
                    penalty_bps_tier1,
                    penalty_bps_tier2,
                    penalty_bps_tier3,
                    penalty_bps_tier4,
                },
            ),
    {
        if initialized {
            return Err(EscrowError::AlreadyInitialized);
        }
        if savings_target <= 0 {
            return Err(EscrowError::InvalidAmount);
        }
        let config = EscrowConfig {
            admin,
            token,
            savings_target,
            max_duration_ledgers,
            penalty_bps_tier1,
            penalty_bps_tier2,
            penalty_bps_tier3,
            penalty_bps_tier4,
        };
        Ok((config, 0))
    }

    /// Whether a deposit can be computed without overflow (the host traps otherwise).
    pub fn deposit_in_range(
        stored_record: Option<BorrowerRecord>,
        stored_total: Option<i128>,
        amount: i128,
    ) -> (fits: bool)
        ensures
            fits == deposit_fits(record_or_empty(stored_record), total_or_zero(stored_total), amount),
    {
        let record = Self::get_borrower(stored_record);
        let total = Self::read_total_pooled(stored_total);
        if amount <= 0 || record.released || record.withdrawn {
            return true;
        }
        record.deposited.checked_add(amount).is_some() && total.checked_add(amount).is_some()
    }

    /// Deposits `amount` toward the borrower's savings target at ledger
    /// `current_ledger`. A non-positive amount is refused first; any other
    /// deposit needs the escrow to be initialized. On success the caller
    /// transfers `amount` from the borrower to the escrow and stores the
    /// returned record and total.
    pub fn deposit<A>(
        config: &Option<EscrowConfig<A>>,
        stored_record: Option<BorrowerRecord>,
        stored_total: Option<i128>,
        amount: i128,
        current_ledger: u32,
    ) -> (result: Result<Deposited, EscrowError>)
        requires
            amount > 0 ==> config is Some,
            deposit_fits(record_or_empty(stored_record), total_or_zero(stored_total), amount),
        ensures
            result == deposit_outcome(
                record_or_empty(stored_record),
                total_or_zero(stored_total),
                amount,
                current_ledger,
            ),
    {
        if amount <= 0 {
            return Err(EscrowError::InvalidAmount);
        }
        let _config = Self::get_config(config);
        let mut record = Self::get_borrower(stored_record);
        if record.released {
            return Err(EscrowError::AlreadyReleased);
        }
        if record.withdrawn {
            return Err(EscrowError::AlreadyWithdrawn);
        }
        if record.deposited == 0 {
            record.start_ledger = current_ledger;
        }
        record.deposited = record.deposited + amount;
        let total = Self::read_total_pooled(stored_total) + amount;
        Ok(Deposited { record, total_pooled: total })
    }

    /// Whether a withdrawal can be computed without overflow (the host traps otherwise).
    pub fn withdraw_in_range<A>(
        config: &EscrowConfig<A>,
        stored_record: Option<BorrowerRecord>,
        stored_total: Option<i128>,
        current_ledger: u32,
    ) -> (fits: bool)
        ensures
            fits == withdraw_fits(
                *config,
                record_or_empty(stored_record),
                total_or_zero(stored_total),
                current_ledger,
            ),
    {
        let record = Self::get_borrower(stored_record);
        let total = Self::read_total_pooled(stored_total);
        if record.deposited == 0 || record.released || record.withdrawn {
            return true;
        }
        let months = months_elapsed(record.start_ledger, current_ledger);
        let bps = penalty_bps_for(config, months);
        record.deposited.checked_mul(bps as i128).is_some() && total.checked_sub(
            record.deposited,
        ).is_some()
    }

    /// Withdraws early at ledger `current_ledger`: the penalty for the
    /// current month's tier stays in the escrow, the rest is refunded. On
    /// success the caller transfers the returned amount from the escrow to
    /// the borrower and stores the returned record and total; the pooled
    /// total drops by the whole deposit.
    pub fn withdraw<A>(
        config: &EscrowConfig<A>,
        stored_record: Option<BorrowerRecord>,
        stored_total: Option<i128>,
        current_ledger: u32,
    ) -> (result: Result<Payout, EscrowError>)
        requires
            withdraw_fits(
                *config,
                record_or_empty(stored_record),
                total_or_zero(stored_total),
                current_ledger,
            ),
        ensures
            result == withdraw_outcome(
                *config,
                record_or_empty(stored_record),
                total_or_zero(stored_total),
                current_ledger,
            ),
    {
        let mut record = Self::get_borrower(stored_record);
        if record.deposited == 0 {
            return Err(EscrowError::BorrowerNotFound);
        }
        if record.released {
            return Err(EscrowError::AlreadyReleased);
        }
        if record.withdrawn {
            return Err(EscrowError::AlreadyWithdrawn);
        }
        let months = months_elapsed(record.start_ledger, current_ledger);
        let bps = penalty_bps_for(config, months);
        let (_penalty, refund) = penalty_split(record.deposited, bps);
        let total = Self::read_total_pooled(stored_total) - record.deposited;
        record.withdrawn = true;
        record.deposited = 0;
        Ok(Payout { record, total_pooled: total, amount: refund })
    }

    /// Whether a release can be computed without overflow (the host traps otherwise).
    pub fn release_in_range(stored_record: Option<BorrowerRecord>, stored_total: Option<i128>) -> (fits: bool)
        ensures
            fits == release_fits(record_or_empty(stored_record), total_or_zero(stored_total)),
    {
        let record = Self::get_borrower(stored_record);
        let total = Self::read_total_pooled(stored_total);
        if record.deposited == 0 || record.released || record.withdrawn {
            return true;
        }
        total.checked_sub(record.deposited).is_some()
    }

    /// Releases the borrower's whole deposit once the savings target is met.
    /// On success the caller (after the admin's authorization) transfers the
    /// returned amount from the escrow to the recipient and stores the
    /// returned record and total.
    pub fn release<A>(
        config: &EscrowConfig<A>,
        stored_record: Option<BorrowerRecord>,
        stored_total: Option<i128>,
    ) -> (result: Result<Payout, EscrowError>)
        requires
            release_fits(record_or_empty(stored_record), total_or_zero(stored_total)),
        ensures
            result == release_outcome(
                *config,
                record_or_empty(stored_record),
                total_or_zero(stored_total),
            ),
    {
        let mut record = Self::get_borrower(stored_record);
        if record.deposited == 0 {
            return Err(EscrowError::BorrowerNotFound);
        }
        if record.released {
            return Err(EscrowError::AlreadyReleased);
        }
        if record.withdrawn {
            return Err(EscrowError::AlreadyWithdrawn);
        }
        if record.deposited < config.savings_target {
            return Err(EscrowError::TargetNotReached);
        }
        let amount = record.deposited;
        let total = Self::read_total_pooled(stored_total) - amount;
        record.released = true;
        record.deposited = 0;
        Ok(Payout { record, total_pooled: total, amount })
    }

    /// The borrower's deposited balance (zero for an unknown borrower).
    pub fn get_balance(stored_record: Option<BorrowerRecord>) -> (balance: i128)
        ensures
            balance == record_or_empty(stored_record).deposited,
    {
        let record = Self::get_borrower(stored_record);
        record.deposited
    }

    /// The borrower's full record (the empty record for an unknown borrower).
    pub fn get_borrower_info(stored_record: Option<BorrowerRecord>) -> (record: BorrowerRecord)
        ensures
            record == record_or_empty(stored_record),
    {
        Self::get_borrower(stored_record)
    }

    /// The escrow configuration; the escrow must have been initialized.
    pub fn get_escrow_config<A>(stored_config: Option<EscrowConfig<A>>) -> (config: EscrowConfig<A>)
        requires
            stored_config is Some,
        ensures
            config == stored_config->0,
    {
        stored_config.unwrap()
    }

    /// The amount pooled across all borrowers.
    pub fn get_total_pooled(stored_total: Option<i128>) -> (total: i128)
        ensures
            total == total_or_zero(stored_total),
    {
        Self::read_total_pooled(stored_total)
    }

    /// Whether a penalty quote can be computed without overflow (the host traps otherwise).
    pub fn current_penalty_in_range<A>(
        config: &EscrowConfig<A>,
        stored_record: Option<BorrowerRecord>,
        current_ledger: u32,
    ) -> (fits: bool)
        ensures
            fits == quote_fits(*config, record_or_empty(stored_record), current_ledger),
    {
        let record = Self::get_borrower(stored_record);
        if record.deposited == 0 {
            return true;
        }
        let months = months_elapsed(record.start_ledger, current_ledger);
        let bps = penalty_bps_for(config, months);
        record.deposited.checked_mul(bps as i128).is_some()
    }

    /// The penalty tier (basis points) in effect at `current_ledger` and the
    /// refund a withdrawal would pay now.
    pub fn get_current_penalty<A>(
        config: &EscrowConfig<A>,
        stored_record: Option<BorrowerRecord>,
        current_ledger: u32,
    ) -> (quote: Result<(u32, i128), EscrowError>)
        requires
            quote_fits(*config, record_or_empty(stored_record), current_ledger),
        ensures
            quote == quote_outcome(*config, record_or_empty(stored_record), current_ledger),
    {
        let record = Self::get_borrower(stored_record);
        if record.deposited == 0 {
            return Err(EscrowError::BorrowerNotFound);
        }
        let months = months_elapsed(record.start_ledger, current_ledger);
        let bps = penalty_bps_for(config, months);
        let (_penalty, refund) = penalty_split(record.deposited, bps);
        Ok((bps, refund))
    }

    /// The contract version.
    pub fn version() -> (v: u32)
        ensures
            v == 1,
    {
        1
    }
}

} // verus!
