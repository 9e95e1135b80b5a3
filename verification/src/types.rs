use vstd::prelude::*;

verus! {

/// Ledgers by which the instance storage lifetime is extended (about 30 days).
pub const INSTANCE_BUMP_AMOUNT: u32 = 518_400;

/// Remaining lifetime, in ledgers, below which the instance storage is extended (about 7.5 days).
pub const INSTANCE_LIFETIME_THRESHOLD: u32 = 129_600;

/// Ledgers counted as one month when the penalty tier is chosen.
pub const LEDGERS_PER_MONTH: u32 = 518_400;

/// Basis points in a whole (100%).
pub const BPS_DENOMINATOR: i128 = 10_000;

/// The escrow's configuration, fixed at initialization.
///
/// `A` is the type of an account address; the escrow only stores and hands
/// back the admin and token addresses, it never inspects them.
#[derive(Clone, Debug)]
pub struct EscrowConfig<A> {
    /// The address authorized to release funds.
    pub admin: A,
    /// The token (USDC) contract address.
    pub token: A,
    /// The amount each borrower must save before a release.
    pub savings_target: i128,
    /// Maximum number of ledgers for the savings period.
    pub max_duration_ledgers: u32,
    /// Early-withdrawal penalty for months 1-2, in basis points.
    pub penalty_bps_tier1: u32,
    /// Early-withdrawal penalty for months 3-4, in basis points.
    pub penalty_bps_tier2: u32,
    /// Early-withdrawal penalty for months 5-6, in basis points.
    pub penalty_bps_tier3: u32,
    /// Early-withdrawal penalty from month 7 on, in basis points.
    pub penalty_bps_tier4: u32,
}

/// What the escrow keeps for one borrower.
#[derive(Clone, Copy, Debug, PartialEq, Eq, Structural)]
pub struct BorrowerRecord {
    /// Amount currently held for the borrower.
    pub deposited: i128,
    /// Ledger sequence of the borrower's first deposit.
    pub start_ledger: u32,
    /// The savings were released to a recipient.
    pub released: bool,
    /// The borrower withdrew early.
    pub withdrawn: bool,
}

/// Why an escrow operation was refused.
#[derive(Clone, Copy, Debug, PartialEq, Eq, Structural)]
pub enum EscrowError {
    AlreadyInitialized,
    /// The code the contract traps with when its configuration is read
    /// before initialization; no operation returns it.
    NotInitialized,
    InvalidAmount,
    BorrowerNotFound,
    AlreadyReleased,
    AlreadyWithdrawn,
    TargetNotReached,
}

/// The record of a borrower the escrow has never seen.
pub open spec fn empty_record() -> BorrowerRecord {
    BorrowerRecord { deposited: 0, start_ledger: 0, released: false, withdrawn: false }
}

/// The record in effect for a borrower: the stored one, or the empty record.
pub open spec fn record_or_empty(stored: Option<BorrowerRecord>) -> BorrowerRecord {
    match stored {
        Some(r) => r,
        None => empty_record(),
    }
}

/// The pooled total in effect: the stored one, or zero.
pub open spec fn total_or_zero(stored: Option<i128>) -> int {
    match stored {
        Some(t) => t as int,
        None => 0,
    }
}

/// A record that can still take deposits, withdrawals and releases.
pub open spec fn is_open(r: BorrowerRecord) -> bool {
    !r.released && !r.withdrawn
}

} // verus!
