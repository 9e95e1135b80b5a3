use escrow::contract::{Deposited, EscrowContract, Payout};
use escrow::penalty::{months_elapsed, penalty_bps_for, penalty_split};
use escrow::types::{BorrowerRecord, EscrowConfig, EscrowError, LEDGERS_PER_MONTH};

const USDC: i128 = 10_000_000;

fn config() -> EscrowConfig<u32> {
    EscrowConfig {
        admin: 7,
        token: 8,
        savings_target: 10_000 * USDC,
        max_duration_ledgers: 518_400,
        penalty_bps_tier1: 500,
        penalty_bps_tier2: 300,
        penalty_bps_tier3: 150,
        penalty_bps_tier4: 50,
    }
}

fn open_record(deposited: i128, start_ledger: u32) -> BorrowerRecord {
    BorrowerRecord { deposited, start_ledger, released: false, withdrawn: false }
}

#[test]
fn initialize_returns_config_and_zero_total() {
    let (c, total) = EscrowContract::initialize(false, 1u32, 2u32, 5, 9, 10, 20, 30, 40).unwrap();
    assert_eq!((c.admin, c.token, c.savings_target, c.max_duration_ledgers), (1, 2, 5, 9));
    assert_eq!(
        (c.penalty_bps_tier1, c.penalty_bps_tier2, c.penalty_bps_tier3, c.penalty_bps_tier4),
        (10, 20, 30, 40)
    );
    assert_eq!(total, 0);
}

#[test]
fn initialize_refusals() {
    let again = EscrowContract::initialize(true, 1u32, 2u32, 5, 9, 10, 20, 30, 40);
    assert_eq!(again.err(), Some(EscrowError::AlreadyInitialized));
    let zero = EscrowContract::initialize(false, 1u32, 2u32, 0, 9, 10, 20, 30, 40);
    assert_eq!(zero.err(), Some(EscrowError::InvalidAmount));
    let negative = EscrowContract::initialize(false, 1u32, 2u32, -1, 9, 10, 20, 30, 40);
    assert_eq!(negative.err(), Some(EscrowError::InvalidAmount));
    // A second initialization is refused before the target is looked at.
    let both = EscrowContract::initialize(true, 1u32, 2u32, 0, 9, 10, 20, 30, 40);
    assert_eq!(both.err(), Some(EscrowError::AlreadyInitialized));
}

#[test]
fn deposit_first_and_later() {
    let c = Some(config());
    let first = EscrowContract::deposit(&c, None, None, 2_000 * USDC, 100).unwrap();
    assert_eq!(
        first,
        Deposited { record: open_record(2_000 * USDC, 100), total_pooled: 2_000 * USDC }
    );
    let second =
        EscrowContract::deposit(&c, Some(first.record), Some(first.total_pooled), 3_000 * USDC, 900)
            .unwrap();
    // The start ledger stays the one of the first deposit.
    assert_eq!(
        second,
        Deposited { record: open_record(5_000 * USDC, 100), total_pooled: 5_000 * USDC }
    );
}

#[test]
fn deposit_refusals_in_order() {
    let c = Some(config());
    let none: Option<EscrowConfig<u32>> = None;
    assert_eq!(EscrowContract::deposit(&none, None, None, 0, 1).err(), Some(EscrowError::InvalidAmount));
    assert_eq!(EscrowContract::deposit(&c, None, None, -5, 1).err(), Some(EscrowError::InvalidAmount));
    let released = BorrowerRecord { deposited: 0, start_ledger: 0, released: true, withdrawn: true };
    assert_eq!(
        EscrowContract::deposit(&c, Some(released), None, 5, 1).err(),
        Some(EscrowError::AlreadyReleased)
    );
    let withdrawn = BorrowerRecord { deposited: 0, start_ledger: 0, released: false, withdrawn: true };
    assert_eq!(
        EscrowContract::deposit(&c, Some(withdrawn), None, 5, 1).err(),
        Some(EscrowError::AlreadyWithdrawn)
    );
}

#[test]
fn withdraw_exact_payout() {
    let c = config();
    let rec = open_record(10_000 * USDC, 0);
    let p = EscrowContract::withdraw(&c, Some(rec), Some(12_000 * USDC), 10).unwrap();
    assert_eq!(
        p,
        Payout {
            record: BorrowerRecord { deposited: 0, start_ledger: 0, released: false, withdrawn: true },
            total_pooled: 2_000 * USDC,
            amount: 9_500 * USDC,
        }
    );
}

#[test]
fn withdraw_refusals_in_order() {
    let c = config();
    assert_eq!(EscrowContract::withdraw(&c, None, None, 0).err(), Some(EscrowError::BorrowerNotFound));
    let released = BorrowerRecord { deposited: 5, start_ledger: 0, released: true, withdrawn: true };
    assert_eq!(
        EscrowContract::withdraw(&c, Some(released), Some(5), 0).err(),
        Some(EscrowError::AlreadyReleased)
    );
    let withdrawn = BorrowerRecord { deposited: 5, start_ledger: 0, released: false, withdrawn: true };
    assert_eq!(
        EscrowContract::withdraw(&c, Some(withdrawn), Some(5), 0).err(),
        Some(EscrowError::AlreadyWithdrawn)
    );
}

#[test]
fn release_exact_payout_and_refusals() {
    let c = config();
    let rec = open_record(10_000 * USDC, 4);
    let p = EscrowContract::release(&c, Some(rec), Some(10_000 * USDC)).unwrap();
    assert_eq!(
        p,
        Payout {
            record: BorrowerRecord { deposited: 0, start_ledger: 4, released: true, withdrawn: false },
            total_pooled: 0,
            amount: 10_000 * USDC,
        }
    );
    assert_eq!(EscrowContract::release(&c, None, None).err(), Some(EscrowError::BorrowerNotFound));
    let below = open_record(10_000 * USDC - 1, 4);
    assert_eq!(
        EscrowContract::release(&c, Some(below), Some(10_000 * USDC)).err(),
        Some(EscrowError::TargetNotReached)
    );
    let released = BorrowerRecord { deposited: 5, start_ledger: 0, released: true, withdrawn: false };
    assert_eq!(EscrowContract::release(&c, Some(released), Some(5)).err(), Some(EscrowError::AlreadyReleased));
    let withdrawn = BorrowerRecord { deposited: 5, start_ledger: 0, released: false, withdrawn: true };
    assert_eq!(EscrowContract::release(&c, Some(withdrawn), Some(5)).err(), Some(EscrowError::AlreadyWithdrawn));
}

#[test]
fn queries_on_missing_and_stored_values() {
    assert_eq!(EscrowContract::get_balance(None), 0);
    assert_eq!(EscrowContract::get_balance(Some(open_record(42, 3))), 42);
    assert_eq!(EscrowContract::get_borrower_info(None), open_record(0, 0));
    assert_eq!(EscrowContract::get_borrower_info(Some(open_record(42, 3))), open_record(42, 3));
    assert_eq!(EscrowContract::get_total_pooled(None), 0);
    assert_eq!(EscrowContract::get_total_pooled(Some(77)), 77);
    let c = EscrowContract::get_escrow_config(Some(config()));
    assert_eq!((c.admin, c.token, c.savings_target), (7, 8, 10_000 * USDC));
}

#[test]
fn penalty_tiers_follow_the_months() {
    let c = config();
    let rec = Some(open_record(10_000 * USDC, 0));
    let month = LEDGERS_PER_MONTH;
    let at = |ledger: u32| EscrowContract::get_current_penalty(&c, rec, ledger).unwrap();
    assert_eq!(at(0), (500, 9_500 * USDC));
    assert_eq!(at(2 * month - 1), (500, 9_500 * USDC));
    assert_eq!(at(2 * month), (300, 9_700 * USDC));
    assert_eq!(at(4 * month - 1), (300, 9_700 * USDC));
    assert_eq!(at(4 * month), (150, 9_850 * USDC));
    assert_eq!(at(6 * month), (50, 9_950 * USDC));
    assert_eq!(at(u32::MAX), (50, 9_950 * USDC));
}

#[test]
fn current_penalty_refusals() {
    let c = config();
    assert_eq!(EscrowContract::get_current_penalty(&c, None, 0).err(), Some(EscrowError::BorrowerNotFound));
    // Closed records still get a quote while they hold a balance.
    let closed = BorrowerRecord { deposited: 100, start_ledger: 0, released: true, withdrawn: false };
    assert_eq!(EscrowContract::get_current_penalty(&c, Some(closed), 0), Ok((500, 95)));
}

#[test]
fn months_elapsed_values() {
    assert_eq!(months_elapsed(10, 5), 1);
    assert_eq!(months_elapsed(10, 10), 1);
    assert_eq!(months_elapsed(10, 10 + LEDGERS_PER_MONTH - 1), 1);
    assert_eq!(months_elapsed(10, 10 + LEDGERS_PER_MONTH), 2);
    assert_eq!(months_elapsed(0, u32::MAX), 8286);
}

#[test]
fn penalty_bps_for_each_tier() {
    let c = config();
    let bps: Vec<u32> = (1..=8).map(|m| penalty_bps_for(&c, m)).collect();
    assert_eq!(bps, vec![500, 500, 300, 300, 150, 150, 50, 50]);
}

#[test]
fn penalty_split_rounds_toward_zero() {
    assert_eq!(penalty_split(7, 5_000), (3, 4));
    assert_eq!(penalty_split(-7, 5_000), (-3, -4));
    assert_eq!(penalty_split(10_000 * USDC, 500), (500 * USDC, 9_500 * USDC));
    assert_eq!(penalty_split(9_999, 1), (0, 9_999));
    // Rates above 100% give a negative refund.
    assert_eq!(penalty_split(100, 20_000), (200, -100));
}

#[test]
fn overflow_guards() {
    let c = config();
    assert!(EscrowContract::deposit_in_range(None, None, 5));
    assert!(!EscrowContract::deposit_in_range(Some(open_record(i128::MAX, 0)), None, 1));
    assert!(!EscrowContract::deposit_in_range(None, Some(i128::MAX), 1));
    // Refused deposits never overflow.
    assert!(EscrowContract::deposit_in_range(Some(open_record(i128::MAX, 0)), None, 0));
    let huge = Some(open_record(i128::MAX / 100, 0));
    assert!(!EscrowContract::withdraw_in_range(&c, huge, Some(i128::MAX / 100), 0));
    assert!(!EscrowContract::current_penalty_in_range(&c, huge, 0));
    assert!(EscrowContract::withdraw_in_range(&c, Some(open_record(5, 0)), Some(5), 0));
    assert!(!EscrowContract::withdraw_in_range(&c, Some(open_record(5, 0)), Some(i128::MIN), 0));
    assert!(!EscrowContract::release_in_range(Some(open_record(5, 0)), Some(i128::MIN)));
    assert!(EscrowContract::release_in_range(Some(open_record(5, 0)), Some(5)));
}
