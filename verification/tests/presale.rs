use shark_dao::errors::{transfer_failure_error, PurchaseError, TransferError};
use shark_dao::purchase::{commit_purchase, compute_buy_amount, pow10_u64, prepare_purchase, TransferPlan};
use shark_dao::record::{PurchaseRecord, RecordData};
use shark_dao::round::RoundConfig;

fn open_round(price: u64, supply: u64) -> RoundConfig {
    // Window (10, 100); calls below use now = 50.
    RoundConfig::new(1, 11, 22, price, 10, 100, supply)
}

#[test]
fn pow10_small_values() {
    assert_eq!(pow10_u64(0), Some(1));
    assert_eq!(pow10_u64(1), Some(10));
    assert_eq!(pow10_u64(6), Some(1_000_000));
    assert_eq!(pow10_u64(19), Some(10_000_000_000_000_000_000));
}

#[test]
fn pow10_overflows_past_nineteen() {
    assert_eq!(pow10_u64(20), None);
    assert_eq!(pow10_u64(255), None);
}

#[test]
fn buy_amount_exact_conversion() {
    // 10 * 10^6 / 5
    assert_eq!(compute_buy_amount(10, 6, 5), Ok(2_000_000));
    // floor(7 * 10^0 / 2) = 3
    assert_eq!(compute_buy_amount(7, 0, 2), Ok(3));
    // a deposit below the price of the smallest unit buys nothing
    assert_eq!(compute_buy_amount(1, 0, 5), Ok(0));
}

#[test]
fn buy_amount_overflow_is_reported() {
    // the scale factor itself does not fit
    assert_eq!(compute_buy_amount(1, 20, 5), Err(PurchaseError::ArithmeticOverflow));
    // the scaled collateral does not fit
    assert_eq!(compute_buy_amount(u64::MAX, 1, 5), Err(PurchaseError::ArithmeticOverflow));
}

#[test]
fn not_initialized_rejected() {
    let round = open_round(5, 10_000_000);
    assert_eq!(
        prepare_purchase(false, &round, 50, 10, 10, 6),
        Err(PurchaseError::NotInitialized)
    );
}

#[test]
fn closed_window_rejected() {
    let round = open_round(5, 10_000_000);
    // before the window, at its inclusive start, at its exclusive end, after it
    assert_eq!(prepare_purchase(true, &round, 5, 10, 10, 6), Err(PurchaseError::SaleWindowClosed));
    assert_eq!(prepare_purchase(true, &round, 10, 10, 10, 6), Err(PurchaseError::SaleWindowClosed));
    assert_eq!(prepare_purchase(true, &round, 100, 10, 10, 6), Err(PurchaseError::SaleWindowClosed));
    assert_eq!(prepare_purchase(true, &round, 200, 10, 10, 6), Err(PurchaseError::SaleWindowClosed));
}

#[test]
fn insufficient_balance_rejected() {
    let round = open_round(5, 10_000_000);
    assert_eq!(
        prepare_purchase(true, &round, 50, 9, 10, 6),
        Err(PurchaseError::InsufficientCollateralBalance)
    );
}

#[test]
fn amount_too_small_rejected() {
    // 1 * 10^0 / 5 buys zero tokens
    let round = open_round(5, 10_000_000);
    assert_eq!(prepare_purchase(true, &round, 50, 1, 1, 0), Err(PurchaseError::AmountTooSmall));
}

#[test]
fn conversion_overflow_rejected() {
    let round = open_round(5, 10_000_000);
    assert_eq!(
        prepare_purchase(true, &round, 50, u64::MAX, u64::MAX, 6),
        Err(PurchaseError::ArithmeticOverflow)
    );
}

#[test]
fn insufficient_supply_rejected() {
    // price=5, decimals=6, remaining=1_000_000, deposit=10:
    // buy_amount = floor(10 * 1_000_000 / 5) = 2_000_000 > 1_000_000 remaining
    let round = open_round(5, 1_000_000);
    assert_eq!(
        prepare_purchase(true, &round, 50, 10, 10, 6),
        Err(PurchaseError::InsufficientSupply)
    );
}

#[test]
fn a_single_purchase_may_not_drain_the_round() {
    // buy_amount equal to the whole remaining supply is refused: the check
    // demands strictly more supply than the allocation
    let round = open_round(5, 2_000_000);
    assert_eq!(
        prepare_purchase(true, &round, 50, 10, 10, 6),
        Err(PurchaseError::InsufficientSupply)
    );
}

#[test]
fn first_purchase_succeeds_with_exact_accounting() {
    // price=5, decimals=6, remaining=10_000_000, deposit=10
    let mut round = open_round(5, 10_000_000);
    let plan = prepare_purchase(true, &round, 50, 10, 10, 6).unwrap();
    assert_eq!(plan, TransferPlan { collateral_amount: 10, buy_amount: 2_000_000 });

    // the host performs both transfer legs here, then commits
    let mut record = PurchaseRecord::Absent;
    assert_eq!(commit_purchase(&mut round, &mut record, 77, 50, plan), Ok(()));
    assert_eq!(round.remaining_amount, 8_000_000);
    assert_eq!(round.collateral_collected, 10);
    assert_eq!(round.participant_count, 1);
    let expected = RecordData {
        owner: 77,
        sale_mint: 11,
        collateral_mint: 22,
        created_at: 50,
        collateral_spent: 10,
        tokens_purchased: 2_000_000,
        reserved: [0u64; 16],
    };
    assert_eq!(record, PurchaseRecord::Present(expected));
}

#[test]
fn repeat_purchase_keeps_record_and_participant_count() {
    let mut round = open_round(5, 10_000_000);
    let mut record = PurchaseRecord::Absent;

    let first = prepare_purchase(true, &round, 50, 10, 10, 6).unwrap();
    commit_purchase(&mut round, &mut record, 77, 50, first).unwrap();
    let after_first = record;

    // the same buyer purchases again in the same round, later and larger
    let second = prepare_purchase(true, &round, 60, 25, 25, 6).unwrap();
    assert_eq!(second.buy_amount, 5_000_000);
    assert_eq!(commit_purchase(&mut round, &mut record, 77, 60, second), Ok(()));

    // aggregate totals moved, the per-user record deliberately did not
    assert_eq!(round.participant_count, 1);
    assert_eq!(round.remaining_amount, 3_000_000);
    assert_eq!(round.collateral_collected, 35);
    assert_eq!(record, after_first);
}

#[test]
fn distinct_buyers_each_count_once() {
    let mut round = open_round(5, 10_000_000);

    let mut first_record = PurchaseRecord::Absent;
    let plan = prepare_purchase(true, &round, 50, 10, 10, 6).unwrap();
    commit_purchase(&mut round, &mut first_record, 77, 50, plan).unwrap();

    let mut second_record = PurchaseRecord::Absent;
    let plan = prepare_purchase(true, &round, 55, 10, 10, 6).unwrap();
    commit_purchase(&mut round, &mut second_record, 78, 55, plan).unwrap();

    assert_eq!(round.participant_count, 2);
    assert_eq!(round.remaining_amount, 6_000_000);
    assert_eq!(round.collateral_collected, 20);
}

#[test]
fn failed_commit_changes_nothing_and_repeats_its_error() {
    let mut round = open_round(5, 1_000_000);
    let mut record = PurchaseRecord::Absent;
    let before = round;
    // a plan larger than the remaining supply cannot be committed
    let plan = TransferPlan { collateral_amount: 10, buy_amount: 2_000_000 };
    assert_eq!(
        commit_purchase(&mut round, &mut record, 77, 50, plan),
        Err(PurchaseError::InsufficientSupply)
    );
    assert_eq!(round, before);
    assert_eq!(record, PurchaseRecord::Absent);
    // retrying from the unchanged state yields the same error
    assert_eq!(
        commit_purchase(&mut round, &mut record, 77, 50, plan),
        Err(PurchaseError::InsufficientSupply)
    );
    assert_eq!(round, before);
}

#[test]
fn commit_may_drain_the_supply_exactly() {
    // commit itself only demands that the supply covers the plan
    let mut round = open_round(5, 2_000_000);
    let mut record = PurchaseRecord::Absent;
    let plan = TransferPlan { collateral_amount: 10, buy_amount: 2_000_000 };
    assert_eq!(commit_purchase(&mut round, &mut record, 77, 50, plan), Ok(()));
    assert_eq!(round.remaining_amount, 0);
}

#[test]
fn commit_overflow_of_collateral_total_is_rejected() {
    let mut round = open_round(5, 2_000_000);
    round.collateral_collected = u64::MAX;
    let mut record = PurchaseRecord::Absent;
    let before = round;
    let plan = TransferPlan { collateral_amount: 1, buy_amount: 1_000 };
    assert_eq!(
        commit_purchase(&mut round, &mut record, 77, 50, plan),
        Err(PurchaseError::ArithmeticOverflow)
    );
    assert_eq!(round, before);
    assert_eq!(record, PurchaseRecord::Absent);
}

#[test]
fn commit_overflow_of_participant_count_is_rejected() {
    let mut round = open_round(5, 2_000_000);
    round.participant_count = u64::MAX;
    let mut record = PurchaseRecord::Absent;
    let before = round;
    let plan = TransferPlan { collateral_amount: 1, buy_amount: 1_000 };
    assert_eq!(
        commit_purchase(&mut round, &mut record, 77, 50, plan),
        Err(PurchaseError::ArithmeticOverflow)
    );
    assert_eq!(round, before);

    // an existing record does not touch the participant count, so the same
    // plan commits for a repeat buyer
    let mut present = PurchaseRecord::Present(RecordData {
        owner: 77,
        sale_mint: 11,
        collateral_mint: 22,
        created_at: 40,
        collateral_spent: 3,
        tokens_purchased: 600,
        reserved: [0u64; 16],
    });
    assert_eq!(commit_purchase(&mut round, &mut present, 77, 50, plan), Ok(()));
    assert_eq!(round.participant_count, u64::MAX);
}

#[test]
fn ledger_operations_account_exactly() {
    let mut round = open_round(5, 1_000);
    assert_eq!(round.decrement_supply(400), Ok(()));
    assert_eq!(round.remaining_amount, 600);
    assert_eq!(round.decrement_supply(601), Err(PurchaseError::InsufficientSupply));
    assert_eq!(round.remaining_amount, 600);
    assert_eq!(round.decrement_supply(600), Ok(()));
    assert_eq!(round.remaining_amount, 0);

    assert_eq!(round.add_collateral(u64::MAX - 1), Ok(()));
    assert_eq!(round.add_collateral(2), Err(PurchaseError::ArithmeticOverflow));
    assert_eq!(round.collateral_collected, u64::MAX - 1);
    assert_eq!(round.add_collateral(1), Ok(()));
    assert_eq!(round.collateral_collected, u64::MAX);

    assert_eq!(round.increment_participants(), Ok(()));
    assert_eq!(round.participant_count, 1);
    round.participant_count = u64::MAX;
    assert_eq!(round.increment_participants(), Err(PurchaseError::ArithmeticOverflow));
    assert_eq!(round.participant_count, u64::MAX);
}

#[test]
fn record_presence_is_observable() {
    let absent = PurchaseRecord::Absent;
    assert!(!absent.is_present());
    let present = PurchaseRecord::Present(RecordData {
        owner: 1,
        sale_mint: 2,
        collateral_mint: 3,
        created_at: 4,
        collateral_spent: 5,
        tokens_purchased: 6,
        reserved: [0u64; 16],
    });
    assert!(present.is_present());
}

#[test]
fn transfer_failures_surface_verbatim() {
    assert_eq!(
        transfer_failure_error(TransferError::InsufficientBalance),
        PurchaseError::InsufficientBalance
    );
    assert_eq!(
        transfer_failure_error(TransferError::Unauthorized),
        PurchaseError::Unauthorized
    );
}
