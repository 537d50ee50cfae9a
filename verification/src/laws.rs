//! The laws of the presale core, each proved from what the purchase
//! processor's contracts state.

use vstd::prelude::*;

use crate::purchase::{
    commit_err, commit_ok, conversion_fits, pow10, round_after_commit, spec_buy_amount,
    spec_prepare, window_open, TransferPlan,
};
use crate::record::PurchaseRecord;
use crate::round::RoundConfig;
use crate::errors::PurchaseError;

verus! {

/// Law: for every valid purchase — one that validation accepts and whose
/// bookkeeping can be applied — the remaining supply drops by exactly the
/// purchased amount, the collateral total grows by exactly the deposit, and
/// the purchased amount is exactly
/// `floor(collateral_amount * 10^sale_decimals / price)`.
pub proof fn lemma_purchase_accounting(
    activated: bool,
    round: RoundConfig,
    record: PurchaseRecord,
    now: u64,
    buyer_balance: u64,
    collateral_amount: u64,
    sale_decimals: u8,
    plan: TransferPlan,
)
    requires
        round.wf(),
        spec_prepare(activated, round, now, buyer_balance, collateral_amount, sale_decimals)
            == Ok::<u64, PurchaseError>(plan.buy_amount),
        plan.collateral_amount == collateral_amount,
        commit_ok(round, record, plan),
    ensures
        plan.buy_amount == spec_buy_amount(collateral_amount, sale_decimals, round.price),
        0 < plan.buy_amount < round.remaining_amount,
        round_after_commit(round, record is Absent, plan).remaining_amount
            == round.remaining_amount - plan.buy_amount,
        round_after_commit(round, record is Absent, plan).collateral_collected
            == round.collateral_collected + collateral_amount,
        // validation demands strictly more supply than the allocation, so a
        // single validated purchase never drains the round to zero
        round_after_commit(round, record is Absent, plan).remaining_amount > 0,
{
    let scale = pow10(sale_decimals as nat) as int;
    vstd::arithmetic::mul::lemma_mul_nonnegative(collateral_amount as int, scale);
    vstd::arithmetic::div_mod::lemma_div_pos_is_pos(
        collateral_amount * scale,
        round.price as int,
    );
}

/// One committed purchase, seen from the round ledger alone: some purchase
/// record and some plan whose bookkeeping was applicable took `pre` to
/// `post`.
pub open spec fn purchase_step(pre: RoundConfig, post: RoundConfig) -> bool {
    exists|record: PurchaseRecord, plan: TransferPlan|
        #[trigger] commit_ok(pre, record, plan) && post == round_after_commit(
            pre,
            record is Absent,
            plan,
        )
}

/// Law: across any sequence of committed purchases the remaining supply
/// never goes negative and never increases — every state keeps
/// `0 <= remaining_amount <= ` the initial supply, because a purchase is
/// committed only when the supply covers it and then subtracts exactly that
/// amount.
pub proof fn lemma_supply_never_negative(states: Seq<RoundConfig>)
    requires
        forall|i: int|
            1 <= i < states.len() ==> #[trigger] purchase_step(states[i - 1], states[i]),
    ensures
        forall|i: int|
            0 <= i < states.len() ==> 0 <= #[trigger] states[i].remaining_amount
                <= states[0].remaining_amount,
{
    assert forall|i: int| 0 <= i < states.len() implies 0 <= #[trigger] states[i].remaining_amount
        <= states[0].remaining_amount by {
        lemma_supply_bounded_prefix(states, i);
    }
}

/// The remaining supply at step `i` of a chain of committed purchases is
/// bounded by the initial supply.
proof fn lemma_supply_bounded_prefix(states: Seq<RoundConfig>, i: int)
    requires
        0 <= i < states.len(),
        forall|j: int|
            1 <= j < states.len() ==> #[trigger] purchase_step(states[j - 1], states[j]),
    ensures
        states[i].remaining_amount <= states[0].remaining_amount,
    decreases i,
{
    if i > 0 {
        lemma_supply_bounded_prefix(states, i - 1);
        assert(purchase_step(states[i - 1], states[i]));
        let (record, plan) = choose|record: PurchaseRecord, plan: TransferPlan|
            #[trigger] commit_ok(states[i - 1], record, plan) && states[i] == round_after_commit(
                states[i - 1],
                record is Absent,
                plan,
            );
        assert(states[i].remaining_amount == states[i - 1].remaining_amount - plan.buy_amount);
    }
}

/// Law: with the system activated, a purchase attempted strictly outside
/// `[start_time, end_time)` always fails with `SaleWindowClosed`.  (That
/// validation changes no state is part of `prepare_purchase`'s signature: it
/// only reads the round.)
pub proof fn lemma_closed_window_rejected(
    activated: bool,
    round: RoundConfig,
    now: u64,
    buyer_balance: u64,
    collateral_amount: u64,
    sale_decimals: u8,
)
    requires
        activated,
        now < round.start_time || now >= round.end_time,
    ensures
        spec_prepare(activated, round, now, buyer_balance, collateral_amount, sale_decimals)
            == Err::<u64, PurchaseError>(PurchaseError::SaleWindowClosed),
{
}

/// Law: a deposit too small relative to the price — one whose converted
/// allocation is zero — always fails with `AmountTooSmall`, however much
/// supply remains, and changes no state.
pub proof fn lemma_zero_allocation_rejected(
    activated: bool,
    round: RoundConfig,
    now: u64,
    buyer_balance: u64,
    collateral_amount: u64,
    sale_decimals: u8,
)
    requires
        activated,
        window_open(round, now),
        buyer_balance >= collateral_amount,
        conversion_fits(collateral_amount, sale_decimals),
        spec_buy_amount(collateral_amount, sale_decimals, round.price) == 0,
    ensures
        spec_prepare(activated, round, now, buyer_balance, collateral_amount, sale_decimals)
            == Err::<u64, PurchaseError>(PurchaseError::AmountTooSmall),
{
}

/// Law: committing a purchase raises the participant count by exactly one
/// when it is the buyer's first purchase in the round, and by zero on any
/// later purchase by the same buyer, whose record already exists and stays
/// as it is.
pub proof fn lemma_participant_count_first_purchase_only(
    round: RoundConfig,
    record: PurchaseRecord,
    plan: TransferPlan,
)
    requires
        commit_ok(round, record, plan),
    ensures
        record is Absent ==> round_after_commit(round, true, plan).participant_count
            == round.participant_count + 1,
        record is Present ==> round_after_commit(round, false, plan).participant_count
            == round.participant_count,
{
}

/// Law: rejection is idempotent at validation.  Validation is a pure
/// function of its inputs and changes no state, so retrying a failed
/// attempt with the same inputs against the same pre-state decides the same
/// way: the same error comes back.
pub proof fn lemma_prepare_rejection_idempotent(
    activated: bool,
    first_round: RoundConfig,
    retry_round: RoundConfig,
    now: u64,
    buyer_balance: u64,
    collateral_amount: u64,
    sale_decimals: u8,
)
    requires
        retry_round == first_round,
        spec_prepare(activated, first_round, now, buyer_balance, collateral_amount, sale_decimals)
            is Err,
    ensures
        spec_prepare(activated, retry_round, now, buyer_balance, collateral_amount, sale_decimals)
            == spec_prepare(
            activated,
            first_round,
            now,
            buyer_balance,
            collateral_amount,
            sale_decimals,
        ),
{
}

/// Law: rejection is idempotent at commit.  A failed commit leaves the round
/// and the record exactly as they were — `commit_purchase` ensures it — so a
/// retry starts from the same pre-state, is refused again, and is refused
/// with the same error.
pub proof fn lemma_commit_rejection_idempotent(
    first_round: RoundConfig,
    first_record: PurchaseRecord,
    retry_round: RoundConfig,
    retry_record: PurchaseRecord,
    plan: TransferPlan,
)
    requires
        !commit_ok(first_round, first_record, plan),
        retry_round == first_round,
        retry_record == first_record,
    ensures
        !commit_ok(retry_round, retry_record, plan),
        commit_err(retry_round, retry_record, plan) == commit_err(first_round, first_record, plan),
{
}

} // verus!
