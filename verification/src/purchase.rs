//! The purchase processor: validation, price conversion, and the bookkeeping
//! applied once the two transfer legs have been performed by the host.
//!
//! One purchase runs in two verified steps around the external transfer
//! service:
//! 1. [`prepare_purchase`] checks every precondition and converts the
//!    deposited collateral into a token allocation, returning the
//!    [`TransferPlan`] whose two legs the host hands to its transfer service.
//! 2. [`commit_purchase`] applies the bookkeeping — record creation on a
//!    first purchase, supply decrement, collateral accumulation — with
//!    all-or-nothing semantics at the accounting layer.
//!
//! The host guarantees that the whole sequence is atomic; a failure of either
//! transfer leg aborts the purchase before `commit_purchase` is called.

use vstd::prelude::*;

use crate::errors::PurchaseError;
use crate::record::{fresh_record, PurchaseRecord, RecordData};
use crate::round::RoundConfig;

verus! {

/// The two transfer legs of one validated purchase: the buyer pays
/// `collateral_amount` of the round's collateral mint to the treasury, and
/// the round's reserve pays `buy_amount` of the sale mint to the buyer,
/// authorized by the round's own signing authority.
#[derive(Clone, Copy, Debug, PartialEq, Eq)]
pub struct TransferPlan {
    pub collateral_amount: u64,
    pub buy_amount: u64,
}

/// `10^exponent`, the scale factor of a token with `exponent` decimals.
pub open spec fn pow10(exponent: nat) -> nat
    decreases exponent,
{
    if exponent == 0 {
        1
    } else {
        10 * pow10((exponent - 1) as nat)
    }
}

/// `pow10` grows with its exponent.
pub proof fn lemma_pow10_increases(lo: nat, hi: nat)
    requires
        lo <= hi,
    ensures
        pow10(lo) <= pow10(hi),
    decreases hi,
{
    if lo < hi {
        lemma_pow10_increases(lo, (hi - 1) as nat);
        assert(pow10(hi) == 10 * pow10((hi - 1) as nat));
    }
}

/// `10^exponent` as a `u64`, or `None` when it does not fit.
pub fn pow10_u64(exponent: u8) -> (r: Option<u64>)
    ensures
        r is Some <==> pow10(exponent as nat) <= u64::MAX,
        r matches Some(scale) ==> scale == pow10(exponent as nat),
{
    let mut scale: u64 = 1;
    let mut i: u8 = 0;
    while i < exponent
        invariant
            i <= exponent,
            scale == pow10(i as nat),
        decreases exponent - i,
    {
        scale = match scale.checked_mul(10) {
            Some(next) => next,
            None => {
                proof {
                    lemma_pow10_increases((i + 1) as nat, exponent as nat);
                }
                return None;
            },
        };
        i = i + 1;
    }
    Some(scale)
}

/// Whether the scaled collateral `collateral_amount * 10^sale_decimals`
/// fits in a `u64`, so the price conversion can be computed with checked
/// arithmetic.  (The quotient by a positive price then fits a fortiori.)
pub open spec fn conversion_fits(collateral_amount: u64, sale_decimals: u8) -> bool {
    collateral_amount * pow10(sale_decimals as nat) <= u64::MAX
    && pow10(sale_decimals as nat) <= u64::MAX
}

/// The token allocation a deposit buys:
/// `floor(collateral_amount * 10^sale_decimals / price)`.
pub open spec fn spec_buy_amount(collateral_amount: u64, sale_decimals: u8, price: u64) -> int
    recommends
        price > 0,
{
    collateral_amount * pow10(sale_decimals as nat) / (price as int)
}

/// Converts a collateral deposit into a token allocation at the round's
/// price, failing with `ArithmeticOverflow` where a checked step would not
/// fit instead of wrapping or truncating silently.
pub fn compute_buy_amount(collateral_amount: u64, sale_decimals: u8, price: u64) -> (r: Result<
    u64,
    PurchaseError,
>)
    requires
        price > 0,
    ensures
        r is Ok <==> conversion_fits(collateral_amount, sale_decimals),
        r matches Ok(buy_amount) ==> buy_amount == spec_buy_amount(
            collateral_amount,
            sale_decimals,
            price,
        ),
        r is Err ==> r == Err::<u64, PurchaseError>(PurchaseError::ArithmeticOverflow),
{
    let scale = match pow10_u64(sale_decimals) {
        Some(scale) => scale,
        None => {
            return Err(PurchaseError::ArithmeticOverflow);
        },
    };
    let scaled = match collateral_amount.checked_mul(scale) {
        Some(scaled) => scaled,
        None => {
            return Err(PurchaseError::ArithmeticOverflow);
        },
    };
    Ok(scaled / price)
}

/// Whether `now` falls inside the round's sale window.
pub open spec fn window_open(round: RoundConfig, now: u64) -> bool {
    round.start_time < now && now < round.end_time
}

/// What validating a purchase request decides, as a function of its inputs:
/// either the token allocation of a valid request, or the specific error of
/// the first precondition that fails, in this order — activation, sale
/// window, buyer balance, checked conversion, a positive allocation, and a
/// remaining supply that strictly exceeds the allocation (a single purchase
/// may never drain the round to zero).
pub open spec fn spec_prepare(
    activated: bool,
    round: RoundConfig,
    now: u64,
    buyer_balance: u64,
    collateral_amount: u64,
    sale_decimals: u8,
) -> Result<u64, PurchaseError>
    recommends
        round.wf(),
{
    if !activated {
        Err(PurchaseError::NotInitialized)
    } else if !window_open(round, now) {
        Err(PurchaseError::SaleWindowClosed)
    } else if buyer_balance < collateral_amount {
        Err(PurchaseError::InsufficientCollateralBalance)
    } else if !conversion_fits(collateral_amount, sale_decimals) {
        Err(PurchaseError::ArithmeticOverflow)
    } else {
        let buy_amount = spec_buy_amount(collateral_amount, sale_decimals, round.price);
        if buy_amount == 0 {
            Err(PurchaseError::AmountTooSmall)
        } else if buy_amount >= round.remaining_amount {
            Err(PurchaseError::InsufficientSupply)
        } else {
            Ok(buy_amount as u64)
        }
    }
}

/// The buy amount of a prepared plan, with errors passed through; relates
/// [`prepare_purchase`]'s result to [`spec_prepare`].
pub open spec fn plan_buy_amount(r: Result<TransferPlan, PurchaseError>) -> Result<
    u64,
    PurchaseError,
> {
    match r {
        Ok(plan) => Ok(plan.buy_amount),
        Err(e) => Err(e),
    }
}

/// Validates a purchase request and converts the deposit into a token
/// allocation, with no state change whatever the outcome.
///
/// Exactly when every precondition holds — the system is activated, `now` is
/// inside the sale window, the buyer's balance covers the deposit, the
/// checked conversion fits, it buys a positive amount, and the remaining
/// supply strictly exceeds that amount — the result is the plan of the two
/// transfer legs the host must perform before committing; otherwise it is
/// the error of the first precondition that fails.
pub fn prepare_purchase(
    activated: bool,
    round: &RoundConfig,
    now: u64,
    buyer_balance: u64,
    collateral_amount: u64,
    sale_decimals: u8,
) -> (r: Result<TransferPlan, PurchaseError>)
    requires
        round.wf(),
    ensures
        plan_buy_amount(r) == spec_prepare(
            activated,
            *round,
            now,
            buyer_balance,
            collateral_amount,
            sale_decimals,
        ),
        r matches Ok(plan) ==> plan.collateral_amount == collateral_amount,
{
    if !activated {
        return Err(PurchaseError::NotInitialized);
    }
    if !(round.start_time < now && now < round.end_time) {
        return Err(PurchaseError::SaleWindowClosed);
    }
    if buyer_balance < collateral_amount {
        return Err(PurchaseError::InsufficientCollateralBalance);
    }
    let buy_amount = match compute_buy_amount(collateral_amount, sale_decimals, round.price) {
        Ok(buy_amount) => buy_amount,
        Err(e) => {
            return Err(e);
        },
    };
    if buy_amount == 0 {
        return Err(PurchaseError::AmountTooSmall);
    }
    if buy_amount >= round.remaining_amount {
        return Err(PurchaseError::InsufficientSupply);
    }
    Ok(TransferPlan { collateral_amount, buy_amount })
}

/// Whether the bookkeeping of a purchase can be applied: the supply covers
/// the allocation, the collateral total still fits, and — on a first
/// purchase — the participant count still fits.
pub open spec fn commit_ok(round: RoundConfig, record: PurchaseRecord, plan: TransferPlan) -> bool {
    &&& plan.buy_amount <= round.remaining_amount
    &&& round.collateral_collected + plan.collateral_amount <= u64::MAX
    &&& (record is Absent ==> round.participant_count < u64::MAX)
}

/// The error of the first bookkeeping step that cannot be applied, in the
/// order the effects run: record creation, supply decrement, collateral
/// accumulation.
pub open spec fn commit_err(
    round: RoundConfig,
    record: PurchaseRecord,
    plan: TransferPlan,
) -> PurchaseError
    recommends
        !commit_ok(round, record, plan),
{
    if record is Absent && round.participant_count == u64::MAX {
        PurchaseError::ArithmeticOverflow
    } else if plan.buy_amount > round.remaining_amount {
        PurchaseError::InsufficientSupply
    } else {
        PurchaseError::ArithmeticOverflow
    }
}

/// The round's totals after a committed purchase: the supply drops by the
/// allocation, the collateral total grows by the deposit, and the
/// participant count grows by one exactly on a first purchase.
pub open spec fn round_after_commit(
    round: RoundConfig,
    first_purchase: bool,
    plan: TransferPlan,
) -> RoundConfig
    recommends
        plan.buy_amount <= round.remaining_amount,
        round.collateral_collected + plan.collateral_amount <= u64::MAX,
        first_purchase ==> round.participant_count < u64::MAX,
{
    RoundConfig {
        remaining_amount: (round.remaining_amount - plan.buy_amount) as u64,
        collateral_collected: (round.collateral_collected + plan.collateral_amount) as u64,
        participant_count: if first_purchase {
            (round.participant_count + 1) as u64
        } else {
            round.participant_count
        },
        ..round
    }
}

/// Applies the bookkeeping of a purchase whose transfer legs the host has
/// already performed, all-or-nothing: on a buyer's first purchase in the
/// round the record is created and the participant count incremented; on a
/// repeat purchase the record is left untouched (so it keeps reporting the
/// first purchase only); in both cases the supply is decremented by the
/// allocation and the collateral total incremented by the deposit.  On any
/// failure, nothing changes.
pub fn commit_purchase(
    round: &mut RoundConfig,
    record: &mut PurchaseRecord,
    buyer: u64,
    now: u64,
    plan: TransferPlan,
) -> (r: Result<(), PurchaseError>)
    ensures
        r is Ok <==> commit_ok(*old(round), *old(record), plan),
        r is Ok ==> *final(round) == round_after_commit(
            *old(round),
            *old(record) is Absent,
            plan,
        ),
        r is Ok && *old(record) is Present ==> *final(record) == *old(record),
        r is Ok && *old(record) is Absent ==> (*final(record) matches PurchaseRecord::Present(
            data,
        ) && fresh_record(
            data,
            buyer,
            old(round).sale_mint,
            old(round).collateral_mint,
            now,
            plan.collateral_amount,
            plan.buy_amount,
        )),
        r is Err ==> *final(round) == *old(round) && *final(record) == *old(record) && r
            == Err::<(), PurchaseError>(commit_err(*old(round), *old(record), plan)),
{
    let first_purchase = !record.is_present();
    if first_purchase && round.participant_count == u64::MAX {
        return Err(PurchaseError::ArithmeticOverflow);
    }
    if plan.buy_amount > round.remaining_amount {
        return Err(PurchaseError::InsufficientSupply);
    }
    if round.collateral_collected > u64::MAX - plan.collateral_amount {
        return Err(PurchaseError::ArithmeticOverflow);
    }
    if first_purchase {
        *record = PurchaseRecord::Present(
            RecordData {
                owner: buyer,
                sale_mint: round.sale_mint,
                collateral_mint: round.collateral_mint,
                created_at: now,
                collateral_spent: plan.collateral_amount,
                tokens_purchased: plan.buy_amount,
                reserved: [0u64; 16],
            },
        );
        let incremented = round.increment_participants();
        assert(incremented is Ok);
    }
    let decremented = round.decrement_supply(plan.buy_amount);
    assert(decremented is Ok);
    let added = round.add_collateral(plan.collateral_amount);
    assert(added is Ok);
    Ok(())
}

} // verus!
