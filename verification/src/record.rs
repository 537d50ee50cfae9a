//! The per-(round, buyer) purchase record.

use vstd::prelude::*;

verus! {

/// The fields stamped on a buyer's first purchase in a round.
///
/// On later purchases in the same round these fields are deliberately left
/// untouched, so `collateral_spent` and `tokens_purchased` report the first
/// purchase only, not a running total, even though the round's aggregate
/// totals do keep moving.
#[derive(Clone, Copy, Debug, PartialEq, Eq)]
pub struct RecordData {
    /// The buyer this record belongs to.
    pub owner: u64,
    /// Copied from the round at creation.
    pub sale_mint: u64,
    /// Copied from the round at creation.
    pub collateral_mint: u64,
    /// Time of the first purchase.
    pub created_at: u64,
    /// Collateral deposited in the first purchase.
    pub collateral_spent: u64,
    /// Tokens bought in the first purchase.
    pub tokens_purchased: u64,
    /// Fixed-size extension slot, opaque to this core; zeroed at creation.
    pub reserved: [u64; 16],
}

/// A buyer's ledger entry for one round: absent until the buyer's first
/// purchase, then present for the lifetime of the round, never deleted.
#[derive(Clone, Copy, Debug, PartialEq, Eq)]
pub enum PurchaseRecord {
    Absent,
    Present(RecordData),
}

/// Holds when `data` is exactly what a first purchase stamps: the buyer as
/// owner, the round's mints, the purchase time, the amounts of that first
/// purchase, and a zeroed extension slot.
pub open spec fn fresh_record(
    data: RecordData,
    buyer: u64,
    sale_mint: u64,
    collateral_mint: u64,
    now: u64,
    collateral_amount: u64,
    buy_amount: u64,
) -> bool {
    &&& data.owner == buyer
    &&& data.sale_mint == sale_mint
    &&& data.collateral_mint == collateral_mint
    &&& data.created_at == now
    &&& data.collateral_spent == collateral_amount
    &&& data.tokens_purchased == buy_amount
    &&& forall|i: int| 0 <= i < 16 ==> data.reserved@[i] == 0u64
}

impl PurchaseRecord {
    /// Whether the buyer has purchased in this round before.
    pub fn is_present(&self) -> (r: bool)
        ensures
            r <==> *self is Present,
    {
        match self {
            PurchaseRecord::Absent => false,
            PurchaseRecord::Present(_) => true,
        }
    }
}

} // verus!
