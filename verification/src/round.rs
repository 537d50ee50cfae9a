//! The round ledger: one presale round's configuration and running totals.

use vstd::prelude::*;

use crate::errors::PurchaseError;

verus! {

/// One presale round: its fixed configuration (price, sale window, the two
/// asset mints) and its running totals (remaining sellable supply, cumulative
/// collateral collected, number of distinct participants).
///
/// The round ledger is the single source of truth for a round's remaining
/// supply; all mutation of the totals is routed through the purchase
/// processor, which calls [`Self::decrement_supply`],
/// [`Self::add_collateral`] and [`Self::increment_participants`].
#[derive(Clone, Copy, Debug, PartialEq, Eq)]
pub struct RoundConfig {
    /// Unique key of the round.
    pub name: u64,
    /// Identifier of the asset being sold.
    pub sale_mint: u64,
    /// Identifier of the asset buyers pay in.
    pub collateral_mint: u64,
    /// Collateral units required per whole sale-token unit; strictly positive.
    pub price: u64,
    /// Purchases are accepted only when `start_time < now < end_time`.
    pub start_time: u64,
    /// Exclusive end of the sale window.
    pub end_time: u64,
    /// Sale-token units still available; decreases only via purchases.
    pub remaining_amount: u64,
    /// Cumulative collateral received; never decreases.
    pub collateral_collected: u64,
    /// Number of distinct buyers that have ever purchased in this round.
    pub participant_count: u64,
}

impl RoundConfig {
    /// Well-formedness: the price is a positive ratio, so the collateral to
    /// token conversion is defined.
    pub open spec fn wf(self) -> bool {
        self.price > 0
    }

    /// The configuration fields that no purchase ever changes.
    pub open spec fn same_config(self, other: RoundConfig) -> bool {
        &&& other.name == self.name
        &&& other.sale_mint == self.sale_mint
        &&& other.collateral_mint == self.collateral_mint
        &&& other.price == self.price
        &&& other.start_time == self.start_time
        &&& other.end_time == self.end_time
    }

    /// Creates a round with fresh totals: full supply, nothing collected,
    /// no participants.
    pub fn new(
        name: u64,
        sale_mint: u64,
        collateral_mint: u64,
        price: u64,
        start_time: u64,
        end_time: u64,
        supply: u64,
    ) -> (r: RoundConfig)
        requires
            price > 0,
        ensures
            r.wf(),
            r.name == name,
            r.sale_mint == sale_mint,
            r.collateral_mint == collateral_mint,
            r.price == price,
            r.start_time == start_time,
            r.end_time == end_time,
            r.remaining_amount == supply,
            r.collateral_collected == 0,
            r.participant_count == 0,
    {
        RoundConfig {
            name,
            sale_mint,
            collateral_mint,
            price,
            start_time,
            end_time,
            remaining_amount: supply,
            collateral_collected: 0,
            participant_count: 0,
        }
    }

    /// Subtracts exactly `amount` from the remaining supply, or fails with
    /// `InsufficientSupply` (and no change) when the supply does not cover it.
    /// The subtraction can never underflow: it happens only when
    /// `amount <= remaining_amount`.
    pub fn decrement_supply(&mut self, amount: u64) -> (r: Result<(), PurchaseError>)
        ensures
            r is Ok <==> amount <= old(self).remaining_amount,
            r is Ok ==> final(self).remaining_amount == old(self).remaining_amount - amount,
            r is Err ==> r == Err::<(), PurchaseError>(PurchaseError::InsufficientSupply)
                && *final(self) == *old(self),
            old(self).same_config(*final(self)),
            final(self).collateral_collected == old(self).collateral_collected,
            final(self).participant_count == old(self).participant_count,
    {
        if amount <= self.remaining_amount {
            self.remaining_amount = self.remaining_amount - amount;
            Ok(())
        } else {
            Err(PurchaseError::InsufficientSupply)
        }
    }

    /// Adds `amount` to the cumulative collateral collected, or fails with
    /// `ArithmeticOverflow` (and no change) when the sum would not fit.
    pub fn add_collateral(&mut self, amount: u64) -> (r: Result<(), PurchaseError>)
        ensures
            r is Ok <==> old(self).collateral_collected + amount <= u64::MAX,
            r is Ok ==> final(self).collateral_collected
                == old(self).collateral_collected + amount,
            r is Err ==> r == Err::<(), PurchaseError>(PurchaseError::ArithmeticOverflow)
                && *final(self) == *old(self),
            old(self).same_config(*final(self)),
            final(self).remaining_amount == old(self).remaining_amount,
            final(self).participant_count == old(self).participant_count,
    {
        match self.collateral_collected.checked_add(amount) {
            Some(total) => {
                self.collateral_collected = total;
                Ok(())
            },
            None => Err(PurchaseError::ArithmeticOverflow),
        }
    }

    /// Counts one more distinct participant, or fails with
    /// `ArithmeticOverflow` (and no change) when the count would not fit.
    /// The purchase processor calls this exactly once per distinct buyer, on
    /// the buyer's first purchase in the round.
    pub fn increment_participants(&mut self) -> (r: Result<(), PurchaseError>)
        ensures
            r is Ok <==> old(self).participant_count < u64::MAX,
            r is Ok ==> final(self).participant_count == old(self).participant_count + 1,
            r is Err ==> r == Err::<(), PurchaseError>(PurchaseError::ArithmeticOverflow)
                && *final(self) == *old(self),
            old(self).same_config(*final(self)),
            final(self).remaining_amount == old(self).remaining_amount,
            final(self).collateral_collected == old(self).collateral_collected,
    {
        if self.participant_count < u64::MAX {
            self.participant_count = self.participant_count + 1;
            Ok(())
        } else {
            Err(PurchaseError::ArithmeticOverflow)
        }
    }
}

} // verus!
