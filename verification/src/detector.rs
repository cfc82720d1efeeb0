//! Telling whales from small swaps.
//!
//! The monitored leg of a swap is `amount1`, the change of the pool's balance
//! of the second asset, counted in units of 10^-18. The pool losing that asset
//! (a negative amount) means that the counterparty bought it; the pool gaining
//! it, or a change of zero, counts as the counterparty selling it.

use vstd::prelude::*;
use crate::record::SwapEvent;
use crate::uint::{abs, Int256, Uint256};

verus! {

/// The default alert threshold: 20 whole units, in units of 10^-18.
pub const WHALE_THRESHOLD_WEI: u128 = 20_000_000_000_000_000_000;

/// Which way the counterparty traded the monitored asset.
#[derive(Clone, Copy, Debug, PartialEq, Eq, Structural)]
pub enum Direction {
    /// The pool's balance fell: the counterparty acquired the asset.
    Bought,
    /// The pool's balance rose or stayed: the counterparty gave the asset.
    Sold,
}

/// What the detector makes of one swap.
#[derive(Clone, Copy, Debug, PartialEq, Eq, Structural)]
pub enum Classification {
    /// The swap is below the threshold.
    Ignored,
    /// The swap meets the threshold.
    Alert {
        /// The size of the swap as a fixed-point number with 18 decimals:
        /// the absolute value of the monitored amount, in units of 10^-18.
        magnitude: Uint256,
        /// Which way the counterparty traded.
        direction: Direction,
    },
}

/// The direction that the sign of the monitored amount stands for.
pub open spec fn direction_of(amount: int) -> Direction {
    if amount < 0 {
        Direction::Bought
    } else {
        Direction::Sold
    }
}

/// Whether `classification` is what the detector must say of a swap whose
/// monitored amount is `amount`, at the threshold `threshold`.
pub open spec fn classifies(amount: int, threshold: nat, classification: Classification) -> bool {
    match classification {
        Classification::Ignored => abs(amount) < threshold,
        Classification::Alert { magnitude, direction } => {
            &&& abs(amount) >= threshold
            &&& magnitude.as_nat() == abs(amount)
            &&& direction == direction_of(amount)
        },
    }
}

/// The absolute value of a signed amount.
pub fn get_abs_wei(value: &Int256) -> (magnitude: Uint256)
    ensures
        magnitude.as_nat() == abs(value.as_int()),
{
    value.unsigned_abs()
}

/// The direction of a trade, read off the sign of the monitored amount.
pub fn trade_direction(amount: &Int256) -> (direction: Direction)
    ensures
        direction == direction_of(amount.as_int()),
        direction is Bought <==> amount.as_int() < 0,
{
    if amount.is_negative() {
        Direction::Bought
    } else {
        Direction::Sold
    }
}

/// Classifies a swap by the absolute value of its monitored amount: an alert
/// if that value is at least `threshold_wei`, ignored otherwise.
pub fn classify(event: &SwapEvent, threshold_wei: u128) -> (classification: Classification)
    ensures
        classifies(event.amount1.as_int(), threshold_wei as nat, classification),
        classification is Alert <==> abs(event.amount1.as_int()) >= threshold_wei,
{
    let magnitude = get_abs_wei(&event.amount1);
    if magnitude.ge(&Uint256::from_u128(threshold_wei)) {
        Classification::Alert { magnitude, direction: trade_direction(&event.amount1) }
    } else {
        Classification::Ignored
    }
}

/// The detector's answer is unique: two classifications of the same amount
/// at the same threshold are equal.
pub proof fn lemma_classification_unique(
    amount: int,
    threshold: nat,
    first: Classification,
    second: Classification,
)
    requires
        classifies(amount, threshold, first),
        classifies(amount, threshold, second),
    ensures
        first == second,
{
    if first is Alert {
        first->magnitude.lemma_as_nat_injective(second->magnitude);
    }
}

/// An alert says "bought" exactly for a strictly negative amount, and its
/// magnitude is the exact absolute value of the amount.
pub proof fn lemma_alert_direction_and_magnitude(
    amount: int,
    threshold: nat,
    classification: Classification,
)
    requires
        classifies(amount, threshold, classification),
        classification is Alert,
    ensures
        classification->direction is Bought <==> amount < 0,
        classification->magnitude.as_nat() == abs(amount),
{
}

/// A swap is an alert exactly when its absolute amount reaches the
/// threshold. The threshold itself is an alert, in either direction; one unit
/// less is ignored.
pub proof fn lemma_threshold_is_inclusive(
    amount: int,
    threshold: nat,
    classification: Classification,
)
    requires
        classifies(amount, threshold, classification),
    ensures
        classification is Alert <==> abs(amount) >= threshold,
        abs(amount) == threshold ==> classification is Alert,
        abs(amount) + 1 == threshold ==> classification is Ignored,
{
}

} // verus!
