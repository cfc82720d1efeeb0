//! The path of one raw log through the monitor: decode, classify, ask the
//! limiter, write the alert.

use vstd::prelude::*;
use crate::bytes::word_int;
use crate::decoder::{decode_with_topic, field, first_failure, swap_event_topic, swap_topic};
use crate::detector::{classify, direction_of, get_abs_wei, Classification, Direction};
use crate::throttle::AlertThrottle;
use crate::limiter::{admits_at, after_call};
use crate::notify::{alert_message, message_text};
use crate::record::{DecodeError, RawLogRecord};
use crate::uint::{abs, Uint256};

verus! {

/// What became of one raw log.
#[derive(Clone, Debug, PartialEq, Eq)]
pub enum Outcome {
    /// The log is not a swap event; it is reported and skipped.
    Rejected {
        /// Why, and for which transaction.
        error: DecodeError,
    },
    /// A swap below the threshold.
    SmallSwap {
        /// The absolute monitored amount, in units of 10^-18.
        magnitude: Uint256,
        /// The hash of the emitting transaction, if known.
        transaction_hash: Option<[u8; 32]>,
    },
    /// A whale for which the limiter let no alert through.
    RateLimited {
        /// The absolute monitored amount, in units of 10^-18.
        magnitude: Uint256,
        /// Which way the counterparty traded.
        direction: Direction,
        /// The hash of the emitting transaction, if known.
        transaction_hash: Option<[u8; 32]>,
    },
    /// A whale whose alert is to be sent.
    Alert {
        /// The absolute monitored amount, in units of 10^-18.
        magnitude: Uint256,
        /// Which way the counterparty traded.
        direction: Direction,
        /// The hash of the emitting transaction, if known.
        transaction_hash: Option<[u8; 32]>,
        /// The body of the alert, ready for the messaging provider.
        message: String,
    },
}

/// The monitored amount that the payload of a swap log holds.
pub open spec fn monitored_amount(record: &RawLogRecord) -> int {
    word_int(field(record.data@, 1))
}

/// Whether `record` is a swap log, of signature hash `topic0`, whose
/// monitored amount reaches `threshold`.
pub open spec fn is_whale(record: &RawLogRecord, topic0: Seq<u8>, threshold: nat) -> bool {
    first_failure(record, topic0) is None && abs(monitored_amount(record)) >= threshold
}

/// Whether `outcome` is what must become of `record` at the time `now`, if
/// the limiter last admitted an alert at `last`.
pub open spec fn outcome_of(
    record: &RawLogRecord,
    topic0: Seq<u8>,
    threshold: nat,
    last: Option<nat>,
    now: nat,
    outcome: &Outcome,
) -> bool {
    let amount = monitored_amount(record);
    match outcome {
        Outcome::Rejected { error } => {
            &&& first_failure(record, topic0) == Some(error.reason)
            &&& error.transaction_hash == record.transaction_hash
        },
        Outcome::SmallSwap { magnitude, transaction_hash } => {
            &&& first_failure(record, topic0) is None
            &&& abs(amount) < threshold
            &&& magnitude.as_nat() == abs(amount)
            &&& *transaction_hash == record.transaction_hash
        },
        Outcome::RateLimited { magnitude, direction, transaction_hash } => {
            &&& is_whale(record, topic0, threshold)
            &&& !admits_at(last, now)
            &&& magnitude.as_nat() == abs(amount)
            &&& *direction == direction_of(amount)
            &&& *transaction_hash == record.transaction_hash
        },
        Outcome::Alert { magnitude, direction, transaction_hash, message } => {
            &&& is_whale(record, topic0, threshold)
            &&& admits_at(last, now)
            &&& magnitude.as_nat() == abs(amount)
            &&& *direction == direction_of(amount)
            &&& *transaction_hash == record.transaction_hash
            &&& message@ == message_text(direction_of(amount), abs(amount), record.transaction_hash)
        },
    }
}

/// The state of the limiter after `record` was looked at at the time `now`: only a whale asks the limiter.
pub open spec fn throttle_after(
    record: &RawLogRecord,
    topic0: Seq<u8>,
    threshold: nat,
    last: Option<nat>,
    now: nat,
) -> Option<nat> {
    if is_whale(record, topic0, threshold) {
        after_call(last, now)
    } else {
        last
    }
}

/// What the monitor knows of a raw log before it asks the limiter.
enum Finding {
    /// Not a swap event.
    Rejected { error: DecodeError },
    /// A swap below the threshold.
    Small { magnitude: Uint256, transaction_hash: Option<[u8; 32]> },
    /// A swap at or above the threshold.
    Whale { magnitude: Uint256, direction: Direction, transaction_hash: Option<[u8; 32]> },
}

/// Whether `finding` is what must be found of `record`.
spec fn found(record: &RawLogRecord, topic0: Seq<u8>, threshold: nat, finding: &Finding) -> bool {
    let amount = monitored_amount(record);
    match finding {
        Finding::Rejected { error } => {
            &&& first_failure(record, topic0) == Some(error.reason)
            &&& error.transaction_hash == record.transaction_hash
        },
        Finding::Small { magnitude, transaction_hash } => {
            &&& first_failure(record, topic0) is None
            &&& abs(amount) < threshold
            &&& magnitude.as_nat() == abs(amount)
            &&& *transaction_hash == record.transaction_hash
        },
        Finding::Whale { magnitude, direction, transaction_hash } => {
            &&& is_whale(record, topic0, threshold)
            &&& magnitude.as_nat() == abs(amount)
            &&& *direction == direction_of(amount)
            &&& *transaction_hash == record.transaction_hash
        },
    }
}

/// Decodes and classifies one raw log.
fn examine(record: &RawLogRecord, topic0: &[u8; 32], threshold_wei: u128) -> (finding: Finding)
    ensures
        found(record, topic0@, threshold_wei as nat, &finding),
{
    match decode_with_topic(record, topic0) {
        Err(error) => Finding::Rejected { error },
        Ok(event) => {
            let transaction_hash = event.transaction_hash;
            match classify(&event, threshold_wei) {
                Classification::Ignored => Finding::Small {
                    magnitude: get_abs_wei(&event.amount1),
                    transaction_hash,
                },
                Classification::Alert { magnitude, direction } => Finding::Whale {
                    magnitude,
                    direction,
                    transaction_hash,
                },
            }
        },
    }
}

/// The monitor of one pool: a threshold, the signature hash of the swap
/// event and the limiter that rate-limits its alerts.
pub struct Monitor {
    threshold_wei: u128,
    topic0: [u8; 32],
    throttle: AlertThrottle,
}

impl Monitor {
    /// The threshold at and above which a swap is a whale.
    pub closed spec fn threshold(&self) -> nat {
        self.threshold_wei as nat
    }

    /// The signature hash that the first topic of a log must equal.
    pub closed spec fn topic(&self) -> Seq<u8> {
        self.topic0@
    }

    /// When the limiter last admitted an alert, if it ever did.
    pub closed spec fn last_alert(&self) -> Option<nat> {
        self.throttle@
    }

    /// A monitor of the swap event with the given threshold, whose limiter has
    /// admitted no alert yet.
    pub fn new(threshold_wei: u128) -> (monitor: Self)
        ensures
            monitor.threshold() == threshold_wei,
            monitor.topic() == swap_topic(),
            monitor.last_alert() is None,
    {
        Monitor { threshold_wei, topic0: swap_event_topic(), throttle: AlertThrottle::new() }
    }

    /// Handles one raw log at the time `now`, in nanoseconds since the
    /// monitor was made.
    ///
    /// The log is decoded and classified; only for a whale is the limiter asked,
    /// and only if the limiter admits is the alert written.
    pub fn on_record_at(&mut self, record: &RawLogRecord, now: u128) -> (outcome: Outcome)
        ensures
            outcome_of(
                record,
                old(self).topic(),
                old(self).threshold(),
                old(self).last_alert(),
                now as nat,
                &outcome,
            ),
            final(self).last_alert() == throttle_after(
                record,
                old(self).topic(),
                old(self).threshold(),
                old(self).last_alert(),
                now as nat,
            ),
            final(self).threshold() == old(self).threshold(),
            final(self).topic() == old(self).topic(),
    {
        match examine(record, &self.topic0, self.threshold_wei) {
            Finding::Rejected { error } => Outcome::Rejected { error },
            Finding::Small { magnitude, transaction_hash } => Outcome::SmallSwap {
                magnitude,
                transaction_hash,
            },
            Finding::Whale { magnitude, direction, transaction_hash } => {
                if self.throttle.try_acquire_at(now) {
                    let message = alert_message(direction, &magnitude, &transaction_hash);
                    Outcome::Alert { magnitude, direction, transaction_hash, message }
                } else {
                    Outcome::RateLimited { magnitude, direction, transaction_hash }
                }
            },
        }
    }

    /// Handles one raw log now. For a whale the limiter reads the clock; the
    /// outcome is that of [`Monitor::on_record_at`] for the time it read.
    pub fn on_record(&mut self, record: &RawLogRecord) -> (outcome: Outcome)
        ensures
            exists|now: nat|
                {
                    &&& #[trigger] outcome_of(
                        record,
                        old(self).topic(),
                        old(self).threshold(),
                        old(self).last_alert(),
                        now,
                        &outcome,
                    )
                    &&& final(self).last_alert() == throttle_after(
                        record,
                        old(self).topic(),
                        old(self).threshold(),
                        old(self).last_alert(),
                        now,
                    )
                },
            final(self).threshold() == old(self).threshold(),
            final(self).topic() == old(self).topic(),
    {
        match examine(record, &self.topic0, self.threshold_wei) {
            Finding::Rejected { error } => {
                let outcome = Outcome::Rejected { error };
                assert(outcome_of(
                    record,
                    old(self).topic(),
                    old(self).threshold(),
                    old(self).last_alert(),
                    0,
                    &outcome,
                ));
                outcome
            },
            Finding::Small { magnitude, transaction_hash } => {
                let outcome = Outcome::SmallSwap { magnitude, transaction_hash };
                assert(outcome_of(
                    record,
                    old(self).topic(),
                    old(self).threshold(),
                    old(self).last_alert(),
                    0,
                    &outcome,
                ));
                outcome
            },
            Finding::Whale { magnitude, direction, transaction_hash } => {
                let admitted = self.throttle.try_acquire();
                let ghost now: nat = choose|now: nat|
                    admitted == admits_at(old(self).last_alert(), now) && self.last_alert()
                        == #[trigger] after_call(old(self).last_alert(), now);
                let outcome = if admitted {
                    let message = alert_message(direction, &magnitude, &transaction_hash);
                    Outcome::Alert { magnitude, direction, transaction_hash, message }
                } else {
                    Outcome::RateLimited { magnitude, direction, transaction_hash }
                };
                assert(outcome_of(
                    record,
                    old(self).topic(),
                    old(self).threshold(),
                    old(self).last_alert(),
                    now,
                    &outcome,
                ));
                outcome
            },
        }
    }
}

} // verus!
