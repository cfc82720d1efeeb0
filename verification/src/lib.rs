//! Verified core of a liquidity-pool swap monitor: decoding swap logs,
//! classifying them against a threshold, rate-limiting alerts, formatting the
//! notification text and supervising the subscription lifecycle.

pub mod amount;
pub mod bytes;
pub mod decoder;
pub mod detector;
pub mod limiter;
pub mod markdown;
pub mod monitor;
pub mod notify;
pub mod record;
pub mod supervisor;
pub mod throttle;
pub mod uint;
