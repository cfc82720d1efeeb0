//! The records that flow through the monitor: raw logs as they arrive and
//! swap events as they are decoded.

use vstd::prelude::*;
use crate::uint::{Int256, Uint256};

verus! {

/// A log as the transport delivers it: indexed topics, a byte payload and,
/// where known, the hash of the transaction that emitted it.
#[derive(Clone, Debug, PartialEq, Eq)]
pub struct RawLogRecord {
    /// The indexed topics, each a 32-byte word.
    pub topics: Vec<[u8; 32]>,
    /// The payload that holds the fields which are not indexed.
    pub data: Vec<u8>,
    /// The hash of the emitting transaction, if the transport gave one.
    pub transaction_hash: Option<[u8; 32]>,
}

/// A decoded swap of the monitored pool.
#[derive(Clone, Copy, Debug, PartialEq, Eq)]
pub struct SwapEvent {
    /// The account that started the swap.
    pub sender: [u8; 20],
    /// The account that receives the output.
    pub recipient: [u8; 20],
    /// The change of the pool's balance of the first asset.
    pub amount0: Int256,
    /// The change of the pool's balance of the second asset, the monitored leg.
    pub amount1: Int256,
    /// The pool's price after the swap, below 2^160; carried through untouched.
    pub sqrt_price_x96: Uint256,
    /// The pool's liquidity after the swap; carried through untouched.
    pub liquidity: u128,
    /// The pool's tick after the swap, within 24 signed bits; carried through untouched.
    pub tick: i32,
    /// The hash of the emitting transaction, if known.
    pub transaction_hash: Option<[u8; 32]>,
}

impl SwapEvent {
    /// Whether the fields that are narrower than their representation fit
    /// their declared types: a price below 2^160 and a tick within 24 signed bits.
    pub open spec fn well_formed(&self) -> bool {
        &&& self.sqrt_price_x96.as_nat() < 0x1_0000_0000_0000_0000_0000_0000_0000_0000_0000_0000nat
        &&& -0x80_0000 <= self.tick < 0x80_0000
    }
}

/// Why a raw log is not a swap event.
#[derive(Clone, Copy, Debug, PartialEq, Eq, Structural)]
pub enum DecodeFailure {
    /// The log does not carry exactly three topics.
    TopicCount,
    /// The first topic is not the hash of the swap event's signature.
    Signature,
    /// An indexed topic is not a left-padded 20-byte address.
    IndexedAddress,
    /// The payload does not hold exactly five 32-byte fields.
    DataLength,
    /// A field of the payload does not fit its declared type.
    FieldRange,
}

/// A raw log that was rejected, with the transaction it came from.
#[derive(Clone, Copy, Debug, PartialEq, Eq)]
pub struct DecodeError {
    /// What was wrong with the log.
    pub reason: DecodeFailure,
    /// The hash of the emitting transaction, if known.
    pub transaction_hash: Option<[u8; 32]>,
}

} // verus!
