//! Decoding raw logs into swap events.
//!
//! A swap log carries three topics (the signature hash, the sender and the
//! recipient, each address left-padded to 32 bytes) and a payload of five
//! 32-byte big-endian fields: `int256 amount0`, `int256 amount1`,
//! `uint160 sqrtPriceX96`, `uint128 liquidity` and `int24 tick`.

use vstd::prelude::*;
use vstd::string::StringSliceAdditionalSpecFns;
use crate::bytes::{be_nat, read_signed_word, read_word, word_int};
use crate::record::{DecodeError, DecodeFailure, RawLogRecord, SwapEvent};
use crate::uint::{pow2_128, Int256, Uint256};

verus! {

/// The signature of the swap event; its Keccak-256 hash is the first topic of every swap log.
pub const SWAP_EVENT_SIGNATURE: &'static str =
    "Swap(address,address,int256,int256,uint160,uint128,int24)";

/// The number of topics of a swap log.
pub const SWAP_TOPIC_COUNT: usize = 3;

/// The length in bytes of the payload of a swap log.
pub const SWAP_DATA_LENGTH: usize = 160;

/// 2^160, the number of addresses.
pub open spec fn pow2_160() -> nat {
    0x1_0000_0000_0000_0000_0000_0000_0000_0000_0000_0000nat
}

/// The `index`-th 32-byte field of a payload.
pub open spec fn field(data: Seq<u8>, index: int) -> Seq<u8> {
    data.subrange(32 * index, 32 * index + 32)
}

/// Whether a signed number fits 24 bits.
pub open spec fn fits_int24(value: int) -> bool {
    -0x80_0000 <= value < 0x80_0000
}

/// The first reason, in the order of checking, why `record` is not a swap
/// log whose signature hash is `topic0`; `None` if it is one.
pub open spec fn first_failure(record: &RawLogRecord, topic0: Seq<u8>) -> Option<DecodeFailure> {
    let topics = record.topics@;
    let data = record.data@;
    if topics.len() != 3 {
        Some(DecodeFailure::TopicCount)
    } else if topics[0]@ != topic0 {
        Some(DecodeFailure::Signature)
    } else if be_nat(topics[1]@) >= pow2_160() || be_nat(topics[2]@) >= pow2_160() {
        Some(DecodeFailure::IndexedAddress)
    } else if data.len() != 160 {
        Some(DecodeFailure::DataLength)
    } else if be_nat(field(data, 2)) >= pow2_160() || be_nat(field(data, 3)) >= pow2_128()
        || !fits_int24(word_int(field(data, 4))) {
        Some(DecodeFailure::FieldRange)
    } else {
        None
    }
}

/// Whether `event` holds exactly what the well-formed swap log `record` says.
pub open spec fn decodes_to(record: &RawLogRecord, event: &SwapEvent) -> bool {
    let topics = record.topics@;
    let data = record.data@;
    &&& event.sender@ == topics[1]@.subrange(12, 32)
    &&& event.recipient@ == topics[2]@.subrange(12, 32)
    &&& event.amount0.as_int() == word_int(field(data, 0))
    &&& event.amount1.as_int() == word_int(field(data, 1))
    &&& event.sqrt_price_x96.as_nat() == be_nat(field(data, 2))
    &&& event.liquidity == be_nat(field(data, 3))
    &&& event.tick == word_int(field(data, 4))
    &&& event.transaction_hash == record.transaction_hash
}

/// What decoding `record` against the signature hash `topic0` must give.
pub open spec fn decode_outcome(
    record: &RawLogRecord,
    topic0: Seq<u8>,
    result: &Result<SwapEvent, DecodeError>,
) -> bool {
    match result {
        Ok(event) => {
            &&& first_failure(record, topic0) is None
            &&& decodes_to(record, event)
            &&& event.well_formed()
        },
        Err(error) => first_failure(record, topic0) == Some(error.reason)
            && error.transaction_hash == record.transaction_hash,
    }
}

/// The Keccak-256 digest of a byte string.
pub uninterp spec fn keccak256_digest(input: Seq<u8>) -> Seq<u8>;

/// The signature hash that the first topic of a swap log must equal.
pub open spec fn swap_topic() -> Seq<u8> {
    keccak256_digest(SWAP_EVENT_SIGNATURE.spec_bytes())
}

/// Calls `alloy::primitives::keccak256`, which hashes its input with
/// Keccak-256 and returns the 32-byte digest. The digest depends on the input
/// bytes alone; nothing more is claimed of it.
#[verifier::external_body]
fn keccak256(input: &[u8]) -> (digest: [u8; 32])
    ensures
        digest@ == keccak256_digest(input@),
{
    alloy::primitives::keccak256(input).0
}

/// The hash of the swap event's signature.
pub fn swap_event_topic() -> (topic: [u8; 32])
    ensures
        topic@ == swap_topic(),
{
    keccak256(SWAP_EVENT_SIGNATURE.as_bytes())
}

/// Whether two byte strings are equal.
fn bytes_equal(left: &[u8], right: &[u8]) -> (r: bool)
    ensures
        r == (left@ == right@),
{
    if left.len() != right.len() {
        return false;
    }
    let mut i: usize = 0;
    while i < left.len()
        invariant
            i <= left.len(),
            left.len() == right.len(),
            left@.subrange(0, i as int) == right@.subrange(0, i as int),
        decreases left.len() - i,
    {
        if left[i] != right[i] {
            return false;
        }
        assert(left@.subrange(0, i + 1) =~= left@.subrange(0, i as int).push(left@[i as int]));
        assert(right@.subrange(0, i + 1) =~= right@.subrange(0, i as int).push(right@[i as int]));
        i += 1;
    }
    assert(left@ =~= left@.subrange(0, i as int));
    assert(right@ =~= right@.subrange(0, i as int));
    true
}

/// The 20 bytes of the address that a left-padded topic holds.
fn address_of(topic: &[u8; 32]) -> (r: [u8; 20])
    ensures
        r@ == topic@.subrange(12, 32),
{
    let mut out: [u8; 20] = [0u8; 20];
    let mut i: usize = 0;
    while i < 20
        invariant
            i <= 20,
            forall|j: int| 0 <= j < i ==> out@[j] == topic@[12 + j],
        decreases 20 - i,
    {
        out[i] = topic[12 + i];
        i += 1;
    }
    assert(out@ =~= topic@.subrange(12, 32));
    out
}

/// Whether an unsigned word is below 2^160.
fn fits_uint160(word: &Uint256) -> (r: bool)
    ensures
        r == (word.as_nat() < pow2_160()),
{
    word.l3 == 0 && word.l2 < 0x1_0000_0000
}

/// The 24-bit signed number that a word holds, if it holds one.
fn int24_of(word: &Int256) -> (r: Option<i32>)
    ensures
        match r {
            Some(value) => fits_int24(word.as_int()) && value == word.as_int(),
            None => !fits_int24(word.as_int()),
        },
{
    let raw = word.raw;
    if raw.l3 == 0 && raw.l2 == 0 && raw.l1 == 0 && raw.l0 < 0x80_0000 {
        Some(raw.l0 as i32)
    } else if raw.l3 == u64::MAX && raw.l2 == u64::MAX && raw.l1 == u64::MAX && raw.l0
        >= 0xffff_ffff_ff80_0000 {
        let magnitude: u64 = u64::MAX - raw.l0 + 1;
        Some(-(magnitude as i32))
    } else {
        None
    }
}

/// Decodes `record` as a swap log whose first topic must be `topic0`.
///
/// The checks run in a fixed order (topic count, signature, indexed
/// addresses, payload length, field ranges) and the first one that fails
/// names the error. On success every field of the event is read from the
/// record; on failure the error carries the record's transaction hash.
pub fn decode_with_topic(record: &RawLogRecord, topic0: &[u8; 32]) -> (result: Result<
    SwapEvent,
    DecodeError,
>)
    ensures
        decode_outcome(record, topic0@, &result),
{
    let transaction_hash = record.transaction_hash;
    if record.topics.len() != SWAP_TOPIC_COUNT {
        return Err(DecodeError { reason: DecodeFailure::TopicCount, transaction_hash });
    }
    if !bytes_equal(record.topics[0].as_slice(), topic0.as_slice()) {
        return Err(DecodeError { reason: DecodeFailure::Signature, transaction_hash });
    }
    let sender_word = Uint256::from_be_bytes(&record.topics[1]);
    let recipient_word = Uint256::from_be_bytes(&record.topics[2]);
    if !fits_uint160(&sender_word) || !fits_uint160(&recipient_word) {
        return Err(DecodeError { reason: DecodeFailure::IndexedAddress, transaction_hash });
    }
    if record.data.len() != SWAP_DATA_LENGTH {
        return Err(DecodeError { reason: DecodeFailure::DataLength, transaction_hash });
    }
    let data = record.data.as_slice();
    let amount0 = read_signed_word(data, 0);
    let amount1 = read_signed_word(data, 32);
    let sqrt_price_x96 = read_word(data, 64);
    let liquidity_word = read_word(data, 96);
    let tick_word = read_signed_word(data, 128);
    let tick = int24_of(&tick_word);
    if !fits_uint160(&sqrt_price_x96) || liquidity_word.l3 != 0 || liquidity_word.l2 != 0
        || tick.is_none() {
        return Err(DecodeError { reason: DecodeFailure::FieldRange, transaction_hash });
    }
    let liquidity: u128 = (liquidity_word.l1 as u128) * 0x1_0000_0000_0000_0000u128
        + (liquidity_word.l0 as u128);
    Ok(
        SwapEvent {
            sender: address_of(&record.topics[1]),
            recipient: address_of(&record.topics[2]),
            amount0,
            amount1,
            sqrt_price_x96,
            liquidity,
            tick: tick.unwrap(),
            transaction_hash,
        },
    )
}

/// A log that lacks a topic or a field, or has one too many, is never
/// decoded: the result is an error, and it names the topic count where that
/// is what is wrong.
pub proof fn lemma_incomplete_record_is_rejected(
    record: &RawLogRecord,
    topic0: Seq<u8>,
    result: &Result<SwapEvent, DecodeError>,
)
    requires
        decode_outcome(record, topic0, result),
        record.topics@.len() != 3 || record.data@.len() != 160,
    ensures
        result is Err,
        record.topics@.len() != 3 ==> result->Err_0.reason == DecodeFailure::TopicCount,
{
}

/// Decoding has one answer: two events decoded from the same log agree in every field.
pub proof fn lemma_decoding_is_unique(record: &RawLogRecord, first: &SwapEvent, second: &SwapEvent)
    requires
        decodes_to(record, first),
        decodes_to(record, second),
    ensures
        first == second,
{
    first.amount0.raw.lemma_as_nat_injective(second.amount0.raw);
    first.amount1.raw.lemma_as_nat_injective(second.amount1.raw);
    first.sqrt_price_x96.lemma_as_nat_injective(second.sqrt_price_x96);
    assert(first.sender =~= second.sender);
    assert(first.recipient =~= second.recipient);
}

/// Decodes `record` as a log of the swap event named by [`SWAP_EVENT_SIGNATURE`].
///
/// This is [`decode_with_topic`] with the hash of that signature as the
/// expected first topic.
pub fn decode(record: &RawLogRecord) -> (result: Result<SwapEvent, DecodeError>)
    ensures
        decode_outcome(record, swap_topic(), &result),
{
    let topic0 = swap_event_topic();
    decode_with_topic(record, &topic0)
}

} // verus!
