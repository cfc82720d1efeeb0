use alloy::primitives::aliases::I24;
use alloy::primitives::{I256, U160};
use alloy::sol_types::abi::AbiDecoderConfig;
use alloy::sol_types::{SolType, SolValue};
use whale_watch::decoder::{
    decode, decode_with_topic, swap_event_topic, SWAP_DATA_LENGTH, SWAP_EVENT_SIGNATURE,
    SWAP_TOPIC_COUNT,
};
use whale_watch::record::{DecodeError, DecodeFailure, RawLogRecord, SwapEvent};
use whale_watch::uint::{Int256, Uint256};

type Payload = (I256, I256, U160, u128, I24);

const SENDER: [u8; 20] = [
    0xe5, 0x92, 0x42, 0x7a, 0x0a, 0xec, 0xe9, 0x2d, 0xe3, 0xed, 0xee, 0x1f, 0x18, 0xe0, 0x15, 0x7c,
    0x05, 0x86, 0x15, 0x64,
];
const RECIPIENT: [u8; 20] = [0x3f; 20];
const HASH: [u8; 32] = [0x5c; 32];

fn padded(address: [u8; 20]) -> [u8; 32] {
    let mut word = [0u8; 32];
    word[12..].copy_from_slice(&address);
    word
}

fn word_of(value: i128) -> [u8; 32] {
    let mut word = [if value < 0 { 0xffu8 } else { 0u8 }; 32];
    word[16..].copy_from_slice(&value.to_be_bytes());
    word
}

fn payload(amount0: i128, amount1: i128, price: u128, liquidity: u128, tick: i32) -> Vec<u8> {
    let mut data = Vec::new();
    data.extend_from_slice(&word_of(amount0));
    data.extend_from_slice(&word_of(amount1));
    data.extend_from_slice(&word_of(0));
    data[80..96].copy_from_slice(&price.to_be_bytes());
    data.extend_from_slice(&word_of(0));
    data[112..128].copy_from_slice(&liquidity.to_be_bytes());
    data.extend_from_slice(&word_of(tick as i128));
    data
}

fn sample() -> RawLogRecord {
    RawLogRecord {
        topics: vec![swap_event_topic(), padded(SENDER), padded(RECIPIENT)],
        data: payload(
            40_000_000_000,
            -21_000_000_000_000_000_000,
            1_461_446_703_485_210_103_287_273_052,
            9_876_543_210_987_654_321,
            -201_234,
        ),
        transaction_hash: Some(HASH),
    }
}

fn signed(value: i128) -> Int256 {
    Int256::from_be_bytes(&word_of(value))
}

fn failure(record: &RawLogRecord) -> DecodeFailure {
    match decode(record) {
        Err(error) => {
            assert_eq!(error.transaction_hash, record.transaction_hash);
            error.reason
        }
        Ok(event) => panic!("decoded {:?}", event),
    }
}

fn strict_alloy_decode(data: &[u8]) -> Option<Payload> {
    Payload::abi_decode_sequence_with_config(data, AbiDecoderConfig::new().strict(true)).ok()
}

#[test]
fn swap_log_has_three_topics_and_five_fields() {
    assert_eq!(SWAP_TOPIC_COUNT, 3);
    assert_eq!(SWAP_DATA_LENGTH, 160);
    assert_eq!(SWAP_EVENT_SIGNATURE, "Swap(address,address,int256,int256,uint160,uint128,int24)");
}

#[test]
fn swap_event_topic_is_the_hash_of_the_signature() {
    let expected: [u8; 32] = [
        0xc4, 0x20, 0x79, 0xf9, 0x4a, 0x63, 0x50, 0xd7, 0xe6, 0x23, 0x5f, 0x29, 0x17, 0x49, 0x24,
        0xf9, 0x28, 0xcc, 0x2a, 0xc8, 0x18, 0xeb, 0x64, 0xfe, 0xd8, 0x00, 0x4e, 0x11, 0x5f, 0xbc,
        0xca, 0x67,
    ];
    assert_eq!(swap_event_topic(), expected);
    assert_ne!(&swap_event_topic()[..], &SWAP_EVENT_SIGNATURE.as_bytes()[..32]);
}

#[test]
fn decode_reads_every_field() {
    let event = decode(&sample()).expect("a well-formed swap log");
    assert_eq!(
        event,
        SwapEvent {
            sender: SENDER,
            recipient: RECIPIENT,
            amount0: signed(40_000_000_000),
            amount1: signed(-21_000_000_000_000_000_000),
            sqrt_price_x96: Uint256::from_u128(1_461_446_703_485_210_103_287_273_052),
            liquidity: 9_876_543_210_987_654_321,
            tick: -201_234,
            transaction_hash: Some(HASH),
        }
    );
    assert!(event.amount1.is_negative());
}

#[test]
fn decode_keeps_a_missing_transaction_hash_missing() {
    let mut record = sample();
    record.transaction_hash = None;
    assert_eq!(decode(&record).expect("a well-formed swap log").transaction_hash, None);
    record.topics.pop();
    assert_eq!(
        decode(&record),
        Err(DecodeError { reason: DecodeFailure::TopicCount, transaction_hash: None })
    );
}

#[test]
fn decode_accepts_the_extremes_of_each_field() {
    let mut record = sample();
    record.data = payload(i128::MIN, i128::MAX, u128::MAX, u128::MAX, 8_388_607);
    record.data[76..80].copy_from_slice(&[0xff; 4]);
    record.data[..16].copy_from_slice(&[0x80, 0, 0, 0, 0, 0, 0, 0, 0, 0, 0, 0, 0, 0, 0, 0]);
    let event = decode(&record).expect("a well-formed swap log");
    assert_eq!(
        event.amount0,
        Int256 { raw: Uint256 { l0: 0, l1: 0x8000_0000_0000_0000, l2: 0, l3: 0x8000_0000_0000_0000 } }
    );
    assert_eq!(event.amount1, signed(i128::MAX));
    assert_eq!(
        event.sqrt_price_x96,
        Uint256 { l0: u64::MAX, l1: u64::MAX, l2: 0xffff_ffff, l3: 0 }
    );
    assert_eq!(event.liquidity, u128::MAX);
    assert_eq!(event.tick, 8_388_607);
    record.data[128..160].copy_from_slice(&word_of(-8_388_608));
    assert_eq!(decode(&record).expect("a well-formed swap log").tick, -8_388_608);
    record.topics[1] = padded([0xff; 20]);
    record.topics[2] = padded([0x00; 20]);
    let event = decode(&record).expect("a well-formed swap log");
    assert_eq!((event.sender, event.recipient), ([0xff; 20], [0x00; 20]));
}

#[test]
fn wrong_topic_count_is_rejected() {
    let mut record = sample();
    record.topics.pop();
    assert_eq!(failure(&record), DecodeFailure::TopicCount);
    record.topics.clear();
    assert_eq!(failure(&record), DecodeFailure::TopicCount);
    let mut record = sample();
    record.topics.push([0; 32]);
    assert_eq!(failure(&record), DecodeFailure::TopicCount);
}

#[test]
fn foreign_signature_is_rejected() {
    let mut record = sample();
    record.topics[0][31] ^= 1;
    assert_eq!(failure(&record), DecodeFailure::Signature);
    record.topics[0] = [0; 32];
    assert_eq!(failure(&record), DecodeFailure::Signature);
}

#[test]
fn topic_that_is_no_address_is_rejected() {
    let mut record = sample();
    record.topics[1][11] = 1;
    assert_eq!(failure(&record), DecodeFailure::IndexedAddress);
    let mut record = sample();
    record.topics[2][0] = 0x80;
    assert_eq!(failure(&record), DecodeFailure::IndexedAddress);
}

#[test]
fn missing_or_surplus_field_is_rejected() {
    let mut record = sample();
    record.data.truncate(128);
    assert_eq!(failure(&record), DecodeFailure::DataLength);
    record.data.clear();
    assert_eq!(failure(&record), DecodeFailure::DataLength);
    let mut record = sample();
    record.data.pop();
    assert_eq!(failure(&record), DecodeFailure::DataLength);
    let mut record = sample();
    record.data.push(0);
    assert_eq!(failure(&record), DecodeFailure::DataLength);
    record.data.extend_from_slice(&[0; 31]);
    assert_eq!(failure(&record), DecodeFailure::DataLength);
}

#[test]
fn field_beyond_its_type_is_rejected() {
    let mut price = sample();
    price.data[75] = 1;
    assert_eq!(failure(&price), DecodeFailure::FieldRange);
    let mut liquidity = sample();
    liquidity.data[111] = 1;
    assert_eq!(failure(&liquidity), DecodeFailure::FieldRange);
    let mut tick = sample();
    tick.data[128..160].copy_from_slice(&word_of(8_388_608));
    assert_eq!(failure(&tick), DecodeFailure::FieldRange);
    tick.data[128..160].copy_from_slice(&word_of(-8_388_609));
    assert_eq!(failure(&tick), DecodeFailure::FieldRange);
    // A positive 24-bit pattern whose padding is not a sign extension.
    tick.data[128..160].copy_from_slice(&word_of(5));
    tick.data[128] = 0xff;
    assert_eq!(failure(&tick), DecodeFailure::FieldRange);
}

#[test]
fn first_failed_check_names_the_error() {
    let mut record = sample();
    record.data.clear();
    record.topics[2][0] = 1;
    assert_eq!(failure(&record), DecodeFailure::IndexedAddress);
    record.topics[0] = [0; 32];
    assert_eq!(failure(&record), DecodeFailure::Signature);
    record.topics.push([0; 32]);
    assert_eq!(failure(&record), DecodeFailure::TopicCount);
    let mut record = sample();
    record.data[75] = 1;
    record.data.push(0);
    assert_eq!(failure(&record), DecodeFailure::DataLength);
}

#[test]
fn decode_with_topic_checks_against_the_given_topic() {
    let mut record = sample();
    record.topics[0] = [0x77; 32];
    assert_eq!(failure(&record), DecodeFailure::Signature);
    let event = decode_with_topic(&record, &[0x77; 32]).expect("a log of the other event");
    assert_eq!(event.tick, -201_234);
    assert_eq!(
        decode_with_topic(&sample(), &[0x77; 32]),
        Err(DecodeError { reason: DecodeFailure::Signature, transaction_hash: Some(HASH) })
    );
}

#[test]
fn decode_agrees_with_the_alloy_encoding() {
    let cases: [(i128, i128, u128, u128, i32); 5] = [
        (0, 0, 0, 0, 0),
        (1, -1, 1, 1, -1),
        (i128::MAX, i128::MIN, u128::MAX, u128::MAX, 8_388_607),
        (-123_456_789, 25_000_000_000_000_000_000, 79_228_162_514_264_337_593_543_950_336, 42, -8_388_608),
        (40_000_000_000, -21_000_000_000_000_000_000, 3, 1 << 127, 887_272),
    ];
    for (amount0, amount1, price, liquidity, tick) in cases {
        let values: Payload = (
            I256::try_from(amount0).unwrap(),
            I256::try_from(amount1).unwrap(),
            U160::from(price),
            liquidity,
            I24::try_from(tick).unwrap(),
        );
        let mut record = sample();
        record.data = values.abi_encode_params();
        assert_eq!(record.data, payload(amount0, amount1, price, liquidity, tick));
        let event = decode(&record).expect("a well-formed swap log");
        assert_eq!(event.amount0.raw, Uint256::from_be_bytes(&values.0.to_be_bytes::<32>()));
        assert_eq!(event.amount1.raw, Uint256::from_be_bytes(&values.1.to_be_bytes::<32>()));
        assert_eq!(event.amount1.is_negative(), values.1.is_negative());
        let limbs = values.1.unsigned_abs().into_limbs();
        assert_eq!(
            event.amount1.unsigned_abs(),
            Uint256 { l0: limbs[0], l1: limbs[1], l2: limbs[2], l3: limbs[3] }
        );
        assert_eq!(event.sqrt_price_x96, Uint256::from_u128(price));
        assert_eq!(event.liquidity, liquidity);
        assert_eq!(event.tick, tick);
    }
}

#[test]
fn decode_accepts_what_the_strict_alloy_decode_decoder_accepts() {
    let base = sample();
    assert!(strict_alloy_decode(&base.data).is_some());
    for position in 0..160 {
        for flip in [0x01u8, 0x80, 0xff] {
            let mut record = base.clone();
            record.data[position] ^= flip;
            assert_eq!(
                decode(&record).is_ok(),
                strict_alloy_decode(&record.data).is_some(),
                "byte {} flipped by {:#x}",
                position,
                flip
            );
        }
    }
    for length in [0usize, 32, 159, 161, 192] {
        let mut record = base.clone();
        record.data.resize(length, 0);
        assert_eq!(decode(&record).is_ok(), strict_alloy_decode(&record.data).is_some());
        assert!(decode(&record).is_err());
    }
}
