use whale_watch::decoder::swap_event_topic;
use whale_watch::detector::{Direction, WHALE_THRESHOLD_WEI};
use whale_watch::monitor::{Monitor, Outcome};
use whale_watch::record::{DecodeError, DecodeFailure, RawLogRecord};
use whale_watch::uint::Uint256;

const UNIT: i128 = 1_000_000_000_000_000_000;
const SECOND: u128 = 1_000_000_000;

fn word_of(value: i128) -> [u8; 32] {
    let mut word = [if value < 0 { 0xffu8 } else { 0u8 }; 32];
    word[16..].copy_from_slice(&value.to_be_bytes());
    word
}

fn swap_log(amount1: i128, hash: u8) -> RawLogRecord {
    let mut data = Vec::new();
    for field in [-5_000_000i128, amount1, 1 << 96, 777, -1] {
        data.extend_from_slice(&word_of(field));
    }
    let mut sender = [0u8; 32];
    sender[12..].copy_from_slice(&[0xaa; 20]);
    RawLogRecord {
        topics: vec![swap_event_topic(), sender, sender],
        data,
        transaction_hash: Some([hash; 32]),
    }
}

fn magnitude(units: i128) -> Uint256 {
    Uint256::from_u128((units * UNIT) as u128)
}

#[test]
fn whales_are_alerted_once_per_window() {
    let mut monitor = Monitor::new(20 * UNIT as u128);

    let first = monitor.on_record_at(&swap_log(-21 * UNIT, 0x01), 0);
    match &first {
        Outcome::Alert { magnitude: size, direction, transaction_hash, message } => {
            assert_eq!(*size, magnitude(21));
            assert_eq!(*direction, Direction::Bought);
            assert_eq!(*transaction_hash, Some([0x01; 32]));
            assert!(message.contains("BOUGHT"));
            assert!(message.contains("21\\.0000"));
            assert!(message.replace('\\', "").contains("21.0000"));
            assert!(!message.contains("SOLD"));
        }
        other => panic!("expected an alert, got {:?}", other),
    }

    let second = monitor.on_record_at(&swap_log(25 * UNIT, 0x02), SECOND / 2);
    assert_eq!(
        second,
        Outcome::RateLimited {
            magnitude: magnitude(25),
            direction: Direction::Sold,
            transaction_hash: Some([0x02; 32]),
        }
    );

    let third = monitor.on_record_at(&swap_log(25 * UNIT, 0x03), SECOND + SECOND / 2);
    match &third {
        Outcome::Alert { magnitude: size, direction, message, .. } => {
            assert_eq!(*size, magnitude(25));
            assert_eq!(*direction, Direction::Sold);
            assert!(message.contains("SOLD"));
            assert!(message.contains("25\\.0000"));
            assert!(!message.contains("BOUGHT"));
        }
        other => panic!("expected an alert, got {:?}", other),
    }
}

#[test]
fn alert_carries_the_whole_message() {
    let mut monitor = Monitor::new(WHALE_THRESHOLD_WEI);
    assert_eq!(
        monitor.on_record_at(&swap_log(-21 * UNIT, 0x9f), 12_345),
        Outcome::Alert {
            magnitude: magnitude(21),
            direction: Direction::Bought,
            transaction_hash: Some([0x9f; 32]),
            message: String::from(
                "🟢 *WHALE BOUGHT \\!* 🟢\n\n💰 Amount: *21\\.0000 ETH*\n🔗 [View on Etherscan](https://etherscan.io/tx/0x9f9f9f9f9f9f9f9f9f9f9f9f9f9f9f9f9f9f9f9f9f9f9f9f9f9f9f9f9f9f9f9f)"
            ),
        }
    );
}

#[test]
fn small_swaps_do_not_touch_the_limiter() {
    let mut monitor = Monitor::new(WHALE_THRESHOLD_WEI);
    assert_eq!(
        monitor.on_record_at(&swap_log(20 * UNIT - 1, 0x04), 0),
        Outcome::SmallSwap {
            magnitude: Uint256::from_u128((20 * UNIT - 1) as u128),
            transaction_hash: Some([0x04; 32]),
        }
    );
    assert_eq!(
        monitor.on_record_at(&swap_log(-3, 0x05), 1),
        Outcome::SmallSwap { magnitude: Uint256::from_u128(3), transaction_hash: Some([0x05; 32]) }
    );
    // The limiter is still fresh: the first whale passes at once.
    assert!(matches!(
        monitor.on_record_at(&swap_log(20 * UNIT, 0x06), 2),
        Outcome::Alert { .. }
    ));
}

#[test]
fn rate_limited_whales_do_not_extend_the_window() {
    let mut monitor = Monitor::new(WHALE_THRESHOLD_WEI);
    assert!(matches!(monitor.on_record_at(&swap_log(30 * UNIT, 1), 100), Outcome::Alert { .. }));
    assert!(matches!(
        monitor.on_record_at(&swap_log(30 * UNIT, 2), 100 + SECOND - 1),
        Outcome::RateLimited { .. }
    ));
    assert!(matches!(
        monitor.on_record_at(&swap_log(30 * UNIT, 3), 100 + SECOND),
        Outcome::Alert { .. }
    ));
}

#[test]
fn malformed_logs_are_rejected_and_the_stream_goes_on() {
    let mut monitor = Monitor::new(WHALE_THRESHOLD_WEI);
    let mut short = swap_log(-50 * UNIT, 0x07);
    short.data.truncate(96);
    assert_eq!(
        monitor.on_record_at(&short, 0),
        Outcome::Rejected {
            error: DecodeError {
                reason: DecodeFailure::DataLength,
                transaction_hash: Some([0x07; 32]),
            },
        }
    );
    let mut unnamed = swap_log(-50 * UNIT, 0x08);
    unnamed.topics.truncate(2);
    unnamed.transaction_hash = None;
    assert_eq!(
        monitor.on_record_at(&unnamed, 1),
        Outcome::Rejected {
            error: DecodeError { reason: DecodeFailure::TopicCount, transaction_hash: None },
        }
    );
    // A rejected whale has not used up the window.
    assert!(matches!(
        monitor.on_record_at(&swap_log(-50 * UNIT, 0x09), 2),
        Outcome::Alert { .. }
    ));
}

#[test]
fn records_are_handled_in_order_on_the_clock() {
    let mut monitor = Monitor::new(WHALE_THRESHOLD_WEI);
    assert!(matches!(monitor.on_record(&swap_log(UNIT, 1)), Outcome::SmallSwap { .. }));
    let first = monitor.on_record(&swap_log(-21 * UNIT, 2));
    match first {
        Outcome::Alert { direction, message, .. } => {
            assert_eq!(direction, Direction::Bought);
            assert!(message.contains("BOUGHT"));
        }
        other => panic!("expected an alert, got {:?}", other),
    }
    assert_eq!(
        monitor.on_record(&swap_log(25 * UNIT, 3)),
        Outcome::RateLimited {
            magnitude: magnitude(25),
            direction: Direction::Sold,
            transaction_hash: Some([3; 32]),
        }
    );
    let mut broken = swap_log(25 * UNIT, 4);
    broken.topics[0] = [0; 32];
    assert!(matches!(monitor.on_record(&broken), Outcome::Rejected { .. }));
    let waited = std::time::Instant::now();
    while waited.elapsed() < std::time::Duration::from_millis(1020) {
        std::hint::spin_loop();
    }
    assert!(matches!(monitor.on_record(&swap_log(25 * UNIT, 5)), Outcome::Alert { .. }));
}
