use whale_watch::detector::Direction;
use whale_watch::markdown::{escape_markdown, reserved};
use whale_watch::notify::{alert_message, transaction_label};
use whale_watch::uint::Uint256;

const UNIT: u128 = 1_000_000_000_000_000_000;

#[test]
fn reserved_characters_are_those_of_the_markup() {
    let found: String = (0u8..128).map(char::from).filter(|&c| reserved(c)).collect();
    assert_eq!(found, "!#()*+-.=>[\\]_`{|}~");
    assert!(!reserved('é'));
    assert!(!reserved('🟢'));
}

#[test]
fn escape_markdown_puts_a_backslash_before_reserved_characters() {
    assert_eq!(escape_markdown("21.0000"), "21\\.0000");
    assert_eq!(escape_markdown(""), "");
    assert_eq!(escape_markdown("plain text 123"), "plain text 123");
    assert_eq!(escape_markdown("a_b*c[d]e(f)g~h`i>j#k+l-m=n|o{p}q.r!s"),
        "a\\_b\\*c\\[d\\]e\\(f\\)g\\~h\\`i\\>j\\#k\\+l\\-m\\=n\\|o\\{p\\}q\\.r\\!s");
    assert_eq!(escape_markdown("\\"), "\\\\");
    assert_eq!(escape_markdown("..."), "\\.\\.\\.");
    assert_eq!(escape_markdown("💰 1.5 ETH!"), "💰 1\\.5 ETH\\!");
}

#[test]
fn transaction_label_is_prefixed_lower_case_hex() {
    let mut hash = [0u8; 32];
    for (i, b) in hash.iter_mut().enumerate() {
        *b = (i as u8) * 8 + 7;
    }
    assert_eq!(
        transaction_label(&Some(hash)),
        "0x070f171f272f373f474f575f676f777f878f979fa7afb7bfc7cfd7dfe7eff7ff"
    );
    assert_eq!(
        transaction_label(&Some([0; 32])),
        "0x0000000000000000000000000000000000000000000000000000000000000000"
    );
}

#[test]
fn transaction_label_without_a_hash_is_unknown() {
    assert_eq!(transaction_label(&None), "unknown");
}

#[test]
fn alert_message_for_a_purchase() {
    let message =
        alert_message(Direction::Bought, &Uint256::from_u128(21 * UNIT), &Some([0x1a; 32]));
    assert_eq!(
        message,
        "🟢 *WHALE BOUGHT \\!* 🟢\n\n💰 Amount: *21\\.0000 ETH*\n🔗 [View on Etherscan](https://etherscan.io/tx/0x1a1a1a1a1a1a1a1a1a1a1a1a1a1a1a1a1a1a1a1a1a1a1a1a1a1a1a1a1a1a1a1a)"
    );
}

#[test]
fn alert_message_for_a_sale_without_a_hash() {
    let message =
        alert_message(Direction::Sold, &Uint256::from_u128(25 * UNIT + UNIT / 2), &None);
    assert_eq!(
        message,
        "🔴 *WHALE SOLD \\!* 🔴\n\n💰 Amount: *25\\.5000 ETH*\n🔗 [View on Etherscan](https://etherscan.io/tx/unknown)"
    );
}
