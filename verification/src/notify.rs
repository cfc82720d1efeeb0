//! The text of an alert, as the messaging provider receives it.

use vstd::prelude::*;
use vstd::string::StringExecFns;
use crate::amount::{amount_text, format_amount};
use crate::detector::Direction;
use crate::markdown::{escape_markdown, escaped};
use crate::uint::Uint256;

verus! {

/// The character of a hexadecimal digit, in lower case.
pub open spec fn hex_digit(value: nat) -> char {
    seq!['0', '1', '2', '3', '4', '5', '6', '7', '8', '9', 'a', 'b', 'c', 'd', 'e', 'f'][value as int]
}

/// A byte string in lower-case hexadecimal, two digits to the byte.
pub open spec fn hex_text(bytes: Seq<u8>) -> Seq<char> {
    Seq::new(
        2 * bytes.len(),
        |i: int|
            if i % 2 == 0 {
                hex_digit((bytes[i / 2] / 16) as nat)
            } else {
                hex_digit((bytes[i / 2] % 16) as nat)
            },
    )
}

/// How a transaction is named in text: its hash in hexadecimal after `0x`,
/// or the word `unknown` where there is no hash.
pub open spec fn label_text(transaction_hash: Option<[u8; 32]>) -> Seq<char> {
    match transaction_hash {
        Some(hash) => "0x"@ + hex_text(hash@),
        None => "unknown"@,
    }
}

/// The sign that opens and closes the headline of an alert.
pub open spec fn marker_text(direction: Direction) -> Seq<char> {
    match direction {
        Direction::Bought => "🟢"@,
        Direction::Sold => "🔴"@,
    }
}

/// The word that names the direction of a trade.
pub open spec fn action_text(direction: Direction) -> Seq<char> {
    match direction {
        Direction::Bought => "BOUGHT"@,
        Direction::Sold => "SOLD"@,
    }
}

/// The body of an alert in the provider's markup: a bold headline with the
/// direction, the escaped amount in bold, and a link to the transaction.
pub open spec fn message_text(
    direction: Direction,
    wei: nat,
    transaction_hash: Option<[u8; 32]>,
) -> Seq<char> {
    marker_text(direction) + " *WHALE "@ + action_text(direction) + " \\!* "@ + marker_text(
        direction,
    ) + "\n\n💰 Amount: *"@ + escaped(amount_text(wei))
        + " ETH*\n🔗 [View on Etherscan](https://etherscan.io/tx/"@ + label_text(
        transaction_hash,
    ) + ")"@
}

/// The name of a transaction can stand in a link as it is: it holds neither
/// a closing parenthesis nor a backslash, the two characters that the markup
/// wants escaped there.
pub proof fn lemma_label_is_link_safe(transaction_hash: Option<[u8; 32]>)
    ensures
        forall|i: int|
            0 <= i < label_text(transaction_hash).len() ==> {
                let c = #[trigger] label_text(transaction_hash)[i];
                c != ')' && c != '\\'
            },
{
    reveal_strlit("0x");
    reveal_strlit("unknown");
    match transaction_hash {
        Some(hash) => {
            assert forall|i: int| 0 <= i < label_text(transaction_hash).len() implies {
                let c = #[trigger] label_text(transaction_hash)[i];
                c != ')' && c != '\\'
            } by {
                if i >= 2 {
                    let k = i - 2;
                    assert(label_text(transaction_hash)[i] == hex_text(hash@)[k]);
                    assert(0 <= hash@[k / 2] / 16 < 16);
                    assert(0 <= hash@[k / 2] % 16 < 16);
                }
            }
        },
        None => {},
    }
}

/// The character of the hexadecimal digit `value`.
fn hex_char(value: u8) -> (c: char)
    requires
        value < 16,
    ensures
        c == hex_digit(value as nat),
{
    match value {
        0 => '0',
        1 => '1',
        2 => '2',
        3 => '3',
        4 => '4',
        5 => '5',
        6 => '6',
        7 => '7',
        8 => '8',
        9 => '9',
        10 => 'a',
        11 => 'b',
        12 => 'c',
        13 => 'd',
        14 => 'e',
        _ => 'f',
    }
}

/// The name of a transaction in text.
pub fn transaction_label(transaction_hash: &Option<[u8; 32]>) -> (label: String)
    ensures
        label@ == label_text(*transaction_hash),
{
    match transaction_hash {
        Some(hash) => {
            let mut label = String::from_str("0x");
            let mut i: usize = 0;
            while i < 32
                invariant
                    i <= 32,
                    label@ == "0x"@ + hex_text(hash@.subrange(0, i as int)),
                decreases 32 - i,
            {
                let byte: u8 = hash[i];
                label.push(hex_char(byte / 16));
                label.push(hex_char(byte % 16));
                assert(hex_text(hash@.subrange(0, i + 1)) =~= hex_text(hash@.subrange(0, i as int))
                    + seq![hex_digit((byte / 16) as nat), hex_digit((byte % 16) as nat)]);
                i += 1;
            }
            assert(hash@.subrange(0, 32) =~= hash@);
            label
        },
        None => String::from_str("unknown"),
    }
}

/// The sign of a direction.
fn marker(direction: Direction) -> (text: &'static str)
    ensures
        text@ == marker_text(direction),
{
    match direction {
        Direction::Bought => "🟢",
        Direction::Sold => "🔴",
    }
}

/// The word of a direction.
fn action(direction: Direction) -> (text: &'static str)
    ensures
        text@ == action_text(direction),
{
    match direction {
        Direction::Bought => "BOUGHT",
        Direction::Sold => "SOLD",
    }
}

/// Writes the body of an alert for a trade of `magnitude` units of 10^-18 in
/// the given direction.
pub fn alert_message(
    direction: Direction,
    magnitude: &Uint256,
    transaction_hash: &Option<[u8; 32]>,
) -> (message: String)
    ensures
        message@ == message_text(direction, magnitude.as_nat(), *transaction_hash),
{
    let amount = format_amount(magnitude);
    let shown = escape_markdown(amount.as_str());
    let label = transaction_label(transaction_hash);
    let mut message = String::from_str(marker(direction));
    message.append(" *WHALE ");
    message.append(action(direction));
    message.append(" \\!* ");
    message.append(marker(direction));
    message.append("\n\n💰 Amount: *");
    message.append(shown.as_str());
    message.append(" ETH*\n🔗 [View on Etherscan](https://etherscan.io/tx/");
    message.append(label.as_str());
    message.append(")");
    message
}

} // verus!
