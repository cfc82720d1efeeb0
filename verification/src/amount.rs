//! Writing amounts as decimal text.
//!
//! An amount counts units of 10^-18. It is shown in whole units with four
//! decimals, rounded to the nearest ten-thousandth; a tie goes to the even
//! neighbour.

use vstd::prelude::*;
use crate::uint::{pow2_256, Uint256};

verus! {

/// The number of units of 10^-18 in one ten-thousandth of a whole unit.
pub const WEI_PER_TEN_THOUSANDTH: u64 = 100_000_000_000_000;

/// The character of a decimal digit.
pub open spec fn digit(value: nat) -> char {
    seq!['0', '1', '2', '3', '4', '5', '6', '7', '8', '9'][value as int]
}

/// The decimal numeral of a natural number, without leading zeros.
pub open spec fn decimal(value: nat) -> Seq<char>
    decreases value,
{
    if value < 10 {
        seq![digit(value)]
    } else {
        decimal(value / 10).push(digit(value % 10))
    }
}

/// The four decimal digits of a number below 10000, leading zeros included.
pub open spec fn four_digits(value: nat) -> Seq<char> {
    seq![
        digit(value / 1000 % 10),
        digit(value / 100 % 10),
        digit(value / 10 % 10),
        digit(value % 10),
    ]
}

/// An amount in ten-thousandths of a whole unit, rounded to the nearest;
/// a tie goes to the even neighbour.
pub open spec fn ten_thousandths(wei: nat) -> nat {
    let floor = wei / 100_000_000_000_000;
    let rest = wei % 100_000_000_000_000;
    if rest > 50_000_000_000_000 || (rest == 50_000_000_000_000 && floor % 2 == 1) {
        floor + 1
    } else {
        floor
    }
}

/// The text of an amount: whole units, a point and four decimals.
pub open spec fn amount_text(wei: nat) -> Seq<char> {
    decimal(ten_thousandths(wei) / 10000) + seq!['.'] + four_digits(ten_thousandths(wei) % 10000)
}

/// `String::push` of the standard library appends the given character to
/// the end of the string.
pub assume_specification[ String::push ](text: &mut String, c: char)
    ensures
        final(text)@ == old(text)@.push(c),
;

/// The character of the decimal digit `value`.
pub fn digit_char(value: u8) -> (c: char)
    requires
        value < 10,
    ensures
        c == digit(value as nat),
{
    match value {
        0 => '0',
        1 => '1',
        2 => '2',
        3 => '3',
        4 => '4',
        5 => '5',
        6 => '6',
        7 => '7',
        8 => '8',
        _ => '9',
    }
}

/// Appends the decimal numeral of `value` to `out`.
fn push_decimal(out: &mut String, value: &Uint256)
    ensures
        final(out)@ == old(out)@ + decimal(value.as_nat()),
{
    let mut reversed: Vec<char> = Vec::new();
    let mut current = *value;
    let ghost mut tail: Seq<char> = Seq::empty();
    loop
        invariant_except_break
            decimal(value.as_nat()) == decimal(current.as_nat()) + tail,
        invariant
            reversed@.len() == tail.len(),
            forall|i: int| 0 <= i < tail.len() ==> reversed@[i] == tail[tail.len() - 1 - i],
        ensures
            decimal(value.as_nat()) == tail,
            reversed@.len() == tail.len(),
            forall|i: int| 0 <= i < tail.len() ==> reversed@[i] == tail[tail.len() - 1 - i],
        decreases current.as_nat(),
    {
        let (quotient, rest) = current.div_rem_u64(10);
        let c = digit_char(rest as u8);
        reversed.push(c);
        proof {
            let before = tail;
            tail = seq![c] + before;
            if quotient.as_nat() == 0 {
                assert(decimal(current.as_nat()) =~= seq![c]);
                assert(decimal(value.as_nat()) =~= tail);
            } else {
                assert(decimal(current.as_nat()) == decimal(quotient.as_nat()).push(c));
                assert(decimal(value.as_nat()) =~= decimal(quotient.as_nat()) + tail);
            }
        }
        if quotient.is_zero() {
            break;
        }
        current = quotient;
    }
    let mut i: usize = reversed.len();
    while i > 0
        invariant
            i <= reversed@.len(),
            reversed@.len() == tail.len(),
            forall|j: int| 0 <= j < tail.len() ==> reversed@[j] == tail[tail.len() - 1 - j],
            out@ == old(out)@ + tail.subrange(0, tail.len() - i),
        decreases i,
    {
        i -= 1;
        out.push(reversed[i]);
        assert(tail.subrange(0, tail.len() - i) =~= tail.subrange(0, tail.len() - i - 1).push(
            reversed@[i as int],
        ));
    }
    assert(tail.subrange(0, tail.len() as int) =~= tail);
}

/// Appends the four decimal digits of `value`, leading zeros included.
fn push_four_digits(out: &mut String, value: u64)
    requires
        value < 10000,
    ensures
        final(out)@ == old(out)@ + four_digits(value as nat),
{
    out.push(digit_char((value / 1000 % 10) as u8));
    out.push(digit_char((value / 100 % 10) as u8));
    out.push(digit_char((value / 10 % 10) as u8));
    out.push(digit_char((value % 10) as u8));
    assert(out@ =~= old(out)@ + four_digits(value as nat));
}

/// The amount `wei` in ten-thousandths of a whole unit, rounded to the
/// nearest with ties to the even neighbour.
pub fn round_to_ten_thousandths(wei: &Uint256) -> (rounded: Uint256)
    ensures
        rounded.as_nat() == ten_thousandths(wei.as_nat()),
{
    let (floor, rest) = wei.div_rem_u64(WEI_PER_TEN_THOUSANDTH);
    let half: u64 = WEI_PER_TEN_THOUSANDTH / 2;
    proof {
        floor.lemma_parity();
    }
    if rest > half || (rest == half && floor.l0 % 2 == 1) {
        proof {
            wei.lemma_bounded();
            let n: int = wei.as_nat() as int;
            let f: int = floor.as_nat() as int;
            vstd::arithmetic::div_mod::lemma_fundamental_div_mod(n, 100_000_000_000_000);
            assert(n == 100_000_000_000_000 * f + rest);
            assert(f + 1 < pow2_256());
        }
        floor.increment()
    } else {
        floor
    }
}

/// The text of the amount `wei`: whole units, a point and four decimals.
pub fn format_amount(wei: &Uint256) -> (text: String)
    ensures
        text@ == amount_text(wei.as_nat()),
{
    let rounded = round_to_ten_thousandths(wei);
    let (whole, fraction) = rounded.div_rem_u64(10000);
    let mut text = String::new();
    push_decimal(&mut text, &whole);
    text.push('.');
    push_four_digits(&mut text, fraction);
    assert(text@ =~= amount_text(wei.as_nat()));
    text
}

} // verus!
