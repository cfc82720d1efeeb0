//! Big-endian byte strings and the numbers they stand for.

use vstd::prelude::*;
use crate::uint::{limb_base, pow2_128, pow2_192, pow2_255, pow2_256, Int256, Uint256};

verus! {

/// The number that a big-endian byte string stands for.
pub open spec fn be_nat(bytes: Seq<u8>) -> nat
    decreases bytes.len(),
{
    if bytes.len() == 0 {
        0
    } else {
        be_nat(bytes.drop_last()) * 256 + bytes.last() as nat
    }
}

/// The integer that a 32-byte big-endian word stands for in two's complement.
pub open spec fn word_int(word: Seq<u8>) -> int {
    if be_nat(word) >= pow2_255() {
        be_nat(word) - pow2_256()
    } else {
        be_nat(word) as int
    }
}

/// 256 to the power `n`.
pub open spec fn pow256(n: nat) -> nat
    decreases n,
{
    if n == 0 {
        1
    } else {
        pow256((n - 1) as nat) * 256
    }
}

/// The value of a concatenation: the left part is shifted by the length of the right part.
pub proof fn lemma_be_nat_concat(left: Seq<u8>, right: Seq<u8>)
    ensures
        be_nat(left + right) == be_nat(left) * pow256(right.len()) + be_nat(right),
    decreases right.len(),
{
    if right.len() == 0 {
        assert(left + right =~= left);
        assert(pow256(right.len()) == 1);
        assert(be_nat(left) * 1 == be_nat(left)) by (nonlinear_arith);
    } else {
        let whole = left + right;
        assert(whole.drop_last() =~= left + right.drop_last());
        assert(whole.last() == right.last());
        lemma_be_nat_concat(left, right.drop_last());
        let a: int = be_nat(left) as int;
        let p: int = pow256(right.drop_last().len()) as int;
        let b: int = be_nat(right.drop_last()) as int;
        assert((a * p + b) * 256 == a * (p * 256) + b * 256) by (nonlinear_arith);
        assert(be_nat(whole) == be_nat(whole.drop_last()) * 256 + whole.last() as nat);
        assert(be_nat(whole.drop_last()) == a * p + b);
        assert(pow256(right.len()) == p * 256);
        assert(be_nat(right) == b * 256 + right.last() as nat);
        assert(be_nat(left) * pow256(right.len()) == a * (p * 256));
    }
}

/// An eight-byte string, written out digit by digit.
pub proof fn lemma_be_nat_eight(bytes: Seq<u8>)
    requires
        bytes.len() == 8,
    ensures
        be_nat(bytes) == bytes[0] * 0x0100_0000_0000_0000 + bytes[1] * 0x0001_0000_0000_0000
            + bytes[2] * 0x0000_0100_0000_0000 + bytes[3] * 0x0000_0001_0000_0000
            + bytes[4] * 0x0000_0000_0100_0000 + bytes[5] * 0x0000_0000_0001_0000
            + bytes[6] * 0x0000_0000_0000_0100 + bytes[7],
        be_nat(bytes) < limb_base(),
{
    reveal_with_fuel(be_nat, 9);
}

/// A 32-byte word is four 64-bit limbs, most significant first.
pub proof fn lemma_be_nat_word(word: Seq<u8>)
    requires
        word.len() == 32,
    ensures
        be_nat(word) == be_nat(word.subrange(0, 8)) * pow2_192() + be_nat(word.subrange(8, 16))
            * pow2_128() + be_nat(word.subrange(16, 24)) * limb_base() + be_nat(
            word.subrange(24, 32),
        ),
        be_nat(word) < pow2_256(),
{
    let a = word.subrange(0, 8);
    let b = word.subrange(8, 16);
    let c = word.subrange(16, 24);
    let d = word.subrange(24, 32);
    assert(pow256(8) == limb_base()) by {
        reveal_with_fuel(pow256, 9);
    }
    assert(word =~= ((a + b) + c) + d);
    lemma_be_nat_concat(a, b);
    lemma_be_nat_concat(a + b, c);
    lemma_be_nat_concat((a + b) + c, d);
    lemma_be_nat_eight(a);
    lemma_be_nat_eight(b);
    lemma_be_nat_eight(c);
    lemma_be_nat_eight(d);
    assert(pow256(b.len()) == limb_base());
    assert(pow256(c.len()) == limb_base());
    assert(pow256(d.len()) == limb_base());
    let ab: int = be_nat(a + b) as int;
    let abc: int = be_nat((a + b) + c) as int;
    assert(ab == be_nat(a) * 0x1_0000_0000_0000_0000 + be_nat(b));
    assert(abc == ab * 0x1_0000_0000_0000_0000 + be_nat(c));
    assert(be_nat(word) == abc * 0x1_0000_0000_0000_0000 + be_nat(d));
}

/// Reads eight bytes at `at` as a big-endian number.
fn read_limb(bytes: &[u8], at: usize) -> (r: u64)
    requires
        at + 8 <= bytes.len(),
    ensures
        r == be_nat(bytes@.subrange(at as int, at + 8)),
{
    proof {
        lemma_be_nat_eight(bytes@.subrange(at as int, at + 8));
    }
    (bytes[at] as u64) * 0x0100_0000_0000_0000 + (bytes[at + 1] as u64) * 0x0001_0000_0000_0000
        + (bytes[at + 2] as u64) * 0x0000_0100_0000_0000 + (bytes[at + 3] as u64)
        * 0x0000_0001_0000_0000 + (bytes[at + 4] as u64) * 0x0000_0000_0100_0000 + (bytes[at
        + 5] as u64) * 0x0000_0000_0001_0000 + (bytes[at + 6] as u64) * 0x0000_0000_0000_0100
        + (bytes[at + 7] as u64)
}

/// Reads the 32 bytes at `at` as an unsigned big-endian word.
pub fn read_word(bytes: &[u8], at: usize) -> (r: Uint256)
    requires
        at + 32 <= bytes.len(),
    ensures
        r.as_nat() == be_nat(bytes@.subrange(at as int, at + 32)),
{
    let l3: u64 = read_limb(bytes, at);
    let l2: u64 = read_limb(bytes, at + 8);
    let l1: u64 = read_limb(bytes, at + 16);
    let l0: u64 = read_limb(bytes, at + 24);
    proof {
        let word = bytes@.subrange(at as int, at + 32);
        lemma_be_nat_word(word);
        assert(word.subrange(0, 8) =~= bytes@.subrange(at as int, at + 8));
        assert(word.subrange(8, 16) =~= bytes@.subrange(at + 8, at + 16));
        assert(word.subrange(16, 24) =~= bytes@.subrange(at + 16, at + 24));
        assert(word.subrange(24, 32) =~= bytes@.subrange(at + 24, at + 32));
    }
    Uint256 { l0, l1, l2, l3 }
}

/// Reads the 32 bytes at `at` as a signed big-endian word in two's complement.
pub fn read_signed_word(bytes: &[u8], at: usize) -> (r: Int256)
    requires
        at + 32 <= bytes.len(),
    ensures
        r.as_int() == word_int(bytes@.subrange(at as int, at + 32)),
{
    Int256 { raw: read_word(bytes, at) }
}

impl Uint256 {
    /// The number that 32 big-endian bytes stand for.
    pub fn from_be_bytes(bytes: &[u8; 32]) -> (r: Self)
        ensures
            r.as_nat() == be_nat(bytes@),
    {
        let slice = bytes.as_slice();
        assert(slice@.subrange(0, 32) =~= bytes@);
        read_word(slice, 0)
    }
}

impl Int256 {
    /// The integer that 32 big-endian bytes stand for in two's complement.
    pub fn from_be_bytes(bytes: &[u8; 32]) -> (r: Self)
        ensures
            r.as_int() == word_int(bytes@),
    {
        Int256 { raw: Uint256::from_be_bytes(bytes) }
    }
}

} // verus!
