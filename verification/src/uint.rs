//! Fixed-width 256-bit integers, unsigned and two's-complement signed.

use vstd::prelude::*;

verus! {

/// 2^64, the weight of one limb.
pub open spec fn limb_base() -> nat {
    0x1_0000_0000_0000_0000nat
}

/// 2^128.
pub open spec fn pow2_128() -> nat {
    0x1_0000_0000_0000_0000_0000_0000_0000_0000nat
}

/// 2^192.
pub open spec fn pow2_192() -> nat {
    0x1_0000_0000_0000_0000_0000_0000_0000_0000_0000_0000_0000_0000nat
}

/// 2^255, the magnitude of the least signed 256-bit integer.
pub open spec fn pow2_255() -> nat {
    0x8000_0000_0000_0000_0000_0000_0000_0000_0000_0000_0000_0000_0000_0000_0000_0000nat
}

/// 2^256, the number of 256-bit values.
pub open spec fn pow2_256() -> nat {
    0x1_0000_0000_0000_0000_0000_0000_0000_0000_0000_0000_0000_0000_0000_0000_0000_0000nat
}

/// An unsigned 256-bit integer, held as four 64-bit limbs.
#[derive(Clone, Copy, Debug, PartialEq, Eq, Structural)]
pub struct Uint256 {
    /// Bits 0..64.
    pub l0: u64,
    /// Bits 64..128.
    pub l1: u64,
    /// Bits 128..192.
    pub l2: u64,
    /// Bits 192..256.
    pub l3: u64,
}

impl Uint256 {
    /// The number this value stands for.
    pub open spec fn as_nat(self) -> nat {
        (self.l0 + self.l1 * limb_base() + self.l2 * pow2_128() + self.l3 * pow2_192()) as nat
    }

    /// Zero.
    pub fn zero() -> (r: Self)
        ensures
            r.as_nat() == 0,
    {
        Uint256 { l0: 0, l1: 0, l2: 0, l3: 0 }
    }

    /// Widens a 128-bit number.
    pub fn from_u128(value: u128) -> (r: Self)
        ensures
            r.as_nat() == value,
    {
        let low: u64 = (value % 0x1_0000_0000_0000_0000) as u64;
        let high: u64 = (value / 0x1_0000_0000_0000_0000) as u64;
        Uint256 { l0: low, l1: high, l2: 0, l3: 0 }
    }

    /// Every value lies below 2^256.
    pub proof fn lemma_bounded(self)
        ensures
            self.as_nat() < pow2_256(),
    {
    }

    /// The limbs are the digits of the number in base 2^64.
    pub proof fn lemma_limbs(self)
        ensures
            self.l0 == self.as_nat() % limb_base(),
            self.l1 == (self.as_nat() / limb_base()) % limb_base(),
            self.l2 == (self.as_nat() / pow2_128()) % limb_base(),
            self.l3 == self.as_nat() / pow2_192(),
    {
        let b: int = 0x1_0000_0000_0000_0000;
        let n: int = self.as_nat() as int;
        let high3: int = self.l1 + self.l2 * b + self.l3 * (b * b);
        let high2: int = self.l2 + self.l3 * b;
        assert(b * b == pow2_128()) by (nonlinear_arith)
            requires
                b == 0x1_0000_0000_0000_0000int,
        ;
        assert(b * b * b == pow2_192()) by (nonlinear_arith)
            requires
                b == 0x1_0000_0000_0000_0000int,
        ;
        assert(n == high3 * b + self.l0) by (nonlinear_arith)
            requires
                n == self.l0 + self.l1 * b + self.l2 * (b * b) + self.l3 * (b * b * b),
                high3 == self.l1 + self.l2 * b + self.l3 * (b * b),
        ;
        assert(n == high2 * (b * b) + (self.l0 + self.l1 * b)) by (nonlinear_arith)
            requires
                n == self.l0 + self.l1 * b + self.l2 * (b * b) + self.l3 * (b * b * b),
                high2 == self.l2 + self.l3 * b,
        ;
        assert(high3 == high2 * b + self.l1) by (nonlinear_arith)
            requires
                high3 == self.l1 + self.l2 * b + self.l3 * (b * b),
                high2 == self.l2 + self.l3 * b,
        ;
        assert(n == self.l3 * (b * b * b) + (self.l0 + self.l1 * b + self.l2 * (b * b)));
        assert(self.l0 + self.l1 * b < b * b) by (nonlinear_arith)
            requires
                0 <= self.l0 < b,
                0 <= self.l1 < b,
        ;
        assert(self.l0 + self.l1 * b + self.l2 * (b * b) < b * b * b) by (nonlinear_arith)
            requires
                0 <= self.l0 + self.l1 * b < b * b,
                0 <= self.l2 < b,
        ;
        vstd::arithmetic::div_mod::lemma_fundamental_div_mod_converse(n, b, high3, self.l0 as int);
        vstd::arithmetic::div_mod::lemma_fundamental_div_mod_converse(
            high3,
            b,
            high2,
            self.l1 as int,
        );
        vstd::arithmetic::div_mod::lemma_fundamental_div_mod_converse(
            n,
            b * b,
            high2,
            self.l0 + self.l1 * b,
        );
        vstd::arithmetic::div_mod::lemma_fundamental_div_mod_converse(
            high2,
            b,
            self.l3 as int,
            self.l2 as int,
        );
        vstd::arithmetic::div_mod::lemma_fundamental_div_mod_converse(
            n,
            b * b * b,
            self.l3 as int,
            self.l0 + self.l1 * b + self.l2 * (b * b),
        );
    }

    /// Two values that stand for the same number are the same value.
    pub proof fn lemma_as_nat_injective(self, other: Self)
        requires
            self.as_nat() == other.as_nat(),
        ensures
            self == other,
    {
        self.lemma_limbs();
        other.lemma_limbs();
    }

    /// A value is odd exactly when its lowest limb is.
    pub proof fn lemma_parity(self)
        ensures
            self.as_nat() % 2 == self.l0 % 2,
    {
        let half: int = 0x8000_0000_0000_0000;
        let rest: int = self.l1 * half + self.l2 * 0x8000_0000_0000_0000_0000_0000_0000_0000int
            + self.l3 * 0x8000_0000_0000_0000_0000_0000_0000_0000_0000_0000_0000_0000int;
        assert(self.as_nat() == self.l0 + 2 * rest);
        assert((self.l0 + 2 * rest) % 2 == self.l0 % 2) by (nonlinear_arith)
            requires
                self.l0 >= 0,
        ;
    }

    /// Whether this value is zero.
    pub fn is_zero(&self) -> (r: bool)
        ensures
            r == (self.as_nat() == 0),
    {
        self.l0 == 0 && self.l1 == 0 && self.l2 == 0 && self.l3 == 0
    }

    /// Whether `self >= other`.
    pub fn ge(&self, other: &Self) -> (r: bool)
        ensures
            r == (self.as_nat() >= other.as_nat()),
    {
        if self.l3 != other.l3 {
            self.l3 > other.l3
        } else if self.l2 != other.l2 {
            self.l2 > other.l2
        } else if self.l1 != other.l1 {
            self.l1 > other.l1
        } else {
            self.l0 >= other.l0
        }
    }

    /// The successor of a value below the maximum.
    pub fn increment(&self) -> (r: Self)
        requires
            self.as_nat() + 1 < pow2_256(),
        ensures
            r.as_nat() == self.as_nat() + 1,
    {
        if self.l0 < u64::MAX {
            Uint256 { l0: self.l0 + 1, l1: self.l1, l2: self.l2, l3: self.l3 }
        } else if self.l1 < u64::MAX {
            Uint256 { l0: 0, l1: self.l1 + 1, l2: self.l2, l3: self.l3 }
        } else if self.l2 < u64::MAX {
            Uint256 { l0: 0, l1: 0, l2: self.l2 + 1, l3: self.l3 }
        } else {
            Uint256 { l0: 0, l1: 0, l2: 0, l3: self.l3 + 1 }
        }
    }

    /// Quotient and remainder of the division by a non-zero 64-bit number.
    pub fn div_rem_u64(&self, divisor: u64) -> (r: (Self, u64))
        requires
            divisor > 0,
        ensures
            r.0.as_nat() == self.as_nat() / (divisor as nat),
            r.1 == self.as_nat() % (divisor as nat),
    {
        let (q3, r3) = div_step(0, self.l3, divisor);
        let (q2, r2) = div_step(r3, self.l2, divisor);
        let (q1, r1) = div_step(r2, self.l1, divisor);
        let (q0, r0) = div_step(r1, self.l0, divisor);
        let quotient = Uint256 { l0: q0, l1: q1, l2: q2, l3: q3 };
        proof {
            lemma_long_division(
                self.l0 as int, self.l1 as int, self.l2 as int, self.l3 as int,
                q0 as int, q1 as int, q2 as int, q3 as int,
                r0 as int, r1 as int, r2 as int, r3 as int,
                divisor as int,
            );
            vstd::arithmetic::div_mod::lemma_fundamental_div_mod_converse(
                self.as_nat() as int,
                divisor as int,
                quotient.as_nat() as int,
                r0 as int,
            );
        }
        (quotient, r0)
    }
}

/// One step of schoolbook division: divides `carry * 2^64 + limb` by `divisor`.
fn div_step(carry: u64, limb: u64, divisor: u64) -> (r: (u64, u64))
    requires
        divisor > 0,
        carry < divisor,
    ensures
        carry * limb_base() + limb == r.0 * divisor + r.1,
        r.1 < divisor,
{
    let current: u128 = (carry as u128) * 0x1_0000_0000_0000_0000u128 + (limb as u128);
    let wide: u128 = divisor as u128;
    let quotient: u128 = current / wide;
    let remainder: u128 = current % wide;
    proof {
        vstd::arithmetic::div_mod::lemma_fundamental_div_mod(current as int, wide as int);
        assert(quotient < 0x1_0000_0000_0000_0000u128) by (nonlinear_arith)
            requires
                current == wide * quotient + remainder,
                current < (carry + 1) * 0x1_0000_0000_0000_0000,
                carry + 1 <= wide,
                wide > 0,
                remainder >= 0,
        ;
        assert(wide * quotient == quotient * wide) by (nonlinear_arith);
    }
    (quotient as u64, remainder as u64)
}

/// Four division steps, put together, divide the whole number.
proof fn lemma_long_division(
    x0: int, x1: int, x2: int, x3: int,
    q0: int, q1: int, q2: int, q3: int,
    r0: int, r1: int, r2: int, r3: int,
    d: int,
)
    requires
        x3 == q3 * d + r3,
        r3 * limb_base() + x2 == q2 * d + r2,
        r2 * limb_base() + x1 == q1 * d + r1,
        r1 * limb_base() + x0 == q0 * d + r0,
    ensures
        x0 + x1 * limb_base() + x2 * pow2_128() + x3 * pow2_192()
            == (q0 + q1 * limb_base() + q2 * pow2_128() + q3 * pow2_192()) * d + r0,
{
    let b: int = limb_base() as int;
    assert(pow2_128() == b * b) by (nonlinear_arith)
        requires
            b == 0x1_0000_0000_0000_0000int,
    ;
    assert(pow2_192() == b * b * b) by (nonlinear_arith)
        requires
            b == 0x1_0000_0000_0000_0000int,
    ;
    assert(x0 + x1 * b + x2 * (b * b) + x3 * (b * b * b)
        == (q0 + q1 * b + q2 * (b * b) + q3 * (b * b * b)) * d + r0) by (nonlinear_arith)
        requires
            x3 == q3 * d + r3,
            r3 * b + x2 == q2 * d + r2,
            r2 * b + x1 == q1 * d + r1,
            r1 * b + x0 == q0 * d + r0,
    ;
}

/// A signed 256-bit integer in two's complement.
#[derive(Clone, Copy, Debug, PartialEq, Eq, Structural)]
pub struct Int256 {
    /// The 256 bits, read as an unsigned number.
    pub raw: Uint256,
}

/// The absolute value of an integer.
pub open spec fn abs(x: int) -> nat {
    if x < 0 {
        (-x) as nat
    } else {
        x as nat
    }
}

impl Int256 {
    /// The integer this value stands for.
    pub open spec fn as_int(self) -> int {
        if self.raw.as_nat() >= pow2_255() {
            self.raw.as_nat() - pow2_256()
        } else {
            self.raw.as_nat() as int
        }
    }

    /// Whether the value is strictly below zero.
    pub fn is_negative(&self) -> (r: bool)
        ensures
            r == (self.as_int() < 0),
    {
        self.raw.l3 >= 0x8000_0000_0000_0000
    }

    /// The absolute value, which always fits the unsigned type.
    pub fn unsigned_abs(&self) -> (r: Uint256)
        ensures
            r.as_nat() == abs(self.as_int()),
    {
        if self.is_negative() {
            let flipped = Uint256 {
                l0: u64::MAX - self.raw.l0,
                l1: u64::MAX - self.raw.l1,
                l2: u64::MAX - self.raw.l2,
                l3: u64::MAX - self.raw.l3,
            };
            flipped.increment()
        } else {
            self.raw
        }
    }
}

} // verus!
