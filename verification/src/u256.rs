//! Unsigned 256-bit intermediates for share and lock pricing: a 128x128 widening product,
//! a 256x128 product, division by a 128-bit divisor, and comparison.

use vstd::arithmetic::div_mod::lemma_fundamental_div_mod;
use vstd::arithmetic::power2::{lemma2_to64, lemma_pow2_adds, lemma_pow2_pos, lemma_pow2_unfold, pow2};
use vstd::prelude::*;

verus! {

/// 2^128 as a mathematical integer.
#[verifier::inline]
pub open spec fn word() -> int {
    u128::MAX as int + 1
}

/// 2^64 as a mathematical integer.
#[verifier::inline]
pub open spec fn half_word() -> int {
    0x1_0000_0000_0000_0000
}

/// A 256-bit unsigned integer stored as two 128-bit words.
#[derive(Clone, Copy, Debug, PartialEq, Eq)]
pub struct U256 {
    pub hi: u128,
    pub lo: u128,
}

impl U256 {
    /// The number this value denotes.
    pub open spec fn value(self) -> int {
        self.hi * word() + self.lo
    }

    pub fn from_u128(x: u128) -> (r: U256)
        ensures
            r.value() == x,
    {
        U256 { hi: 0, lo: x }
    }

    pub fn is_zero(&self) -> (b: bool)
        ensures
            b == (self.value() == 0),
    {
        self.hi == 0 && self.lo == 0
    }

    /// Whether the value fits in a `u128`.
    pub fn fits_u128(&self) -> (b: bool)
        ensures
            b == (self.value() <= u128::MAX),
    {
        self.hi == 0
    }

    /// The value as a `u128`; only defined when it fits.
    pub fn as_u128(&self) -> (r: u128)
        requires
            self.value() <= u128::MAX,
        ensures
            r == self.value(),
    {
        self.lo
    }

    /// `self >= other`.
    pub fn ge(&self, other: &U256) -> (b: bool)
        ensures
            b == (self.value() >= other.value()),
    {
        self.hi > other.hi || (self.hi == other.hi && self.lo >= other.lo)
    }
}

/// Sum of two words with the carry out.
fn add_with_carry(x: u128, y: u128) -> (res: (u128, u128))
    ensures
        res.0 + res.1 * word() == x + y,
        res.1 <= 1,
{
    if x > u128::MAX - y {
        (x - (u128::MAX - y) - 1, 1)
    } else {
        (x + y, 0)
    }
}

proof fn lemma_half_product_bound(x: int, y: int)
    requires
        0 <= x < half_word(),
        0 <= y < half_word(),
    ensures
        0 <= x * y <= (half_word() - 1) * (half_word() - 1),
{
    assert(0 <= x * y <= (half_word() - 1) * (half_word() - 1)) by (nonlinear_arith)
        requires
            0 <= x < half_word(),
            0 <= y < half_word(),
            half_word() == 0x1_0000_0000_0000_0000,
    ;
}

/// The full 256-bit product of two 128-bit words.
pub fn wide_mul(a: u128, b: u128) -> (r: U256)
    ensures
        r.value() == a * b,
{
    let hw: u128 = 0x1_0000_0000_0000_0000;
    let a1 = a / hw;
    let a0 = a % hw;
    let b1 = b / hw;
    let b0 = b % hw;
    proof {
        lemma_half_product_bound(a0 as int, b0 as int);
        lemma_half_product_bound(a0 as int, b1 as int);
        lemma_half_product_bound(a1 as int, b0 as int);
        lemma_half_product_bound(a1 as int, b1 as int);
    }
    let p00 = a0 * b0;
    let p01 = a0 * b1;
    let p10 = a1 * b0;
    let p11 = a1 * b1;
    let p01h = p01 / hw;
    let p01l = p01 % hw;
    let p10h = p10 / hw;
    let p10l = p10 % hw;
    let (s1, c1) = add_with_carry(p00, p01l * hw);
    let (s2, c2) = add_with_carry(s1, p10l * hw);
    proof {
        assert(a == a1 * half_word() + a0);
        assert(b == b1 * half_word() + b0);
        assert(a * b == p11 * word() + (p01 + p10) * half_word() + p00) by (nonlinear_arith)
            requires
                a == a1 * half_word() + a0,
                b == b1 * half_word() + b0,
                p00 == a0 * b0,
                p01 == a0 * b1,
                p10 == a1 * b0,
                p11 == a1 * b1,
                word() == half_word() * half_word(),
        ;
        assert(p01 == p01h * half_word() + p01l);
        assert(p10 == p10h * half_word() + p10l);
        assert(a * b == (p11 + p01h + p10h + c1 + c2) * word() + s2) by (nonlinear_arith)
            requires
                a * b == p11 * word() + (p01 + p10) * half_word() + p00,
                p01 == p01h * half_word() + p01l,
                p10 == p10h * half_word() + p10l,
                s1 + c1 * word() == p00 + p01l * half_word(),
                s2 + c2 * word() == s1 + p10l * half_word(),
                word() == half_word() * half_word(),
        ;
        assert(a * b <= u128::MAX * u128::MAX) by (nonlinear_arith)
            requires
                0 <= a <= u128::MAX,
                0 <= b <= u128::MAX,
        ;
        assert(p11 + p01h + p10h + c1 + c2 <= u128::MAX) by (nonlinear_arith)
            requires
                a * b == (p11 + p01h + p10h + c1 + c2) * word() + s2,
                a * b <= u128::MAX * u128::MAX,
                0 <= s2,
                word() == u128::MAX + 1,
        ;
    }
    let hi = p11 + p01h + p10h + c1 + c2;
    U256 { hi, lo: s2 }
}

/// `x * c`, for a product that fits in 256 bits.
pub fn mul_u128(x: U256, c: u128) -> (r: U256)
    requires
        x.value() * c < word() * word(),
    ensures
        r.value() == x.value() * c,
{
    let low = wide_mul(x.lo, c);
    let high = wide_mul(x.hi, c);
    proof {
        assert(x.value() * c == high.value() * word() + low.value()) by (nonlinear_arith)
            requires
                x.value() == x.hi * word() + x.lo,
                low.value() == x.lo * c,
                high.value() == x.hi * c,
        ;
        assert(high.hi == 0) by (nonlinear_arith)
            requires
                x.value() * c == high.value() * word() + low.value(),
                x.value() * c < word() * word(),
                high.value() == high.hi * word() + high.lo,
                0 <= high.hi,
                0 <= high.lo,
                0 <= low.value(),
                word() > 0,
        ;
        assert(high.lo + low.hi <= u128::MAX) by (nonlinear_arith)
            requires
                x.value() * c == high.lo * word() + low.hi * word() + low.lo,
                x.value() * c < word() * word(),
                0 <= low.lo,
                word() == u128::MAX + 1,
        ;
    }
    U256 { hi: high.lo + low.hi, lo: low.lo }
}

/// Division of a two-word number `rh * 2^128 + lo` by `d` when `rh < d`; the quotient fits one word.
fn div_two_words(rh: u128, lo: u128, d: u128) -> (res: (u128, u128))
    requires
        d > 0,
        rh < d,
    ensures
        res.0 * d + res.1 == rh * word() + lo,
        res.1 < d,
{
    let mut q: u128 = 0;
    let mut r: u128 = rh;
    let mut rest: u128 = lo;
    let mut m: u128 = 0x8000_0000_0000_0000_0000_0000_0000_0000;
    let mut i: u32 = 0;
    let ghost mut p: int = 0;
    proof {
        lemma2_to64();
        lemma_pow2_adds(64, 64);
        lemma_pow2_unfold(128);
        assert(pow2(128) == word());
        assert(pow2(127) == m);
    }
    while i < 128
        invariant
            d > 0,
            rh < d,
            i <= 128,
            i < 128 ==> m == pow2((127 - i) as nat),
            pow2(i as nat) * pow2((128 - i) as nat) == word(),
            lo == p * pow2((128 - i) as nat) + rest,
            0 <= rest < pow2((128 - i) as nat),
            0 <= p,
            q * d + r == rh * pow2(i as nat) + p,
            r < d,
            q < pow2(i as nat),
        decreases 128 - i,
    {
        let ghost e = pow2(i as nat);
        let ghost w = pow2((128 - i) as nat);
        proof {
            lemma_pow2_unfold((128 - i) as nat);
            lemma_pow2_unfold((i + 1) as nat);
            lemma_pow2_pos(i as nat);
            lemma_pow2_pos((127 - i) as nat);
            assert(w == 2 * m);
            assert(pow2((i + 1) as nat) == 2 * e);
        }
        let ghost rest0 = rest;
        let bit: u128 = if rest >= m {
            rest = rest - m;
            1
        } else {
            0
        };
        proof {
            assert(lo == (2 * p + bit) * m + rest) by (nonlinear_arith)
                requires
                    lo == p * w + rest0,
                    rest0 == rest + bit * m,
                    w == 2 * m,
            ;
        }
        let ghost q0 = q as int;
        let ghost r0 = r as int;
        let ghost c: int;
        proof {
            assert(2 * q0 + 1 < word()) by (nonlinear_arith)
                requires
                    q0 < e,
                    e * w == word(),
                    w == 2 * m,
                    m >= 1,
            ;
        }
        let t = d - r;
        if r >= t {
            r = r - t + bit;
            q = 2 * q + 1;
            proof { c = 1; }
        } else {
            let s = r + r + bit;
            if s >= d {
                r = s - d;
                q = 2 * q + 1;
                proof { c = 1; }
            } else {
                r = s;
                q = 2 * q;
                proof { c = 0; }
            }
        }
        proof {
            assert(q * d + r == 2 * (q0 * d + r0) + bit) by (nonlinear_arith)
                requires
                    q == 2 * q0 + c,
                    r == 2 * r0 + bit - c * d,
            ;
            assert(rh * (2 * e) + (2 * p + bit) == 2 * (rh * e + p) + bit) by (nonlinear_arith);
            assert((2 * e) * m == word()) by (nonlinear_arith)
                requires
                    e * w == word(),
                    w == 2 * m,
            ;
            p = 2 * p + bit;
            if i + 1 < 128 {
                lemma_pow2_unfold((127 - i) as nat);
            }
        }
        i = i + 1;
        if i < 128 {
            m = m / 2;
        }
    }
    proof {
        assert(pow2(0) == 1);
        assert(rest == 0);
        assert(p * pow2(0) == p) by (nonlinear_arith)
            requires
                pow2(0) == 1,
        ;
        assert(p == lo);
        assert(pow2(128) == word());
    }
    (q, r)
}

/// Quotient and remainder of `n` divided by `d`.
pub fn div_rem(n: U256, d: u128) -> (res: (U256, u128))
    requires
        d > 0,
    ensures
        res.0.value() * d + res.1 == n.value(),
        res.1 < d,
{
    let qh = n.hi / d;
    let rh = n.hi % d;
    proof {
        lemma_fundamental_div_mod(n.hi as int, d as int);
    }
    let (ql, r) = div_two_words(rh, n.lo, d);
    let q = U256 { hi: qh, lo: ql };
    proof {
        assert(q.value() * d + r == n.value()) by (nonlinear_arith)
            requires
                q.value() == qh * word() + ql,
                ql * d + r == rh * word() + n.lo,
                n.hi == qh * d + rh,
                n.value() == n.hi * word() + n.lo,
        ;
    }
    (q, r)
}

} // verus!
