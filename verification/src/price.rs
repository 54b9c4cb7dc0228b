//! Exact decimal prices as rationals.
//!
//! A derived price is a non-negative rational `num / den`. All cross-rate
//! computation is exact: nothing is rounded mid-chain, and a caller that
//! needs an integer applies floor exactly once at the end. Comparisons use a
//! double-width product so they are total; constructions that would exceed
//! the 128-bit machine word surface `MathError` instead of wrapping.

use vstd::arithmetic::div_mod::{
    lemma_fundamental_div_mod, lemma_fundamental_div_mod_converse,
    lemma_mod_division_less_than_divisor, lemma_multiply_divide_lt,
};
use vstd::prelude::*;

use crate::error::LucraErrorCode;

verus! {

/// 2^64, the limb base of the double-width product.
pub const LIMB: u128 = 0x1_0000_0000_0000_0000;

/// 10^e as a mathematical integer.
pub open spec fn pow10(e: nat) -> int
    decreases e,
{
    if e == 0 {
        1
    } else {
        10 * pow10((e - 1) as nat)
    }
}

pub proof fn lemma_pow10_pos(e: nat)
    ensures
        pow10(e) >= 1,
    decreases e,
{
    if e > 0 {
        lemma_pow10_pos((e - 1) as nat);
    }
}

/// 10^e for e up to 38, the largest power of ten a 128-bit word holds.
pub fn pow10_u128(e: u32) -> (r: u128)
    requires
        e <= 38,
    ensures
        r == pow10(e as nat),
{
    proof {
        reveal_with_fuel(pow10, 40);
        assert(pow10(38) == 100000000000000000000000000000000000000);
    }
    let mut r: u128 = 1;
    let mut i: u32 = 0;
    while i < e
        invariant
            i <= e <= 38,
            r == pow10(i as nat),
            pow10(38) == 100000000000000000000000000000000000000,
        decreases e - i,
    {
        proof {
            lemma_pow10_increases(i as nat, 37);
        }
        r = r * 10;
        i = i + 1;
    }
    r
}

proof fn lemma_pow10_increases(a: nat, b: nat)
    requires
        a <= b,
    ensures
        pow10(a) <= pow10(b),
    decreases b,
{
    if a < b {
        lemma_pow10_increases(a, (b - 1) as nat);
        lemma_pow10_pos((b - 1) as nat);
    }
}

/// Full 128x128 -> 256 bit product, returned as (high, low) base-2^128 limbs.
pub fn mul_wide(x: u128, y: u128) -> (r: (u128, u128))
    ensures
        r.0 * LIMB * LIMB + r.1 == x * y,
{
    let xh: u128 = x / LIMB;
    let xl: u128 = x % LIMB;
    let yh: u128 = y / LIMB;
    let yl: u128 = y % LIMB;
    proof {
        lemma_fundamental_div_mod(x as int, LIMB as int);
        lemma_fundamental_div_mod(y as int, LIMB as int);
        lemma_mod_division_less_than_divisor(x as int, LIMB as int);
        lemma_mod_division_less_than_divisor(y as int, LIMB as int);
        lemma_multiply_divide_lt(x as int, LIMB as int, LIMB as int);
        lemma_multiply_divide_lt(y as int, LIMB as int, LIMB as int);
        lemma_limb_product_bound(xl as int, yl as int);
        lemma_limb_product_bound(xh as int, yl as int);
        lemma_limb_product_bound(xl as int, yh as int);
        lemma_limb_product_bound(xh as int, yh as int);
    }
    let t0: u128 = xl * yl;
    let q0: u128 = t0 / LIMB;
    let r0: u128 = t0 % LIMB;
    proof {
        lemma_fundamental_div_mod(t0 as int, LIMB as int);
        lemma_mod_division_less_than_divisor(t0 as int, LIMB as int);
        lemma_multiply_divide_lt(t0 as int, LIMB as int, LIMB as int);
    }
    let t1: u128 = xh * yl + q0;
    let q1: u128 = t1 / LIMB;
    let r1: u128 = t1 % LIMB;
    proof {
        lemma_fundamental_div_mod(t1 as int, LIMB as int);
        lemma_mod_division_less_than_divisor(t1 as int, LIMB as int);
        lemma_multiply_divide_lt(t1 as int, LIMB as int, LIMB as int);
    }
    let t2: u128 = xl * yh + r1;
    let q2: u128 = t2 / LIMB;
    let r2: u128 = t2 % LIMB;
    proof {
        lemma_fundamental_div_mod(t2 as int, LIMB as int);
        lemma_mod_division_less_than_divisor(t2 as int, LIMB as int);
        lemma_multiply_divide_lt(t2 as int, LIMB as int, LIMB as int);
    }
    let hi: u128 = xh * yh + q1 + q2;
    let lo: u128 = r2 * LIMB + r0;
    proof {
        lemma_mul_wide_identity(
            x as int, y as int, xh as int, xl as int, yh as int, yl as int,
            t0 as int, q0 as int, r0 as int, t1 as int, q1 as int, r1 as int,
            t2 as int, q2 as int, r2 as int, hi as int, lo as int,
        );
    }
    (hi, lo)
}

proof fn lemma_limb_product_bound(a: int, b: int)
    requires
        0 <= a < LIMB,
        0 <= b < LIMB,
    ensures
        a * b <= (LIMB - 1) * (LIMB - 1),
{
    assert(a * b <= (LIMB - 1) * (LIMB - 1)) by (nonlinear_arith)
        requires
            0 <= a < LIMB,
            0 <= b < LIMB,
    ;
}

proof fn lemma_mul_wide_identity(
    x: int, y: int, xh: int, xl: int, yh: int, yl: int,
    t0: int, q0: int, r0: int, t1: int, q1: int, r1: int,
    t2: int, q2: int, r2: int, hi: int, lo: int,
)
    requires
        x == xh * LIMB + xl,
        y == yh * LIMB + yl,
        t0 == xl * yl,
        t0 == LIMB * q0 + r0,
        t1 == xh * yl + q0,
        t1 == LIMB * q1 + r1,
        t2 == xl * yh + r1,
        t2 == LIMB * q2 + r2,
        hi == xh * yh + q1 + q2,
        lo == r2 * LIMB + r0,
    ensures
        hi * LIMB * LIMB + lo == x * y,
{
    assert(hi * LIMB * LIMB + lo == x * y) by (nonlinear_arith)
        requires
            x == xh * LIMB + xl,
            y == yh * LIMB + yl,
            t0 == xl * yl,
            t0 == LIMB * q0 + r0,
            t1 == xh * yl + q0,
            t1 == LIMB * q1 + r1,
            t2 == xl * yh + r1,
            t2 == LIMB * q2 + r2,
            hi == xh * yh + q1 + q2,
            lo == r2 * LIMB + r0,
    ;
}

/// The two 256-bit values compare as their (high, low) limb pairs do.
pub proof fn lemma_wide_cmp(ah: int, al: int, bh: int, bl: int)
    requires
        0 <= al < LIMB * LIMB,
        0 <= bl < LIMB * LIMB,
        0 <= ah,
        0 <= bh,
    ensures
        (ah * LIMB * LIMB + al < bh * LIMB * LIMB + bl) <==> (ah < bh || (ah == bh && al < bl)),
{
    assert((ah * LIMB * LIMB + al < bh * LIMB * LIMB + bl) <==> (ah < bh || (ah == bh && al
        < bl))) by (nonlinear_arith)
        requires
            0 <= al < LIMB * LIMB,
            0 <= bl < LIMB * LIMB,
            0 <= ah,
            0 <= bh,
    ;
}

/// A non-negative exact price: the rational `num / den`.
#[derive(Clone, Copy, Debug, PartialEq, Eq, Structural)]
pub struct Price {
    pub num: u128,
    pub den: u128,
}

impl Price {
    /// A price is well formed when its denominator is positive.
    pub open spec fn wf(self) -> bool {
        self.den >= 1
    }

    /// `self < other` as rationals.
    pub open spec fn spec_lt(self, other: Price) -> bool {
        self.num * other.den < other.num * self.den
    }

    /// `self == other` as rationals.
    pub open spec fn spec_eq(self, other: Price) -> bool {
        self.num * other.den == other.num * self.den
    }

    /// The integer part of the price.
    pub open spec fn spec_floor(self) -> int {
        self.num as int / self.den as int
    }

    /// The exact mantissa `mantissa / 10^scale`. Scales beyond what a
    /// 128-bit denominator can hold are rejected as `MathError`.
    pub fn from_scaled(mantissa: u64, scale: u8) -> (r: Result<Price, LucraErrorCode>)
        ensures
            r is Ok <==> scale <= 38,
            r is Ok ==> r->Ok_0.wf() && r->Ok_0.num == mantissa && r->Ok_0.den == pow10(
                scale as nat,
            ),
            r is Err ==> r->Err_0 == LucraErrorCode::MathError,
    {
        if scale > 38 {
            return Err(LucraErrorCode::MathError);
        }
        let den = pow10_u128(scale as u32);
        proof {
            lemma_pow10_pos(scale as nat);
        }
        Ok(Price { num: mantissa as u128, den })
    }

    /// Exact comparison; never fails.
    pub fn lt(&self, other: &Price) -> (r: bool)
        requires
            self.wf(),
            other.wf(),
        ensures
            r == self.spec_lt(*other),
    {
        let (ah, al) = mul_wide(self.num, other.den);
        let (bh, bl) = mul_wide(other.num, self.den);
        proof {
            lemma_wide_cmp(ah as int, al as int, bh as int, bl as int);
        }
        ah < bh || (ah == bh && al < bl)
    }

    /// Exact equality of values (not of representations).
    pub fn eq_value(&self, other: &Price) -> (r: bool)
        requires
            self.wf(),
            other.wf(),
        ensures
            r == self.spec_eq(*other),
    {
        let (ah, al) = mul_wide(self.num, other.den);
        let (bh, bl) = mul_wide(other.num, self.den);
        proof {
            lemma_wide_cmp(ah as int, al as int, bh as int, bl as int);
            lemma_wide_cmp(bh as int, bl as int, ah as int, al as int);
        }
        ah == bh && al == bl
    }

    /// Exact product of two prices.
    pub fn mul(&self, other: &Price) -> (r: Result<Price, LucraErrorCode>)
        requires
            self.wf(),
            other.wf(),
        ensures
            r is Ok <==> self.num * other.num <= u128::MAX && self.den * other.den <= u128::MAX,
            r is Ok ==> r->Ok_0.wf() && r->Ok_0.num == self.num * other.num && r->Ok_0.den
                == self.den * other.den,
            r is Err ==> r->Err_0 == LucraErrorCode::MathError,
    {
        let num = match self.num.checked_mul(other.num) {
            Some(n) => n,
            None => {
                return Err(LucraErrorCode::MathError);
            },
        };
        let den = match self.den.checked_mul(other.den) {
            Some(d) => d,
            None => {
                return Err(LucraErrorCode::MathError);
            },
        };
        proof {
            assert(den >= 1) by (nonlinear_arith)
                requires
                    den == self.den * other.den,
                    self.den >= 1,
                    other.den >= 1,
            ;
        }
        Ok(Price { num, den })
    }

    /// Exact sum of two prices.
    pub fn add(&self, other: &Price) -> (r: Result<Price, LucraErrorCode>)
        requires
            self.wf(),
            other.wf(),
        ensures
            r is Ok <==> self.num * other.den <= u128::MAX && other.num * self.den <= u128::MAX
                && self.num * other.den + other.num * self.den <= u128::MAX && self.den * other.den
                <= u128::MAX,
            r is Ok ==> r->Ok_0.wf() && r->Ok_0.num == self.num * other.den + other.num * self.den
                && r->Ok_0.den == self.den * other.den,
            r is Err ==> r->Err_0 == LucraErrorCode::MathError,
    {
        let a = match self.num.checked_mul(other.den) {
            Some(v) => v,
            None => {
                return Err(LucraErrorCode::MathError);
            },
        };
        let b = match other.num.checked_mul(self.den) {
            Some(v) => v,
            None => {
                return Err(LucraErrorCode::MathError);
            },
        };
        let num = match a.checked_add(b) {
            Some(v) => v,
            None => {
                return Err(LucraErrorCode::MathError);
            },
        };
        let den = match self.den.checked_mul(other.den) {
            Some(d) => d,
            None => {
                return Err(LucraErrorCode::MathError);
            },
        };
        proof {
            assert(den >= 1) by (nonlinear_arith)
                requires
                    den == self.den * other.den,
                    self.den >= 1,
                    other.den >= 1,
            ;
        }
        Ok(Price { num, den })
    }

    /// Exact quotient `self / other`; fails on a zero divisor.
    pub fn div(&self, other: &Price) -> (r: Result<Price, LucraErrorCode>)
        requires
            self.wf(),
            other.wf(),
        ensures
            r is Ok <==> other.num >= 1 && self.num * other.den <= u128::MAX && self.den
                * other.num <= u128::MAX,
            r is Ok ==> r->Ok_0.wf() && r->Ok_0.num == self.num * other.den && r->Ok_0.den
                == self.den * other.num,
            r is Err ==> r->Err_0 == LucraErrorCode::MathError,
    {
        if other.num == 0 {
            return Err(LucraErrorCode::MathError);
        }
        let num = match self.num.checked_mul(other.den) {
            Some(n) => n,
            None => {
                return Err(LucraErrorCode::MathError);
            },
        };
        let den = match self.den.checked_mul(other.num) {
            Some(d) => d,
            None => {
                return Err(LucraErrorCode::MathError);
            },
        };
        proof {
            assert(den >= 1) by (nonlinear_arith)
                requires
                    den == self.den * other.num,
                    self.den >= 1,
                    other.num >= 1,
            ;
        }
        Ok(Price { num, den })
    }

    /// The integer part of the price, exactly once, at the end of a chain.
    pub fn floor_u64(&self) -> (r: Result<u64, LucraErrorCode>)
        requires
            self.wf(),
        ensures
            r is Ok <==> self.spec_floor() <= u64::MAX,
            r is Ok ==> r->Ok_0 == self.spec_floor(),
            r is Err ==> r->Err_0 == LucraErrorCode::MathError,
    {
        let q = self.num / self.den;
        if q > u64::MAX as u128 {
            Err(LucraErrorCode::MathError)
        } else {
            Ok(q as u64)
        }
    }

}

} // verus!
