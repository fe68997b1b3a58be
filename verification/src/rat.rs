//! Rational values and rounded division for the complex-plane window.
//!
//! `Frac` is the executable fraction that scroll and pan arguments travel
//! in; `Rat` is the spec-level rational that contracts read values as.
//! `div_trunc` is the one rounding primitive of the crate: division
//! truncated toward zero, pinned exactly by `trunc_div` and bounded to
//! within one divisor unit of the exact quotient by
//! `lemma_trunc_div_props`.

use vstd::prelude::*;

verus! {

/// Mathematical rational number `n / d` (meaningful when `d > 0`).
pub struct Rat {
    pub n: int,
    pub d: int,
}

pub open spec fn rat(n: int, d: int) -> Rat {
    Rat { n, d }
}

/// Equality of the rationals `a` and `b` by cross-multiplication.
pub open spec fn rat_eq(a: Rat, b: Rat) -> bool {
    a.n * b.d == b.n * a.d
}

/// Division truncated toward zero: the quotient the viewport transforms
/// round with.
pub open spec fn trunc_div(t: int, d: int) -> int {
    if t >= 0 {
        t / d
    } else {
        -((-t) / d)
    }
}

/// The truncated quotient is the exact quotient to within one unit, on
/// the zero side of it.
pub proof fn lemma_trunc_div_props(t: int, d: int)
    requires
        d > 0,
    ensures
        t - (d - 1) <= trunc_div(t, d) * d <= t + (d - 1),
        t >= 0 ==> trunc_div(t, d) * d <= t,
        t <= 0 ==> t <= trunc_div(t, d) * d,
        t >= 0 ==> 0 <= trunc_div(t, d) <= t,
        t <= 0 ==> t <= trunc_div(t, d) <= 0,
{
    if t >= 0 {
        let q = t / d;
        vstd::arithmetic::div_mod::lemma_fundamental_div_mod(t, d);
        vstd::arithmetic::div_mod::lemma_mod_bound(t, d);
        vstd::arithmetic::div_mod::lemma_div_nonincreasing(t, d);
        vstd::arithmetic::div_mod::lemma_div_pos_is_pos(t, d);
        assert(q * d == d * q) by (nonlinear_arith);
        assert(q * d == t - t % d);
    } else {
        let u = -t;
        let q = u / d;
        vstd::arithmetic::div_mod::lemma_fundamental_div_mod(u, d);
        vstd::arithmetic::div_mod::lemma_mod_bound(u, d);
        vstd::arithmetic::div_mod::lemma_div_nonincreasing(u, d);
        vstd::arithmetic::div_mod::lemma_div_pos_is_pos(u, d);
        assert((-q) * d == -(d * q)) by (nonlinear_arith);
        assert(trunc_div(t, d) * d == t + u % d);
    }
}

/// Executable division truncated toward zero.
pub fn div_trunc(t: i128, d: i128) -> (r: i128)
    requires
        d > 0,
        t != i128::MIN,
    ensures
        r as int == trunc_div(t as int, d as int),
{
    if t >= 0 {
        let q = (t as u128) / (d as u128);
        proof {
            vstd::arithmetic::div_mod::lemma_div_nonincreasing(t as int, d as int);
            vstd::arithmetic::div_mod::lemma_div_pos_is_pos(t as int, d as int);
        }
        q as i128
    } else {
        let m = -t;
        let q = (m as u128) / (d as u128);
        proof {
            vstd::arithmetic::div_mod::lemma_div_nonincreasing(m as int, d as int);
            vstd::arithmetic::div_mod::lemma_div_pos_is_pos(m as int, d as int);
        }
        -(q as i128)
    }
}

pub open spec fn rat_add(a: Rat, b: Rat) -> Rat {
    Rat { n: a.n * b.d + b.n * a.d, d: a.d * b.d }
}

pub open spec fn rat_sub(a: Rat, b: Rat) -> Rat {
    Rat { n: a.n * b.d - b.n * a.d, d: a.d * b.d }
}

pub open spec fn rat_mul(a: Rat, b: Rat) -> Rat {
    Rat { n: a.n * b.n, d: a.d * b.d }
}

pub open spec fn rat_div10(a: Rat) -> Rat {
    Rat { n: a.n, d: 10 * a.d }
}

pub open spec fn rat_int(k: int) -> Rat {
    Rat { n: k, d: 1 }
}

/// Executable fraction: `num / den`, with `den > 0`.
#[derive(Clone, Copy, Debug, PartialEq, Eq)]
pub struct Frac {
    pub num: i128,
    pub den: i128,
}

impl Frac {
    pub open spec fn wf(self) -> bool {
        self.den > 0
    }

    pub open spec fn view(self) -> Rat {
        Rat { n: self.num as int, d: self.den as int }
    }

    /// The fraction `k / 1`.
    pub fn from_int(k: i64) -> (r: Frac)
        ensures
            r.wf(),
            r@ == rat_int(k as int),
            r.num == k as i128,
            r.den == 1,
    {
        Frac { num: k as i128, den: 1 }
    }
}

/// |x| <= a and |y| <= b give |x * y| <= a * b.
pub proof fn lemma_abs_mul_bound(x: int, y: int, a: int, b: int)
    requires
        -a <= x <= a,
        -b <= y <= b,
        0 <= a,
        0 <= b,
    ensures
        -(a * b) <= x * y <= a * b,
{
    assert(-(a * b) <= x * y <= a * b) by (nonlinear_arith)
        requires
            -a <= x <= a,
            -b <= y <= b,
            0 <= a,
            0 <= b,
    ;
}

} // verus!
