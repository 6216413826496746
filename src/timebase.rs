//! Time bases and the rescaling of timestamps between them.

use vstd::arithmetic::div_mod::lemma_div_is_ordered;
use vstd::arithmetic::mul::lemma_mul_inequality;
use vstd::prelude::*;

verus! {

/// A rational unit of time, `num / den` seconds.
#[derive(Debug, Clone, Copy, PartialEq, Eq, Structural)]
pub struct Rational {
    pub num: i32,
    pub den: i32,
}

impl Rational {
    /// A time base is usable when both of its parts are positive.
    pub open spec fn valid(self) -> bool {
        self.num > 0 && self.den > 0
    }

    /// Builds the time base `num / den`.
    pub fn new(num: i32, den: i32) -> (r: Rational)
        ensures
            r.num == num,
            r.den == den,
    {
        Rational { num, den }
    }

    /// Tells whether both parts are positive.
    pub fn is_valid(&self) -> (r: bool)
        ensures
            r == self.valid(),
    {
        self.num > 0 && self.den > 0
    }
}

/// `n / d` rounded to the nearest integer, halves away from zero.
pub open spec fn round_div(n: int, d: int) -> int
    recommends
        d > 0,
{
    if n >= 0 {
        (2 * n + d) / (2 * d)
    } else {
        -((-2 * n + d) / (2 * d))
    }
}

/// The timestamp `ts`, counted in units of `from`, counted in units of `to`:
/// `ts * from.num / from.den * to.den / to.num`, rounded to the nearest
/// integer with halves away from zero.
pub open spec fn rescaled(ts: int, from: Rational, to: Rational) -> int {
    round_div(ts * from.num * to.den, from.den * to.num)
}

/// Whether `v` fits in an `i64`.
pub open spec fn fits_i64(v: int) -> bool {
    i64::MIN <= v <= i64::MAX
}

proof fn lemma_product_bounds(ts: i64, from: Rational, to: Rational)
    requires
        from.valid(),
        to.valid(),
    ensures
        -0x4000_0000_0000_0000_0000_0000 <= ts * from.num <= 0x4000_0000_0000_0000_0000_0000,
        -0x2000_0000_0000_0000_0000_0000_0000_0000 <= ts * from.num * to.den
            <= 0x2000_0000_0000_0000_0000_0000_0000_0000,
        0 < from.den * to.num <= 0x4000_0000_0000_0000,
{
    let a: int = ts as int;
    let b: int = from.num as int;
    let c: int = to.den as int;
    assert(-0x4000_0000_0000_0000_0000_0000 <= a * b <= 0x4000_0000_0000_0000_0000_0000)
        by (nonlinear_arith)
        requires
            -0x8000_0000_0000_0000 <= a <= 0x7fff_ffff_ffff_ffff,
            0 < b <= 0x7fff_ffff,
    ;
    let ab: int = a * b;
    assert(-0x2000_0000_0000_0000_0000_0000_0000_0000 <= ab * c
        <= 0x2000_0000_0000_0000_0000_0000_0000_0000) by (nonlinear_arith)
        requires
            -0x4000_0000_0000_0000_0000_0000 <= ab <= 0x4000_0000_0000_0000_0000_0000,
            0 < c <= 0x7fff_ffff,
    ;
    let e: int = from.den as int;
    let f: int = to.num as int;
    assert(0 < e * f <= 0x4000_0000_0000_0000) by (nonlinear_arith)
        requires
            0 < e <= 0x7fff_ffff,
            0 < f <= 0x7fff_ffff,
    ;
}

/// Rescales `ts` from the time base `from` to the time base `to`, rounding
/// to the nearest unit (halves away from zero). `None` when the result does
/// not fit in an `i64`.
pub fn rescale(ts: i64, from: Rational, to: Rational) -> (r: Option<i64>)
    requires
        from.valid(),
        to.valid(),
    ensures
        r.is_some() <==> fits_i64(rescaled(ts as int, from, to)),
        r.is_some() ==> r.unwrap() == rescaled(ts as int, from, to),
{
    proof {
        lemma_product_bounds(ts, from, to);
    }
    let tn: i128 = (ts as i128) * (from.num as i128);
    let n: i128 = tn * (to.den as i128);
    let d: i128 = (from.den as i128) * (to.num as i128);
    let q: i128 = if n >= 0 {
        (2 * n + d) / (2 * d)
    } else {
        let m: i128 = -n;
        let p: i128 = (2 * m + d) / (2 * d);
        proof {
            assert(0 <= p <= 2 * m + d) by (nonlinear_arith)
                requires
                    p == (2 * m + d) / (2 * d),
                    m > 0,
                    d > 0,
            ;
        }
        -p
    };
    proof {
        assert(q == rescaled(ts as int, from, to));
    }
    if q < i64::MIN as i128 || q > i64::MAX as i128 {
        None
    } else {
        Some(q as i64)
    }
}

/// Rescales an optional timestamp; a missing timestamp stays missing.
/// `Err(())` when a present timestamp does not fit after rescaling.
pub fn rescale_opt(ts: Option<i64>, from: Rational, to: Rational) -> (r: Result<Option<i64>, ()>)
    requires
        from.valid(),
        to.valid(),
    ensures
        ts.is_none() ==> r == Ok::<Option<i64>, ()>(None),
        ts.is_some() ==> (r.is_ok() <==> fits_i64(rescaled(ts.unwrap() as int, from, to))),
        ts.is_some() && r.is_ok() ==> r == Ok::<Option<i64>, ()>(
            Some(rescaled(ts.unwrap() as int, from, to) as i64),
        ),
{
    match ts {
        None => Ok(None),
        Some(t) => match rescale(t, from, to) {
            Some(v) => Ok(Some(v)),
            None => Err(()),
        },
    }
}

proof fn lemma_round_div_monotonic(n1: int, n2: int, d: int)
    requires
        d > 0,
        n1 <= n2,
    ensures
        round_div(n1, d) <= round_div(n2, d),
{
    if n1 >= 0 {
        lemma_div_is_ordered(2 * n1 + d, 2 * n2 + d, 2 * d);
    } else if n2 >= 0 {
        assert((-2 * n1 + d) / (2 * d) >= 0) by (nonlinear_arith)
            requires
                -2 * n1 + d > 0,
                d > 0,
        ;
        assert((2 * n2 + d) / (2 * d) >= 0) by (nonlinear_arith)
            requires
                2 * n2 + d > 0,
                d > 0,
        ;
    } else {
        lemma_div_is_ordered(-2 * n2 + d, -2 * n1 + d, 2 * d);
    }
}

/// Rescaling keeps order: an earlier timestamp never lands after a later one.
pub proof fn lemma_rescale_monotonic(t1: int, t2: int, from: Rational, to: Rational)
    requires
        from.valid(),
        to.valid(),
        t1 <= t2,
    ensures
        rescaled(t1, from, to) <= rescaled(t2, from, to),
{
    let k: int = from.num * to.den;
    assert(k > 0) by (nonlinear_arith)
        requires
            from.num > 0,
            to.den > 0,
            k == from.num * to.den,
    ;
    lemma_mul_inequality(t1, t2, k);
    assert(t1 * from.num * to.den == t1 * k) by (nonlinear_arith)
        requires
            k == from.num * to.den,
    ;
    assert(t2 * from.num * to.den == t2 * k) by (nonlinear_arith)
        requires
            k == from.num * to.den,
    ;
    assert(from.den * to.num > 0) by (nonlinear_arith)
        requires
            from.den > 0,
            to.num > 0,
    ;
    lemma_round_div_monotonic(t1 * from.num * to.den, t2 * from.num * to.den, from.den * to.num);
}

} // verus!
