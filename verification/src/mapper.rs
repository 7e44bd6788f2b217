//! Affine range remapping: the numeric core that turns a raw activity
//! counter from a source interval into a bounded visual attribute in a
//! target interval.
//!
//! All values are integers; attribute intervals are expressed in
//! thousandths (so the target interval `[0.2, 1.0]` is `[200, 1000]`).

use vstd::math::abs;
use vstd::prelude::*;

verus! {

/// Truncating integer division (rounding toward zero), the division that
/// machine signed arithmetic performs.
pub open spec fn trunc_div(a: int, b: int) -> int {
    if (a < 0) == (b < 0) {
        abs(a) as int / abs(b) as int
    } else {
        -(abs(a) as int / abs(b) as int)
    }
}

/// The value of remapping the sample `s` from the interval `(f0, f1)` onto
/// the interval `(t0, t1)`: `t0 + (s - f0) * (t1 - t0) / (f1 - f0)`, with
/// truncating division. The output is not clamped: a sample outside
/// `(f0, f1)` maps outside `(t0, t1)`.
pub open spec fn map_range_spec(f0: int, f1: int, t0: int, t1: int, s: int) -> int {
    t0 + trunc_div((s - f0) * (t1 - t0), f1 - f0)
}

/// Magnitude of an `i128` whose magnitude fits in `u128`.
fn abs128(x: i128) -> (r: u128)
    requires
        x != i128::MIN,
    ensures
        r == abs(x as int),
{
    if x >= 0 {
        x as u128
    } else {
        (-x) as u128
    }
}

/// Remap `s` from the source interval `from_range` onto the target interval
/// `to_range`. Total except when the source interval is empty; the result is
/// not clamped to the target interval.
pub fn map_range(from_range: (i64, i64), to_range: (i64, i64), s: i64) -> (r: i64)
    requires
        from_range.0 != from_range.1,
        i64::MIN <= map_range_spec(
            from_range.0 as int,
            from_range.1 as int,
            to_range.0 as int,
            to_range.1 as int,
            s as int,
        ) <= i64::MAX,
    ensures
        r as int == map_range_spec(
            from_range.0 as int,
            from_range.1 as int,
            to_range.0 as int,
            to_range.1 as int,
            s as int,
        ),
{
    let f0 = from_range.0;
    let f1 = from_range.1;
    let t0 = to_range.0;
    let t1 = to_range.1;
    let sn: i128 = s as i128 - f0 as i128;
    let tn: i128 = t1 as i128 - t0 as i128;
    let dn: i128 = f1 as i128 - f0 as i128;
    let sn_mag: u128 = abs128(sn);
    let tn_mag: u128 = abs128(tn);
    proof {
        assert(sn_mag * tn_mag <= 0xffff_ffff_ffff_ffffu128 * 0xffff_ffff_ffff_ffffu128)
            by (nonlinear_arith)
            requires
                sn_mag <= 0xffff_ffff_ffff_ffffu128,
                tn_mag <= 0xffff_ffff_ffff_ffffu128,
        ;
    }
    let num_mag: u128 = sn_mag * tn_mag;
    let den_mag: u128 = abs128(dn);
    let q: u128 = num_mag / den_mag;
    let ghost n: int = (s as int - f0 as int) * (t1 as int - t0 as int);
    let ghost d: int = f1 as int - f0 as int;
    proof {
        assert(abs(sn as int * tn as int) == abs(sn as int) * abs(tn as int))
            by (nonlinear_arith);
        assert(((sn as int) * (tn as int) < 0) <==> ((sn < 0) != (tn < 0)) && sn != 0 && tn != 0)
            by (nonlinear_arith);
        assert(((sn as int) * (tn as int) == 0) <==> sn == 0 || tn == 0) by (nonlinear_arith);
        assert(num_mag == abs(n));
        assert(den_mag == abs(d));
        assert(q == abs(n) as int / abs(d) as int);
    }
    let n_neg: bool = ((sn < 0) != (tn < 0)) && num_mag != 0;
    let negate: bool = n_neg != (dn < 0);
    proof {
        if negate {
            assert(trunc_div(n, d) == -(q as int));
        } else {
            assert(trunc_div(n, d) == q as int);
        }
        assert(t0 as int + trunc_div(n, d) == map_range_spec(
            f0 as int,
            f1 as int,
            t0 as int,
            t1 as int,
            s as int,
        ));
        assert(q <= abs(t0 as int) + i64::MAX + 1);
    }
    let res: i128 = if negate {
        t0 as i128 - q as i128
    } else {
        t0 as i128 + q as i128
    };
    res as i64
}

/// A sample at the low end of the source interval maps exactly to the low
/// end of the target interval.
pub proof fn lemma_map_range_at_lo(f0: int, f1: int, t0: int, t1: int)
    requires
        f0 != f1,
    ensures
        map_range_spec(f0, f1, t0, t1, f0) == t0,
{
    assert((f0 - f0) * (t1 - t0) == 0) by (nonlinear_arith);
    assert(trunc_div(0, f1 - f0) == 0);
}

/// A sample at the high end of the source interval maps exactly to the high
/// end of the target interval.
pub proof fn lemma_map_range_at_hi(f0: int, f1: int, t0: int, t1: int)
    requires
        f0 != f1,
    ensures
        map_range_spec(f0, f1, t0, t1, f1) == t1,
{
    let d = f1 - f0;
    let k = t1 - t0;
    let n = (f1 - f0) * (t1 - t0);
    assert(abs(d * k) == abs(d) * abs(k)) by (nonlinear_arith);
    assert((d * k < 0) <==> ((d < 0) != (k < 0)) && d != 0 && k != 0) by (nonlinear_arith);
    assert(n == d * k);
    vstd::arithmetic::div_mod::lemma_div_multiples_vanish(abs(k) as int, abs(d) as int);
    assert(abs(d) as int * abs(k) as int / abs(d) as int == abs(k) as int);
    assert(trunc_div(n, d) == k);
}

/// The mapping is affine in the sample: before the truncating division, the
/// remapped value changes exactly in proportion to the sample.
pub proof fn lemma_map_range_affine(f0: int, t0: int, t1: int, s1: int, s2: int)
    ensures
        (s2 - f0) * (t1 - t0) - (s1 - f0) * (t1 - t0) == (s2 - s1) * (t1 - t0),
{
    assert((s2 - f0) * (t1 - t0) - (s1 - f0) * (t1 - t0) == (s2 - s1) * (t1 - t0))
        by (nonlinear_arith);
}

} // verus!
