//! Saturating fixed-point arithmetic on `i64` coordinates.

use vstd::prelude::*;

verus! {

/// The value of `v` brought into the range of `i64`.
pub open spec fn clamp(v: int) -> int {
    if v > i64::MAX as int {
        i64::MAX as int
    } else if v < i64::MIN as int {
        i64::MIN as int
    } else {
        v
    }
}

/// Where a coordinate `p` stands after moving at rate `v` for `dt`.
pub open spec fn advanced(p: int, v: int, dt: int) -> int {
    clamp(p + v * dt)
}

/// Where a coordinate `p` stands after `n` moves at rate `v`, each lasting `dt`.
pub open spec fn advanced_n(p: int, v: int, dt: int, n: nat) -> int
    decreases n,
{
    if n == 0 {
        p
    } else {
        advanced(advanced_n(p, v, dt, (n - 1) as nat), v, dt)
    }
}

proof fn lemma_product_bounds(a: int, b: int, la: int, lb: int)
    requires
        -la <= a <= la,
        -lb <= b <= lb,
    ensures
        -(la * lb) <= a * b <= la * lb,
{
    assert(-(la * lb) <= a * b <= la * lb) by (nonlinear_arith)
        requires
            -la <= a <= la,
            -lb <= b <= lb,
    ;
}

proof fn lemma_product_sign(d: int, n: int)
    requires
        n >= 0,
    ensures
        d >= 0 ==> d * n >= 0,
        d <= 0 ==> d * n <= 0,
        d * (n + 1) == d * n + d,
{
    assert(d >= 0 ==> d * n >= 0) by (nonlinear_arith)
        requires
            n >= 0,
    ;
    assert(d <= 0 ==> d * n <= 0) by (nonlinear_arith)
        requires
            n >= 0,
    ;
    assert(d * (n + 1) == d * n + d) by (nonlinear_arith);
}

/// Moving `n` times for `dt` each ends where one move for `n * dt` ends:
/// saturation along the way loses nothing.
pub proof fn lemma_advanced_n(p: int, v: int, dt: int, n: nat)
    requires
        i64::MIN <= p <= i64::MAX,
    ensures
        advanced_n(p, v, dt, n) == advanced(p, v, n * dt),
    decreases n,
{
    if n == 0 {
        assert(v * (n * dt) == 0) by (nonlinear_arith)
            requires
                n == 0,
        ;
    } else {
        let m = (n - 1) as nat;
        lemma_advanced_n(p, v, dt, m);
        let d = v * dt;
        lemma_product_sign(d, m as int);
        assert(v * (m * dt) == d * m) by (nonlinear_arith)
            requires
                d == v * dt,
        ;
        assert(v * (n * dt) == d * (m + 1)) by (nonlinear_arith)
            requires
                d == v * dt,
                n == m + 1,
        ;
        let before = advanced_n(p, v, dt, m);
        assert(before == clamp(p + d * m));
        assert(advanced_n(p, v, dt, n) == clamp(before + d));
        assert(clamp(before + d) == clamp(p + d * m + d));
    }
}

/// Brings a wide intermediate result back into `i64`, saturating.
pub fn saturate(wide: i128) -> (r: i64)
    ensures
        r == clamp(wide as int),
{
    if wide > i64::MAX as i128 {
        i64::MAX
    } else if wide < i64::MIN as i128 {
        i64::MIN
    } else {
        wide as i64
    }
}

/// `p + a * b`, saturating at the ends of the `i64` range.
pub fn mul_add(p: i64, a: i64, b: i64) -> (r: i64)
    ensures
        r == clamp(p + a * b),
{
    proof {
        lemma_product_bounds(a as int, b as int, 0x8000_0000_0000_0000, 0x8000_0000_0000_0000);
    }
    saturate((a as i128) * (b as i128) + (p as i128))
}

/// `p + v * dt` for an unsigned duration, saturating at the ends of the `i64`
/// range.
pub fn advance(p: i64, v: i64, dt: u64) -> (r: i64)
    ensures
        r == advanced(p as int, v as int, dt as int),
{
    proof {
        lemma_product_bounds(v as int, dt as int, 0x8000_0000_0000_0000, 0xffff_ffff_ffff_ffff);
    }
    saturate((v as i128) * (dt as i128) + (p as i128))
}

} // verus!
