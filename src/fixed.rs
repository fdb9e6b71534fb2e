//! Fixed-point arithmetic for the simulation: lengths are thousandths of a
//! world unit, speeds are thousandths of a unit per second, and time steps are
//! microseconds. Every accumulating quantity saturates at the `i64` range.
use vstd::prelude::*;

verus! {

pub const MICROS_PER_SECOND: u64 = 1_000_000;

/// The value `x` held to the range of `i64`.
pub open spec fn clamp_i64(x: int) -> int {
    if x < i64::MIN as int {
        i64::MIN as int
    } else if x > i64::MAX as int {
        i64::MAX as int
    } else {
        x
    }
}

pub open spec fn abs(x: int) -> int {
    if x < 0 { -x } else { x }
}

/// Division of `a` by a positive `d`, rounding toward zero.
pub open spec fn trunc_div(a: int, d: int) -> int
    recommends d > 0,
{
    if a >= 0 { a / d } else { -((-a) / d) }
}

/// The distance covered in `dt_us` microseconds at speed `v`, rounded toward zero.
pub open spec fn displacement(v: int, dt_us: int) -> int {
    trunc_div(v * dt_us, MICROS_PER_SECOND as int)
}

/// The speed gained in `dt_us` microseconds under a constant acceleration `rate`.
pub open spec fn gain(rate: int, dt_us: int) -> int {
    rate * dt_us / (MICROS_PER_SECOND as int)
}

/// `v` scaled by `num / den`, rounded toward zero.
pub open spec fn scale(v: int, num: int, den: int) -> int {
    trunc_div(v * num, den)
}

/// Narrows an `i128` to `i64`, saturating at the bounds.
pub fn saturate(x: i128) -> (r: i64)
    ensures
        r == clamp_i64(x as int),
{
    if x < i64::MIN as i128 {
        i64::MIN
    } else if x > i64::MAX as i128 {
        i64::MAX
    } else {
        x as i64
    }
}

pub fn sat_add(a: i64, b: i64) -> (r: i64)
    ensures
        r == clamp_i64(a + b),
{
    saturate(a as i128 + b as i128)
}

pub fn sat_sub(a: i64, b: i64) -> (r: i64)
    ensures
        r == clamp_i64(a - b),
{
    saturate(a as i128 - b as i128)
}

/// Distance covered at speed `v` during `dt_us` microseconds, saturated.
pub fn displacement_of(v: i64, dt_us: u32) -> (r: i64)
    ensures
        r == clamp_i64(displacement(v as int, dt_us as int)),
{
    let vw = v as i128;
    let dw = dt_us as i128;
    proof {
        assert(-0x8000_0000_0000_0000 <= vw <= 0x7fff_ffff_ffff_ffff);
        assert(0 <= dw <= 0xffff_ffff);
        assert(vw * dw <= 0x7fff_ffff_ffff_ffff * 0xffff_ffff) by (nonlinear_arith)
            requires vw <= 0x7fff_ffff_ffff_ffff, 0 <= dw <= 0xffff_ffff;
        assert(vw * dw >= -0x8000_0000_0000_0000 * 0xffff_ffff) by (nonlinear_arith)
            requires -0x8000_0000_0000_0000 <= vw, 0 <= dw <= 0xffff_ffff;
    }
    let p = vw * dw;
    let m = MICROS_PER_SECOND as i128;
    let q = if p >= 0 { p / m } else { -((-p) / m) };
    saturate(q)
}

/// Speed gained during `dt_us` microseconds under acceleration `rate`.
pub fn gain_of(rate: u32, dt_us: u32) -> (r: i64)
    ensures
        r == gain(rate as int, dt_us as int),
        0 <= r <= 0xffff_ffff * 0xffff_ffff / 1_000_000,
{
    let a = rate as u64;
    let d = dt_us as u64;
    proof {
        assert(a * d <= 0xffff_ffff * 0xffff_ffff) by (nonlinear_arith)
            requires a <= 0xffff_ffff, d <= 0xffff_ffff;
        assert(0 <= a * d) by (nonlinear_arith)
            requires 0 <= a, 0 <= d;
    }
    let q = (a * d) / MICROS_PER_SECOND;
    proof {
        assert(q <= 0xffff_ffff * 0xffff_ffff / 1_000_000) by (nonlinear_arith)
            requires q == (a * d) / 1_000_000, a * d <= 0xffff_ffff * 0xffff_ffff;
    }
    q as i64
}

/// `v` scaled by `num / den` (with `num <= den`), rounded toward zero.
pub fn scale_of(v: i64, num: u8, den: u8) -> (r: i64)
    requires
        0 < den,
        num <= den,
    ensures
        r == scale(v as int, num as int, den as int),
        abs(r as int) <= abs(v as int),
{
    let vw = v as i128;
    let n = num as i128;
    let d = den as i128;
    let neg = vw < 0;
    let m: i128 = if neg { -vw } else { vw };
    proof {
        let (mi, ni, di, vi) = (m as int, n as int, d as int, vw as int);
        assert(0 <= mi * ni <= mi * di) by (nonlinear_arith)
            requires 0 <= mi, 0 <= ni <= di;
        assert(mi * di <= 0x8000_0000_0000_0000 * 255) by (nonlinear_arith)
            requires 0 <= mi <= 0x8000_0000_0000_0000, 0 < di <= 255;
        assert((mi * ni) / di <= mi) by (nonlinear_arith)
            requires 0 <= mi, 0 <= ni <= di, 0 < di;
        assert(mi * ni == (if neg { -(vi * ni) } else { vi * ni })) by (nonlinear_arith)
            requires mi == (if neg { -vi } else { vi });
    }
    let q = (m * n) / d;
    if neg { -q as i64 } else { q as i64 }
}

} // verus!
