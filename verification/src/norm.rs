//! Fixed-point representation of normalized PTZ values, and the rounded
//! division that every range remapping in this crate is built on.
//!
//! Normalized pan and tilt range over [-1, 1] and zoom over [0, 1].
//! Executable code stores them scaled by 1000, so pan and tilt are
//! `i32` values in [-1000, 1000] and zoom an `i32` in [0, 1000].

use vstd::arithmetic::div_mod::lemma_fundamental_div_mod;
use vstd::prelude::*;

verus! {

/// Clamping over mathematical integers.
pub open spec fn clamp_spec(v: int, lo: int, hi: int) -> int {
    if v < lo {
        lo
    } else if v > hi {
        hi
    } else {
        v
    }
}

/// Magnitude of an integer.
pub open spec fn abs_val(a: int) -> int {
    if a >= 0 {
        a
    } else {
        -a
    }
}

/// Division rounded upward; for nonnegative dividends and positive
/// divisors.
pub open spec fn ceil_div(a: int, b: int) -> int
    recommends
        a >= 0,
        b > 0,
{
    (a + b - 1) / b
}

/// Division rounded to the nearest integer, ties away from zero.
/// All remappings between the normalized space and a protocol's native
/// range divide this way. The divisor is expected to be positive.
pub open spec fn round_div(a: int, b: int) -> int
    recommends
        b > 0,
{
    if a >= 0 {
        (a + b / 2) / b
    } else {
        -((-a + b / 2) / b)
    }
}

/// Clamp `v` into [`lo`, `hi`].
pub fn clamp_i32(v: i32, lo: i32, hi: i32) -> (r: i32)
    requires
        lo <= hi,
    ensures
        r == clamp_spec(v as int, lo as int, hi as int),
{
    if v < lo {
        lo
    } else if v > hi {
        hi
    } else {
        v
    }
}

/// Clamp `v` into [`lo`, `hi`], in 64 bits.
pub fn clamp_i64(v: i64, lo: i64, hi: i64) -> (r: i64)
    requires
        lo <= hi,
    ensures
        r == clamp_spec(v as int, lo as int, hi as int),
{
    if v < lo {
        lo
    } else if v > hi {
        hi
    } else {
        v
    }
}

/// Clamp a normalized pan or tilt value to [-1000, 1000].
pub fn clamp_pan_tilt(value: i32) -> (r: i32)
    ensures
        r == clamp_spec(value as int, -1000, 1000),
{
    clamp_i32(value, -1000, 1000)
}

/// Clamp a normalized zoom value to [0, 1000].
pub fn clamp_zoom(value: i32) -> (r: i32)
    ensures
        r == clamp_spec(value as int, 0, 1000),
{
    clamp_i32(value, 0, 1000)
}

/// Executable rounded division; matches [`round_div`] exactly.
pub fn round_div_i64(a: i64, b: u64) -> (q: i64)
    requires
        0 < b <= 0x1_0000_0000,
        -0x0fff_ffff_ffff_ffff <= a <= 0x0fff_ffff_ffff_ffff,
    ensures
        q == round_div(a as int, b as int),
{
    let half: u64 = b / 2;
    if a >= 0 {
        let m: u64 = a as u64;
        let d: u64 = (m + half) / b;
        d as i64
    } else {
        let m: u64 = (-a) as u64;
        let d: u64 = (m + half) / b;
        -(d as i64)
    }
}

/// The defining property of [`round_div`]: the rounded quotient, scaled
/// back up, differs from the dividend by at most half the (even) divisor.
pub proof fn lemma_round_div_close(a: int, b: int)
    requires
        b > 0,
        b % 2 == 0,
    ensures
        b * round_div(a, b) - a <= b / 2,
        a - b * round_div(a, b) <= b / 2,
{
    if a >= 0 {
        let n = a + b / 2;
        lemma_fundamental_div_mod(n, b);
        assert(0 <= n % b < b) by {
            vstd::arithmetic::div_mod::lemma_mod_bound(n, b);
        }
        assert(b * round_div(a, b) == n - n % b);
    } else {
        let n = -a + b / 2;
        lemma_fundamental_div_mod(n, b);
        assert(0 <= n % b < b) by {
            vstd::arithmetic::div_mod::lemma_mod_bound(n, b);
        }
        assert(b * -(n / b) == -(b * (n / b))) by (nonlinear_arith);
        assert(b * round_div(a, b) == -(n - n % b));
    }
}

} // verus!
