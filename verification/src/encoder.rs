//! The derivative encoder's decisions: the quality clamp, the encode
//! parameters of the two renditions, and the thumbnail geometry — the
//! largest size that fits the bounding box while preserving the aspect
//! ratio, with rounding to the nearest pixel. The pixel work itself runs
//! outside the library; these are the values it is driven with, and the
//! bound the thumbnail provably stays within.

use vstd::prelude::*;
use vstd::arithmetic::div_mod::lemma_div_is_ordered;
use vstd::arithmetic::div_mod::lemma_div_multiples_vanish_fancy;
use vstd::arithmetic::mul::lemma_mul_upper_bound;

verus! {

/// Clamps a requested encode quality to the accepted range.
pub fn clamp_quality(quality: u8) -> (r: u8)
    ensures
        r == if quality > 100 { 100u8 } else { quality },
        r <= 100,
{
    if quality > 100 {
        100
    } else {
        quality
    }
}

/// The parameters one encode runs with.
pub struct EncodeSettings {
    pub speed: u8,
    pub quality: u8,
    pub alpha_quality: u8,
}

/// The full-resolution preview is encoded slowly, at the caller's quality.
pub fn preview_encode_settings(quality: u8) -> (r: EncodeSettings)
    ensures
        r.speed == 6,
        r.quality == if quality > 100 { 100u8 } else { quality },
        r.alpha_quality == r.quality,
{
    let q = clamp_quality(quality);
    EncodeSettings { speed: 6, quality: q, alpha_quality: q }
}

/// The thumbnail is small, so it is encoded fast and at a fixed high quality
/// that the caller does not control.
pub fn thumbnail_encode_settings() -> (r: EncodeSettings)
    ensures
        r.speed == 10,
        r.quality == 90,
        r.alpha_quality == 90,
{
    EncodeSettings { speed: 10, quality: 90, alpha_quality: 90 }
}

/// The thumbnail's bounding box.
pub fn thumbnail_bound() -> (r: (u32, u32))
    ensures
        r.0 == 400 && r.1 == 400,
{
    (400, 400)
}

/// `n / d` rounded to the nearest integer, halves up.
pub open spec fn spec_round_div(n: int, d: int) -> int
    recommends
        d >= 1,
{
    (2 * n + d) / (2 * d)
}

pub open spec fn spec_at_least_one(x: int) -> int {
    if x < 1 {
        1
    } else {
        x
    }
}

/// The size an image of `w` by `h` is scaled to so that it just fits `bw` by
/// `bh`: the binding side takes the bound exactly, the other follows the
/// aspect ratio, rounded to the nearest pixel and floored at one.
pub open spec fn spec_fit(w: int, h: int, bw: int, bh: int) -> (int, int)
    recommends
        w >= 1 && h >= 1 && bw >= 1 && bh >= 1,
{
    if bw * h <= bh * w {
        (bw, spec_at_least_one(spec_round_div(h * bw, w)))
    } else {
        (spec_at_least_one(spec_round_div(w * bh, h)), bh)
    }
}

/// The rounded side never leaves the box: when the width binds, the rounded
/// height stays at most `bh`, and symmetrically.
pub proof fn lemma_fit_bounded(w: int, h: int, bw: int, bh: int)
    requires
        w >= 1,
        h >= 1,
        bw >= 1,
        bh >= 1,
    ensures
        1 <= spec_fit(w, h, bw, bh).0 <= bw,
        1 <= spec_fit(w, h, bw, bh).1 <= bh,
{
    if bw * h <= bh * w {
        assert(2 * (h * bw) + w <= 2 * (bh * w) + w);
        lemma_div_is_ordered(2 * (h * bw) + w, 2 * (bh * w) + w, 2 * w);
        lemma_div_multiples_vanish_fancy(bh, w, 2 * w);
        assert((2 * w) * bh + w == 2 * (bh * w) + w) by (nonlinear_arith);
        assert(spec_round_div(h * bw, w) <= bh);
    } else {
        assert(2 * (w * bh) + h <= 2 * (bw * h) + h);
        lemma_div_is_ordered(2 * (w * bh) + h, 2 * (bw * h) + h, 2 * h);
        lemma_div_multiples_vanish_fancy(bw, h, 2 * h);
        assert((2 * h) * bw + h == 2 * (bw * h) + h) by (nonlinear_arith);
        assert(spec_round_div(w * bh, h) <= bw);
    }
}

/// Rounding to the nearest integer lands within half a denominator of the
/// exact quotient: `2 * |round(n/d) * d - n| <= d`.
proof fn lemma_round_div_error(n: int, d: int)
    requires
        d >= 1,
        n >= 0,
    ensures
        -d < 2 * (spec_round_div(n, d) * d - n) <= d,
{
    let x = 2 * n + d;
    let q = x / (2 * d);
    let r = x % (2 * d);
    vstd::arithmetic::div_mod::lemma_fundamental_div_mod(x, 2 * d);
    vstd::arithmetic::div_mod::lemma_mod_bound(x, 2 * d);
    assert(2 * (q * d) == (2 * d) * q) by (nonlinear_arith);
    assert(2 * (q * d - n) == d - r);
}

/// The scaled side keeps the aspect ratio to within half a pixel before the
/// floor at one: when the width binds, the chosen height `h'` satisfies
/// `2 * |h' * w - h * bw| <= w`, and symmetrically when the height binds.
pub proof fn lemma_fit_aspect(w: int, h: int, bw: int, bh: int)
    requires
        w >= 1,
        h >= 1,
        bw >= 1,
        bh >= 1,
    ensures
        bw * h <= bh * w ==> -w < 2 * (spec_round_div(h * bw, w) * w - h * bw) <= w,
        bw * h > bh * w ==> -h < 2 * (spec_round_div(w * bh, h) * h - w * bh) <= h,
{
    assert(h * bw >= 0) by (nonlinear_arith)
        requires
            h >= 1 && bw >= 1,
    ;
    assert(w * bh >= 0) by (nonlinear_arith)
        requires
            w >= 1 && bh >= 1,
    ;
    lemma_round_div_error(h * bw, w);
    lemma_round_div_error(w * bh, h);
}

/// Computes [`spec_fit`] for one image.
pub fn fit_box(w: u32, h: u32, bw: u32, bh: u32) -> (r: (u32, u32))
    requires
        w >= 1,
        h >= 1,
        bw >= 1,
        bh >= 1,
    ensures
        (r.0 as int, r.1 as int) == spec_fit(w as int, h as int, bw as int, bh as int),
        1 <= r.0 <= bw,
        1 <= r.1 <= bh,
{
    proof {
        lemma_fit_bounded(w as int, h as int, bw as int, bh as int);
        lemma_mul_upper_bound(bw as int, u32::MAX as int, h as int, u32::MAX as int);
        lemma_mul_upper_bound(bh as int, u32::MAX as int, w as int, u32::MAX as int);
        lemma_mul_upper_bound(h as int, u32::MAX as int, bw as int, u32::MAX as int);
        lemma_mul_upper_bound(w as int, u32::MAX as int, bh as int, u32::MAX as int);
    }
    let w128 = w as u128;
    let h128 = h as u128;
    let bw128 = bw as u128;
    let bh128 = bh as u128;
    if bw128 * h128 <= bh128 * w128 {
        let rounded = (2 * (h128 * bw128) + w128) / (2 * w128);
        let rh: u128 = if rounded < 1 {
            1
        } else {
            rounded
        };
        (bw, rh as u32)
    } else {
        let rounded = (2 * (w128 * bh128) + h128) / (2 * h128);
        let rw: u128 = if rounded < 1 {
            1
        } else {
            rounded
        };
        (rw as u32, bh)
    }
}

} // verus!
