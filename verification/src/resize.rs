//! Resize decision: given the decoded dimensions and the optional bounds of
//! a request, decide whether to resample and to what target size.
//!
//! With both bounds set the image is scaled to exactly fit them (the aspect
//! ratio is not preserved unless the caller supplies consistent values).
//! With one bound set, the other dimension is computed so as to preserve the
//! aspect ratio, and resizing happens only when the image exceeds the bound —
//! never upscaling. With no bound set, no resize occurs.

use vstd::arithmetic::div_mod::lemma_fundamental_div_mod;
use vstd::arithmetic::div_mod::lemma_mod_division_less_than_divisor;
use vstd::prelude::*;

verus! {

/// The dimension paired with `bound` when the constrained dimension of an
/// `other` by `constrained` image is scaled down to `bound`: the aspect-true
/// value rounded to the nearest integer, and at least 1 so the result is
/// still an image.
pub open spec fn spec_scaled_other_dim(other: u32, bound: u32, constrained: u32) -> u32
    recommends
        0 < constrained,
        bound < constrained,
{
    let rounded = (other * bound + constrained / 2) / (constrained as int);
    if rounded == 0 {
        1u32
    } else {
        rounded as u32
    }
}

/// The resize target for a `w` by `h` image under the request's optional
/// width and height bounds, or `None` when no resize is to happen.
pub open spec fn spec_resize_target(
    w: u32,
    h: u32,
    max_w: Option<u32>,
    max_h: Option<u32>,
) -> Option<(u32, u32)> {
    match (max_w, max_h) {
        (Some(mw), Some(mh)) => if w == mw && h == mh {
            None
        } else {
            Some((mw, mh))
        },
        (Some(mw), None) => if w > mw {
            Some((mw, spec_scaled_other_dim(h, mw, w)))
        } else {
            None
        },
        (None, Some(mh)) => if h > mh {
            Some((spec_scaled_other_dim(w, mh, h), mh))
        } else {
            None
        },
        (None, None) => None,
    }
}

/// The rounded-and-clamped scaled dimension stays within one pixel of the
/// exact aspect-preserving value: `|r * constrained - other * bound|` is at
/// most `constrained`, and the rounding never overshoots the source
/// dimension (except for the clamp to 1).
proof fn lemma_scaled_other_dim_bounds(other: u32, bound: u32, constrained: u32)
    requires
        0 < constrained,
        bound < constrained,
    ensures
        (other * bound + constrained / 2) / (constrained as int) <= other,
        spec_scaled_other_dim(other, bound, constrained) <= other || spec_scaled_other_dim(
            other,
            bound,
            constrained,
        ) == 1,
        spec_scaled_other_dim(other, bound, constrained) * constrained <= other * bound
            + constrained,
        other * bound <= spec_scaled_other_dim(other, bound, constrained) * constrained
            + constrained,
{
    let o = other as int;
    let b = bound as int;
    let c = constrained as int;
    let half = c / 2;
    let x = o * b + half;
    let q = x / c;
    let r = x % c;
    assert(2 * half <= c && half >= 0);
    lemma_fundamental_div_mod(x, c);
    lemma_mod_division_less_than_divisor(x, c);
    assert(q <= o) by (nonlinear_arith)
        requires
            x == c * q + r,
            0 <= r < c,
            0 <= o,
            0 <= b,
            b < c,
            0 <= half,
            2 * half <= c,
            x == o * b + half,
    ;
    assert(q * c <= x && x <= q * c + c - 1) by (nonlinear_arith)
        requires
            x == c * q + r,
            0 <= r < c,
    ;
    assert(x >= 0 && o * b >= 0) by (nonlinear_arith)
        requires
            0 <= o,
            0 <= b,
            0 <= half,
            x == o * b + half,
    ;
    let qc = spec_scaled_other_dim(other, bound, constrained) as int;
    if q == 0 {
        assert(qc == 1);
        assert(o * b <= x);
        assert(x <= q * c + c - 1);
        assert(o * b <= qc * c + c);
    } else {
        assert(qc == q);
        assert(o * b <= x <= q * c + c - 1);
        assert(qc * c == q * c);
        assert(o * b <= qc * c + c);
    }
}

/// Decide the resize target for a `w` by `h` image under the given bounds.
pub fn resize_target(w: u32, h: u32, max_w: Option<u32>, max_h: Option<u32>) -> (r: Option<
    (u32, u32),
>)
    ensures
        r == spec_resize_target(w, h, max_w, max_h),
{
    match (max_w, max_h) {
        (Some(mw), Some(mh)) => if w == mw && h == mh {
            None
        } else {
            Some((mw, mh))
        },
        (Some(mw), None) => if w > mw {
            Some((mw, scaled_other_dim(h, mw, w)))
        } else {
            None
        },
        (None, Some(mh)) => if h > mh {
            Some((scaled_other_dim(w, mh, h), mh))
        } else {
            None
        },
        (None, None) => None,
    }
}

/// Compute the aspect-preserving partner of `bound`, rounded to nearest and
/// clamped to at least 1.
fn scaled_other_dim(other: u32, bound: u32, constrained: u32) -> (r: u32)
    requires
        0 < constrained,
        bound < constrained,
    ensures
        r == spec_scaled_other_dim(other, bound, constrained),
{
    proof {
        assert((other as int) * (bound as int) <= 0xffff_ffff * 0xffff_ffff) by (nonlinear_arith)
            requires
                other <= 0xffff_ffffu32,
                bound <= 0xffff_ffffu32,
        ;
        lemma_scaled_other_dim_bounds(other, bound, constrained);
    }
    let numer: u64 = (other as u64) * (bound as u64) + ((constrained / 2) as u64);
    let q: u64 = numer / (constrained as u64);
    assert(q <= other as u64);
    if q == 0 {
        1
    } else {
        q as u32
    }
}

/// Under bounds of at least one pixel, any resize target has at least one
/// pixel on each axis, so it still names an image.
pub proof fn lemma_resize_target_positive(w: u32, h: u32, max_w: Option<u32>, max_h: Option<u32>)
    requires
        max_w != Some(0u32),
        max_h != Some(0u32),
    ensures
        spec_resize_target(w, h, max_w, max_h) matches Some(t) ==> 1 <= t.0 && 1 <= t.1,
{
    match (max_w, max_h) {
        (Some(mw), None) => if w > mw {
            lemma_scaled_other_dim_bounds(h, mw, w);
        },
        (None, Some(mh)) => if h > mh {
            lemma_scaled_other_dim_bounds(w, mh, h);
        },
        _ => (),
    }
}

/// Resize aspect law, width-bounded case: when only a width bound is set and
/// the source exceeds it, the target satisfies the bound exactly on the
/// width, never upscales, and preserves the aspect ratio to within one pixel
/// of rounding on the height: the cross products `target_h * w` and `h * mw`
/// agree up to `w`. When the source does not exceed the bound, no resize
/// occurs.
pub proof fn lemma_resize_aspect_width(w: u32, h: u32, mw: u32)
    ensures
        w > mw ==> (spec_resize_target(w, h, Some(mw), None) matches Some(t) && {
            &&& t.0 == mw
            &&& t.1 * w <= h * mw + w
            &&& h * mw <= t.1 * w + w
            &&& t.1 <= h || t.1 == 1
        }),
        w <= mw ==> spec_resize_target(w, h, Some(mw), None) is None,
{
    if w > mw {
        lemma_scaled_other_dim_bounds(h, mw, w);
    }
}

/// Resize aspect law, height-bounded case: the mirror image of
/// `lemma_resize_aspect_width`.
pub proof fn lemma_resize_aspect_height(w: u32, h: u32, mh: u32)
    ensures
        h > mh ==> (spec_resize_target(w, h, None, Some(mh)) matches Some(t) && {
            &&& t.1 == mh
            &&& t.0 * h <= w * mh + h
            &&& w * mh <= t.0 * h + h
            &&& t.0 <= w || t.0 == 1
        }),
        h <= mh ==> spec_resize_target(w, h, None, Some(mh)) is None,
{
    if h > mh {
        lemma_scaled_other_dim_bounds(w, mh, h);
    }
}

} // verus!
