//! The dimension planner: which size an image is shrunk to.
//!
//! The shrink factor is `min(max_width / src_width, max_height / src_height)`,
//! computed here as an exact fraction, so no rounding error can push a
//! target dimension past the bounding box.

use vstd::prelude::*;

verus! {

/// `ceil(a / b)` for `b > 0`.
pub open spec fn ceil_div(a: int, b: int) -> int {
    (a + b - 1) / b
}

/// The shrink factor as a fraction `(numerator, denominator)`: the smaller of
/// `max_width / src_width` and `max_height / src_height`.
pub open spec fn shrink_factor(src_width: nat, src_height: nat, max_width: nat, max_height: nat) -> (nat, nat) {
    if max_width * src_height <= max_height * src_width {
        (max_width, src_width)
    } else {
        (max_height, src_height)
    }
}

/// The target size: the source size when the factor is at least one, else
/// each side multiplied by the factor and rounded up.
pub open spec fn planned_size(src_width: nat, src_height: nat, max_width: nat, max_height: nat) -> (nat, nat) {
    let (p, q) = shrink_factor(src_width, src_height, max_width, max_height);
    if p >= q {
        (src_width, src_height)
    } else {
        (ceil_div((src_width * p) as int, q as int) as nat, ceil_div((src_height * p) as int, q as int) as nat)
    }
}

proof fn lemma_ceil_div_le(a: int, b: int, c: int)
    requires
        b > 0,
        0 <= a <= c * b,
    ensures
        0 <= ceil_div(a, b) <= c,
{
    assert(0 <= (a + b - 1) / b) by (nonlinear_arith)
        requires b > 0, a >= 0;
    assert((a + b - 1) / b <= c) by (nonlinear_arith)
        requires b > 0, a <= c * b, a >= 0;
}

proof fn lemma_ceil_div_pos(a: int, b: int)
    requires
        b > 0,
        a > 0,
    ensures
        ceil_div(a, b) >= 1,
{
    assert((a + b - 1) / b >= 1) by (nonlinear_arith)
        requires b > 0, a > 0;
}

/// The planned size never exceeds the source, never exceeds the bounding box,
/// is the source size itself when the box already holds the source, and has
/// no zero side when the box has none.
pub proof fn lemma_planned_size_bounds(src_width: nat, src_height: nat, max_width: nat, max_height: nat)
    requires
        src_width > 0,
        src_height > 0,
    ensures
        planned_size(src_width, src_height, max_width, max_height).0 <= src_width,
        planned_size(src_width, src_height, max_width, max_height).1 <= src_height,
        planned_size(src_width, src_height, max_width, max_height).0 <= max_width,
        planned_size(src_width, src_height, max_width, max_height).1 <= max_height,
        max_width >= src_width && max_height >= src_height ==> planned_size(
            src_width,
            src_height,
            max_width,
            max_height,
        ) == (src_width, src_height),
        max_width > 0 && max_height > 0 ==> planned_size(src_width, src_height, max_width, max_height).0 > 0
            && planned_size(src_width, src_height, max_width, max_height).1 > 0,
{
    let (p, q) = shrink_factor(src_width, src_height, max_width, max_height);
    let sw = src_width as int;
    let sh = src_height as int;
    let mw = max_width as int;
    let mh = max_height as int;
    if mw * sh <= mh * sw {
        assert(p == mw && q == sw);
        if p >= q {
            // mw >= sw, and mh * sw >= mw * sh >= sw * sh, so mh >= sh
            assert(mh * sw >= sh * sw) by (nonlinear_arith)
                requires mw * sh <= mh * sw, mw >= sw, sh >= 0;
            assert(mh >= sh) by (nonlinear_arith)
                requires mh * sw >= sh * sw, sw > 0;
        } else {
            assert(sw * mw <= sw * sw) by (nonlinear_arith)
                requires mw < sw, sw > 0, mw >= 0;
            lemma_ceil_div_le(sw * mw, sw, sw);
            assert(sw * mw <= mw * sw) by (nonlinear_arith);
            lemma_ceil_div_le(sw * mw, sw, mw);
            assert(sh * mw <= sh * sw) by (nonlinear_arith)
                requires mw < sw, sh > 0, mw >= 0;
            assert(sh * mw >= 0) by (nonlinear_arith)
                requires sh > 0, mw >= 0;
            lemma_ceil_div_le(sh * mw, sw, sh);
            assert(sh * mw <= mh * sw) by (nonlinear_arith)
                requires mw * sh <= mh * sw;
            lemma_ceil_div_le(sh * mw, sw, mh);
            if mw > 0 {
                assert(sw * mw > 0) by (nonlinear_arith)
                    requires sw > 0, mw > 0;
                assert(sh * mw > 0) by (nonlinear_arith)
                    requires sh > 0, mw > 0;
                lemma_ceil_div_pos(sw * mw, sw);
                lemma_ceil_div_pos(sh * mw, sw);
            }
        }
    } else {
        assert(p == mh && q == sh);
        if p >= q {
            assert(mw * sh > sw * sh) by (nonlinear_arith)
                requires mw * sh > mh * sw, mh >= sh, sw >= 0;
            assert(mw > sw) by (nonlinear_arith)
                requires mw * sh > sw * sh, sh > 0;
        } else {
            assert(sh * mh <= sh * sh) by (nonlinear_arith)
                requires mh < sh, sh > 0, mh >= 0;
            lemma_ceil_div_le(sh * mh, sh, sh);
            assert(sh * mh <= mh * sh) by (nonlinear_arith);
            lemma_ceil_div_le(sh * mh, sh, mh);
            assert(sw * mh <= sw * sh) by (nonlinear_arith)
                requires mh < sh, sw > 0, mh >= 0;
            assert(sw * mh >= 0) by (nonlinear_arith)
                requires sw > 0, mh >= 0;
            lemma_ceil_div_le(sw * mh, sh, sw);
            assert(sw * mh <= mw * sh) by (nonlinear_arith)
                requires mw * sh > mh * sw;
            lemma_ceil_div_le(sw * mh, sh, mw);
            if mh > 0 {
                assert(sw * mh > 0) by (nonlinear_arith)
                    requires sw > 0, mh > 0;
                assert(sh * mh > 0) by (nonlinear_arith)
                    requires sh > 0, mh > 0;
                lemma_ceil_div_pos(sw * mh, sh);
                lemma_ceil_div_pos(sh * mh, sh);
            }
        }
    }
}

/// Computes the size that an image of `src_width` by `src_height` pixels is
/// shrunk to so that it fits in `max_width` by `max_height`.
///
/// A bounding box with a zero side gives a zero target side; the resampler
/// refuses such a target.
pub fn shrink_size(src_width: usize, src_height: usize, max_width: usize, max_height: usize) -> (r: (
    usize,
    usize,
))
    requires
        src_width > 0,
        src_height > 0,
    ensures
        (r.0 as nat, r.1 as nat) == planned_size(
            src_width as nat,
            src_height as nat,
            max_width as nat,
            max_height as nat,
        ),
        r.0 <= src_width,
        r.1 <= src_height,
        r.0 <= max_width,
        r.1 <= max_height,
        max_width >= src_width && max_height >= src_height ==> r == (src_width, src_height),
        max_width > 0 && max_height > 0 ==> r.0 > 0 && r.1 > 0,
{
    proof {
        lemma_planned_size_bounds(src_width as nat, src_height as nat, max_width as nat, max_height as nat);
    }
    let sw = src_width as u128;
    let sh = src_height as u128;
    let mw = max_width as u128;
    let mh = max_height as u128;
    assert(mw * sh <= u64::MAX * u64::MAX) by (nonlinear_arith)
        requires mw <= u64::MAX, sh <= u64::MAX;
    assert(mh * sw <= u64::MAX * u64::MAX) by (nonlinear_arith)
        requires mh <= u64::MAX, sw <= u64::MAX;
    let (p, q): (u128, u128) = if mw * sh <= mh * sw {
        (mw, sw)
    } else {
        (mh, sh)
    };
    if p >= q {
        (src_width, src_height)
    } else {
        assert(sw * p <= u64::MAX * u64::MAX) by (nonlinear_arith)
            requires p <= u64::MAX, sw <= u64::MAX;
        assert(sh * p <= u64::MAX * u64::MAX) by (nonlinear_arith)
            requires p <= u64::MAX, sh <= u64::MAX;
        let w = (sw * p + q - 1) / q;
        let h = (sh * p + q - 1) / q;
        (w as usize, h as usize)
    }
}

} // verus!
