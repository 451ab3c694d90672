use crate::error::PreviewError;
use vstd::prelude::*;

verus! {

/// Raises a length of zero to one: an output axis is never empty.
pub open spec fn at_least_one(n: nat) -> nat {
    if n == 0 {
        1
    } else {
        n
    }
}

/// The source is relatively wider than the box: `sw / sh > tw / th`, compared
/// exactly by cross-multiplication.
pub open spec fn wider_than_box(sw: nat, sh: nat, tw: nat, th: nat) -> bool {
    sw * th > tw * sh
}

/// Output width of the aspect fit. When the source is wider than the box the
/// width is the box's; otherwise it is `th * sw / sh`, rounded down, at least 1.
/// A tie in aspect takes the second branch, which then gives exactly `tw`.
pub open spec fn fit_width(sw: nat, sh: nat, tw: nat, th: nat) -> nat {
    if wider_than_box(sw, sh, tw, th) {
        tw
    } else {
        at_least_one(th * sw / sh)
    }
}

/// Output height of the aspect fit: `tw * sh / sw` rounded down (at least 1)
/// when the source is wider than the box, else the box's height.
pub open spec fn fit_height(sw: nat, sh: nat, tw: nat, th: nat) -> nat {
    if wider_than_box(sw, sh, tw, th) {
        at_least_one(tw * sh / sw)
    } else {
        th
    }
}

/// Every axis of the source and of the box is positive.
pub open spec fn dimensions_valid(sw: nat, sh: nat, tw: nat, th: nat) -> bool {
    sw > 0 && sh > 0 && tw > 0 && th > 0
}

proof fn lemma_quotient_below(a: nat, d: nat, b: nat)
    requires
        d > 0,
        a < d * b,
    ensures
        a / d < b,
{
    assert(a / d < b) by (nonlinear_arith)
        requires
            d > 0,
            a < d * b,
    ;
}

proof fn lemma_quotient_at_most(a: nat, d: nat, b: nat)
    requires
        d > 0,
        a <= d * b,
    ensures
        a / d <= b,
{
    assert(a / d <= b) by (nonlinear_arith)
        requires
            d > 0,
            a <= d * b,
    ;
}

/// Computes the output size that fits `target_width` x `target_height` while
/// keeping the aspect ratio of a `source_width` x `source_height` bitmap.
/// Rounding is toward zero on exact rational values, and an axis that would
/// round to zero is raised to one.
pub fn fit_dimensions(
    source_width: u32,
    source_height: u32,
    target_width: u32,
    target_height: u32,
) -> (r: Result<(u32, u32), PreviewError>)
    ensures
        r is Ok <==> dimensions_valid(
            source_width as nat,
            source_height as nat,
            target_width as nat,
            target_height as nat,
        ),
        r is Err ==> r->Err_0 is InvalidDimensions,
        r is Ok ==> r->Ok_0.0 == fit_width(
            source_width as nat,
            source_height as nat,
            target_width as nat,
            target_height as nat,
        ),
        r is Ok ==> r->Ok_0.1 == fit_height(
            source_width as nat,
            source_height as nat,
            target_width as nat,
            target_height as nat,
        ),
{
    if source_width == 0 || source_height == 0 || target_width == 0 || target_height == 0 {
        return Err(PreviewError::InvalidDimensions);
    }
    let sw = source_width as u64;
    let sh = source_height as u64;
    let tw = target_width as u64;
    let th = target_height as u64;
    assert(sw * th <= u32::MAX * u32::MAX) by (nonlinear_arith)
        requires
            sw <= u32::MAX,
            th <= u32::MAX,
    ;
    assert(tw * sh <= u32::MAX * u32::MAX) by (nonlinear_arith)
        requires
            tw <= u32::MAX,
            sh <= u32::MAX,
    ;
    let across = sw * th;
    let down = tw * sh;
    if across > down {
        let q = down / sw;
        proof {
            lemma_quotient_below(down as nat, sw as nat, th as nat);
        }
        let h: u32 = if q == 0 {
            1
        } else {
            q as u32
        };
        Ok((target_width, h))
    } else {
        let q = across / sh;
        proof {
            lemma_quotient_at_most(across as nat, sh as nat, tw as nat);
        }
        let w: u32 = if q == 0 {
            1
        } else {
            q as u32
        };
        Ok((w, target_height))
    }
}

/// The fitted output lies inside the box on both axes, is at least one pixel
/// on each, and keeps the source aspect ratio up to one pixel of rounding: the
/// axis that is not pinned to the box differs from its exact length
/// (`tw * sh / sw` for the height, `th * sw / sh` for the width) by less than one.
pub proof fn lemma_fit_within_box(sw: nat, sh: nat, tw: nat, th: nat)
    requires
        dimensions_valid(sw, sh, tw, th),
    ensures
        1 <= fit_width(sw, sh, tw, th) <= tw,
        1 <= fit_height(sw, sh, tw, th) <= th,
        ({
            let w = fit_width(sw, sh, tw, th) as int;
            let h = fit_height(sw, sh, tw, th) as int;
            (w == tw && -(sw as int) < h * sw - tw * sh < sw) || (h == th && -(sh as int) < w
                * sh - th * sw < sh)
        }),
{
    if wider_than_box(sw, sh, tw, th) {
        lemma_quotient_below(tw * sh, sw, th);
        lemma_product_positive(tw, sh);
        lemma_floor_within_one(tw * sh, sw);
    } else {
        lemma_quotient_at_most(sw * th, sh, tw);
        lemma_product_positive(th, sw);
        lemma_floor_within_one(th * sw, sh);
        assert(th * sw == sw * th) by (nonlinear_arith);
    }
}

proof fn lemma_product_positive(a: nat, b: nat)
    requires
        a > 0,
        b > 0,
    ensures
        a * b > 0,
{
    assert(a * b > 0) by (nonlinear_arith)
        requires
            a > 0,
            b > 0,
    ;
}

proof fn lemma_floor_within_one(a: nat, d: nat)
    requires
        d > 0,
        a > 0,
    ensures
        -(d as int) < at_least_one(a / d) * d - a < d,
{
    assert(0 <= a - (a / d) * d < d) by (nonlinear_arith)
        requires
            d > 0,
    ;
    if a / d == 0 {
        assert(a < d);
    }
    assert(at_least_one(a / d) * d == if a / d == 0 { d as int } else { ((a / d) * d) as int });
}

/// The scaler is a pure function of the four dimensions: identical inputs give
/// identical output sizes.
pub proof fn lemma_fit_deterministic(
    sw1: nat,
    sh1: nat,
    tw1: nat,
    th1: nat,
    sw2: nat,
    sh2: nat,
    tw2: nat,
    th2: nat,
)
    requires
        sw1 == sw2,
        sh1 == sh2,
        tw1 == tw2,
        th1 == th2,
    ensures
        fit_width(sw1, sh1, tw1, th1) == fit_width(sw2, sh2, tw2, th2),
        fit_height(sw1, sh1, tw1, th1) == fit_height(sw2, sh2, tw2, th2),
{
}

/// A square source fitted into a square box fills the box exactly, with no
/// rounding drift.
pub proof fn lemma_square_fills_square_box(s: nat, t: nat)
    requires
        s > 0,
        t > 0,
    ensures
        fit_width(s, s, t, t) == t,
        fit_height(s, s, t, t) == t,
{
    assert(s * t == t * s) by (nonlinear_arith);
    assert(t * s / s == t) by (nonlinear_arith)
        requires
            s > 0,
    ;
}

} // verus!
