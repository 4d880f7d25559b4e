//! Rectangle and coordinate values of the toolkit's graphics layer, and the
//! pure rectangle computations the wrapper and the viewer build on.

use vstd::prelude::*;

verus! {

/// A point in the toolkit's integer pixel coordinates.
#[derive(Debug, Clone, Copy, PartialEq, Eq, Structural)]
pub struct GfxCoord2 {
    pub x: i32,
    pub y: i32,
}

/// A rectangle spanning from `p0` (inclusive) towards `p1` (exclusive), as the
/// toolkit's rectangle type does.
#[derive(Debug, Clone, Copy, PartialEq, Eq, Structural)]
pub struct GfxRect {
    pub p0: GfxCoord2,
    pub p1: GfxCoord2,
}

/// The rectangle `{(0,0), (w,h)}`.
pub open spec fn origin_rect(w: u32, h: u32) -> GfxRect {
    GfxRect {
        p0: GfxCoord2 { x: 0, y: 0 },
        p1: GfxCoord2 { x: w as i32, y: h as i32 },
    }
}

/// Builds the rectangle spanning `{(0,0), (w,h)}`.
pub fn new_gfx_rect(w: u32, h: u32) -> (r: GfxRect)
    requires
        w <= i32::MAX,
        h <= i32::MAX,
    ensures
        r == origin_rect(w, h),
{
    GfxRect {
        p0: GfxCoord2 { x: 0, y: 0 },
        p1: GfxCoord2 { x: w as i32, y: h as i32 },
    }
}

/// Reverse-translates `rect` by `offset`: both corners move by `(-offset.x,
/// -offset.y)`. This mirrors the toolkit's reverse rectangle translation
/// entry point, whose whole behaviour is this subtraction.
pub fn gfx_rect_rtranslate(offset: GfxCoord2, rect: GfxRect) -> (r: GfxRect)
    requires
        i32::MIN <= rect.p0.x - offset.x <= i32::MAX,
        i32::MIN <= rect.p0.y - offset.y <= i32::MAX,
        i32::MIN <= rect.p1.x - offset.x <= i32::MAX,
        i32::MIN <= rect.p1.y - offset.y <= i32::MAX,
    ensures
        r.p0.x == rect.p0.x - offset.x,
        r.p0.y == rect.p0.y - offset.y,
        r.p1.x == rect.p1.x - offset.x,
        r.p1.y == rect.p1.y - offset.y,
{
    GfxRect {
        p0: GfxCoord2 { x: rect.p0.x - offset.x, y: rect.p0.y - offset.y },
        p1: GfxCoord2 { x: rect.p1.x - offset.x, y: rect.p1.y - offset.y },
    }
}

/// Centers a `w` by `h` box inside `outer`: the result is the `w` by `h`
/// rectangle whose top-left corner sits half of the spare room away from
/// `outer.p0`, rounding the margins down.
pub fn center_rect(outer: GfxRect, w: u32, h: u32) -> (r: GfxRect)
    requires
        0 <= outer.p1.x - outer.p0.x <= i32::MAX,
        0 <= outer.p1.y - outer.p0.y <= i32::MAX,
        w <= outer.p1.x - outer.p0.x,
        h <= outer.p1.y - outer.p0.y,
    ensures
        r.p0.x == outer.p0.x + (outer.p1.x - outer.p0.x - w) / 2,
        r.p0.y == outer.p0.y + (outer.p1.y - outer.p0.y - h) / 2,
        r.p1.x == r.p0.x + w,
        r.p1.y == r.p0.y + h,
{
    let width: i32 = outer.p1.x - outer.p0.x;
    let height: i32 = outer.p1.y - outer.p0.y;
    let horizontal_diff: i32 = width - w as i32;
    let vertical_diff: i32 = height - h as i32;
    let left_margin: i32 = horizontal_diff / 2;
    let top_margin: i32 = vertical_diff / 2;
    let mut rect = outer;
    rect.p0.x = rect.p0.x + left_margin;
    rect.p0.y = rect.p0.y + top_margin;
    rect.p1.x = rect.p1.x - (horizontal_diff - left_margin);
    rect.p1.y = rect.p1.y - (vertical_diff - top_margin);
    rect
}

/// When scaling a `w` by `h` box to the full target width `a` overshoots the
/// target height `b`, scaling it to the full target height stays within the
/// target width.
proof fn lemma_flipped_scale_fits(a: int, b: int, w: int, h: int)
    requires
        a > 0,
        b > 0,
        w > 0,
        h > 0,
        a * h / w > b,
    ensures
        b * w / h < a,
{
    assert(a * h >= (b + 1) * w) by {
        vstd::arithmetic::div_mod::lemma_fundamental_div_mod(a * h, w);
        assert(w * (a * h / w) >= w * (b + 1)) by (nonlinear_arith)
            requires
                w > 0,
                a * h / w >= b + 1,
        ;
    }
    assert(b * w <= a * h - w) by (nonlinear_arith)
        requires
            a * h >= (b + 1) * w,
    ;
    assert(b * w <= h * (a - 1) + (h - 1)) by (nonlinear_arith)
        requires
            b * w <= a * h - w,
            h > 0,
            w > 0,
    ;
    assert((h * (a - 1) + (h - 1)) / h == a - 1) by {
        vstd::arithmetic::div_mod::lemma_div_multiples_vanish_fancy(a - 1, h - 1, h);
    }
    assert(b * w / h <= a - 1) by {
        vstd::arithmetic::div_mod::lemma_div_is_ordered(b * w, h * (a - 1) + (h - 1), h);
    }
}

/// Shrinks a `w` by `h` box so it fits inside `max_w` by `max_h` while keeping
/// its aspect ratio: a box that already fits is returned unchanged; otherwise
/// the result is the largest box of the same ratio (rounding down) that fits.
pub fn fit_within(w: u32, h: u32, max_w: u32, max_h: u32) -> (r: (u32, u32))
    requires
        w > 0,
        h > 0,
        max_w > 0,
        max_h > 0,
        max_w * h <= u32::MAX,
        max_h * w <= u32::MAX,
    ensures
        w <= max_w && h <= max_h ==> r == (w, h),
        !(w <= max_w && h <= max_h) ==> r == ({
            if max_w * h / (w as int) <= max_h {
                (max_w, (max_w * h / (w as int)) as u32)
            } else {
                ((max_h * w / (h as int)) as u32, max_h)
            }
        }) && r.0 <= max_w && r.1 <= max_h,
{
    if w <= max_w && h <= max_h {
        (w, h)
    } else {
        let scaled_h = (max_w * h) / w;
        if scaled_h <= max_h {
            (max_w, scaled_h)
        } else {
            proof {
                lemma_flipped_scale_fits(max_w as int, max_h as int, w as int, h as int);
            }
            ((max_h * w) / h, max_h)
        }
    }
}

} // verus!
