use vstd::prelude::*;

verus! {

/// The photo is resized to fit a square of this side length (scaled up for
/// tall photos so the shorter dimension still lands near this bound).
pub const COVER_IMG_DIM: u32 = 600;

/// Left and right border width of the canvas around the photo.
pub const SIDE_BORDER: u32 = 50;

/// Top border height of the canvas.
pub const TOP_BORDER: u32 = 180;

/// Bottom border height of the canvas.
pub const BOTTOM_BORDER: u32 = 170;

/// Font scale of the recipient name before any shrinking.
pub const TOP_SCALE: u32 = 80;

/// Font scale of each greeting line.
pub const GREETING_SCALE: u32 = 40;

/// Font scale of the signature line.
pub const SIGN_SCALE: u32 = 30;

/// Vertical distance between consecutive greeting lines, and between the
/// last greeting line and the signature.
pub const LINE_SPACING: u32 = 40;

/// The dimensions an image of size `(w, h)` is resized to when asked to fit
/// within a `(bw, bh)` box with the aspect ratio preserved. This mirrors the
/// image codec's own integer arithmetic: the axis that would overflow the box
/// is pinned to its bound and the other axis is scaled by the same ratio,
/// rounded down, floored at 1, and capped at `u32::MAX`.
pub open spec fn resize_dims_spec(w: int, h: int, bw: int, bh: int) -> (int, int)
    recommends
        1 <= w,
        1 <= h,
{
    let ratio = w * bh;
    let nratio = bw * h;
    if nratio <= ratio {
        let inter = max_int(1, h * bw / w);
        if inter <= u32::MAX as int {
            (bw, inter)
        } else {
            (bw * (u32::MAX as int) / inter, u32::MAX as int)
        }
    } else {
        let inter = max_int(1, w * bh / h);
        if inter <= u32::MAX as int {
            (inter, bh)
        } else {
            (u32::MAX as int, bh * (u32::MAX as int) / inter)
        }
    }
}

pub open spec fn max_int(a: int, b: int) -> int {
    if a >= b {
        a
    } else {
        b
    }
}

pub open spec fn min_int(a: int, b: int) -> int {
    if a <= b {
        a
    } else {
        b
    }
}

/// The square bound the photo is resized into: the fixed dimension, scaled up
/// by the photo's height/width ratio when the photo is taller than wide, so
/// the width still resizes to (approximately) the fixed dimension.
pub open spec fn cover_target_spec(w: int, h: int) -> int
    recommends
        1 <= w,
{
    if h > w {
        min_int(h * (COVER_IMG_DIM as int) / w, u32::MAX as int)
    } else {
        COVER_IMG_DIM as int
    }
}

/// Computes the square resize bound for a photo of `w` by `h` pixels.
pub fn cover_target(w: u32, h: u32) -> (r: u32)
    requires
        1 <= w,
    ensures
        r as int == cover_target_spec(w as int, h as int),
{
    if h > w {
        assert((h as int) * (COVER_IMG_DIM as int) <= 0xFFFF_FFFF * 600) by (nonlinear_arith)
            requires
                h as int <= 0xFFFF_FFFF,
        ;
        let scaled: u64 = (h as u64) * (COVER_IMG_DIM as u64) / (w as u64);
        if scaled > u32::MAX as u64 {
            u32::MAX
        } else {
            scaled as u32
        }
    } else {
        COVER_IMG_DIM
    }
}

/// How the recipient name is drawn: its font scale, the width reserved for
/// its underline, and the amount the underline is pulled up when the scale
/// was shrunk.
pub struct RecipientFit {
    /// The font scale, in whole pixels.
    pub scale: u32,
    /// The width the drawn name is allotted, clamped to `COVER_IMG_DIM`.
    pub width: u32,
    /// The underline's upward offset, zero when no shrinking happened.
    pub reduced: u32,
}

/// Shrinks the recipient block so it never overflows the card width: a name
/// measured wider than `COVER_IMG_DIM` has its scale multiplied by
/// `COVER_IMG_DIM / width` (floored to whole pixels) and its allotted width
/// clamped; the underline is pulled up by `70 * (1 - COVER_IMG_DIM / width)`,
/// rounded down.
pub fn recipient_fit(width: u32) -> (r: RecipientFit)
    ensures
        width > COVER_IMG_DIM ==> r.scale as int == (TOP_SCALE * COVER_IMG_DIM) as int / (width
            as int) && r.width == COVER_IMG_DIM && r.reduced as int == 70 * (width - COVER_IMG_DIM)
            / (width as int),
        width <= COVER_IMG_DIM ==> r.scale == TOP_SCALE && r.width == width && r.reduced == 0,
        r.width <= COVER_IMG_DIM,
        r.scale <= TOP_SCALE,
        r.reduced < 70,
{
    if width > COVER_IMG_DIM {
        let q: u32 = (TOP_SCALE * COVER_IMG_DIM) / width;
        assert(q < TOP_SCALE) by {
            assert((48000int) / (width as int) < 80) by (nonlinear_arith)
                requires
                    width as int > 600,
            ;
        }
        let over: u64 = (width - COVER_IMG_DIM) as u64;
        let reduced64: u64 = 70u64 * over / (width as u64);
        assert(reduced64 < 70) by {
            assert(70 * (over as int) < 70 * (width as int)) by (nonlinear_arith)
                requires
                    (over as int) < (width as int),
            ;
            assert(70 * (over as int) / (width as int) < 70) by (nonlinear_arith)
                requires
                    70 * (over as int) < 70 * (width as int),
                    width as int > 0,
            ;
        }
        RecipientFit { scale: q, width: COVER_IMG_DIM, reduced: reduced64 as u32 }
    } else {
        RecipientFit { scale: TOP_SCALE, width, reduced: 0 }
    }
}

/// The vertical position of greeting line `i` on a canvas of height `h`:
/// a fixed offset above the bottom border, then one spacing step per line,
/// saturating at the largest pixel coordinate.
pub open spec fn greeting_y_spec(i: int, h: int) -> int {
    min_int(h - (BOTTOM_BORDER as int) + 10 + i * (LINE_SPACING as int), u32::MAX as int)
}

/// The vertical position of the signature on a canvas of height `h` when
/// `count` greeting lines were drawn: a fixed base offset below the greeting
/// block plus one spacing step per drawn line.
pub open spec fn signature_y_spec(count: int, h: int) -> int {
    min_int(h - (BOTTOM_BORDER as int) + 30 + count * (LINE_SPACING as int), u32::MAX as int)
}

pub fn greeting_y(i: usize, h: u32) -> (r: u32)
    requires
        h >= BOTTOM_BORDER,
    ensures
        r as int == greeting_y_spec(i as int, h as int),
{
    let base: u64 = (h - BOTTOM_BORDER) as u64 + 10;
    if i as u64 >= 0x1_0000_0000u64 {
        assert((i as int) * (LINE_SPACING as int) >= 0x1_0000_0000 * 40) by (nonlinear_arith)
            requires
                i as int >= 0x1_0000_0000,
        ;
        u32::MAX
    } else {
        let y: u64 = base + (i as u64) * (LINE_SPACING as u64);
        if y > u32::MAX as u64 {
            u32::MAX
        } else {
            y as u32
        }
    }
}

pub fn signature_y(count: usize, h: u32) -> (r: u32)
    requires
        h >= BOTTOM_BORDER,
    ensures
        r as int == signature_y_spec(count as int, h as int),
{
    let base: u64 = (h - BOTTOM_BORDER) as u64 + 30;
    if count as u64 >= 0x1_0000_0000u64 {
        assert((count as int) * (LINE_SPACING as int) >= 0x1_0000_0000 * 40) by (nonlinear_arith)
            requires
                count as int >= 0x1_0000_0000,
        ;
        u32::MAX
    } else {
        let y: u64 = base + (count as u64) * (LINE_SPACING as u64);
        if y > u32::MAX as u64 {
            u32::MAX
        } else {
            y as u32
        }
    }
}

/// Where a right-anchored block of width `tw` starts on a canvas of width
/// `cw`: one side border in from the right edge, pinned to the left edge
/// when the block is too wide to fit.
pub open spec fn anchor_spec(cw: int, tw: int) -> int {
    if tw + (SIDE_BORDER as int) <= cw {
        cw - (SIDE_BORDER as int) - tw
    } else {
        0
    }
}

/// Right-anchors a block of width `tw` on a canvas of width `cw`: the block
/// starts one side border in from the right edge, and is pinned to the left
/// edge when it is too wide to fit.
pub fn anchor_x(cw: u32, tw: u32) -> (r: u32)
    ensures
        r as int == anchor_spec(cw as int, tw as int),
{
    if tw <= cw && SIDE_BORDER <= cw - tw {
        cw - SIDE_BORDER - tw
    } else {
        0
    }
}

/// Consecutive greeting lines sit at strictly increasing heights, exactly one
/// spacing step apart, as long as the lower line stays on the coordinate grid.
pub proof fn lemma_greeting_line_spacing(i: int, h: int)
    requires
        0 <= i,
        BOTTOM_BORDER <= h,
        h - (BOTTOM_BORDER as int) + 10 + (i + 1) * (LINE_SPACING as int) <= u32::MAX as int,
    ensures
        greeting_y_spec(i + 1, h) - greeting_y_spec(i, h) == LINE_SPACING as int,
        greeting_y_spec(i + 1, h) > greeting_y_spec(i, h),
{
    assert((i + 1) * (LINE_SPACING as int) == i * (LINE_SPACING as int) + (LINE_SPACING as int))
        by (nonlinear_arith);
    assert(i * (LINE_SPACING as int) >= 0) by (nonlinear_arith)
        requires
            0 <= i,
    ;
}

/// The signature sits exactly one base offset of 20 below where a further
/// greeting line would sit: its height is the greeting block's line count
/// times the spacing plus the fixed base offset.
pub proof fn lemma_signature_offset(count: int, h: int)
    requires
        0 <= count,
        BOTTOM_BORDER <= h,
        h - (BOTTOM_BORDER as int) + 30 + count * (LINE_SPACING as int) <= u32::MAX as int,
    ensures
        signature_y_spec(count, h) == h - (BOTTOM_BORDER as int) + 30 + count * (LINE_SPACING
            as int),
{
}

/// A photo at least as wide as tall is resized to exactly the fixed square
/// bound in width; a square photo lands on the bound in both dimensions.
pub proof fn lemma_resize_wide(w: int, h: int)
    requires
        1 <= h <= w,
    ensures
        resize_dims_spec(w, h, COVER_IMG_DIM as int, COVER_IMG_DIM as int).0 == COVER_IMG_DIM
            as int,
        resize_dims_spec(w, h, COVER_IMG_DIM as int, COVER_IMG_DIM as int).1 <= COVER_IMG_DIM
            as int,
        w == h ==> resize_dims_spec(w, h, COVER_IMG_DIM as int, COVER_IMG_DIM as int).1
            == COVER_IMG_DIM as int,
{
    let d = COVER_IMG_DIM as int;
    assert(d * h <= w * d) by (nonlinear_arith)
        requires
            h <= w,
            d >= 0,
    ;
    let inter = h * d / w;
    assert(h * d <= w * d) by (nonlinear_arith)
        requires
            h <= w,
            d >= 0,
    ;
    assert(w * d == d * w) by (nonlinear_arith);
    assert(h * d / w <= d) by {
        vstd::arithmetic::div_mod::lemma_div_is_ordered(h * d, d * w, w);
        vstd::arithmetic::div_mod::lemma_div_by_multiple(d, w);
    }
    if w == h {
        assert(h * d / w == d) by {
            assert(h * d == d * w) by (nonlinear_arith)
                requires
                    w == h,
            ;
            vstd::arithmetic::div_mod::lemma_div_by_multiple(d, w);
        }
    }
}

/// A photo taller than wide keeps its aspect ratio through the resize within
/// integer rounding: with resized dimensions `(rw, rh)`, the cross products
/// `rw * h` and `rh * w` differ by less than one original row's worth.
pub proof fn lemma_resize_tall_aspect(w: int, h: int)
    requires
        1 <= w < h,
    ensures
        ({
            let c = cover_target_spec(w, h);
            let rd = resize_dims_spec(w, h, c, c);
            rd.1 == c && rd.0 * h <= w * c + h && w * c <= rd.0 * h + h
        }),
{
    let d = COVER_IMG_DIM as int;
    let c = cover_target_spec(w, h);
    assert(c >= d) by {
        if h * d / w <= u32::MAX as int {
            assert(h * d >= w * d) by (nonlinear_arith)
                requires
                    w <= h,
                    d >= 0,
            ;
            assert(h * d / w >= d) by {
                vstd::arithmetic::div_mod::lemma_div_is_ordered(w * d, h * d, w);
                assert(w * d == d * w) by (nonlinear_arith);
                vstd::arithmetic::div_mod::lemma_div_by_multiple(d, w);
            }
        }
    }
    // The tall case takes the second branch of the resize arithmetic.
    assert(c * h > w * c) by (nonlinear_arith)
        requires
            w < h,
            c > 0,
    ;
    let inter0 = w * c / h;
    assert(w * c < h * c) by (nonlinear_arith)
        requires
            w < h,
            c > 0,
    ;
    assert(inter0 <= c) by {
        vstd::arithmetic::div_mod::lemma_div_is_ordered(w * c, h * c, h);
        assert(h * c == c * h) by (nonlinear_arith);
        vstd::arithmetic::div_mod::lemma_div_by_multiple(c, h);
    }
    let inter = max_int(1, inter0);
    assert(inter <= u32::MAX as int);
    let rd = resize_dims_spec(w, h, c, c);
    assert(rd == (inter, c));
    // Division rounding: inter0 * h <= w * c < (inter0 + 1) * h.
    vstd::arithmetic::div_mod::lemma_fundamental_div_mod(w * c, h);
    vstd::arithmetic::div_mod::lemma_mod_bound(w * c, h);
    assert(w * c == h * inter0 + (w * c) % h);
    assert(inter0 * h <= w * c) by (nonlinear_arith)
        requires
            w * c == h * inter0 + (w * c) % h,
            (w * c) % h >= 0,
    ;
    assert(w * c <= inter0 * h + h) by (nonlinear_arith)
        requires
            w * c == h * inter0 + (w * c) % h,
            (w * c) % h < h,
    ;
    if inter0 < 1 {
        assert(inter == 1);
        assert(w * c < h) by (nonlinear_arith)
            requires
                w * c == h * inter0 + (w * c) % h,
                inter0 <= 0,
                (w * c) % h < h,
                h > 0,
        ;
        assert(w * c >= 0) by (nonlinear_arith)
            requires
                w >= 0,
                c >= 0,
        ;
        assert(rd.0 == 1);
        assert(rd.0 * h == h) by (nonlinear_arith)
            requires
                rd.0 == 1,
        ;
        assert(rd.0 * h <= w * c + h);
        assert(w * c <= rd.0 * h + h);
    } else {
        assert(rd.0 == inter0);
        assert(rd.0 * h == inter0 * h);
        assert(rd.0 * h <= w * c + h);
        assert(w * c <= rd.0 * h + h);
    }
}

} // verus!
