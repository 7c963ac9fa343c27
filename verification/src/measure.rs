use vstd::prelude::*;
use crate::color::Rgba;
use crate::error::CardError;
use crate::imgops::{decoded_image, decoded_pixels, draw_text_at, drawn_pixels, font_data,
    get_pixel_rgba, image_dims, image_pixels, img_height, img_width, load_image};

verus! {

/// A pixel counts as ink when it differs from the blank backdrop's opaque
/// white; the measurement backdrop is blank, so only drawn glyphs are ink.
pub open spec fn is_ink(p: Rgba) -> bool {
    p != (255u8, 255u8, 255u8, 255u8)
}

/// Whether column `x` of a pixel grid of height `h` holds any ink pixel.
pub open spec fn col_ink_at(p: Map<(int, int), Rgba>, h: int, x: int) -> bool {
    exists|y: int| 0 <= y < h && is_ink(#[trigger] p[(x, y)])
}

/// Whether column `x` of the image holds any ink pixel.
pub open spec fn col_ink(img: image::DynamicImage, x: int) -> bool {
    col_ink_at(image_pixels(img), image_dims(img).1 as int, x)
}

/// The leftmost ink column at or right of `x`, or `w` when there is none.
pub open spec fn min_ink_col(p: Map<(int, int), Rgba>, h: int, x: int, w: int) -> int
    decreases w - x,
{
    if x >= w {
        w
    } else if col_ink_at(p, h, x) {
        x
    } else {
        min_ink_col(p, h, x + 1, w)
    }
}

/// The rightmost ink column at or left of `x`, or -1 when there is none.
pub open spec fn max_ink_col(p: Map<(int, int), Rgba>, h: int, x: int) -> int
    decreases x + 1,
{
    if x < 0 {
        -1
    } else if col_ink_at(p, h, x) {
        x
    } else {
        max_ink_col(p, h, x - 1)
    }
}

/// The measured width of a pixel grid: the horizontal extent of the smallest
/// box containing all ink, and zero on an all-background grid.
pub open spec fn measured_width_spec(p: Map<(int, int), Rgba>, w: int, h: int) -> int {
    let lo = min_ink_col(p, h, 0, w);
    if lo >= w {
        0
    } else {
        max_ink_col(p, h, w - 1) - lo
    }
}

/// The width the oracle measures for `text` at `scale`: the ink extent of
/// the text rendered in black at the origin of the decoded backdrop.
pub open spec fn measure_spec(backdrop: Seq<u8>, font: Seq<u8>, text: Seq<char>, scale: u32) -> int
    recommends
        decoded_image(backdrop) is Some,
{
    let d = decoded_image(backdrop).unwrap();
    measured_width_spec(
        drawn_pixels(decoded_pixels(backdrop), d, (0u8, 0u8, 0u8, 255u8), 0, 0, scale, font, text),
        d.0 as int,
        d.1 as int,
    )
}

proof fn lemma_min_scan(p: Map<(int, int), Rgba>, h: int, x: int, w: int, lo: int)
    requires
        0 <= x <= lo < w,
        col_ink_at(p, h, lo),
        forall|j: int| x <= j < lo ==> !col_ink_at(p, h, j),
    ensures
        min_ink_col(p, h, x, w) == lo,
    decreases lo - x,
{
    if x < lo {
        lemma_min_scan(p, h, x + 1, w, lo);
    }
}

proof fn lemma_min_scan_empty(p: Map<(int, int), Rgba>, h: int, x: int, w: int)
    requires
        0 <= x <= w,
        forall|j: int| x <= j < w ==> !col_ink_at(p, h, j),
    ensures
        min_ink_col(p, h, x, w) == w,
    decreases w - x,
{
    if x < w {
        lemma_min_scan_empty(p, h, x + 1, w);
    }
}

proof fn lemma_max_scan(p: Map<(int, int), Rgba>, h: int, x: int, hi: int)
    requires
        0 <= hi <= x,
        col_ink_at(p, h, hi),
        forall|j: int| hi < j <= x ==> !col_ink_at(p, h, j),
    ensures
        max_ink_col(p, h, x) == hi,
    decreases x - hi,
{
    if hi < x {
        lemma_max_scan(p, h, x - 1, hi);
    }
}

/// Scans one column for ink.
fn col_has_ink(img: &image::DynamicImage, x: u32) -> (r: bool)
    requires
        x < image_dims(*img).0,
    ensures
        r == col_ink(*img, x as int),
{
    let h = img_height(img);
    let mut y: u32 = 0;
    while y < h
        invariant
            y <= h,
            h == image_dims(*img).1,
            x < image_dims(*img).0,
            forall|j: int| 0 <= j < y ==> !is_ink(#[trigger] image_pixels(*img)[(x as int, j)]),
        decreases h - y,
    {
        let p = get_pixel_rgba(img, x, y);
        if !(p.0 == 255 && p.1 == 255 && p.2 == 255 && p.3 == 255) {
            assert(is_ink(image_pixels(*img)[(x as int, y as int)]));
            return true;
        }
        y = y + 1;
    }
    false
}

/// Finds the leftmost and rightmost columns that hold ink: the horizontal
/// extent of the smallest axis-aligned box containing all non-background
/// pixels, or nothing on an all-background image.
pub fn find_ink_bounds(img: &image::DynamicImage) -> (r: Option<(u32, u32)>)
    ensures
        r is None <==> (forall|x: int| 0 <= x < image_dims(*img).0 ==> !col_ink(*img, x)),
        r matches Some((lo, hi)) ==> lo <= hi < image_dims(*img).0 && col_ink(*img, lo as int)
            && col_ink(*img, hi as int) && (forall|x: int|
            0 <= x < image_dims(*img).0 && col_ink(*img, x) ==> lo <= x <= hi),
{
    let w = img_width(img);
    let mut lo: u32 = 0;
    let mut found = false;
    while lo < w && !found
        invariant
            lo <= w,
            w == image_dims(*img).0,
            found ==> lo < w && col_ink(*img, lo as int),
            forall|x: int| 0 <= x < lo ==> !col_ink(*img, x),
        decreases w - lo + (if found {
            0int
        } else {
            1int
        }),
    {
        if col_has_ink(img, lo) {
            found = true;
        } else {
            lo = lo + 1;
        }
    }
    if !found {
        return None;
    }
    let mut hi: u32 = w - 1;
    while hi > lo && !col_has_ink(img, hi)
        invariant
            lo <= hi < w,
            w == image_dims(*img).0,
            col_ink(*img, lo as int),
            forall|x: int| hi < x < w ==> !col_ink(*img, x),
        decreases hi,
    {
        hi = hi - 1;
    }
    Some((lo, hi))
}

/// Measures the rendered pixel width of `text` at the given scale: draws it
/// at the origin of a fresh copy of the blank backdrop and takes the width
/// of the resulting ink bounding box. Fails exactly when the backdrop asset
/// does not decode; the measured width is a function of the backdrop, the
/// font data, the text and the scale alone.
pub fn write_to_crop(backdrop: &[u8], font: &rusttype::Font<'static>, text: &str, scale: u32) -> (r:
    Result<u32, CardError>)
    requires
        scale < 65536,
    ensures
        r is Err <==> decoded_image(backdrop@) is None,
        r is Err ==> r == Err::<u32, CardError>(CardError::BadBackdrop),
        r matches Ok(wd) ==> decoded_image(backdrop@) matches Some(d) && wd <= d.0 && wd as int
            == measure_spec(backdrop@, font_data(*font), text@, scale),
{
    let img = load_image(backdrop);
    match img {
        None => Err(CardError::BadBackdrop),
        Some(mut canvas) => {
            let w = img_width(&canvas);
            let h = img_height(&canvas);
            draw_text_at(&mut canvas, (0, 0, 0, 255), 0, 0, scale, font, text);
            let ghost p = image_pixels(canvas);
            match find_ink_bounds(&canvas) {
                Some((lo, hi)) => {
                    proof {
                        assert forall|j: int| 0 <= j < lo implies !col_ink_at(p, h as int, j) by {
                            assert(!col_ink(canvas, j));
                        }
                        lemma_min_scan(p, h as int, 0, w as int, lo as int);
                        assert forall|j: int| hi < j <= w - 1 implies !col_ink_at(
                            p,
                            h as int,
                            j,
                        ) by {
                            assert(!col_ink(canvas, j));
                        }
                        lemma_max_scan(p, h as int, w - 1, hi as int);
                    }
                    Ok(hi - lo)
                },
                None => {
                    proof {
                        assert forall|j: int| 0 <= j < w implies !col_ink_at(p, h as int, j) by {
                            assert(!col_ink(canvas, j));
                        }
                        lemma_min_scan_empty(p, h as int, 0, w as int);
                    }
                    Ok(0)
                },
            }
        },
    }
}

} // verus!
