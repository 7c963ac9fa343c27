use vstd::prelude::*;
use crate::color::{Rgba, Theme, fill_color_spec, fill_map};
use crate::error::CardError;
use crate::imgops::{decoded_image, decoded_pixels, image_dims, image_pixels, img_height,
    img_width, load_image, new_canvas, overlaid_pixels, overlay_at, resize_triangle,
    resized_pixels};
use crate::layout::{BOTTOM_BORDER, SIDE_BORDER, TOP_BORDER, cover_target, cover_target_spec,
    resize_dims_spec};

verus! {

/// Whether photo bytes decode to an image the composer can work with: the
/// resize arithmetic divides by the dimensions, so both must be positive.
pub open spec fn photo_ok(bytes: Seq<u8>) -> bool {
    decoded_image(bytes) matches Some(d) && d.0 >= 1 && d.1 >= 1
}

/// The canvas dimensions a photo composes to: its resized dimensions plus
/// the fixed borders on each side.
pub open spec fn composed_dims(bytes: Seq<u8>) -> (int, int)
    recommends
        photo_ok(bytes),
{
    let d = decoded_image(bytes).unwrap();
    let c = cover_target_spec(d.0 as int, d.1 as int);
    let rd = resize_dims_spec(d.0 as int, d.1 as int, c, c);
    (rd.0 + 2 * (SIDE_BORDER as int), rd.1 + (TOP_BORDER as int) + (BOTTOM_BORDER as int))
}

/// The pixel grid the composer produces: the two-band fill, the resized
/// photo blended in at the border offset, then the stamp blended in one
/// fixed gap below the photo.
pub open spec fn composed_pixels(theme: Theme, photo: Seq<u8>, stamp: Seq<u8>) -> Map<
    (int, int),
    Rgba,
>
    recommends
        photo_ok(photo),
        decoded_image(stamp) is Some,
{
    let d = decoded_image(photo).unwrap();
    let c = cover_target_spec(d.0 as int, d.1 as int);
    let rd = resize_dims_spec(d.0 as int, d.1 as int, c, c);
    let cdims = ((rd.0 + 100) as u32, (rd.1 + 350) as u32);
    let resized = resized_pixels(decoded_pixels(photo), d, c as u32);
    let with_photo = overlaid_pixels(
        fill_map(theme, rd.0 + 100, rd.1 + 350),
        cdims,
        resized,
        (rd.0 as u32, rd.1 as u32),
        SIDE_BORDER,
        TOP_BORDER,
    );
    overlaid_pixels(
        with_photo,
        cdims,
        decoded_pixels(stamp),
        decoded_image(stamp).unwrap(),
        SIDE_BORDER,
        (180 + rd.1 + 20) as u32,
    )
}

/// Builds the card background: the photo resized to preserve its aspect
/// ratio, centered on a two-band themed fill, with the stamp image below it.
/// The canvas is the photo's resized dimensions plus the fixed borders, its
/// pixel grid is exactly the composition of the named fill, resize and blend
/// effects, and every pixel outside the photo's and the stamp's rectangles
/// still shows the background fill.
pub fn overlay_background(theme: Theme, img_buf: &[u8], stamp_buf: &[u8]) -> (r: Result<
    image::DynamicImage,
    CardError,
>)
    ensures
        r == Err::<image::DynamicImage, CardError>(CardError::BadPhoto) <==> !photo_ok(img_buf@),
        photo_ok(img_buf@) ==> (r == Err::<image::DynamicImage, CardError>(CardError::TooLarge)
            <==> (composed_dims(img_buf@).0 > u32::MAX as int || composed_dims(img_buf@).1
            > u32::MAX as int)),
        photo_ok(img_buf@) && composed_dims(img_buf@).0 <= u32::MAX as int && composed_dims(
            img_buf@,
        ).1 <= u32::MAX as int ==> (r == Err::<image::DynamicImage, CardError>(CardError::BadStamp)
            <==> decoded_image(stamp_buf@) is None),
        r is Err ==> r == Err::<image::DynamicImage, CardError>(CardError::BadPhoto) || r == Err::<
            image::DynamicImage,
            CardError,
        >(CardError::TooLarge) || r == Err::<image::DynamicImage, CardError>(CardError::BadStamp),
        r matches Ok(canvas) ==> photo_ok(img_buf@) && decoded_image(stamp_buf@) is Some
            && image_dims(canvas).0 as int == composed_dims(img_buf@).0 && image_dims(canvas).1
            as int == composed_dims(img_buf@).1,
        r matches Ok(canvas) ==> image_dims(canvas).0 >= 2 * SIDE_BORDER && image_dims(canvas).1
            >= TOP_BORDER + BOTTOM_BORDER,
        r matches Ok(canvas) ==> image_pixels(canvas) == composed_pixels(
            theme,
            img_buf@,
            stamp_buf@,
        ),
        r matches Ok(canvas) ==> ({
            let d = decoded_image(img_buf@).unwrap();
            let c = cover_target_spec(d.0 as int, d.1 as int);
            let rd = resize_dims_spec(d.0 as int, d.1 as int, c, c);
            let sd = decoded_image(stamp_buf@).unwrap();
            let ch = rd.1 + 350;
            forall|px: int, py: int|
                0 <= px < rd.0 + 100 && 0 <= py < ch && !(50 <= px < 50 + rd.0 && 180 <= py < 180
                    + rd.1) && !(50 <= px < 50 + sd.0 && 180 + rd.1 + 20 <= py < 180 + rd.1 + 20
                    + sd.1) ==> image_pixels(canvas)[(px, py)] == fill_color_spec(theme, py, ch)
        }),
{
    let photo = match load_image(img_buf) {
        None => {
            return Err(CardError::BadPhoto);
        },
        Some(p) => p,
    };
    let w = img_width(&photo);
    let h = img_height(&photo);
    if w == 0 || h == 0 {
        return Err(CardError::BadPhoto);
    }
    let cover = cover_target(w, h);
    let resized = resize_triangle(&photo, cover);
    let rw = img_width(&resized);
    let rh = img_height(&resized);
    if rw > u32::MAX - 2 * SIDE_BORDER || rh > u32::MAX - (TOP_BORDER + BOTTOM_BORDER) {
        return Err(CardError::TooLarge);
    }
    let cw = rw + 2 * SIDE_BORDER;
    let ch = rh + TOP_BORDER + BOTTOM_BORDER;
    let mut canvas = new_canvas(theme, cw, ch);
    let stamp = match load_image(stamp_buf) {
        None => {
            return Err(CardError::BadStamp);
        },
        Some(s) => s,
    };
    let ghost filled = image_pixels(canvas);
    overlay_at(&mut canvas, &resized, SIDE_BORDER, TOP_BORDER);
    let ghost with_photo = image_pixels(canvas);
    assert(TOP_BORDER + rh + 20 <= u32::MAX);
    overlay_at(&mut canvas, &stamp, SIDE_BORDER, TOP_BORDER + rh + 20);
    proof {
        let sd = image_dims(stamp);
        assert forall|px: int, py: int|
            0 <= px < cw && 0 <= py < ch && !(50 <= px < 50 + rw && 180 <= py < 180 + rh) && !(50
                <= px < 50 + sd.0 && 180 + rh + 20 <= py < 180 + rh + 20 + sd.1)
                implies image_pixels(canvas)[(px, py)] == fill_color_spec(
            theme,
            py,
            ch as int,
        ) by {
            assert(with_photo[(px, py)] == filled[(px, py)]);
            assert(image_pixels(canvas)[(px, py)] == with_photo[(px, py)]);
        }
    }
    Ok(canvas)
}

} // verus!
