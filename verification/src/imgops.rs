use vstd::prelude::*;
use crate::color::{Rgba, Theme};
use crate::color::fill_map;
use crate::color::fill_color;
use crate::layout::resize_dims_spec;

verus! {

#[verifier::external_type_specification]
#[verifier::external_body]
pub struct ExDynamicImage(image::DynamicImage);

#[verifier::external_type_specification]
#[verifier::external_body]
pub struct ExFont<'a>(rusttype::Font<'a>);

/// The width and height of a raster image.
pub uninterp spec fn image_dims(img: image::DynamicImage) -> (u32, u32);

/// The pixel grid of a raster image: the RGBA value at each coordinate
/// within its dimensions (the map's domain is exactly those coordinates).
pub uninterp spec fn image_pixels(img: image::DynamicImage) -> Map<(int, int), Rgba>;

/// What a byte buffer decodes to: the dimensions of the decoded image, or
/// nothing when the codec rejects the bytes.
pub uninterp spec fn decoded_image(bytes: Seq<u8>) -> Option<(u32, u32)>;

/// The pixel grid a byte buffer decodes to, when it decodes at all.
pub uninterp spec fn decoded_pixels(bytes: Seq<u8>) -> Map<(int, int), Rgba>;

/// Whether a byte buffer parses as a font.
pub uninterp spec fn font_ok(bytes: Seq<u8>) -> bool;

/// The data a font value was parsed from; glyph rasterization is a function
/// of this data.
pub uninterp spec fn font_data(f: rusttype::Font<'static>) -> Seq<u8>;

/// The pixel grid after resizing a grid of the given dimensions into a
/// square box with the triangle filter.
pub uninterp spec fn resized_pixels(
    p: Map<(int, int), Rgba>,
    dims: (u32, u32),
    bound: u32,
) -> Map<(int, int), Rgba>;

/// The pixel grid after alpha-blending a top grid onto a bottom grid at an
/// offset, clipped to the bottom grid's dimensions.
pub uninterp spec fn overlaid_pixels(
    bottom: Map<(int, int), Rgba>,
    bdims: (u32, u32),
    top: Map<(int, int), Rgba>,
    tdims: (u32, u32),
    x: u32,
    y: u32,
) -> Map<(int, int), Rgba>;

/// The pixel grid after rasterizing a text string onto a grid at a position,
/// in a color, at a uniform whole-pixel scale, with a font given by its data.
pub uninterp spec fn drawn_pixels(
    base: Map<(int, int), Rgba>,
    dims: (u32, u32),
    color: Rgba,
    x: u32,
    y: u32,
    scale: u32,
    font: Seq<u8>,
    text: Seq<char>,
) -> Map<(int, int), Rgba>;

/// The pixel grid after drawing a one-pixel line segment onto a grid,
/// clipped to its dimensions.
pub uninterp spec fn line_pixels(
    base: Map<(int, int), Rgba>,
    dims: (u32, u32),
    color: Rgba,
    x0: u32,
    y0: u32,
    x1: u32,
    y1: u32,
) -> Map<(int, int), Rgba>;

/// The PNG stream encoding a pixel grid of the given dimensions.
pub uninterp spec fn png_encoded(p: Map<(int, int), Rgba>, dims: (u32, u32)) -> Seq<u8>;

/// Relies on image::load_from_memory: decodes a photo in any supported
/// format; the result's dimensions and pixel grid are functions of the bytes.
#[verifier::external_body]
pub(crate) fn load_image(bytes: &[u8]) -> (r: Option<image::DynamicImage>)
    ensures
        r is Some <==> decoded_image(bytes@) is Some,
        r matches Some(img) ==> Some(image_dims(img)) == decoded_image(bytes@) && image_pixels(img)
            == decoded_pixels(bytes@),
{
    image::load_from_memory(bytes).ok()
}

/// Relies on rusttype::Font::try_from_vec: parses font data, returning None
/// exactly on invalid data; the font holds exactly the given data.
#[verifier::external_body]
pub(crate) fn font_from_bytes(bytes: &Vec<u8>) -> (r: Option<rusttype::Font<'static>>)
    ensures
        r is Some <==> font_ok(bytes@),
        r matches Some(f) ==> font_data(f) == bytes@,
{
    rusttype::Font::try_from_vec(bytes.clone())
}

/// Relies on image::GenericImageView::width.
#[verifier::external_body]
pub(crate) fn img_width(img: &image::DynamicImage) -> (r: u32)
    ensures
        r == image_dims(*img).0,
{
    image::GenericImageView::width(img)
}

/// Relies on image::GenericImageView::height.
#[verifier::external_body]
pub(crate) fn img_height(img: &image::DynamicImage) -> (r: u32)
    ensures
        r == image_dims(*img).1,
{
    image::GenericImageView::height(img)
}

/// Relies on image::GenericImageView::get_pixel, which panics out of bounds
/// and otherwise returns the pixel at the coordinate.
#[verifier::external_body]
pub(crate) fn get_pixel_rgba(img: &image::DynamicImage, x: u32, y: u32) -> (r: Rgba)
    requires
        x < image_dims(*img).0,
        y < image_dims(*img).1,
    ensures
        r == image_pixels(*img)[(x as int, y as int)],
{
    let p = image::GenericImageView::get_pixel(img, x, y);
    (p.0[0], p.0[1], p.0[2], p.0[3])
}

/// Relies on image::DynamicImage::resize with the triangle filter: fits the
/// image into a square box of the given side, preserving the aspect ratio by
/// the codec's integer arithmetic; divides by the dimensions, so zero-sized
/// inputs are excluded. The image is brought to eight-bit RGBA first, so the
/// result is a function of the RGBA pixel grid.
#[verifier::external_body]
pub(crate) fn resize_triangle(img: &image::DynamicImage, bound: u32) -> (r: image::DynamicImage)
    requires
        image_dims(*img).0 >= 1,
        image_dims(*img).1 >= 1,
    ensures
        image_dims(r).0 as int == resize_dims_spec(
            image_dims(*img).0 as int,
            image_dims(*img).1 as int,
            bound as int,
            bound as int,
        ).0,
        image_dims(r).1 as int == resize_dims_spec(
            image_dims(*img).0 as int,
            image_dims(*img).1 as int,
            bound as int,
            bound as int,
        ).1,
        image_pixels(r) == resized_pixels(image_pixels(*img), image_dims(*img), bound),
{
    let rgba = image::DynamicImage::ImageRgba8(img.to_rgba8());
    rgba.resize(bound, bound, image::imageops::FilterType::Triangle)
}

/// Relies on image::ImageBuffer::from_fn: builds a buffer of the given
/// dimensions whose pixel at (x, y) is the closure's value there; the
/// closure only calls this crate's verified row-color function.
#[verifier::external_body]
pub(crate) fn new_canvas(theme: Theme, w: u32, h: u32) -> (r: image::DynamicImage)
    ensures
        image_dims(r) == (w, h),
        image_pixels(r) == fill_map(theme, w as int, h as int),
{
    let buf = image::ImageBuffer::from_fn(
        w,
        h,
        |_x, y| {
            let c = fill_color(theme, y, h);
            image::Rgba([c.0, c.1, c.2, c.3])
        },
    );
    image::DynamicImage::ImageRgba8(buf)
}

/// Relies on image::imageops::overlay: blends the top image onto the bottom
/// one at the given offset, clipping at the bottom image's edges; it writes
/// no pixel outside the top image's rectangle and keeps the dimensions. The
/// bottom is brought to eight-bit RGBA first, so the result is a function of
/// the two RGBA pixel grids.
#[verifier::external_body]
pub(crate) fn overlay_at(bottom: &mut image::DynamicImage, top: &image::DynamicImage, x: u32, y: u32)
    ensures
        image_dims(*final(bottom)) == image_dims(*old(bottom)),
        image_pixels(*final(bottom)) == overlaid_pixels(
            image_pixels(*old(bottom)),
            image_dims(*old(bottom)),
            image_pixels(*top),
            image_dims(*top),
            x,
            y,
        ),
        forall|px: int, py: int|
            0 <= px < image_dims(*old(bottom)).0 && 0 <= py < image_dims(*old(bottom)).1 && (px < x
                || px >= x + image_dims(*top).0 || py < y || py >= y + image_dims(*top).1)
                ==> image_pixels(*final(bottom))[(px, py)] == image_pixels(*old(bottom))[(px, py)],
{
    *bottom = image::DynamicImage::ImageRgba8(bottom.to_rgba8());
    image::imageops::overlay(bottom, top, x, y)
}

/// Relies on imageproc::drawing::draw_text_mut: rasterizes glyphs onto the
/// canvas in place; the canvas keeps its dimensions. The canvas is brought
/// to eight-bit RGBA first, so the result is a function of its RGBA pixel
/// grid, the color, position, scale, font data and text.
#[verifier::external_body]
pub(crate) fn draw_text_at(
    img: &mut image::DynamicImage,
    color: Rgba,
    x: u32,
    y: u32,
    scale: u32,
    font: &rusttype::Font<'static>,
    text: &str,
)
    requires
        scale < 65536,
    ensures
        image_dims(*final(img)) == image_dims(*old(img)),
        image_pixels(*final(img)) == drawn_pixels(
            image_pixels(*old(img)),
            image_dims(*old(img)),
            color,
            x,
            y,
            scale,
            font_data(*font),
            text@,
        ),
{
    *img = image::DynamicImage::ImageRgba8(img.to_rgba8());
    let s = rusttype::Scale { x: (scale as u16).into(), y: (scale as u16).into() };
    imageproc::drawing::draw_text_mut(
        img,
        image::Rgba([color.0, color.1, color.2, color.3]),
        x,
        y,
        s,
        font,
        text,
    );
}

/// Relies on imageproc::drawing::draw_line_segment_mut: draws a one-pixel
/// line, clipped to the canvas; the canvas keeps its dimensions. The canvas
/// is brought to eight-bit RGBA first, so the result is a function of its
/// RGBA pixel grid and the segment.
#[verifier::external_body]
pub(crate) fn draw_line_at(img: &mut image::DynamicImage, color: Rgba, x0: u32, y0: u32, x1: u32, y1: u32)
    requires
        x0 < 65536,
        y0 < 65536,
        x1 < 65536,
        y1 < 65536,
    ensures
        image_dims(*final(img)) == image_dims(*old(img)),
        image_pixels(*final(img)) == line_pixels(
            image_pixels(*old(img)),
            image_dims(*old(img)),
            color,
            x0,
            y0,
            x1,
            y1,
        ),
{
    *img = image::DynamicImage::ImageRgba8(img.to_rgba8());
    imageproc::drawing::draw_line_segment_mut(
        img,
        ((x0 as u16).into(), (y0 as u16).into()),
        ((x1 as u16).into(), (y1 as u16).into()),
        image::Rgba([color.0, color.1, color.2, color.3]),
    );
}

/// Relies on image::DynamicImage::write_to with the PNG format: encodes the
/// image (brought to eight-bit RGBA first) as a PNG stream. The encoder
/// writing to a growable buffer fails only on zero dimensions, which the
/// precondition excludes; the stream starts with the eight signature bytes,
/// and decoding it gives back the same dimensions and pixel grid.
#[verifier::external_body]
pub(crate) fn encode_png(img: &image::DynamicImage) -> (r: Vec<u8>)
    requires
        image_dims(*img).0 >= 1,
        image_dims(*img).1 >= 1,
    ensures
        r@ == png_encoded(image_pixels(*img), image_dims(*img)),
        r@.len() >= 8,
        decoded_image(r@) == Some(image_dims(*img)),
        decoded_pixels(r@) == image_pixels(*img),
{
    let rgba = image::DynamicImage::ImageRgba8(img.to_rgba8());
    let mut buf: Vec<u8> = Vec::new();
    rgba.write_to(&mut buf, image::ImageOutputFormat::Png).unwrap();
    buf
}

} // verus!
