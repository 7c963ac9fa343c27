use greeting_card::card::Assets;
use greeting_card::color::Theme;
use greeting_card::compose::overlay_background;
use greeting_card::error::CardError;
use greeting_card::card::process_body;
use greeting_card::measure::find_ink_bounds;
use image::GenericImageView;

fn png_bytes(w: u32, h: u32, pixel: [u8; 4]) -> Vec<u8> {
    let buf = image::ImageBuffer::from_pixel(w, h, image::Rgba(pixel));
    let img = image::DynamicImage::ImageRgba8(buf);
    let mut out: Vec<u8> = Vec::new();
    img.write_to(&mut out, image::ImageOutputFormat::Png).unwrap();
    out
}

fn junk_assets() -> Assets {
    Assets { font: vec![1, 2, 3], backdrop: vec![4, 5, 6], stamp: vec![7, 8, 9] }
}

#[test]
fn compose_wide_photo_dimensions() {
    // A 10 by 8 photo resizes to 600 by 480; the canvas adds the borders.
    let photo = png_bytes(10, 8, [10, 20, 30, 255]);
    let stamp = png_bytes(4, 4, [0, 0, 0, 255]);
    let canvas = overlay_background(Theme::First, &photo, &stamp).unwrap();
    assert_eq!(canvas.width(), 600 + 2 * 50);
    assert_eq!(canvas.height(), 480 + 180 + 170);
}

#[test]
fn compose_square_photo_hits_bound_exactly() {
    // A square photo lands exactly on the 600-pixel bound in both axes.
    let photo = png_bytes(16, 16, [10, 20, 30, 255]);
    let stamp = png_bytes(4, 4, [0, 0, 0, 255]);
    let canvas = overlay_background(Theme::Second, &photo, &stamp).unwrap();
    assert_eq!(canvas.width(), 700);
    assert_eq!(canvas.height(), 950);
}

#[test]
fn compose_tall_photo_keeps_aspect_ratio() {
    // An 8 by 16 photo scales the bound to 1200 and resizes to 600 by 1200,
    // the same 1:2 ratio as the original.
    let photo = png_bytes(8, 16, [10, 20, 30, 255]);
    let stamp = png_bytes(4, 4, [0, 0, 0, 255]);
    let canvas = overlay_background(Theme::First, &photo, &stamp).unwrap();
    let rw = canvas.width() - 100;
    let rh = canvas.height() - 350;
    assert_eq!((rw, rh), (600, 1200));
    assert_eq!(rw * 16, rh * 8);
}

#[test]
fn compose_border_pixels_show_theme_fill() {
    // Pixels outside the photo and stamp rectangles show the top background
    // color above the canvas midline and the bottom background color below
    // it: the left strip, the right strip, the top band and the bottom band.
    let photo = png_bytes(16, 16, [10, 20, 30, 255]);
    let stamp = png_bytes(4, 4, [0, 0, 0, 255]);
    let canvas = overlay_background(Theme::First, &photo, &stamp).unwrap();
    assert_eq!(canvas.get_pixel(0, 0).0, [150, 77, 75, 255]);
    assert_eq!(canvas.get_pixel(20, 100).0, [150, 77, 75, 255]);
    assert_eq!(canvas.get_pixel(699, 300).0, [150, 77, 75, 255]);
    assert_eq!(canvas.get_pixel(60, 940).0, [175, 113, 113, 255]);
    assert_eq!(canvas.get_pixel(0, 949).0, [175, 113, 113, 255]);
    let canvas2 = overlay_background(Theme::Second, &photo, &stamp).unwrap();
    assert_eq!(canvas2.get_pixel(0, 0).0, [249, 239, 215, 255]);
    assert_eq!(canvas2.get_pixel(699, 948).0, [255, 250, 237, 255]);
    assert_eq!(canvas2.get_pixel(0, 949).0, [255, 250, 237, 255]);
}

#[test]
fn compose_places_photo_inside_borders() {
    // The photo's flat color shows up at the photo's top-left corner.
    let photo = png_bytes(16, 16, [10, 20, 30, 255]);
    let stamp = png_bytes(4, 4, [200, 100, 50, 255]);
    let canvas = overlay_background(Theme::First, &photo, &stamp).unwrap();
    assert_eq!(canvas.get_pixel(50, 180).0, [10, 20, 30, 255]);
    // The stamp sits 20 below the photo.
    assert_eq!(canvas.get_pixel(50, 180 + 600 + 20).0, [200, 100, 50, 255]);
}

#[test]
fn compose_rejects_bad_photo_bytes() {
    let stamp = png_bytes(4, 4, [0, 0, 0, 255]);
    let r = overlay_background(Theme::First, &[1, 2, 3, 4], &stamp);
    assert_eq!(r.err(), Some(CardError::BadPhoto));
}

#[test]
fn compose_rejects_bad_stamp_bytes() {
    let photo = png_bytes(16, 16, [10, 20, 30, 255]);
    let r = overlay_background(Theme::First, &photo, &[9, 9, 9]);
    assert_eq!(r.err(), Some(CardError::BadStamp));
}

#[test]
fn ink_bounds_of_blank_image_is_none() {
    let buf = image::ImageBuffer::from_pixel(5, 3, image::Rgba([255, 255, 255, 255]));
    let img = image::DynamicImage::ImageRgba8(buf);
    assert_eq!(find_ink_bounds(&img), None);
}

#[test]
fn ink_bounds_span_leftmost_to_rightmost_ink() {
    let mut buf = image::ImageBuffer::from_pixel(5, 3, image::Rgba([255, 255, 255, 255]));
    buf.put_pixel(1, 2, image::Rgba([0, 0, 0, 255]));
    buf.put_pixel(3, 0, image::Rgba([0, 0, 0, 255]));
    let img = image::DynamicImage::ImageRgba8(buf);
    assert_eq!(find_ink_bounds(&img), Some((1, 3)));
}

#[test]
fn ink_bounds_single_column() {
    let mut buf = image::ImageBuffer::from_pixel(5, 3, image::Rgba([255, 255, 255, 255]));
    buf.put_pixel(2, 1, image::Rgba([9, 9, 9, 255]));
    let img = image::DynamicImage::ImageRgba8(buf);
    assert_eq!(find_ink_bounds(&img), Some((2, 2)));
}

#[test]
fn body_with_too_few_fields_fails() {
    // The malformed body scenario: two fields instead of five.
    let r = process_body("0,Alice", &junk_assets());
    assert_eq!(r.err(), Some(CardError::TooFewFields));
}

#[test]
fn body_with_out_of_range_theme_fails() {
    // Theme 2 is out of range and fails before anything is rendered.
    let r = process_body("2,Alice,Happy Birthday,Bob,QUJD", &junk_assets());
    assert_eq!(r.err(), Some(CardError::BadTheme));
}

#[test]
fn body_with_invalid_base64_fails() {
    let r = process_body("0,Alice,Happy Birthday,Bob,!!!", &junk_assets());
    assert_eq!(r.err(), Some(CardError::BadBase64));
}

#[test]
fn body_with_unparseable_font_fails() {
    // The base64 photo field decodes (so the error moves past the decoding
    // step) and the junk font is the first asset to be rejected.
    let photo = png_bytes(4, 4, [1, 2, 3, 255]);
    let body = format!("1,Alice,Hi,Bob,{}", base64::encode_config(&photo, base64::STANDARD));
    let r = process_body(&body, &junk_assets());
    assert_eq!(r.err(), Some(CardError::BadFont));
}
