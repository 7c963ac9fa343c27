use vstd::prelude::*;
use vstd::utf8::encode_utf8;
use crate::codec::{b64_decode, b64_decoded, b64_encode, b64_encoded};
use crate::color::{Rgba, Theme, text_color, text_color_spec};
use crate::compose::{composed_dims, composed_pixels, overlay_background, photo_ok};
use crate::error::CardError;
use crate::imgops::{decoded_image, decoded_pixels, draw_line_at, draw_text_at, drawn_pixels,
    encode_png, font_data, font_from_bytes, font_ok, image_dims, image_pixels, img_height,
    img_width, line_pixels, png_encoded};
use crate::layout::{BOTTOM_BORDER, GREETING_SCALE, SIDE_BORDER, SIGN_SCALE, TOP_BORDER, TOP_SCALE,
    anchor_spec, anchor_x, greeting_y, greeting_y_spec, recipient_fit, signature_y,
    signature_y_spec};
use crate::measure::{measure_spec, write_to_crop};
use crate::parse::{parse_theme, split_on, split_spec, theme_of};

verus! {

/// The static assets a card is rendered with: the font, the blank
/// measurement backdrop, and the stamp image, each as raw bytes.
pub struct Assets {
    /// TrueType font data for all text blocks.
    pub font: Vec<u8>,
    /// The blank (white) backdrop the measurement oracle draws on.
    pub backdrop: Vec<u8>,
    /// The stamp image overlaid below the photo.
    pub stamp: Vec<u8>,
}

/// The error a rendering request fails with, or `None` when every decoding
/// step succeeds; checks happen in this order.
pub open spec fn greeting_error(
    theme: Seq<char>,
    font: Seq<u8>,
    photo: Seq<u8>,
    backdrop: Seq<u8>,
    stamp: Seq<u8>,
) -> Option<CardError> {
    if theme_of(theme) is None {
        Some(CardError::BadTheme)
    } else if !font_ok(font) {
        Some(CardError::BadFont)
    } else if !photo_ok(photo) {
        Some(CardError::BadPhoto)
    } else if composed_dims(photo).0 > u32::MAX as int || composed_dims(photo).1 > u32::MAX as int {
        Some(CardError::TooLarge)
    } else if decoded_image(stamp) is None {
        Some(CardError::BadStamp)
    } else if decoded_image(backdrop) is None {
        Some(CardError::BadBackdrop)
    } else {
        None
    }
}

/// The finished canvas dimensions, as pixel coordinates.
pub open spec fn card_dims(photo: Seq<u8>) -> (u32, u32)
    recommends
        photo_ok(photo),
        composed_dims(photo).0 <= u32::MAX as int,
        composed_dims(photo).1 <= u32::MAX as int,
{
    (composed_dims(photo).0 as u32, composed_dims(photo).1 as u32)
}

/// The canvas after the two underline rules have been thickened to `k`
/// one-pixel lines each: a fixed-length rule under the label and a rule as
/// long as the recipient name's allotted width, pulled up by the reduction.
pub open spec fn underline_rules(
    base: Map<(int, int), Rgba>,
    dims: (u32, u32),
    ink: Rgba,
    fw: u32,
    red: u32,
    k: int,
) -> Map<(int, int), Rgba>
    decreases k,
{
    if k <= 0 {
        base
    } else {
        let prev = underline_rules(base, dims, ink, fw, red, k - 1);
        let y1 = (85 + k - 1) as u32;
        let y2 = (165 - red + k - 1) as u32;
        line_pixels(
            line_pixels(prev, dims, ink, 50u32, y1, 130u32, y1),
            dims,
            ink,
            50u32,
            y2,
            ((50 + fw) as u32),
            y2,
        )
    }
}

/// The canvas after the first `i` greeting lines have been drawn, each
/// right-anchored by its own measured width, one spacing step apart.
pub open spec fn greeting_block(
    base: Map<(int, int), Rgba>,
    dims: (u32, u32),
    ink: Rgba,
    backdrop: Seq<u8>,
    font: Seq<u8>,
    lines: Seq<Seq<char>>,
    i: int,
) -> Map<(int, int), Rgba>
    decreases i,
{
    if i <= 0 {
        base
    } else {
        let prev = greeting_block(base, dims, ink, backdrop, font, lines, i - 1);
        let wl = measure_spec(backdrop, font, lines[i - 1], GREETING_SCALE);
        drawn_pixels(
            prev,
            dims,
            ink,
            anchor_spec(dims.0 as int, wl) as u32,
            greeting_y_spec(i - 1, dims.1 as int) as u32,
            GREETING_SCALE,
            font,
            lines[i - 1],
        )
    }
}

/// The finished card's pixel grid: the composed background, then the label,
/// the auto-scaled recipient name, the two underline rules, the greeting
/// lines and the signature, drawn in that order with the theme's ink color.
pub open spec fn card_pixels(
    t: Theme,
    font: Seq<u8>,
    photo: Seq<u8>,
    backdrop: Seq<u8>,
    stamp: Seq<u8>,
    from: Seq<char>,
    greeting: Seq<char>,
    to: Seq<char>,
) -> Map<(int, int), Rgba>
    recommends
        photo_ok(photo),
        decoded_image(backdrop) is Some,
        decoded_image(stamp) is Some,
{
    let dims = card_dims(photo);
    let ink = text_color_spec(t);
    let base = composed_pixels(t, photo, stamp);
    let mw = measure_spec(backdrop, font, to, TOP_SCALE);
    let fscale = if mw > 600 {
        48000int / mw
    } else {
        80int
    };
    let fwidth = if mw > 600 {
        600int
    } else {
        mw
    };
    let fred = if mw > 600 {
        70 * (mw - 600) / mw
    } else {
        0int
    };
    let with_label = drawn_pixels(
        base,
        dims,
        ink,
        50u32,
        10u32,
        TOP_SCALE,
        font,
        ("\u{81f4}\u{ff1a}")@,
    );
    let with_name = drawn_pixels(with_label, dims, ink, 50u32, 90u32, fscale as u32, font, to);
    let with_rules = underline_rules(with_name, dims, ink, fwidth as u32, fred as u32, 5);
    let lines = split_spec(greeting, '\n');
    let with_greeting = greeting_block(
        with_rules,
        dims,
        ink,
        backdrop,
        font,
        lines,
        lines.len() as int,
    );
    let sgn = ("\u{2014}\u{2014} ")@ + from;
    let sw = measure_spec(backdrop, font, sgn, SIGN_SCALE);
    drawn_pixels(
        with_greeting,
        dims,
        ink,
        anchor_spec(dims.0 as int, sw) as u32,
        signature_y_spec(lines.len() as int, dims.1 as int) as u32,
        SIGN_SCALE,
        font,
        sgn,
    )
}

/// Renders the whole card: composes the themed background with the photo,
/// then draws the recipient label, name and underlines, the greeting lines
/// right-anchored with fixed spacing, and the signature below them, and
/// encodes the canvas as PNG bytes. Fails exactly as `greeting_error` says;
/// on success the bytes are the PNG encoding of `card_pixels`, and decode
/// back to the composed canvas dimensions.
pub fn write_greeting(
    theme: &str,
    from: &str,
    greeting: &str,
    to: &str,
    img_buf: &[u8],
    assets: &Assets,
) -> (r: Result<Vec<u8>, CardError>)
    ensures
        greeting_error(theme@, assets.font@, img_buf@, assets.backdrop@, assets.stamp@) matches Some(
            e,
        ) ==> r == Err::<Vec<u8>, CardError>(e),
        r is Ok <==> greeting_error(
            theme@,
            assets.font@,
            img_buf@,
            assets.backdrop@,
            assets.stamp@,
        ) is None,
        r matches Ok(v) ==> ({
            let px = card_pixels(
                theme_of(theme@).unwrap(),
                assets.font@,
                img_buf@,
                assets.backdrop@,
                assets.stamp@,
                from@,
                greeting@,
                to@,
            );
            v@ == png_encoded(px, card_dims(img_buf@)) && v@.len() >= 8 && decoded_image(v@)
                == Some(card_dims(img_buf@)) && decoded_pixels(v@) == px
        }),
{
    let t = match parse_theme(theme) {
        Ok(t) => t,
        Err(e) => {
            return Err(e);
        },
    };
    let font = match font_from_bytes(&assets.font) {
        Some(f) => f,
        None => {
            return Err(CardError::BadFont);
        },
    };
    let mut canvas = match overlay_background(t, img_buf, assets.stamp.as_slice()) {
        Ok(c) => c,
        Err(e) => {
            return Err(e);
        },
    };
    let cw = img_width(&canvas);
    let ch = img_height(&canvas);
    let ghost dims = card_dims(img_buf@);
    proof {
        assert(image_dims(canvas) == dims);
    }
    let ink = text_color(t);

    // Recipient block: label, auto-scaled name, and two underline rules.
    let width = match write_to_crop(assets.backdrop.as_slice(), &font, to, TOP_SCALE) {
        Ok(w) => w,
        Err(e) => {
            return Err(e);
        },
    };
    let fit = recipient_fit(width);
    draw_text_at(&mut canvas, ink, SIDE_BORDER, 10, TOP_SCALE, &font, "\u{81f4}\u{ff1a}");
    draw_text_at(&mut canvas, ink, SIDE_BORDER, 90, fit.scale, &font, to);
    let ghost with_name = image_pixels(canvas);
    let mut k: u32 = 0;
    while k < 5
        invariant
            k <= 5,
            image_dims(canvas) == dims,
            fit.reduced < 70,
            fit.width <= 600,
            image_pixels(canvas) == underline_rules(
                with_name,
                dims,
                ink,
                fit.width,
                fit.reduced,
                k as int,
            ),
        decreases 5 - k,
    {
        draw_line_at(&mut canvas, ink, SIDE_BORDER, 85 + k, SIDE_BORDER + 80, 85 + k);
        draw_line_at(
            &mut canvas,
            ink,
            SIDE_BORDER,
            165 - fit.reduced + k,
            SIDE_BORDER + fit.width,
            165 - fit.reduced + k,
        );
        k = k + 1;
    }
    let ghost with_rules = image_pixels(canvas);

    // Greeting block: one right-anchored line per embedded line break.
    let lines = split_on(greeting, '\n');
    let ghost linesv = lines@.map_values(|v: String| v@);
    let count = lines.len();
    let mut i: usize = 0;
    while i < count
        invariant
            i <= count,
            count == lines.len(),
            linesv == lines@.map_values(|v: String| v@),
            image_dims(canvas) == dims,
            cw == dims.0,
            ch == dims.1,
            ch >= TOP_BORDER + BOTTOM_BORDER,
            decoded_image(assets.backdrop@) is Some,
            font_data(font) == assets.font@,
            ink == text_color_spec(t),
            image_pixels(canvas) == greeting_block(
                with_rules,
                dims,
                ink,
                assets.backdrop@,
                assets.font@,
                linesv,
                i as int,
            ),
        decreases count - i,
    {
        let g = lines[i].as_str();
        proof {
            assert(linesv[i as int] == lines@[i as int]@);
        }
        let wg = match write_to_crop(assets.backdrop.as_slice(), &font, g, GREETING_SCALE) {
            Ok(w) => w,
            Err(e) => {
                return Err(e);
            },
        };
        let x = anchor_x(cw, wg);
        let y = greeting_y(i, ch);
        draw_text_at(&mut canvas, ink, x, y, GREETING_SCALE, &font, g);
        proof {
            let wl = measure_spec(assets.backdrop@, assets.font@, linesv[i as int], GREETING_SCALE);
            assert(wg as int == wl);
            assert(x as int == anchor_spec(dims.0 as int, wl));
            assert(x == anchor_spec(dims.0 as int, wl) as u32);
            assert(y == greeting_y_spec(i as int, dims.1 as int) as u32);
            assert(greeting_block(
                with_rules,
                dims,
                ink,
                assets.backdrop@,
                assets.font@,
                linesv,
                i + 1,
            ) == drawn_pixels(
                greeting_block(
                    with_rules,
                    dims,
                    ink,
                    assets.backdrop@,
                    assets.font@,
                    linesv,
                    i as int,
                ),
                dims,
                ink,
                anchor_spec(dims.0 as int, wl) as u32,
                greeting_y_spec(i as int, dims.1 as int) as u32,
                GREETING_SCALE,
                assets.font@,
                linesv[i as int],
            ));
        }
        i = i + 1;
    }

    // Signature block: the sender behind a dash marker, below the greeting.
    let mut sign = String::from_str("\u{2014}\u{2014} ");
    sign.append(from);
    let ws = match write_to_crop(assets.backdrop.as_slice(), &font, sign.as_str(), SIGN_SCALE) {
        Ok(w) => w,
        Err(e) => {
            return Err(e);
        },
    };
    let sx = anchor_x(cw, ws);
    let sy = signature_y(count, ch);
    draw_text_at(&mut canvas, ink, sx, sy, SIGN_SCALE, &font, sign.as_str());

    proof {
        assert(image_pixels(canvas) == card_pixels(
            t,
            assets.font@,
            img_buf@,
            assets.backdrop@,
            assets.stamp@,
            from@,
            greeting@,
            to@,
        ));
    }
    Ok(encode_png(&canvas))
}

/// The error a whole request body fails with, or `None` when every decoding
/// step succeeds: the body must hold at least five comma-separated fields,
/// the fifth must be valid base64, and the decoded pieces must satisfy
/// `greeting_error`.
pub open spec fn process_error(
    body: Seq<char>,
    font: Seq<u8>,
    backdrop: Seq<u8>,
    stamp: Seq<u8>,
) -> Option<CardError> {
    let fs = split_spec(body, ',');
    if fs.len() < 5 {
        Some(CardError::TooFewFields)
    } else {
        let pb = encode_utf8(fs[4]);
        if pb.len() > usize::MAX - 3 || b64_decoded(pb) is None {
            Some(CardError::BadBase64)
        } else {
            greeting_error(fs[0], font, b64_decoded(pb).unwrap(), backdrop, stamp)
        }
    }
}

/// The PNG bytes a whole request body renders to, once every decoding step
/// has succeeded.
pub open spec fn body_card_png(
    body: Seq<char>,
    font: Seq<u8>,
    backdrop: Seq<u8>,
    stamp: Seq<u8>,
) -> Seq<u8>
    recommends
        process_error(body, font, backdrop, stamp) is None,
{
    let fs = split_spec(body, ',');
    let photo = b64_decoded(encode_utf8(fs[4])).unwrap();
    png_encoded(
        card_pixels(
            theme_of(fs[0]).unwrap(),
            font,
            photo,
            backdrop,
            stamp,
            fs[1],
            fs[2],
            fs[3],
        ),
        card_dims(photo),
    )
}

/// Handles one request body `theme,sender,greeting,recipient,photoBase64`:
/// splits the fields, decodes the photo, renders the card and returns the
/// PNG as base64 text. Fails exactly as `process_error` says; on success
/// the text is the base64 encoding of the rendered PNG. A PNG too long for
/// the base64 encoder's arithmetic is refused as too large.
pub fn process_body(body: &str, assets: &Assets) -> (r: Result<String, CardError>)
    ensures
        process_error(body@, assets.font@, assets.backdrop@, assets.stamp@) matches Some(e) ==> r
            == Err::<String, CardError>(e),
        process_error(body@, assets.font@, assets.backdrop@, assets.stamp@) is None ==> ({
            let png = body_card_png(body@, assets.font@, assets.backdrop@, assets.stamp@);
            if png.len() > usize::MAX / 2 {
                r == Err::<String, CardError>(CardError::TooLarge)
            } else {
                r matches Ok(s) && s@ == b64_encoded(png)
            }
        }),
        r is Ok ==> process_error(body@, assets.font@, assets.backdrop@, assets.stamp@) is None,
{
    let fields = split_on(body, ',');
    proof {
        let m = fields@.map_values(|v: String| v@);
        assert(m.len() == fields@.len());
    }
    if fields.len() < 5 {
        return Err(CardError::TooFewFields);
    }
    proof {
        let m = fields@.map_values(|v: String| v@);
        assert(m[0] == fields@[0]@);
        assert(m[1] == fields@[1]@);
        assert(m[2] == fields@[2]@);
        assert(m[3] == fields@[3]@);
        assert(m[4] == fields@[4]@);
    }
    let pb = fields[4].as_str().as_bytes();
    if pb.len() > usize::MAX - 3 {
        return Err(CardError::BadBase64);
    }
    let photo = match b64_decode(pb) {
        Some(v) => v,
        None => {
            return Err(CardError::BadBase64);
        },
    };
    let png = match write_greeting(
        fields[0].as_str(),
        fields[1].as_str(),
        fields[2].as_str(),
        fields[3].as_str(),
        photo.as_slice(),
        assets,
    ) {
        Ok(p) => p,
        Err(e) => {
            return Err(e);
        },
    };
    if png.len() > usize::MAX / 2 {
        return Err(CardError::TooLarge);
    }
    Ok(b64_encode(&png))
}

} // verus!
