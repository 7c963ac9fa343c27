use vstd::prelude::*;

verus! {

/// A theme selects one of exactly two fixed palettes.
#[derive(Clone, Copy, PartialEq, Eq, Structural, Debug)]
pub enum Theme {
    /// Theme index 0.
    First,
    /// Theme index 1.
    Second,
}

/// An RGBA color as four channel values.
pub type Rgba = (u8, u8, u8, u8);

/// The ink color of all text blocks for a theme.
pub open spec fn text_color_spec(t: Theme) -> Rgba {
    match t {
        Theme::First => (211u8, 171u8, 145u8, 255u8),
        Theme::Second => (150u8, 77u8, 75u8, 255u8),
    }
}

/// The background color of the upper half of the canvas.
pub open spec fn bg_top_spec(t: Theme) -> Rgba {
    match t {
        Theme::First => (150u8, 77u8, 75u8, 255u8),
        Theme::Second => (249u8, 239u8, 215u8, 255u8),
    }
}

/// The background color of the lower half of the canvas.
pub open spec fn bg_bottom_spec(t: Theme) -> Rgba {
    match t {
        Theme::First => (175u8, 113u8, 113u8, 255u8),
        Theme::Second => (255u8, 250u8, 237u8, 255u8),
    }
}

/// The background color of canvas row `y` on a canvas of height `h`:
/// the upper half takes the theme's top color, the rest its bottom color.
pub open spec fn fill_color_spec(t: Theme, y: int, h: int) -> Rgba {
    if y < h / 2 {
        bg_top_spec(t)
    } else {
        bg_bottom_spec(t)
    }
}

/// The whole pixel grid of a freshly filled canvas: defined at exactly the
/// in-range coordinates, each row taking its band color.
pub open spec fn fill_map(t: Theme, w: int, h: int) -> Map<(int, int), Rgba> {
    Map::new(
        |k: (int, int)| 0 <= k.0 < w && 0 <= k.1 < h,
        |k: (int, int)| fill_color_spec(t, k.1, h),
    )
}

pub fn text_color(t: Theme) -> (r: Rgba)
    ensures
        r == text_color_spec(t),
{
    match t {
        Theme::First => (211u8, 171u8, 145u8, 255u8),
        Theme::Second => (150u8, 77u8, 75u8, 255u8),
    }
}

pub fn bg_top(t: Theme) -> (r: Rgba)
    ensures
        r == bg_top_spec(t),
{
    match t {
        Theme::First => (150u8, 77u8, 75u8, 255u8),
        Theme::Second => (249u8, 239u8, 215u8, 255u8),
    }
}

pub fn bg_bottom(t: Theme) -> (r: Rgba)
    ensures
        r == bg_bottom_spec(t),
{
    match t {
        Theme::First => (175u8, 113u8, 113u8, 255u8),
        Theme::Second => (255u8, 250u8, 237u8, 255u8),
    }
}

/// Row color of the two-band background fill.
pub fn fill_color(t: Theme, y: u32, h: u32) -> (r: Rgba)
    ensures
        r == fill_color_spec(t, y as int, h as int),
{
    if y < h / 2 {
        bg_top(t)
    } else {
        bg_bottom(t)
    }
}

} // verus!
