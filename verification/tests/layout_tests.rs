use greeting_card::color::Theme;
use greeting_card::error::CardError;
use greeting_card::layout::{anchor_x, cover_target, greeting_y, recipient_fit, signature_y};
use greeting_card::parse::{parse_theme, split_on};

#[test]
fn recipient_fit_narrow_keeps_scale() {
    // A name measured at or under the card bound keeps the large scale and
    // needs no underline-offset reduction.
    let fit = recipient_fit(500);
    assert_eq!(fit.scale, 80);
    assert_eq!(fit.width, 500);
    assert_eq!(fit.reduced, 0);
}

#[test]
fn recipient_fit_at_bound_keeps_scale() {
    let fit = recipient_fit(600);
    assert_eq!(fit.scale, 80);
    assert_eq!(fit.width, 600);
    assert_eq!(fit.reduced, 0);
}

#[test]
fn recipient_fit_wide_shrinks() {
    // 1200 measured pixels: scale falls to 80 * 600 / 1200 = 40, the drawn
    // width clamps to the bound, and the underline is pulled up by
    // 70 * (1200 - 600) / 1200 = 35.
    let fit = recipient_fit(1200);
    assert_eq!(fit.scale, 40);
    assert_eq!(fit.width, 600);
    assert_eq!(fit.reduced, 35);
}

#[test]
fn recipient_fit_wide_rounds_down() {
    // 700 measured pixels: 48000 / 700 = 68 and 70 * 100 / 700 = 10.
    let fit = recipient_fit(700);
    assert_eq!(fit.scale, 68);
    assert_eq!(fit.width, 600);
    assert_eq!(fit.reduced, 10);
}

#[test]
fn recipient_fit_just_over_bound() {
    // 601 measured pixels: 48000 / 601 = 79 and 70 * 1 / 601 rounds to 0.
    let fit = recipient_fit(601);
    assert_eq!(fit.scale, 79);
    assert_eq!(fit.width, 600);
    assert_eq!(fit.reduced, 0);
}

#[test]
fn greeting_lines_spacing_constant() {
    // On an 830-pixel-tall canvas the greeting block starts at 670 and each
    // further line sits exactly one 40-pixel step lower.
    let h = 830;
    assert_eq!(greeting_y(0, h), 670);
    assert_eq!(greeting_y(1, h), 710);
    assert_eq!(greeting_y(2, h), 750);
    let mut prev = greeting_y(0, h);
    for i in 1..6 {
        let y = greeting_y(i, h);
        assert!(y > prev);
        assert_eq!(y - prev, 40);
        prev = y;
    }
}

#[test]
fn signature_offset_by_line_count() {
    // The signature offset is the fixed base of 30 above the bottom border
    // plus one spacing step per greeting line, for 0, 1 and 5 lines.
    let h = 830;
    assert_eq!(signature_y(0, h), 830 - 170 + 30);
    assert_eq!(signature_y(1, h), 830 - 170 + 30 + 40);
    assert_eq!(signature_y(5, h), 830 - 170 + 30 + 5 * 40);
}

#[test]
fn anchor_right_aligns() {
    assert_eq!(anchor_x(700, 100), 550);
    assert_eq!(anchor_x(700, 650), 0);
    assert_eq!(anchor_x(700, 651), 0);
}

#[test]
fn cover_target_wide_photo() {
    assert_eq!(cover_target(10, 8), 600);
    assert_eq!(cover_target(16, 16), 600);
}

#[test]
fn cover_target_tall_photo() {
    assert_eq!(cover_target(8, 16), 1200);
    assert_eq!(cover_target(3, 7), 1400);
}

#[test]
fn parse_theme_accepts_both_indices() {
    assert_eq!(parse_theme("0"), Ok(Theme::First));
    assert_eq!(parse_theme("1"), Ok(Theme::Second));
    assert_eq!(parse_theme("01"), Ok(Theme::Second));
    assert_eq!(parse_theme("+1"), Ok(Theme::Second));
    assert_eq!(parse_theme("000"), Ok(Theme::First));
}

#[test]
fn parse_theme_rejects_everything_else() {
    assert_eq!(parse_theme("2"), Err(CardError::BadTheme));
    assert_eq!(parse_theme("10"), Err(CardError::BadTheme));
    assert_eq!(parse_theme(""), Err(CardError::BadTheme));
    assert_eq!(parse_theme("+"), Err(CardError::BadTheme));
    assert_eq!(parse_theme("-1"), Err(CardError::BadTheme));
    assert_eq!(parse_theme("1a"), Err(CardError::BadTheme));
    assert_eq!(parse_theme("one"), Err(CardError::BadTheme));
}

#[test]
fn split_three_lines() {
    // "A\nB\nC" yields exactly three lines, in order.
    let lines = split_on("A\nB\nC", '\n');
    assert_eq!(lines.len(), 3);
    assert_eq!(lines[0], "A");
    assert_eq!(lines[1], "B");
    assert_eq!(lines[2], "C");
}

#[test]
fn split_keeps_empty_segments() {
    let fields = split_on(",a,,b,", ',');
    assert_eq!(fields.len(), 5);
    assert_eq!(fields[0], "");
    assert_eq!(fields[1], "a");
    assert_eq!(fields[2], "");
    assert_eq!(fields[3], "b");
    assert_eq!(fields[4], "");
}

#[test]
fn split_without_separator_is_one_segment() {
    let fields = split_on("hello", ',');
    assert_eq!(fields.len(), 1);
    assert_eq!(fields[0], "hello");
    let empty = split_on("", ',');
    assert_eq!(empty.len(), 1);
    assert_eq!(empty[0], "");
}

#[test]
fn three_line_greeting_draws_at_increasing_offsets() {
    // The scenario of a three-line greeting: each drawn line sits at a
    // strictly greater height, one constant step apart.
    let lines = split_on("A\nB\nC", '\n');
    let h = 950;
    let ys: Vec<u32> = (0..lines.len()).map(|i| greeting_y(i, h)).collect();
    assert_eq!(ys.len(), 3);
    assert!(ys[0] < ys[1] && ys[1] < ys[2]);
    assert_eq!(ys[1] - ys[0], 40);
    assert_eq!(ys[2] - ys[1], 40);
    // The signature then sits 20 below where a fourth line would start.
    assert_eq!(signature_y(lines.len(), h), greeting_y(3, h) + 20);
}
