//! Tests of the prompt composer: column accounting, separator drawing,
//! padding computation, and rendering.

use powerline_rs::colors::Color;
use powerline_rs::powerline::Direction;
use powerline_rs::powerline::{Powerline, Separator, Style};
use powerline_rs::terminal::{BgColor, FgColor, Reset, Shell};

fn style(fg: u8, bg: u8) -> Style {
    Style::simple(Color(fg), Color(bg))
}

#[test]
fn two_segment_left_columns() {
    // " ~ " (3) + separator (1) + " proj " (6) = 10 columns while open,
    // 11 with the closing separator written at finalize.
    let mut pl = Powerline::new();
    pl.add_segment("~", style(15, 4));
    pl.add_segment("proj", style(15, 2));
    assert_eq!(pl.left_columns, 10);
    pl.start_right();
    assert_eq!(pl.left_columns, 11);
}

#[test]
fn first_segment_draws_no_separator() {
    let mut pl = Powerline::new();
    pl.add_segment("abc", style(1, 2));
    assert_eq!(pl.left_columns, 5);
    pl.add_short_segment("de", style(1, 2));
    assert_eq!(pl.left_columns, 5 + 1 + 2);
}

#[test]
fn render_left_only_ignores_width() {
    let build = || {
        let mut pl = Powerline::new();
        pl.add_segment("hello", style(15, 4));
        pl.add_short_segment("x", style(0, 7));
        pl
    };
    let narrow = build().render(1);
    let wide = build().render(500);
    assert_eq!(narrow, wide);
}

#[test]
fn render_left_only_exact_text() {
    let mut pl = Powerline::new();
    pl.add_short_segment("hi", style(1, 2));
    let r = pl.render(80);
    let expected = format!(
        "{}{}hi{}{}\u{e0b0}{}{}",
        "\u{1b}[48;5;2m",
        "\u{1b}[38;5;1m",
        "\u{1b}[0m",
        "\u{1b}[38;5;2m",
        "\u{1b}[0m",
        "\u{1b}[0m",
    );
    assert_eq!(r, expected);
}

#[test]
fn narrow_terminal_clamps_padding_to_zero() {
    // left_columns 8 (a seven-character unpadded segment plus the closing
    // separator), right_columns 5: a five-column terminal inserts no
    // padding and the call does not fail.
    let build = || {
        let mut pl = Powerline::new();
        pl.add_short_segment("1234567", style(15, 4));
        assert_eq!(pl.left_columns, 7);
        pl.start_right();
        assert_eq!(pl.left_columns, 8);
        pl.add_segment("ab", style(15, 2));
        assert_eq!(pl.right_columns, 5);
        pl
    };
    let tight = build().render(5);
    // 8 + 5 + 1 = 14: every width up to 14 yields zero padding.
    let max_zero = build().render(14);
    assert_eq!(tight, max_zero);
    // One more column yields exactly one space of padding.
    let one_pad = build().render(15);
    assert_eq!(one_pad.chars().count(), tight.chars().count() + 1);
}

#[test]
fn normal_padding_is_width_minus_content_minus_one() {
    // left_columns 8, right_columns 5, total 20 => 20-8-5-1 = 6 spaces.
    let build = || {
        let mut pl = Powerline::new();
        pl.add_segment("12345", style(15, 4));
        assert_eq!(pl.left_columns, 7);
        pl.start_right();
        assert_eq!(pl.left_columns, 8);
        pl.add_segment("ab", style(15, 2));
        assert_eq!(pl.right_columns, 5);
        pl
    };
    let snug = build().render(14);
    let padded = build().render(20);
    assert_eq!(padded.chars().count(), snug.chars().count() + 6);
    assert!(padded.contains("      "));
    assert!(!padded.contains("       "));
}

#[test]
fn separator_glyphs_by_direction() {
    assert_eq!(Separator::Chevron.for_direction(Direction::Right), '\u{e0b0}');
    assert_eq!(Separator::Chevron.for_direction(Direction::Left), '\u{e0b2}');
    assert_eq!(Separator::Round.for_direction(Direction::Right), '\u{e0b4}');
    assert_eq!(Separator::Round.for_direction(Direction::Left), '\u{e0b6}');
    assert_eq!(Separator::AngleLine.for_direction(Direction::Right), '\u{e0b1}');
    assert_eq!(Separator::AngleLine.for_direction(Direction::Left), '\u{e0b3}');
}

#[test]
fn escape_codes_by_dialect() {
    assert_eq!(FgColor(42).code(Shell::Bare), "\u{1b}[38;5;42m");
    assert_eq!(BgColor(7).code(Shell::Bare), "\u{1b}[48;5;7m");
    assert_eq!(FgColor(250).code(Shell::Bash), "\\[\\e[38;5;250m\\]");
    assert_eq!(BgColor(0).code(Shell::Zsh), "%{\u{1b}[48;5;0m%}");
    assert_eq!(Reset.code(Shell::Bare), "\u{1b}[0m");
    assert_eq!(Reset.code(Shell::Bash), "\\[\\e[0m\\]");
    assert_eq!(Reset.code(Shell::Zsh), "%{\u{1b}[39m%}%{\u{1b}[49m%}");
}

#[test]
fn transpose_swaps_role_not_index() {
    assert_eq!(FgColor(9).transpose(), BgColor(9));
    assert_eq!(BgColor(200).transpose(), FgColor(200));
}

#[test]
fn padding_counts_columns_and_reopens() {
    let mut pl = Powerline::new();
    pl.add_segment("ab", style(1, 2));
    assert_eq!(pl.left_columns, 4);
    pl.add_padding(3);
    // closing separator (1) + three spaces + the pre-counted re-opening
    // separator (1).
    assert_eq!(pl.left_columns, 4 + 1 + 3 + 1);
    pl.add_segment("cd", style(1, 2));
    assert_eq!(pl.left_columns, 9 + 4);
}

#[test]
fn right_segments_count_their_separator() {
    let mut pl = Powerline::new();
    pl.start_right();
    pl.add_segment("ab", style(1, 2));
    assert_eq!(pl.right_columns, 5);
    pl.add_short_segment("c", style(1, 2));
    assert_eq!(pl.right_columns, 5 + 2);
    assert_eq!(pl.left_columns, 0);
}

#[test]
fn custom_separator_glyph_is_used() {
    let mut pl = Powerline::new();
    pl.add_segment("a", Style::simple(Color(1), Color(2)));
    pl.add_segment("b", Style::custom(Color(1), Color(3), Separator::Round));
    pl.start_right();
    let r = pl.render(0);
    assert!(r.contains('\u{e0b4}'));
}

#[test]
fn ambient_separator_change_applies() {
    let mut pl = Powerline::new();
    pl.set_separator(Separator::AngleLine);
    pl.add_segment("a", style(1, 2));
    pl.add_segment("b", style(1, 3));
    let r = pl.render(0);
    assert!(r.contains('\u{e0b1}'));
    assert!(!r.contains('\u{e0b0}'));
}
