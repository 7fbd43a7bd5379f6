//! The colour table, and what a colour travels as.

use std::collections::HashSet;

use alacritty_terminal::term::color::Colors;
use alacritty_terminal::vte::ansi::Rgb as EmuRgb;
use oxutrm::palette::{
    named_at, named_index, palette, to_proto_color, NamedColor, Rgb, VteColor, BACKGROUND,
    BRIGHT_FOREGROUND, CUBE, CURSOR, DIM_BASE, DIM_FOREGROUND, FOREGROUND, GREY, NAMED,
    PALETTE_LEN,
};
use oxutrm::screen::Color;

const ALL: [NamedColor; 29] = [
    NamedColor::Black,
    NamedColor::Red,
    NamedColor::Green,
    NamedColor::Yellow,
    NamedColor::Blue,
    NamedColor::Magenta,
    NamedColor::Cyan,
    NamedColor::White,
    NamedColor::BrightBlack,
    NamedColor::BrightRed,
    NamedColor::BrightGreen,
    NamedColor::BrightYellow,
    NamedColor::BrightBlue,
    NamedColor::BrightMagenta,
    NamedColor::BrightCyan,
    NamedColor::BrightWhite,
    NamedColor::Foreground,
    NamedColor::Background,
    NamedColor::Cursor,
    NamedColor::DimBlack,
    NamedColor::DimRed,
    NamedColor::DimGreen,
    NamedColor::DimYellow,
    NamedColor::DimBlue,
    NamedColor::DimMagenta,
    NamedColor::DimCyan,
    NamedColor::DimWhite,
    NamedColor::BrightForeground,
    NamedColor::DimForeground,
];

#[test]
fn the_table_is_exactly_269_entries() {
    assert_eq!(NAMED + CUBE + GREY + 3 + 8 + 2, PALETTE_LEN);
    assert_eq!(PALETTE_LEN, 269);
    assert_eq!(palette().len(), 269);
}

#[test]
fn the_ranges_are_half_open_and_do_not_overlap() {
    assert_eq!(NAMED, 16, "0..16 named");
    assert_eq!(NAMED + CUBE, 232, "16..232 cube");
    assert_eq!(NAMED + CUBE + GREY, 256, "232..256 greyscale");
    assert_eq!(FOREGROUND, 256);
    assert_eq!(BACKGROUND, 257);
    assert_eq!(CURSOR, 258);
    assert_eq!(DIM_BASE, 259);
    assert_eq!(DIM_BASE + 8, BRIGHT_FOREGROUND, "259..267 dim, then 267");
    assert_eq!(DIM_FOREGROUND, 268);
}

#[test]
fn there_is_no_dim_background_slot() {
    assert_eq!(named_index(NamedColor::DimForeground), PALETTE_LEN - 1);
}

#[test]
fn every_named_colour_lands_in_range_and_no_two_collide() {
    let mut seen = HashSet::new();
    for c in ALL {
        let i = named_index(c);
        assert!(i < PALETTE_LEN, "{c:?} -> {i}");
        assert!(seen.insert(i), "{c:?} collides at {i}");
    }
    assert_eq!(seen.len(), 29, "there are 29 named colours");
}

#[test]
fn the_cube_starts_and_ends_where_xterm_says() {
    let t = palette();
    assert_eq!(t[16], Rgb { r: 0, g: 0, b: 0 }, "the cube starts at black");
    assert_eq!(t[231], Rgb { r: 255, g: 255, b: 255 }, "and ends at white");
    assert_eq!(t[52], Rgb { r: 95, g: 0, b: 0 });
}

#[test]
fn the_greyscale_ramp_is_eight_to_two_thirty_eight() {
    let t = palette();
    assert_eq!(t[232], Rgb { r: 8, g: 8, b: 8 });
    assert_eq!(t[255], Rgb { r: 238, g: 238, b: 238 });
}

#[test]
fn foreground_and_background_stay_default_so_the_client_keeps_its_theme() {
    let t = palette();
    let none = Colors::default();
    assert_eq!(
        to_proto_color(VteColor::Named(NamedColor::Foreground), &none, &t),
        Color::Default
    );
    assert_eq!(
        to_proto_color(VteColor::Named(NamedColor::Background), &none, &t),
        Color::Default
    );
}

#[test]
fn a_palette_colour_travels_as_an_index_not_as_rgb() {
    let t = palette();
    let none = Colors::default();
    assert_eq!(to_proto_color(VteColor::Indexed(42), &none, &t), Color::Idx(42));
    assert_eq!(
        to_proto_color(VteColor::Named(NamedColor::Red), &none, &t),
        Color::Idx(1)
    );
}

#[test]
fn an_osc_override_wins_over_the_default_table() {
    let t = palette();
    let mut overrides = Colors::default();
    overrides[1] = Some(EmuRgb { r: 9, g: 9, b: 9 });
    assert_eq!(
        to_proto_color(VteColor::Named(NamedColor::Red), &overrides, &t),
        Color::Rgb(9, 9, 9),
        "OSC 4 must be honoured"
    );
    assert_eq!(
        to_proto_color(VteColor::Indexed(1), &overrides, &t),
        Color::Rgb(9, 9, 9)
    );
}

#[test]
fn a_true_colour_spec_passes_straight_through() {
    let t = palette();
    let none = Colors::default();
    assert_eq!(
        to_proto_color(VteColor::Spec(Rgb { r: 1, g: 2, b: 3 }), &none, &t),
        Color::Rgb(1, 2, 3)
    );
}

#[test]
fn the_dim_variants_are_darker_than_what_they_dim() {
    let t = palette();
    for k in 0..8usize {
        let normal = t[k];
        let dim = t[DIM_BASE + k];
        assert!(
            dim.r <= normal.r && dim.g <= normal.g && dim.b <= normal.b,
            "dim variant {k} is not darker"
        );
    }
}

#[test]
fn a_colour_without_an_index_is_resolved_from_the_table() {
    let t = palette();
    let mut overrides = Colors::default();
    assert_eq!(
        to_proto_color(VteColor::Named(NamedColor::DimRed), &overrides, &t),
        Color::Rgb(136, 0, 0),
        "two thirds of 205, rounded down"
    );
    assert_eq!(
        to_proto_color(VteColor::Named(NamedColor::DimForeground), &overrides, &t),
        Color::Rgb(0x90, 0x90, 0x90)
    );
    overrides[268] = Some(EmuRgb { r: 1, g: 2, b: 3 });
    assert_eq!(
        to_proto_color(VteColor::Named(NamedColor::DimForeground), &overrides, &t),
        Color::Rgb(1, 2, 3)
    );
}

#[test]
fn the_table_holds_the_xterm_sixteen_and_the_special_slots() {
    let t = palette();
    assert_eq!(t[1], Rgb { r: 0xcd, g: 0, b: 0 });
    assert_eq!(t[12], Rgb { r: 0x5c, g: 0x5c, b: 0xff });
    assert_eq!(t[FOREGROUND], Rgb { r: 0xd8, g: 0xd8, b: 0xd8 });
    assert_eq!(t[BACKGROUND], Rgb { r: 0, g: 0, b: 0 });
    assert_eq!(t[CURSOR], Rgb { r: 0xd8, g: 0xd8, b: 0xd8 });
    assert_eq!(t[BRIGHT_FOREGROUND], Rgb { r: 0xff, g: 0xff, b: 0xff });
}

#[test]
fn a_slot_leads_back_to_its_colour() {
    for c in ALL {
        assert_eq!(named_at(named_index(c) as u16), Some(c));
    }
    assert_eq!(named_at(16), None);
    assert_eq!(named_at(255), None);
    assert_eq!(named_at(269), None);
}
