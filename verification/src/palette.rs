//! The colour table the emulator does not ship.
//!
//! The emulator's own table is an override layer for OSC 4, 10 and 11: every
//! entry is empty until an application sets one. This is the table underneath.
//!
//! 269 entries, all ranges half-open:
//!
//! | Range | Contents |
//! |---|---|
//! | `0..16` | the named colours, normal then bright |
//! | `16..232` | the 6x6x6 cube |
//! | `232..256` | the greyscale ramp |
//! | `256` | foreground |
//! | `257` | background |
//! | `258` | cursor |
//! | `259..267` | the eight dim variants |
//! | `267` | bright foreground |
//! | `268` | dim foreground |
//!
//! There is no dim background: the named colours end at the dim foreground.

use alacritty_terminal::term::color::Colors;
use vstd::prelude::*;

use crate::emulator::{color_override, color_overrides};
use crate::screen::Color;

verus! {

/// How many entries the table has.
pub const PALETTE_LEN: usize = 269;

/// The named colours, `0..16`.
pub const NAMED: usize = 16;

/// The colour cube, `16..232`.
pub const CUBE: usize = 216;

/// The greyscale ramp, `232..256`.
pub const GREY: usize = 24;

pub const FOREGROUND: usize = 256;

pub const BACKGROUND: usize = 257;

pub const CURSOR: usize = 258;

/// The eight dim variants, `259..267`.
pub const DIM_BASE: usize = 259;

pub const BRIGHT_FOREGROUND: usize = 267;

pub const DIM_FOREGROUND: usize = 268;

/// A colour by its three components.
#[derive(Clone, Copy, PartialEq, Eq, Debug, Structural)]
pub struct Rgb {
    pub r: u8,
    pub g: u8,
    pub b: u8,
}

/// A colour an application can ask for by name.
#[derive(Clone, Copy, PartialEq, Eq, Debug, Structural)]
pub enum NamedColor {
    Black,
    Red,
    Green,
    Yellow,
    Blue,
    Magenta,
    Cyan,
    White,
    BrightBlack,
    BrightRed,
    BrightGreen,
    BrightYellow,
    BrightBlue,
    BrightMagenta,
    BrightCyan,
    BrightWhite,
    Foreground,
    Background,
    Cursor,
    DimBlack,
    DimRed,
    DimGreen,
    DimYellow,
    DimBlue,
    DimMagenta,
    DimCyan,
    DimWhite,
    BrightForeground,
    DimForeground,
}

/// A colour as the emulator holds it.
#[derive(Clone, Copy, PartialEq, Eq, Debug, Structural)]
pub enum VteColor {
    Named(NamedColor),
    Spec(Rgb),
    Indexed(u8),
}

/// The xterm 16, which every terminal starts from.
pub open spec fn base_16(i: int) -> Rgb {
    if i == 0 {
        Rgb { r: 0x00, g: 0x00, b: 0x00 }
    } else if i == 1 {
        Rgb { r: 0xcd, g: 0x00, b: 0x00 }
    } else if i == 2 {
        Rgb { r: 0x00, g: 0xcd, b: 0x00 }
    } else if i == 3 {
        Rgb { r: 0xcd, g: 0xcd, b: 0x00 }
    } else if i == 4 {
        Rgb { r: 0x00, g: 0x00, b: 0xee }
    } else if i == 5 {
        Rgb { r: 0xcd, g: 0x00, b: 0xcd }
    } else if i == 6 {
        Rgb { r: 0x00, g: 0xcd, b: 0xcd }
    } else if i == 7 {
        Rgb { r: 0xe5, g: 0xe5, b: 0xe5 }
    } else if i == 8 {
        Rgb { r: 0x7f, g: 0x7f, b: 0x7f }
    } else if i == 9 {
        Rgb { r: 0xff, g: 0x00, b: 0x00 }
    } else if i == 10 {
        Rgb { r: 0x00, g: 0xff, b: 0x00 }
    } else if i == 11 {
        Rgb { r: 0xff, g: 0xff, b: 0x00 }
    } else if i == 12 {
        Rgb { r: 0x5c, g: 0x5c, b: 0xff }
    } else if i == 13 {
        Rgb { r: 0xff, g: 0x00, b: 0xff }
    } else if i == 14 {
        Rgb { r: 0x00, g: 0xff, b: 0xff }
    } else {
        Rgb { r: 0xff, g: 0xff, b: 0xff }
    }
}

/// The six intensities of the cube. They are xterm's, not evenly spaced: the
/// jump from 0 to 95 is deliberate, because a linear ramp looks wrong.
pub open spec fn level(i: int) -> u8 {
    if i == 0 {
        0
    } else {
        (55 + 40 * i) as u8
    }
}

/// Two thirds of an intensity, rounded down.
pub open spec fn dimmed(v: u8) -> u8 {
    (v * 2 / 3) as u8
}

/// The table, entry by entry.
pub open spec fn entry(i: int) -> Rgb {
    if i < 16 {
        base_16(i)
    } else if i < 232 {
        Rgb { r: level((i - 16) / 36), g: level((i - 16) / 6 % 6), b: level((i - 16) % 6) }
    } else if i < 256 {
        let v = (8 + 10 * (i - 232)) as u8;
        Rgb { r: v, g: v, b: v }
    } else if i == FOREGROUND || i == CURSOR {
        Rgb { r: 0xd8, g: 0xd8, b: 0xd8 }
    } else if i == BACKGROUND {
        Rgb { r: 0x00, g: 0x00, b: 0x00 }
    } else if i < BRIGHT_FOREGROUND {
        let normal = base_16(i - DIM_BASE);
        Rgb { r: dimmed(normal.r), g: dimmed(normal.g), b: dimmed(normal.b) }
    } else if i == BRIGHT_FOREGROUND {
        Rgb { r: 0xff, g: 0xff, b: 0xff }
    } else {
        Rgb { r: 0x90, g: 0x90, b: 0x90 }
    }
}

/// The xterm 16, by number.
fn xterm_16(i: usize) -> (c: Rgb)
    requires
        i < 16,
    ensures
        c == base_16(i as int),
{
    match i {
        0 => Rgb { r: 0x00, g: 0x00, b: 0x00 },
        1 => Rgb { r: 0xcd, g: 0x00, b: 0x00 },
        2 => Rgb { r: 0x00, g: 0xcd, b: 0x00 },
        3 => Rgb { r: 0xcd, g: 0xcd, b: 0x00 },
        4 => Rgb { r: 0x00, g: 0x00, b: 0xee },
        5 => Rgb { r: 0xcd, g: 0x00, b: 0xcd },
        6 => Rgb { r: 0x00, g: 0xcd, b: 0xcd },
        7 => Rgb { r: 0xe5, g: 0xe5, b: 0xe5 },
        8 => Rgb { r: 0x7f, g: 0x7f, b: 0x7f },
        9 => Rgb { r: 0xff, g: 0x00, b: 0x00 },
        10 => Rgb { r: 0x00, g: 0xff, b: 0x00 },
        11 => Rgb { r: 0xff, g: 0xff, b: 0x00 },
        12 => Rgb { r: 0x5c, g: 0x5c, b: 0xff },
        13 => Rgb { r: 0xff, g: 0x00, b: 0xff },
        14 => Rgb { r: 0x00, g: 0xff, b: 0xff },
        _ => Rgb { r: 0xff, g: 0xff, b: 0xff },
    }
}

/// One of the six intensities of the cube.
fn cube_level(i: usize) -> (v: u8)
    requires
        i < 6,
    ensures
        v == level(i as int),
{
    if i == 0 {
        0
    } else {
        55 + 40 * i as u8
    }
}

/// Two thirds of an intensity.
fn dim(v: u8) -> (d: u8)
    ensures
        d == dimmed(v),
{
    (v as u16 * 2 / 3) as u8
}

/// The full 269-entry table.
pub fn palette() -> (table: [Rgb; PALETTE_LEN])
    ensures
        forall|i: int| 0 <= i < PALETTE_LEN ==> #[trigger] table@[i] == entry(i),
{
    let mut table: [Rgb; PALETTE_LEN] = [Rgb { r: 0, g: 0, b: 0 };PALETTE_LEN];

    let mut i: usize = 0;
    while i < NAMED
        invariant
            i <= NAMED,
            forall|j: int| 0 <= j < i ==> #[trigger] table@[j] == entry(j),
        decreases NAMED - i,
    {
        table[i] = xterm_16(i);
        i += 1;
    }

    while i < NAMED + CUBE
        invariant
            NAMED <= i <= NAMED + CUBE,
            forall|j: int| 0 <= j < i ==> #[trigger] table@[j] == entry(j),
        decreases NAMED + CUBE - i,
    {
        let k: usize = i - NAMED;
        table[i] = Rgb { r: cube_level(k / 36), g: cube_level(k / 6 % 6), b: cube_level(k % 6) };
        i += 1;
    }

    while i < NAMED + CUBE + GREY
        invariant
            NAMED + CUBE <= i <= NAMED + CUBE + GREY,
            forall|j: int| 0 <= j < i ==> #[trigger] table@[j] == entry(j),
        decreases NAMED + CUBE + GREY - i,
    {
        let v: u8 = 8 + 10 * (i - NAMED - CUBE) as u8;
        table[i] = Rgb { r: v, g: v, b: v };
        i += 1;
    }

    table[FOREGROUND] = Rgb { r: 0xd8, g: 0xd8, b: 0xd8 };
    table[BACKGROUND] = Rgb { r: 0x00, g: 0x00, b: 0x00 };
    table[CURSOR] = Rgb { r: 0xd8, g: 0xd8, b: 0xd8 };

    let mut k: usize = 0;
    while k < 8
        invariant
            k <= 8,
            forall|j: int| 0 <= j < DIM_BASE + k ==> #[trigger] table@[j] == entry(j),
        decreases 8 - k,
    {
        let normal = table[k];
        table[DIM_BASE + k] = Rgb { r: dim(normal.r), g: dim(normal.g), b: dim(normal.b) };
        k += 1;
    }

    table[BRIGHT_FOREGROUND] = Rgb { r: 0xff, g: 0xff, b: 0xff };
    table[DIM_FOREGROUND] = Rgb { r: 0x90, g: 0x90, b: 0x90 };

    table
}

/// Where a named colour sits in the table.
pub open spec fn slot(c: NamedColor) -> usize {
    match c {
        NamedColor::Black => 0,
        NamedColor::Red => 1,
        NamedColor::Green => 2,
        NamedColor::Yellow => 3,
        NamedColor::Blue => 4,
        NamedColor::Magenta => 5,
        NamedColor::Cyan => 6,
        NamedColor::White => 7,
        NamedColor::BrightBlack => 8,
        NamedColor::BrightRed => 9,
        NamedColor::BrightGreen => 10,
        NamedColor::BrightYellow => 11,
        NamedColor::BrightBlue => 12,
        NamedColor::BrightMagenta => 13,
        NamedColor::BrightCyan => 14,
        NamedColor::BrightWhite => 15,
        NamedColor::Foreground => FOREGROUND,
        NamedColor::Background => BACKGROUND,
        NamedColor::Cursor => CURSOR,
        NamedColor::DimBlack => 259,
        NamedColor::DimRed => 260,
        NamedColor::DimGreen => 261,
        NamedColor::DimYellow => 262,
        NamedColor::DimBlue => 263,
        NamedColor::DimMagenta => 264,
        NamedColor::DimCyan => 265,
        NamedColor::DimWhite => 266,
        NamedColor::BrightForeground => BRIGHT_FOREGROUND,
        NamedColor::DimForeground => DIM_FOREGROUND,
    }
}

/// Where a [`NamedColor`] sits in the table.
pub fn named_index(c: NamedColor) -> (i: usize)
    ensures
        i == slot(c),
        i < PALETTE_LEN,
{
    match c {
        NamedColor::Black => 0,
        NamedColor::Red => 1,
        NamedColor::Green => 2,
        NamedColor::Yellow => 3,
        NamedColor::Blue => 4,
        NamedColor::Magenta => 5,
        NamedColor::Cyan => 6,
        NamedColor::White => 7,
        NamedColor::BrightBlack => 8,
        NamedColor::BrightRed => 9,
        NamedColor::BrightGreen => 10,
        NamedColor::BrightYellow => 11,
        NamedColor::BrightBlue => 12,
        NamedColor::BrightMagenta => 13,
        NamedColor::BrightCyan => 14,
        NamedColor::BrightWhite => 15,
        NamedColor::Foreground => FOREGROUND,
        NamedColor::Background => BACKGROUND,
        NamedColor::Cursor => CURSOR,
        NamedColor::DimBlack => DIM_BASE,
        NamedColor::DimRed => DIM_BASE + 1,
        NamedColor::DimGreen => DIM_BASE + 2,
        NamedColor::DimYellow => DIM_BASE + 3,
        NamedColor::DimBlue => DIM_BASE + 4,
        NamedColor::DimMagenta => DIM_BASE + 5,
        NamedColor::DimCyan => DIM_BASE + 6,
        NamedColor::DimWhite => DIM_BASE + 7,
        NamedColor::BrightForeground => BRIGHT_FOREGROUND,
        NamedColor::DimForeground => DIM_FOREGROUND,
    }
}

/// The named colour that sits at `i`, if one does.
pub fn named_at(i: u16) -> (c: Option<NamedColor>)
    ensures
        c matches Some(n) ==> slot(n) == i,
        c is None <==> forall|n: NamedColor| slot(n) != i,
{
    let c = match i {
        0 => NamedColor::Black,
        1 => NamedColor::Red,
        2 => NamedColor::Green,
        3 => NamedColor::Yellow,
        4 => NamedColor::Blue,
        5 => NamedColor::Magenta,
        6 => NamedColor::Cyan,
        7 => NamedColor::White,
        8 => NamedColor::BrightBlack,
        9 => NamedColor::BrightRed,
        10 => NamedColor::BrightGreen,
        11 => NamedColor::BrightYellow,
        12 => NamedColor::BrightBlue,
        13 => NamedColor::BrightMagenta,
        14 => NamedColor::BrightCyan,
        15 => NamedColor::BrightWhite,
        256 => NamedColor::Foreground,
        257 => NamedColor::Background,
        258 => NamedColor::Cursor,
        259 => NamedColor::DimBlack,
        260 => NamedColor::DimRed,
        261 => NamedColor::DimGreen,
        262 => NamedColor::DimYellow,
        263 => NamedColor::DimBlue,
        264 => NamedColor::DimMagenta,
        265 => NamedColor::DimCyan,
        266 => NamedColor::DimWhite,
        267 => NamedColor::BrightForeground,
        268 => NamedColor::DimForeground,
        _ => {
            return None;
        },
    };
    assert(slot(c) == i);
    Some(c)
}

/// What an emulator colour travels as, under the overrides `over` and the
/// table `table`.
pub open spec fn proto_color(c: VteColor, over: Seq<Option<Rgb>>, table: Seq<Rgb>) -> Color {
    match c {
        VteColor::Spec(rgb) => Color::Rgb(rgb.r, rgb.g, rgb.b),
        VteColor::Indexed(i) => match over[i as int] {
            Some(rgb) => Color::Rgb(rgb.r, rgb.g, rgb.b),
            None => Color::Idx(i),
        },
        VteColor::Named(named) => if named is Foreground || named is Background {
            Color::Default
        } else {
            match over[slot(named) as int] {
                Some(rgb) => Color::Rgb(rgb.r, rgb.g, rgb.b),
                None => if slot(named) < 256 {
                    Color::Idx(slot(named) as u8)
                } else {
                    let rgb = table[slot(named) as int];
                    Color::Rgb(rgb.r, rgb.g, rgb.b)
                },
            }
        },
    }
}

/// Convert an emulator colour into the one that travels, consulting the OSC
/// override table first.
///
/// The foreground and the background become [`Color::Default`] rather than a
/// concrete value: the client renders into a real terminal that has its own
/// theme, and resolving them here would repaint the user's chosen background.
pub fn to_proto_color(c: VteColor, overrides: &Colors, table: &[Rgb; PALETTE_LEN]) -> (r: Color)
    ensures
        r == proto_color(c, color_overrides(*overrides), table@),
{
    match c {
        VteColor::Named(named) => {
            match named {
                NamedColor::Foreground | NamedColor::Background => {
                    return Color::Default;
                },
                _ => {},
            }
            let idx: usize = named_index(named);
            match color_override(overrides, idx) {
                Some(rgb) => Color::Rgb(rgb.r, rgb.g, rgb.b),
                None => {
                    // A palette index below 256 travels as an index, so a
                    // client with its own theme can honour it.
                    if idx < 256 {
                        Color::Idx(idx as u8)
                    } else {
                        let rgb = table[idx];
                        Color::Rgb(rgb.r, rgb.g, rgb.b)
                    }
                },
            }
        },
        VteColor::Indexed(i) => match color_override(overrides, i as usize) {
            Some(rgb) => Color::Rgb(rgb.r, rgb.g, rgb.b),
            None => Color::Idx(i),
        },
        VteColor::Spec(rgb) => Color::Rgb(rgb.r, rgb.g, rgb.b),
    }
}

/// No two named colours share a slot, and every slot is in the table.
pub proof fn named_slots_are_distinct(a: NamedColor, b: NamedColor)
    ensures
        slot(a) < PALETTE_LEN,
        slot(a) == slot(b) ==> a == b,
{
}

/// A dim variant is never brighter than the colour it dims.
pub proof fn dim_variants_are_darker(k: int)
    requires
        0 <= k < 8,
    ensures
        entry(DIM_BASE + k).r <= entry(k).r,
        entry(DIM_BASE + k).g <= entry(k).g,
        entry(DIM_BASE + k).b <= entry(k).b,
{
}

/// Every entry of the table is xterm's: the sixteen named colours, a cube whose
/// six intensities are 0, 95, 135, 175, 215 and 255 with red slowest and blue
/// fastest, and a ramp of 24 greys from 8 in steps of 10.
pub proof fn the_table_is_xterms(r: int, g: int, b: int, k: int)
    requires
        0 <= r < 6,
        0 <= g < 6,
        0 <= b < 6,
        0 <= k < 24,
    ensures
        entry(0) == (Rgb { r: 0, g: 0, b: 0 }),
        entry(1) == (Rgb { r: 205, g: 0, b: 0 }),
        entry(2) == (Rgb { r: 0, g: 205, b: 0 }),
        entry(3) == (Rgb { r: 205, g: 205, b: 0 }),
        entry(4) == (Rgb { r: 0, g: 0, b: 238 }),
        entry(5) == (Rgb { r: 205, g: 0, b: 205 }),
        entry(6) == (Rgb { r: 0, g: 205, b: 205 }),
        entry(7) == (Rgb { r: 229, g: 229, b: 229 }),
        entry(8) == (Rgb { r: 127, g: 127, b: 127 }),
        entry(9) == (Rgb { r: 255, g: 0, b: 0 }),
        entry(10) == (Rgb { r: 0, g: 255, b: 0 }),
        entry(11) == (Rgb { r: 255, g: 255, b: 0 }),
        entry(12) == (Rgb { r: 92, g: 92, b: 255 }),
        entry(13) == (Rgb { r: 255, g: 0, b: 255 }),
        entry(14) == (Rgb { r: 0, g: 255, b: 255 }),
        entry(15) == (Rgb { r: 255, g: 255, b: 255 }),
        entry(16 + 36 * r + 6 * g + b).r == seq![0u8, 95, 135, 175, 215, 255][r],
        entry(16 + 36 * r + 6 * g + b).g == seq![0u8, 95, 135, 175, 215, 255][g],
        entry(16 + 36 * r + 6 * g + b).b == seq![0u8, 95, 135, 175, 215, 255][b],
        entry(232 + k).r == 8 + 10 * k,
        entry(232 + k).g == 8 + 10 * k,
        entry(232 + k).b == 8 + 10 * k,
{
    assert((36 * r + 6 * g + b) / 36 == r);
    assert((36 * r + 6 * g + b) / 6 == 6 * r + g);
    assert((6 * r + g) % 6 == g);
    assert((36 * r + 6 * g + b) % 6 == b);
}

/// The entries past the indexed ones: the foreground and the cursor are one
/// light grey, the background is black, a dim variant is two thirds of the colour
/// it dims, component by component, and the bright and the dim foreground are
/// white and a darker grey.
pub proof fn the_table_ends_with_the_defaults(k: int)
    requires
        0 <= k < 8,
    ensures
        entry(256) == (Rgb { r: 216, g: 216, b: 216 }),
        entry(257) == (Rgb { r: 0, g: 0, b: 0 }),
        entry(258) == (Rgb { r: 216, g: 216, b: 216 }),
        3 * entry(259 + k).r <= 2 * entry(k).r < 3 * entry(259 + k).r + 3,
        3 * entry(259 + k).g <= 2 * entry(k).g < 3 * entry(259 + k).g + 3,
        3 * entry(259 + k).b <= 2 * entry(k).b < 3 * entry(259 + k).b + 3,
        entry(267) == (Rgb { r: 255, g: 255, b: 255 }),
        entry(268) == (Rgb { r: 144, g: 144, b: 144 }),
{
}

/// Each named colour has the number the emulator gives it.
pub proof fn named_colours_have_the_emulators_numbers()
    ensures
        slot(NamedColor::Black) == 0 && slot(NamedColor::Red) == 1 && slot(NamedColor::Green) == 2,
        slot(NamedColor::Yellow) == 3 && slot(NamedColor::Blue) == 4,
        slot(NamedColor::Magenta) == 5 && slot(NamedColor::Cyan) == 6,
        slot(NamedColor::White) == 7 && slot(NamedColor::BrightBlack) == 8,
        slot(NamedColor::BrightRed) == 9 && slot(NamedColor::BrightGreen) == 10,
        slot(NamedColor::BrightYellow) == 11 && slot(NamedColor::BrightBlue) == 12,
        slot(NamedColor::BrightMagenta) == 13 && slot(NamedColor::BrightCyan) == 14,
        slot(NamedColor::BrightWhite) == 15 && slot(NamedColor::Foreground) == 256,
        slot(NamedColor::Background) == 257 && slot(NamedColor::Cursor) == 258,
        slot(NamedColor::DimBlack) == 259 && slot(NamedColor::DimRed) == 260,
        slot(NamedColor::DimGreen) == 261 && slot(NamedColor::DimYellow) == 262,
        slot(NamedColor::DimBlue) == 263 && slot(NamedColor::DimMagenta) == 264,
        slot(NamedColor::DimCyan) == 265 && slot(NamedColor::DimWhite) == 266,
        slot(NamedColor::BrightForeground) == 267 && slot(NamedColor::DimForeground) == 268,
{
}

} // verus!
