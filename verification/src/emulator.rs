//! What the library reads out of the terminal emulator.
//!
//! The wrappers here are not proved: each states, of one function of
//! `alacritty_terminal`, what its source shows. Everything else in the library
//! is proved from them.

use alacritty_terminal::grid::{Dimensions, Grid};
use alacritty_terminal::index::{Boundary, Column, Line};
use alacritty_terminal::term::cell::{Cell as EmuCell, Flags};
use alacritty_terminal::term::color::Colors;
use alacritty_terminal::term::TermMode;
use alacritty_terminal::vte::ansi::{Color as EmuColor, Rgb as EmuRgb};
use vstd::prelude::*;

use crate::palette::{named_at, named_slots_are_distinct, slot, Rgb, VteColor, PALETTE_LEN};

verus! {

/// The emulator's OSC 4, 10 and 11 table.
#[verifier::external_type_specification]
#[verifier::external_body]
pub struct ExColors(Colors);

/// A colour by its components, as the emulator's table holds one.
#[verifier::external_type_specification]
#[verifier::external_body]
pub struct ExEmuRgb(EmuRgb);

/// One cell of the emulator's grid.
#[verifier::external_type_specification]
#[verifier::external_body]
pub struct ExEmuCell(EmuCell);

/// The emulator's grid: the screen, and the history above it.
#[verifier::external_type_specification]
#[verifier::external_body]
#[verifier::reject_recursive_types(T)]
pub struct ExGrid<T>(Grid<T>);

/// Where a cell stands. Line 0 is the top of the screen, and negative lines
/// reach into history.
#[derive(Clone, Copy, PartialEq, Eq, Debug, Structural)]
pub struct Point {
    pub line: i32,
    pub column: usize,
}

/// A colour of a cell, with a named one given by its number.
#[derive(Clone, Copy, PartialEq, Eq, Debug, Structural)]
pub enum RawColor {
    Named(u16),
    Spec(Rgb),
    Indexed(u8),
}

/// One cell of the grid as plain values.
pub struct RawCell {
    pub c: char,
    pub fg: RawColor,
    pub bg: RawColor,
    pub flags: u16,
    pub marks: Vec<char>,
}

/// What one cell of the grid holds: its base character, its colours, its flag
/// bits, and the zero-width marks stacked on the base.
pub struct CellView {
    pub c: char,
    pub fg: VteColor,
    pub bg: VteColor,
    pub flags: u16,
    pub marks: Seq<char>,
}

/// What one cell of the grid holds.
#[derive(Clone, PartialEq, Eq, Debug)]
pub struct CellData {
    pub c: char,
    pub fg: VteColor,
    pub bg: VteColor,
    pub flags: u16,
    pub marks: Vec<char>,
}

impl View for CellData {
    type V = CellView;

    open spec fn view(&self) -> CellView {
        CellView { c: self.c, fg: self.fg, bg: self.bg, flags: self.flags, marks: self.marks@ }
    }
}

/// Whether `raw` is `c` with a named colour replaced by its number.
pub open spec fn raw_is(raw: RawColor, c: VteColor) -> bool {
    match raw {
        RawColor::Named(n) => c matches VteColor::Named(k) && slot(k) == n,
        RawColor::Spec(rgb) => c == VteColor::Spec(rgb),
        RawColor::Indexed(i) => c == VteColor::Indexed(i),
    }
}

/// How many columns a grid has.
pub uninterp spec fn grid_columns(grid: Grid<EmuCell>) -> nat;

/// How many lines of a grid are on screen.
pub uninterp spec fn grid_screen_lines(grid: Grid<EmuCell>) -> nat;

/// How many lines a grid holds, history included.
pub uninterp spec fn grid_total_lines(grid: Grid<EmuCell>) -> nat;

/// Where a grid's cursor stands.
pub uninterp spec fn grid_cursor(grid: Grid<EmuCell>) -> Point;

/// Whether the next character a grid takes goes on the next line: the last one
/// filled its line.
pub uninterp spec fn grid_needs_wrap(grid: Grid<EmuCell>) -> bool;

/// What a grid holds, by line and column.
pub uninterp spec fn grid_cells(grid: Grid<EmuCell>) -> Map<(int, int), CellView>;

/// The entries of the emulator's OSC table: a colour where an application set
/// one, nothing elsewhere.
pub uninterp spec fn color_overrides(colors: Colors) -> Seq<Option<Rgb>>;

/// `Grid::columns`.
#[verifier::external_body]
pub(crate) fn columns(grid: &Grid<EmuCell>) -> (n: usize)
    ensures
        n == grid_columns(*grid),
{
    grid.columns()
}

/// `Grid::screen_lines`.
#[verifier::external_body]
pub(crate) fn screen_lines(grid: &Grid<EmuCell>) -> (n: usize)
    ensures
        n == grid_screen_lines(*grid),
{
    grid.screen_lines()
}

/// `Grid::total_lines`.
#[verifier::external_body]
fn total_lines(grid: &Grid<EmuCell>) -> (n: usize)
    ensures
        n == grid_total_lines(*grid),
{
    grid.total_lines()
}

/// The `cursor.point` of a `Grid`.
#[verifier::external_body]
pub(crate) fn cursor_of(grid: &Grid<EmuCell>) -> (p: Point)
    ensures
        p == grid_cursor(*grid),
{
    Point { line: grid.cursor.point.line.0, column: grid.cursor.point.column.0 }
}

/// The `cursor.input_needs_wrap` of a `Grid`.
#[verifier::external_body]
pub(crate) fn needs_wrap(grid: &Grid<EmuCell>) -> (r: bool)
    ensures
        r == grid_needs_wrap(*grid),
{
    grid.cursor.input_needs_wrap
}

/// A grid whose lines and columns can be addressed: it has a column, its
/// screen is part of it, and its lines are within reach of an `i32`.
pub open spec fn sound(grid: Grid<EmuCell>) -> bool {
    &&& grid_columns(grid) >= 1
    &&& grid_screen_lines(grid) <= grid_total_lines(grid)
    &&& grid_total_lines(grid) <= i32::MAX
}

/// How many lines of history a grid holds.
pub open spec fn history(grid: Grid<EmuCell>) -> int {
    grid_total_lines(grid) - grid_screen_lines(grid)
}

/// Whether a point is in a grid.
pub open spec fn inside(grid: Grid<EmuCell>, p: Point) -> bool {
    &&& -history(grid) <= p.line < grid_screen_lines(grid)
    &&& p.column < grid_columns(grid)
}

/// A point moved into a grid: one above it goes to its first cell, one below
/// it to its last, and one to the right of it to the end of its own line.
pub open spec fn clamped(grid: Grid<EmuCell>, p: Point) -> Point {
    if p.line < -history(grid) {
        Point { line: (-history(grid)) as i32, column: 0 }
    } else if p.line >= grid_screen_lines(grid) {
        Point {
            line: (grid_screen_lines(grid) - 1) as i32,
            column: (grid_columns(grid) - 1) as usize,
        }
    } else if p.column >= grid_columns(grid) {
        Point { line: p.line, column: (grid_columns(grid) - 1) as usize }
    } else {
        p
    }
}

/// `Point::grid_clamp` with `Boundary::Grid`.
#[verifier::external_body]
pub(crate) fn clamp(grid: &Grid<EmuCell>, p: Point) -> (r: Point)
    requires
        sound(*grid),
    ensures
        r == clamped(*grid, p),
{
    let point = alacritty_terminal::index::Point::new(Line(p.line), Column(p.column));
    let moved = point.grid_clamp(grid, Boundary::Grid);
    Point { line: moved.line.0, column: moved.column.0 }
}

/// `Grid` indexed by a point, with `Cell::zerowidth` for the marks: the cell
/// that stands there. Past the grid it panics or reads another cell.
#[verifier::external_body]
fn read_cell(grid: &Grid<EmuCell>, p: Point) -> (r: RawCell)
    requires
        sound(*grid),
        inside(*grid, p),
    ensures
        r.c == grid_cells(*grid)[(p.line as int, p.column as int)].c,
        raw_is(r.fg, grid_cells(*grid)[(p.line as int, p.column as int)].fg),
        raw_is(r.bg, grid_cells(*grid)[(p.line as int, p.column as int)].bg),
        r.flags == grid_cells(*grid)[(p.line as int, p.column as int)].flags,
        r.marks@ == grid_cells(*grid)[(p.line as int, p.column as int)].marks,
{
    let cell = &grid[alacritty_terminal::index::Point::new(Line(p.line), Column(p.column))];
    let [fg, bg] = [cell.fg, cell.bg].map(|color| match color {
        EmuColor::Named(n) => RawColor::Named(n as u16),
        EmuColor::Spec(c) => RawColor::Spec(Rgb { r: c.r, g: c.g, b: c.b }),
        EmuColor::Indexed(i) => RawColor::Indexed(i),
    });
    let marks = cell.zerowidth().map_or(Vec::new(), |marks| marks.to_vec());
    RawCell { c: cell.c, fg, bg, flags: cell.flags.bits(), marks }
}

/// `Colors` indexed by number: the entry at `i`. The table has 269 entries and
/// panics past them.
#[verifier::external_body]
pub(crate) fn color_override(colors: &Colors, i: usize) -> (r: Option<Rgb>)
    requires
        i < PALETTE_LEN,
    ensures
        r == color_overrides(*colors)[i as int],
{
    colors[i].map(|c| Rgb { r: c.r, g: c.g, b: c.b })
}

/// The emulator's modes that a snapshot carries, and whether lines wrap.
#[derive(Clone, Copy, PartialEq, Eq, Debug, Structural)]
pub struct ModeFlags {
    pub show_cursor: bool,
    pub app_cursor: bool,
    pub app_keypad: bool,
    pub mouse_click: bool,
    pub bracketed_paste: bool,
    pub mouse_motion: bool,
    pub line_wrap: bool,
    pub alt_screen: bool,
    pub mouse_drag: bool,
}

/// Which modes are set in `bits`.
pub open spec fn mode_flags(bits: u32) -> ModeFlags {
    ModeFlags {
        show_cursor: bits & 0x1 == 0x1,
        app_cursor: bits & 0x2 == 0x2,
        app_keypad: bits & 0x4 == 0x4,
        mouse_click: bits & 0x8 == 0x8,
        bracketed_paste: bits & 0x10 == 0x10,
        mouse_motion: bits & 0x40 == 0x40,
        line_wrap: bits & 0x80 == 0x80,
        alt_screen: bits & 0x1000 == 0x1000,
        mouse_drag: bits & 0x2000 == 0x2000,
    }
}

/// `TermMode::contains`, asked of each of these modes.
#[verifier::external_body]
pub(crate) fn read_modes(bits: u32) -> (m: ModeFlags)
    ensures
        m == mode_flags(bits),
{
    let mode = TermMode::from_bits_retain(bits);
    ModeFlags {
        show_cursor: mode.contains(TermMode::SHOW_CURSOR),
        app_cursor: mode.contains(TermMode::APP_CURSOR),
        app_keypad: mode.contains(TermMode::APP_KEYPAD),
        mouse_click: mode.contains(TermMode::MOUSE_REPORT_CLICK),
        bracketed_paste: mode.contains(TermMode::BRACKETED_PASTE),
        mouse_motion: mode.contains(TermMode::MOUSE_MOTION),
        line_wrap: mode.contains(TermMode::LINE_WRAP),
        alt_screen: mode.contains(TermMode::ALT_SCREEN),
        mouse_drag: mode.contains(TermMode::MOUSE_DRAG),
    }
}

/// The flags of a cell that a snapshot carries.
#[derive(Clone, Copy, PartialEq, Eq, Debug, Structural)]
pub struct CellFlags {
    pub inverse: bool,
    pub bold: bool,
    pub italic: bool,
    pub spacer: bool,
    pub dim: bool,
    pub hidden: bool,
    pub strikeout: bool,
    pub leading_spacer: bool,
    pub underlined: bool,
}

/// Which flags are set in `bits`. Any of the five underline styles counts as
/// underlined.
pub open spec fn cell_flags(bits: u16) -> CellFlags {
    CellFlags {
        inverse: bits & 0x1 == 0x1,
        bold: bits & 0x2 == 0x2,
        italic: bits & 0x4 == 0x4,
        spacer: bits & 0x40 == 0x40,
        dim: bits & 0x80 == 0x80,
        hidden: bits & 0x100 == 0x100,
        strikeout: bits & 0x200 == 0x200,
        leading_spacer: bits & 0x400 == 0x400,
        underlined: bits & 0x7808 != 0,
    }
}

/// `Flags::contains`, asked of each flag that a snapshot carries, and
/// `Flags::intersects`, asked of the underline styles.
#[verifier::external_body]
pub(crate) fn read_flags(bits: u16) -> (f: CellFlags)
    ensures
        f == cell_flags(bits),
{
    let flags = Flags::from_bits_retain(bits);
    CellFlags {
        inverse: flags.contains(Flags::INVERSE),
        bold: flags.contains(Flags::BOLD),
        italic: flags.contains(Flags::ITALIC),
        spacer: flags.contains(Flags::WIDE_CHAR_SPACER),
        dim: flags.contains(Flags::DIM),
        hidden: flags.contains(Flags::HIDDEN),
        strikeout: flags.contains(Flags::STRIKEOUT),
        leading_spacer: flags.contains(Flags::LEADING_WIDE_CHAR_SPACER),
        underlined: flags.intersects(Flags::ALL_UNDERLINES),
    }
}

/// Whether a grid can be addressed.
pub fn is_sound(grid: &Grid<EmuCell>) -> (r: bool)
    ensures
        r == sound(*grid),
{
    let total: usize = total_lines(grid);
    columns(grid) >= 1 && screen_lines(grid) <= total && total <= i32::MAX as usize
}

/// How many lines of history a grid holds.
pub fn history_size(grid: &Grid<EmuCell>) -> (n: usize)
    requires
        sound(*grid),
    ensures
        n == history(*grid),
{
    total_lines(grid) - screen_lines(grid)
}

/// The oldest line a grid holds.
pub fn topmost_line(grid: &Grid<EmuCell>) -> (line: i32)
    requires
        sound(*grid),
    ensures
        line == -history(*grid),
{
    -(history_size(grid) as i32)
}

/// The colour that `raw` stands for.
fn color_of(raw: RawColor) -> (c: VteColor)
    requires
        exists|k: VteColor| raw_is(raw, k),
    ensures
        raw_is(raw, c),
{
    match raw {
        RawColor::Named(n) => match named_at(n) {
            Some(k) => VteColor::Named(k),
            None => {
                proof {
                    let k = choose|k: VteColor| raw_is(raw, k);
                    assert(slot(k->Named_0) == n);
                }
                VteColor::Indexed(0)
            },
        },
        RawColor::Spec(rgb) => VteColor::Spec(rgb),
        RawColor::Indexed(i) => VteColor::Indexed(i),
    }
}

/// A number stands for one colour only.
proof fn raw_is_one(raw: RawColor, a: VteColor, b: VteColor)
    requires
        raw_is(raw, a),
        raw_is(raw, b),
    ensures
        a == b,
{
    if raw is Named {
        named_slots_are_distinct(a->Named_0, b->Named_0);
    }
}

/// The cell at a point of the grid.
pub(crate) fn cell_inside(grid: &Grid<EmuCell>, p: Point) -> (cell: CellData)
    requires
        sound(*grid),
        inside(*grid, p),
    ensures
        cell@ == grid_cells(*grid)[(p.line as int, p.column as int)],
{
    let raw = read_cell(grid, p);
    let ghost held = grid_cells(*grid)[(p.line as int, p.column as int)];
    let fg = color_of(raw.fg);
    let bg = color_of(raw.bg);
    proof {
        raw_is_one(raw.fg, fg, held.fg);
        raw_is_one(raw.bg, bg, held.bg);
    }
    CellData { c: raw.c, fg, bg, flags: raw.flags, marks: raw.marks }
}

/// A grid can be addressed exactly if it has a column, its screen is part of it
/// and its lines are within reach; its history is then whatever is not on screen,
/// and its oldest line is that many above the first.
pub proof fn a_sound_grid_can_be_addressed(grid: Grid<EmuCell>, p: Point)
    ensures
        sound(grid) <==> grid_columns(grid) >= 1 && grid_screen_lines(grid) <= grid_total_lines(grid)
            && grid_total_lines(grid) <= 0x7fff_ffff,
        sound(grid) ==> grid_screen_lines(grid) + history(grid) == grid_total_lines(grid),
        inside(grid, p) <==> grid_screen_lines(grid) - grid_total_lines(grid) <= p.line
            && p.line < grid_screen_lines(grid) && p.column < grid_columns(grid),
        inside(grid, p) ==> clamped(grid, p) == p,
        sound(grid) && clamped(grid, p) == p && grid_screen_lines(grid) >= 1 ==> inside(grid, p),
{
}

} // verus!
