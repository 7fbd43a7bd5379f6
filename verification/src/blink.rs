//! Recovering the blink attribute that the emulator parses and throws away.
//!
//! Blink is recorded against an absolute point of the grid, whose line shifts
//! as content scrolls off the top: today's line 0 is tomorrow's line -1. The
//! plane is shifted by the same amount, and points that fall out of the grid
//! are dropped, because nothing can render them any more.

use std::collections::HashSet;

use alacritty_terminal::grid::Grid;
use alacritty_terminal::term::cell::Cell as EmuCell;
use vstd::prelude::*;

use crate::emulator::{
    cell_flags, clamped, grid_cells, grid_columns, grid_cursor, grid_needs_wrap,
    grid_screen_lines, grid_total_lines, history, inside, mode_flags, sound,
};
use crate::emulator::{
    clamp, columns, cursor_of, history_size, needs_wrap, read_flags, read_modes, screen_lines,
    topmost_line, CellData, CellView, Point,
};
use crate::grid::cell_at;
use crate::palette::{NamedColor, VteColor};

verus! {

/// A cell's line and column as one number, which is what the plane stores.
spec fn code(line: int, column: int) -> int {
    (line + 0x8000_0000) * 0x1_0000_0000_0000_0000 + column
}

/// Whether a line and a column are ones a point can have.
pub open spec fn addressable(p: (int, int)) -> bool {
    i32::MIN <= p.0 <= i32::MAX && 0 <= p.1 <= usize::MAX
}

/// The number for a point.
fn key(p: Point) -> (k: u128)
    ensures
        k == code(p.line as int, p.column as int),
{
    (p.line as i64 + 0x8000_0000) as u128 * 0x1_0000_0000_0000_0000 + p.column as u128
}

/// Where the point behind a number goes when the content moves up by `lines`:
/// nowhere, if that is above `topmost`.
spec fn moved_key(k: u128, lines: int, topmost: int) -> Option<u128> {
    let line = k / 0x1_0000_0000_0000_0000 - 0x8000_0000;
    let column = k % 0x1_0000_0000_0000_0000;
    if line <= i32::MAX && column <= usize::MAX && line - lines >= topmost {
        Some(code(line - lines, column as int) as u128)
    } else {
        None
    }
}

/// The point behind a number is the one the number was made from.
proof fn code_round_trip(p: (int, int))
    requires
        addressable(p),
    ensures
        0 <= code(p.0, p.1) <= u128::MAX,
        code(p.0, p.1) / 0x1_0000_0000_0000_0000 - 0x8000_0000 == p.0,
        code(p.0, p.1) % 0x1_0000_0000_0000_0000 == p.1,
{
}

/// A number stands for one point only.
proof fn code_is_injective(a: (int, int), b: (int, int))
    requires
        addressable(a),
        addressable(b),
        code(a.0, a.1) == code(b.0, b.1),
    ensures
        a == b,
{
}

/// Which cells are blinking, and whether blink is on right now.
#[derive(Debug)]
pub struct BlinkPlane {
    keys: HashSet<u128>,
    active: bool,
}

/// The points of `cells`, `lines` further up, that are still at or below
/// `topmost`.
pub open spec fn moved_up(cells: Set<(int, int)>, lines: int, topmost: int) -> Set<(int, int)> {
    Set::new(|p: (int, int)| p.0 >= topmost && cells.contains((p.0 + lines, p.1)))
}

impl BlinkPlane {
    /// The points that are blinking.
    pub closed spec fn cells(&self) -> Set<(int, int)> {
        Set::new(|p: (int, int)| addressable(p) && self.keys@.contains(code(p.0, p.1) as u128))
    }

    /// Whether what is written now blinks.
    pub closed spec fn is_active(&self) -> bool {
        self.active
    }

    /// A plane on which nothing blinks.
    pub fn new() -> (plane: BlinkPlane)
        ensures
            plane.cells() == Set::<(int, int)>::empty(),
            !plane.is_active(),
    {
        let plane = BlinkPlane { keys: HashSet::new(), active: false };
        assert(plane.cells() =~= Set::<(int, int)>::empty());
        plane
    }

    pub fn is_blinking(&self, point: Point) -> (r: bool)
        ensures
            r == self.cells().contains((point.line as int, point.column as int)),
    {
        self.keys.contains(&key(point))
    }

    /// Note that what stands at `point` blinks.
    fn insert(&mut self, point: Point)
        ensures
            final(self).cells() == old(self).cells().insert(
                (point.line as int, point.column as int),
            ),
            final(self).is_active() == old(self).is_active(),
    {
        let ghost before = self.cells();
        self.keys.insert(key(point));
        proof {
            let here = (point.line as int, point.column as int);
            assert forall|p: (int, int)|
                self.cells().contains(p) == before.insert(here).contains(p) by {
                if addressable(p) && code(p.0, p.1) == code(here.0, here.1) {
                    code_is_injective(p, here);
                }
            }
            assert(self.cells() =~= before.insert(here));
        }
    }

    /// Note that what stands at `point` does not blink.
    fn remove(&mut self, point: Point)
        ensures
            final(self).cells() == old(self).cells().remove(
                (point.line as int, point.column as int),
            ),
            final(self).is_active() == old(self).is_active(),
    {
        let ghost before = self.cells();
        self.keys.remove(&key(point));
        proof {
            let here = (point.line as int, point.column as int);
            assert forall|p: (int, int)|
                self.cells().contains(p) == before.remove(here).contains(p) by {
                if addressable(p) && code(p.0, p.1) == code(here.0, here.1) {
                    code_is_injective(p, here);
                }
            }
            assert(self.cells() =~= before.remove(here));
        }
    }

    /// A resize reflows the grid, so recorded positions no longer mean
    /// anything. Clearing is the honest answer; guessing would paint blink on
    /// cells that never had it.
    pub fn clear(&mut self)
        ensures
            final(self).cells() == Set::<(int, int)>::empty(),
            final(self).is_active() == old(self).is_active(),
    {
        self.keys.clear();
        assert(self.cells() =~= Set::<(int, int)>::empty());
    }

    /// Content scrolled off the top: every recorded point moves up by `lines`.
    ///
    /// Points that fall past the top of the grid are discarded rather than
    /// kept at a line nothing can address.
    pub fn scrolled(&mut self, lines: i32, topmost: i32)
        requires
            forall|p: (int, int)| #[trigger]
                old(self).cells().contains(p) ==> p.0 - lines <= i32::MAX,
        ensures
            final(self).cells() == (if lines == 0 {
                old(self).cells()
            } else {
                moved_up(old(self).cells(), lines as int, topmost as int)
            }),
            final(self).is_active() == old(self).is_active(),
    {
        if lines == 0 {
            return;
        }
        let ghost before = self.cells();
        let mut recorded: Vec<u128> = Vec::new();
        for k in it: self.keys.iter()
            invariant
                it.seq().unref().to_set() == self.keys@,
                forall|j: int| #![trigger it.seq()[j]]
                    0 <= j < it.index() ==> recorded@.contains(*it.seq()[j]),
                forall|i: int| #![trigger recorded@[i]]
                    0 <= i < recorded@.len() ==> self.keys@.contains(recorded@[i]),
                forall|m: u128| #[trigger]
                    self.keys@.contains(m) ==> exists|j: int|
                        #![trigger it.seq()[j]]
                        0 <= j < it.seq().len() && *it.seq()[j] == m,
        {
            proof {
                assert(it.seq().unref()[it.index() as int] == *k);
                assert(it.seq().unref().to_set().contains(*k));
                assert forall|j: int| #![trigger it.seq()[j]] 0 <= j <= it.index() implies
                    recorded@.push(*k).contains(*it.seq()[j]) by {
                    let m = *it.seq()[j];
                    if j < it.index() {
                        let i = choose|i: int| 0 <= i < recorded@.len() && recorded@[i] == m;
                        assert(recorded@.push(*k)[i] == m);
                    } else {
                        assert(recorded@.push(*k)[recorded@.len() as int] == m);
                    }
                }
            }
            recorded.push(*k);
        }
        assert(forall|m: u128| self.keys@.contains(m) ==> recorded@.contains(m));

        let mut kept: HashSet<u128> = HashSet::new();
        let mut i: usize = 0;
        while i < recorded.len()
            invariant
                i <= recorded@.len(),
                before == self.cells(),
                forall|p: (int, int)| #[trigger]
                    before.contains(p) ==> p.0 - lines <= i32::MAX,
                forall|j: int| #![trigger recorded@[j]]
                    0 <= j < recorded@.len() ==> self.keys@.contains(recorded@[j]),
                forall|j: int| #![trigger recorded@[j]]
                    0 <= j < i ==> match moved_key(recorded@[j], lines as int, topmost as int) {
                        Some(m) => kept@.contains(m),
                        None => true,
                    },
                forall|m: u128| #[trigger]
                    kept@.contains(m) ==> exists|j: int| #![trigger recorded@[j]]
                        0 <= j < i && moved_key(recorded@[j], lines as int, topmost as int) == Some(
                            m,
                        ),
            decreases recorded@.len() - i,
        {
            let k: u128 = recorded[i];
            let line: i128 = (k / 0x1_0000_0000_0000_0000) as i128 - 0x8000_0000;
            let column: u128 = k % 0x1_0000_0000_0000_0000;
            if line <= i32::MAX as i128 && column <= usize::MAX as u128 {
                let up: i128 = line - lines as i128;
                if up >= topmost as i128 {
                    proof {
                        assert(code(line as int, column as int) == k);
                        assert(before.contains((line as int, column as int)));
                    }
                    kept.insert((up + 0x8000_0000) as u128 * 0x1_0000_0000_0000_0000 + column);
                }
            }
            i += 1;
        }
        proof {
            let moved = moved_up(before, lines as int, topmost as int);
            let after = BlinkPlane { keys: kept, active: self.active };
            assert forall|p: (int, int)| after.cells().contains(p) == moved.contains(p) by {
                let from = (p.0 + lines, p.1);
                if moved.contains(p) {
                    code_round_trip(from);
                    let k = code(from.0, from.1) as u128;
                    assert(recorded@.contains(k));
                    let j = choose|j: int| 0 <= j < recorded@.len() && recorded@[j] == k;
                    assert(recorded@[j] == k);
                    assert(moved_key(k, lines as int, topmost as int) == Some(
                        code(p.0, p.1) as u128,
                    ));
                }
                if after.cells().contains(p) {
                    let m = code(p.0, p.1) as u128;
                    code_round_trip(p);
                    let j = choose|j: int|
                        #![trigger recorded@[j]]
                        0 <= j < recorded@.len() && moved_key(
                            recorded@[j],
                            lines as int,
                            topmost as int,
                        ) == Some(m);
                    let k = recorded@[j];
                    let was = (
                        k / 0x1_0000_0000_0000_0000 - 0x8000_0000,
                        (k % 0x1_0000_0000_0000_0000) as int,
                    );
                    assert(self.keys@.contains(k));
                    assert(code(was.0, was.1) == k);
                    assert(before.contains(was));
                    let now = (was.0 - lines, was.1);
                    code_round_trip(now);
                    code_is_injective(now, p);
                }
            }
            assert(after.cells() =~= moved);
        }
        self.keys = kept;
    }
}


/// A character attribute, as far as blink is concerned.
#[derive(Clone, Copy, PartialEq, Eq, Debug, Structural)]
pub enum Attr {
    Reset,
    BlinkSlow,
    BlinkFast,
    CancelBlink,
    /// Any other attribute.
    Other,
}

/// Where the emulator's next character goes, as far as its cursor says.
#[derive(Clone, Copy, PartialEq, Eq, Debug, Structural)]
pub struct Pen {
    pub point: Point,
    /// Whether the last character filled its line, so that the next one goes
    /// on the line below.
    pub wrap_pending: bool,
}

/// The pen of a grid.
pub fn pen_of(grid: &Grid<EmuCell>) -> (pen: Pen)
    ensures
        pen == (Pen { point: grid_cursor(*grid), wrap_pending: grid_needs_wrap(*grid) }),
{
    Pen { point: cursor_of(grid), wrap_pending: needs_wrap(grid) }
}

/// How many cells the emulator gives a character, when `ruler` is what it made
/// of one ordinary character at the start of a line and then that one: those
/// the cursor passed, none for one that was stacked on the first, and nothing
/// for one that left no trace.
pub open spec fn width_on(ruler: Grid<EmuCell>) -> Option<usize> {
    let start = Point { line: grid_cursor(ruler).line, column: 0 };
    if grid_cursor(ruler).column > 1 {
        Some((grid_cursor(ruler).column - 1) as usize)
    } else if inside(ruler, start) && grid_cells(ruler)[(start.line as int, 0)].marks.len() > 0 {
        Some(0)
    } else {
        None
    }
}

/// How many cells the emulator gives a character, as it shows on a ruler.
pub fn width_of(ruler: &Grid<EmuCell>) -> (width: Option<usize>)
    requires
        sound(*ruler),
    ensures
        width == width_on(*ruler),
{
    let cursor = cursor_of(ruler);
    if cursor.column > 1 {
        return Some(cursor.column - 1);
    }
    match cell_at(ruler, Point { line: cursor.line, column: 0 }) {
        Some(cell) => {
            if cell.marks.len() > 0 {
                Some(0)
            } else {
                None
            }
        },
        None => None,
    }
}

/// Whether a pending wrap is carried out. Where lines do not wrap, what comes
/// next is written over the last cell.
pub open spec fn wraps_first(pen: Pen, mode: u32) -> bool {
    pen.wrap_pending && mode_flags(mode).line_wrap
}

/// Whether a character of `width` cells has no room left on its line.
pub open spec fn lacks_room(pen: Pen, width: usize, mode: u32, columns: nat) -> bool {
    let column = if wraps_first(pen, mode) {
        0
    } else {
        pen.point.column as int
    };
    width >= 2 && column + 1 >= columns
}

/// How often the line wraps for a character of `width` cells: for a wrap that
/// was pending, and for a wide character that has no room.
pub open spec fn wraps_for(pen: Pen, width: usize, mode: u32, columns: nat) -> int {
    (if width >= 1 && wraps_first(pen, mode) {
        1int
    } else {
        0
    }) + (if lacks_room(pen, width, mode, columns) && mode_flags(mode).line_wrap {
        1int
    } else {
        0
    })
}

/// The column to the left, or the first.
pub open spec fn back(column: usize) -> usize {
    if column == 0 {
        0
    } else {
        (column - 1) as usize
    }
}

/// The cell a zero-width mark is stacked on: the last one written, or its
/// first half if it is wide.
pub open spec fn under_mark(pen: Pen, grid: Grid<EmuCell>) -> Point {
    let p = clamped(
        grid,
        Point {
            line: pen.point.line,
            column: if pen.wrap_pending {
                pen.point.column
            } else {
                back(pen.point.column)
            },
        },
    );
    if inside(grid, p) && cell_flags(
        grid_cells(grid)[(p.line as int, p.column as int)].flags,
    ).spacer {
        Point { line: p.line, column: back(p.column) }
    } else {
        p
    }
}

/// Where a character landed, when the emulator's pen and modes were `pen` and
/// `mode` before it and `grid` is what it left. One that the emulator discards
/// landed nowhere: a control character, and a wide one without room where
/// lines do not wrap.
pub open spec fn landing(
    pen: Pen,
    width: Option<usize>,
    mode: u32,
    grid: Grid<EmuCell>,
) -> Option<Point> {
    match width {
        None => None,
        Some(width) => if width == 0 {
            Some(under_mark(pen, grid))
        } else if lacks_room(pen, width, mode, grid_columns(grid)) && !mode_flags(mode).line_wrap {
            None
        } else {
            Some(
                clamped(
                    grid,
                    Point {
                        line: grid_cursor(grid).line,
                        column: if wraps_for(pen, width, mode, grid_columns(grid)) > 0 {
                            0
                        } else {
                            pen.point.column
                        },
                    },
                ),
            )
        },
    }
}

/// The cell a wide character without room left behind at the end of its line
/// for a placeholder, which is the line above the one it landed on.
pub open spec fn left_behind(
    pen: Pen,
    width: Option<usize>,
    mode: u32,
    grid: Grid<EmuCell>,
) -> Option<Point> {
    let p = Point {
        line: (grid_cursor(grid).line - 1) as i32,
        column: (grid_columns(grid) - 1) as usize,
    };
    match width {
        Some(w) => if lacks_room(pen, w, mode, grid_columns(grid)) && mode_flags(mode).line_wrap
            && grid_cursor(grid).line > i32::MIN && inside(grid, p) {
            Some(p)
        } else {
            None
        },
        None => None,
    }
}

/// `cells` with `point` among them if `active`, and not if not.
pub open spec fn tagged(
    cells: Set<(int, int)>,
    point: Option<Point>,
    active: bool,
) -> Set<(int, int)> {
    match point {
        Some(p) => if active {
            cells.insert((p.line as int, p.column as int))
        } else {
            cells.remove((p.line as int, p.column as int))
        },
        None => cells,
    }
}

/// How many lines an explicit scroll by `lines` moves at most: the emulator
/// scrolls no further than its screen is high.
pub open spec fn at_most_a_screen(lines: usize, grid: Grid<EmuCell>) -> int {
    if lines <= grid_screen_lines(grid) {
        lines as int
    } else {
        grid_screen_lines(grid) as int
    }
}

/// Whether a cell shows nothing: a space or a tab in the default colours, with
/// no mark on it and no flag that would show.
pub open spec fn is_blank(cell: CellView) -> bool {
    &&& cell.c == ' ' || cell.c == '\t'
    &&& cell.bg == VteColor::Named(NamedColor::Background)
    &&& cell.fg == VteColor::Named(NamedColor::Foreground)
    &&& cell.flags & 0x7e59 == 0
    &&& cell.marks.len() == 0
}

/// Whether a cell shows nothing.
fn blank(cell: &CellData) -> (r: bool)
    ensures
        r == is_blank(cell@),
{
    (cell.c == ' ' || cell.c == '\t') && cell.bg == VteColor::Named(NamedColor::Background)
        && cell.fg == VteColor::Named(NamedColor::Foreground) && cell.flags & 0x7e59 == 0
        && cell.marks.len() == 0
}

/// Whether a line of the screen shows anything.
pub open spec fn line_shows(grid: Grid<EmuCell>, line: int) -> bool {
    exists|column: int|
        0 <= column < grid_columns(grid) && !is_blank(#[trigger] grid_cells(grid)[(line, column)])
}

/// The first `n` lines of the screen without the last ones that show nothing:
/// how many there are.
pub open spec fn shown_of(grid: Grid<EmuCell>, n: nat) -> nat
    decreases n,
{
    if n == 0 {
        0
    } else if line_shows(grid, n - 1) {
        n
    } else {
        shown_of(grid, (n - 1) as nat)
    }
}

/// How many lines the emulator moves into history when it clears `grid`: down
/// to the last one that shows anything, and the first one in any case where
/// there is no history yet.
pub open spec fn moved_by_clear(grid: Grid<EmuCell>) -> nat {
    let shown = shown_of(grid, grid_screen_lines(grid));
    if shown == 0 && history(grid) == 0 {
        1
    } else {
        shown
    }
}

/// Whether a line of the screen shows anything.
fn shows(grid: &Grid<EmuCell>, line: i32) -> (r: bool)
    requires
        sound(*grid),
        0 <= line < grid_screen_lines(*grid),
    ensures
        r == line_shows(*grid, line as int),
{
    let width: usize = columns(grid);
    let mut column: usize = 0;
    while column < width
        invariant
            sound(*grid),
            0 <= line < grid_screen_lines(*grid),
            width == grid_columns(*grid),
            column <= width,
            forall|c: int|
                0 <= c < column ==> is_blank(#[trigger] grid_cells(*grid)[(line as int, c)]),
        decreases width - column,
    {
        if let Some(cell) = cell_at(grid, Point { line, column }) {
            if !blank(&cell) {
                assert(!is_blank(grid_cells(*grid)[(line as int, column as int)]));
                return true;
            }
        }
        column += 1;
    }
    false
}

/// How many lines the emulator is about to move into history by clearing
/// `grid`. Asked before it does, because the history's own size stops growing
/// once it is full.
pub fn lines_to_clear(grid: &Grid<EmuCell>) -> (lines: usize)
    requires
        sound(*grid),
    ensures
        lines == moved_by_clear(*grid),
{
    let mut n: usize = screen_lines(grid);
    while n > 0
        invariant_except_break
            shown_of(*grid, n as nat) == shown_of(*grid, grid_screen_lines(*grid)),
        invariant
            sound(*grid),
            n <= grid_screen_lines(*grid),
        ensures
            n == shown_of(*grid, grid_screen_lines(*grid)),
        decreases n,
    {
        if shows(grid, (n - 1) as i32) {
            break;
        }
        n -= 1;
    }
    if n == 0 && history_size(grid) == 0 {
        1
    } else {
        n
    }
}

/// How many lines scrolled off as a line wrapped `wraps` times, from a cursor
/// on line `before` to that of `grid`: every wrap that did not take the cursor
/// a line down. The alternate screen has no history.
pub open spec fn scrolled_by(wraps: int, before: i32, mode: u32, grid: Grid<EmuCell>) -> int {
    let left = wraps - (grid_cursor(grid).line - before);
    if mode_flags(mode).alt_screen || left <= 0 {
        0
    } else if left < wraps {
        left
    } else {
        wraps
    }
}

/// One call that the parser makes on the emulator, as it is recorded. The pen
/// and the modes are those before the call, and the grid is what it left.
pub enum TapCall {
    Input { pen: Pen, width: Option<usize>, mode: u32, grid: Grid<EmuCell> },
    PutTab { pen: Pen, mode: u32, grid: Grid<EmuCell> },
    Linefeed { before: i32, mode: u32, grid: Grid<EmuCell> },
    ScrollUp { lines: usize, mode: u32, grid: Grid<EmuCell> },
    DeleteLines { before: i32, lines: usize, mode: u32, grid: Grid<EmuCell> },
    ClearScreen { lines: usize, mode: u32, grid: Grid<EmuCell> },
    Attribute { attr: Attr },
}

/// What is recorded as the parser drives the emulator: the blink plane, and a
/// count of lines that scrolled off the top.
///
/// The count has to be kept here. The emulator has no monotonic scrolled-off
/// counter: the size of its history stops growing once the ring is full. It
/// counts what a line feed, a wrap, an explicit scroll, a deletion at the top
/// or a clear of the screen pushes off.
#[derive(Debug)]
pub struct BlinkTap {
    pub blink: BlinkPlane,
    pub scrolled: u64,
}

impl BlinkTap {
    /// The points that blink after `lines` lines of `grid` have scrolled off.
    pub open spec fn cells_after(&self, lines: int, grid: Grid<EmuCell>) -> Set<(int, int)> {
        if lines == 0 {
            self.blink.cells()
        } else {
            moved_up(
                self.blink.cells(),
                if lines <= i32::MAX {
                    lines
                } else {
                    i32::MAX as int
                },
                -history(grid),
            )
        }
    }

    /// The count after `lines` lines have scrolled off.
    pub open spec fn count_after(&self, lines: int) -> u64 {
        if self.scrolled + lines <= u64::MAX {
            (self.scrolled + lines) as u64
        } else {
            u64::MAX
        }
    }

    /// Nothing blinks and nothing has scrolled.
    pub fn new() -> (tap: BlinkTap)
        ensures
            tap.blink.cells() == Set::<(int, int)>::empty(),
            !tap.blink.is_active(),
            tap.scrolled == 0,
    {
        BlinkTap { blink: BlinkPlane::new(), scrolled: 0 }
    }

    /// `lines` lines have scrolled off the top of `grid`.
    fn note_scroll(&mut self, lines: u64, grid: &Grid<EmuCell>)
        requires
            sound(*grid),
        ensures
            final(self).scrolled == old(self).count_after(lines as int),
            final(self).blink.cells() == old(self).cells_after(lines as int, *grid),
            final(self).blink.is_active() == old(self).blink.is_active(),
    {
        if lines == 0 {
            return;
        }
        self.scrolled = self.scrolled.saturating_add(lines);
        let topmost: i32 = topmost_line(grid);
        let shift: i32 = if lines <= i32::MAX as u64 {
            lines as i32
        } else {
            i32::MAX
        };
        self.blink.scrolled(shift, topmost);
    }

    /// The line wrapped `wraps` times, which left the emulator with `grid`;
    /// before it the cursor was on line `before` and the modes were `mode`.
    fn note_wraps(&mut self, wraps: u64, before: i32, mode: u32, grid: &Grid<EmuCell>)
        requires
            sound(*grid),
            wraps <= 2,
        ensures
            ({
                let lines = scrolled_by(wraps as int, before, mode, *grid);
                &&& final(self).scrolled == old(self).count_after(lines)
                &&& final(self).blink.cells() == old(self).cells_after(lines, *grid)
            }),
            final(self).blink.is_active() == old(self).blink.is_active(),
    {
        if read_modes(mode).alt_screen {
            return;
        }
        let left: i64 = wraps as i64 - (cursor_of(grid).line as i64 - before as i64);
        if left > 0 {
            let lines: u64 = if left < wraps as i64 {
                left as u64
            } else {
                wraps
            };
            self.note_scroll(lines, grid);
        }
    }

    /// The cell a zero-width mark is stacked on.
    fn marked(pen: Pen, grid: &Grid<EmuCell>) -> (p: Point)
        requires
            sound(*grid),
        ensures
            p == under_mark(pen, *grid),
    {
        let column: usize = if pen.wrap_pending || pen.point.column == 0 {
            pen.point.column
        } else {
            pen.point.column - 1
        };
        let p = clamp(grid, Point { line: pen.point.line, column });
        let spacer = match cell_at(grid, p) {
            Some(cell) => read_flags(cell.flags).spacer,
            None => false,
        };
        if spacer && p.column > 0 {
            Point { line: p.line, column: p.column - 1 }
        } else {
            p
        }
    }

    /// The emulator has taken a character of `width` cells, which left it with
    /// `grid`; before it the pen was `pen` and the modes were `mode`.
    ///
    /// The cell it landed on blinks from now on if blink is on, and does not
    /// if it is off. That is not always the cell the cursor was on: a pending
    /// wrap comes first, a wide character without room goes on the next line,
    /// and a zero-width mark joins the character before it. The placeholder
    /// that such a wide character leaves behind is written with it. A wrap on
    /// the last line scrolls, as a line feed there does.
    pub fn input(&mut self, pen: Pen, width: Option<usize>, mode: u32, grid: &Grid<EmuCell>)
        requires
            sound(*grid),
        ensures
            tap_step(
                *old(self),
                TapCall::Input { pen, width, mode, grid: *grid },
                *final(self),
            ),
    {
        let width: usize = match width {
            Some(w) => w,
            None => {
                return;
            },
        };
        let point = if width == 0 {
            Self::marked(pen, grid)
        } else {
            let wrapping = read_modes(mode).line_wrap;
            let first = pen.wrap_pending && wrapping;
            let column: usize = if first {
                0
            } else {
                pen.point.column
            };
            let cramped = width >= 2 && column as u128 + 1 >= columns(grid) as u128;
            if cramped && !wrapping {
                return;
            }
            let wraps: u64 = (if first {
                1
            } else {
                0
            }) + (if cramped {
                1
            } else {
                0
            });
            self.note_wraps(wraps, pen.point.line, mode, grid);
            let line: i32 = cursor_of(grid).line;
            if cramped && line > i32::MIN {
                let left = Point { line: line - 1, column: columns(grid) - 1 };
                if clamp(grid, left) == left {
                    self.tag(left);
                }
            }
            let column: usize = if wraps > 0 {
                0
            } else {
                pen.point.column
            };
            clamp(grid, Point { line, column })
        };
        self.tag(point);
    }

    /// What stands at `point` was written just now.
    fn tag(&mut self, point: Point)
        ensures
            final(self).blink.cells() == tagged(
                old(self).blink.cells(),
                Some(point),
                old(self).blink.is_active(),
            ),
            final(self).blink.is_active() == old(self).blink.is_active(),
            final(self).scrolled == old(self).scrolled,
    {
        if self.blink.active {
            self.blink.insert(point);
        } else {
            self.blink.remove(point);
        }
    }

    /// The emulator has taken a tab, which left it with `grid`; before it the
    /// pen was `pen` and the modes were `mode`. Where a wrap is pending a tab
    /// is that wrap and nothing else.
    pub fn put_tab(&mut self, pen: Pen, mode: u32, grid: &Grid<EmuCell>)
        requires
            sound(*grid),
        ensures
            tap_step(*old(self), TapCall::PutTab { pen, mode, grid: *grid }, *final(self)),
    {
        if pen.wrap_pending && read_modes(mode).line_wrap {
            self.note_wraps(1, pen.point.line, mode, grid);
        }
    }

    /// The emulator has done a line feed, which left it with `grid`; before it
    /// the cursor was on line `before` and the modes were `mode`.
    ///
    /// On a line feed the cursor moves down one line unless it is already at
    /// the bottom of the scrolling region, in which case it stays put and the
    /// grid scrolls. So "the cursor did not move" is "a line scrolled off".
    /// The alternate screen has no history, so scrolls there are not counted.
    pub fn linefeed(&mut self, before: i32, mode: u32, grid: &Grid<EmuCell>)
        requires
            sound(*grid),
        ensures
            tap_step(*old(self), TapCall::Linefeed { before, mode, grid: *grid }, *final(self)),
    {
        if !read_modes(mode).alt_screen && cursor_of(grid).line == before {
            self.note_scroll(1, grid);
        }
    }

    /// The emulator has scrolled its region up by `lines`, which left it with
    /// `grid`; before it the modes were `mode`.
    ///
    /// The displaced lines enter history when the region starts at the top of
    /// the screen. The region is not visible from here, so they are counted
    /// always, as many as the screen is high at most.
    pub fn scroll_up(&mut self, lines: usize, mode: u32, grid: &Grid<EmuCell>)
        requires
            sound(*grid),
        ensures
            tap_step(*old(self), TapCall::ScrollUp { lines, mode, grid: *grid }, *final(self)),
    {
        if !read_modes(mode).alt_screen {
            self.note_displaced(lines, grid);
        }
    }

    /// `lines` lines were to leave the top of `grid`.
    fn note_displaced(&mut self, lines: usize, grid: &Grid<EmuCell>)
        requires
            sound(*grid),
        ensures
            only_scrolled(*old(self), at_most_a_screen(lines, *grid), *grid, *final(self)),
    {
        let high: usize = screen_lines(grid);
        let lines: usize = if lines <= high {
            lines
        } else {
            high
        };
        self.note_scroll(lines as u64, grid);
    }

    /// The emulator has deleted `lines` lines from the cursor's on, which left
    /// it with `grid`; before it the cursor was on line `before` and the modes
    /// were `mode`.
    ///
    /// What is deleted from the top of the screen enters history like what
    /// scrolls off it, and is counted like it, whatever the scrolling region.
    pub fn delete_lines(&mut self, before: i32, lines: usize, mode: u32, grid: &Grid<EmuCell>)
        requires
            sound(*grid),
        ensures
            tap_step(
                *old(self),
                TapCall::DeleteLines { before, lines, mode, grid: *grid },
                *final(self),
            ),
    {
        if before == 0 && !read_modes(mode).alt_screen {
            self.note_displaced(lines, grid);
        }
    }

    /// The emulator has cleared its whole screen, which left it with `grid`;
    /// before it there were `lines` lines to clear and the modes were `mode`.
    ///
    /// On the primary screen what was there enters history.
    pub fn clear_screen(&mut self, lines: usize, mode: u32, grid: &Grid<EmuCell>)
        requires
            sound(*grid),
        ensures
            tap_step(*old(self), TapCall::ClearScreen { lines, mode, grid: *grid }, *final(self)),
    {
        if !read_modes(mode).alt_screen {
            self.note_scroll(lines as u64, grid);
        }
    }

    /// A character attribute is set. SGR 5 and 6 turn blink on, 25 turns it
    /// off, and a reset cancels it like every other attribute.
    pub fn terminal_attribute(&mut self, attr: Attr)
        ensures
            tap_step(*old(self), TapCall::Attribute { attr }, *final(self)),
    {
        match attr {
            Attr::BlinkSlow | Attr::BlinkFast => {
                self.blink.active = true;
            },
            Attr::CancelBlink | Attr::Reset => {
                self.blink.active = false;
            },
            Attr::Other => {},
        }
    }
}

/// Whether `after` is `before` with `lines` lines scrolled off and nothing
/// else recorded.
pub open spec fn only_scrolled(
    before: BlinkTap,
    lines: int,
    grid: Grid<EmuCell>,
    after: BlinkTap,
) -> bool {
    &&& after.scrolled == before.count_after(lines)
    &&& after.blink.cells() == before.cells_after(lines, grid)
    &&& after.blink.is_active() == before.blink.is_active()
}

/// Whether recording `call` takes `before` to `after`.
pub open spec fn tap_step(before: BlinkTap, call: TapCall, after: BlinkTap) -> bool {
    match call {
        TapCall::Input { pen, width, mode, grid } => {
            let wraps = match width {
                Some(w) => wraps_for(pen, w, mode, grid_columns(grid)),
                None => 0,
            };
            let lines = scrolled_by(wraps, pen.point.line, mode, grid);
            let active = before.blink.is_active();
            let cells = before.cells_after(lines, grid);
            &&& after.scrolled == before.count_after(lines)
            &&& after.blink.cells() == tagged(
                tagged(cells, left_behind(pen, width, mode, grid), active),
                landing(pen, width, mode, grid),
                active,
            )
            &&& after.blink.is_active() == before.blink.is_active()
        },
        TapCall::PutTab { pen, mode, grid } => only_scrolled(
            before,
            if wraps_first(pen, mode) {
                scrolled_by(1, pen.point.line, mode, grid)
            } else {
                0
            },
            grid,
            after,
        ),
        TapCall::Linefeed { before: line, mode, grid } => only_scrolled(
            before,
            if !mode_flags(mode).alt_screen && grid_cursor(grid).line == line {
                1
            } else {
                0
            },
            grid,
            after,
        ),
        TapCall::ScrollUp { lines, mode, grid } => only_scrolled(
            before,
            if mode_flags(mode).alt_screen {
                0
            } else {
                at_most_a_screen(lines, grid)
            },
            grid,
            after,
        ),
        TapCall::DeleteLines { before: line, lines, mode, grid } => only_scrolled(
            before,
            if line == 0 && !mode_flags(mode).alt_screen {
                at_most_a_screen(lines, grid)
            } else {
                0
            },
            grid,
            after,
        ),
        TapCall::ClearScreen { lines, mode, grid } => only_scrolled(
            before,
            if mode_flags(mode).alt_screen {
                0
            } else {
                lines as int
            },
            grid,
            after,
        ),
        TapCall::Attribute { attr } => {
            &&& after.blink.is_active() == (match attr {
                Attr::BlinkSlow | Attr::BlinkFast => true,
                Attr::CancelBlink | Attr::Reset => false,
                Attr::Other => before.blink.is_active(),
            })
            &&& after.blink.cells() == before.blink.cells()
            &&& after.scrolled == before.scrolled
        },
    }
}

/// No call takes the count of scrolled lines down.
pub proof fn no_call_lowers_the_count(before: BlinkTap, call: TapCall, after: BlinkTap)
    requires
        tap_step(before, call, after),
    ensures
        after.scrolled >= before.scrolled,
{
}

/// A character written where a wrap is pending lands at the start of a line;
/// if the wrap left the cursor on its line, on the primary screen, one line
/// more has scrolled off, and everything that blinked has moved up by it.
pub proof fn a_wrap_on_the_last_line_scrolls(
    before: BlinkTap,
    pen: Pen,
    mode: u32,
    grid: Grid<EmuCell>,
    after: BlinkTap,
)
    requires
        sound(grid),
        tap_step(before, TapCall::Input { pen, width: Some(1), mode, grid }, after),
        pen.wrap_pending,
        mode_flags(mode).line_wrap,
        !mode_flags(mode).alt_screen,
        inside(grid, grid_cursor(grid)),
    ensures
        landing(pen, Some(1), mode, grid) == Some(
            Point { line: grid_cursor(grid).line, column: 0 },
        ),
        grid_cursor(grid).line == pen.point.line ==> after.scrolled == before.count_after(1)
            && after.blink.cells().remove((pen.point.line as int, 0)) == before.cells_after(
            1,
            grid,
        ).remove((pen.point.line as int, 0)),
        grid_cursor(grid).line == pen.point.line + 1 ==> after.scrolled == before.scrolled,
{
    let here = (pen.point.line as int, 0int);
    let moved = before.cells_after(1, grid);
    assert(moved.insert(here).remove(here) =~= moved.remove(here));
    assert(moved.remove(here).remove(here) =~= moved.remove(here));
}

/// The count of scrolled lines never goes down, whatever scrolls.
pub proof fn the_count_never_shrinks(tap: BlinkTap, lines: int)
    requires
        0 <= lines,
    ensures
        tap.count_after(lines) >= tap.scrolled,
        tap.scrolled + lines <= u64::MAX ==> tap.count_after(lines) == tap.scrolled + lines,
{
}

/// Scrolling twice moves the plane as scrolling once by the sum does, as long
/// as history grew by no more than what scrolled the second time.
pub proof fn scrolls_add_up(cells: Set<(int, int)>, a: int, b: int, first: int, second: int)
    requires
        first <= second + b,
    ensures
        moved_up(moved_up(cells, a, first), b, second) == moved_up(cells, a + b, second),
{
    assert(moved_up(moved_up(cells, a, first), b, second) =~= moved_up(cells, a + b, second)) by {
        assert forall|p: (int, int)|
            moved_up(moved_up(cells, a, first), b, second).contains(p) == moved_up(
                cells,
                a + b,
                second,
            ).contains(p) by {
            assert(p.0 + b + a == p.0 + (a + b));
        }
    }
}

/// Nothing that blinks is left above the top of the grid after a scroll.
pub proof fn nothing_blinks_above_the_grid(
    cells: Set<(int, int)>,
    lines: int,
    topmost: int,
    p: (int, int),
)
    requires
        p.0 < topmost,
    ensures
        !moved_up(cells, lines, topmost).contains(p),
{
}

/// Whether `after` has everything that blinked in `before` where `n` scrolled
/// lines take it, point by point, `spared` apart, and counts them as far as the
/// count goes.
pub open spec fn moved_by(
    before: BlinkTap,
    n: int,
    grid: Grid<EmuCell>,
    after: BlinkTap,
    spared: Set<(int, int)>,
) -> bool {
    &&& before.scrolled + n <= 0xffff_ffff_ffff_ffff ==> after.scrolled == before.scrolled + n
    &&& before.scrolled + n > 0xffff_ffff_ffff_ffff ==> after.scrolled == 0xffff_ffff_ffff_ffff
    &&& n == 0 ==> forall|p: (int, int)|
        !spared.contains(p) ==> #[trigger] after.blink.cells().contains(p)
            == before.blink.cells().contains(p)
    &&& 0 < n <= 0x7fff_ffff ==> forall|p: (int, int)|
        !spared.contains(p) ==> (#[trigger] after.blink.cells().contains(p) <==> p.0 >= -(
        grid_total_lines(grid) - grid_screen_lines(grid)) && before.blink.cells().contains(
            (p.0 + n, p.1),
        ))
    &&& after.blink.is_active() == before.blink.is_active()
}

/// A character that has room, on a line that does not wrap first, blinks where
/// the pen was exactly if blink is on, and nothing else changes.
pub proof fn a_character_blinks_where_the_pen_was(
    before: BlinkTap,
    pen: Pen,
    width: usize,
    mode: u32,
    grid: Grid<EmuCell>,
    after: BlinkTap,
)
    requires
        sound(grid),
        tap_step(before, TapCall::Input { pen, width: Some(width), mode, grid }, after),
        width >= 1,
        !pen.wrap_pending || mode & 0x80 != 0x80,
        width == 1 || pen.point.column + 1 < grid_columns(grid),
        pen.point.column < grid_columns(grid),
        grid_cursor(grid).line == pen.point.line,
        0 <= pen.point.line < grid_screen_lines(grid),
    ensures
        ({
            let here = (pen.point.line as int, pen.point.column as int);
            &&& after.blink.cells().contains(here) <==> before.blink.is_active()
            &&& moved_by(before, 0, grid, after, set![here])
        }),
{
}

/// A character behind a pending wrap blinks at the start of the line the cursor
/// went to, exactly if blink is on. If the wrap took the cursor a line down, or
/// on the alternate screen, nothing scrolled; if it left it on its line, one line
/// did, and everything that blinked is one line further up.
pub proof fn a_wrapped_character_blinks_at_the_start(
    before: BlinkTap,
    pen: Pen,
    width: usize,
    mode: u32,
    grid: Grid<EmuCell>,
    after: BlinkTap,
)
    requires
        sound(grid),
        tap_step(before, TapCall::Input { pen, width: Some(width), mode, grid }, after),
        width >= 1,
        width == 1 || grid_columns(grid) >= 2,
        pen.wrap_pending,
        mode & 0x80 == 0x80,
        0 <= grid_cursor(grid).line < grid_screen_lines(grid),
        grid_cursor(grid).line == pen.point.line || grid_cursor(grid).line == pen.point.line + 1,
    ensures
        ({
            let here = (grid_cursor(grid).line as int, 0int);
            let n = if grid_cursor(grid).line == pen.point.line && mode & 0x1000 != 0x1000 {
                1int
            } else {
                0
            };
            &&& after.blink.cells().contains(here) <==> before.blink.is_active()
            &&& moved_by(before, n, grid, after, set![here])
        }),
{
}

/// A wide character that has no room left on its line goes to the start of the
/// next where lines wrap: it and the placeholder it leaves at the end of its own
/// line blink exactly if blink is on, and a line scrolls if the cursor stayed on
/// its line, the primary screen given. Where lines do not wrap it is discarded.
pub proof fn a_wide_character_without_room_goes_down(
    before: BlinkTap,
    pen: Pen,
    mode: u32,
    grid: Grid<EmuCell>,
    after: BlinkTap,
)
    requires
        sound(grid),
        tap_step(before, TapCall::Input { pen, width: Some(2), mode, grid }, after),
        !pen.wrap_pending,
        pen.point.column + 1 == grid_columns(grid),
        0 <= grid_cursor(grid).line < grid_screen_lines(grid),
        grid_cursor(grid).line == pen.point.line || grid_cursor(grid).line == pen.point.line + 1,
        grid_cursor(grid).line >= 1 || grid_total_lines(grid) > grid_screen_lines(grid),
    ensures
        mode & 0x80 == 0x80 ==> ({
            let here = (grid_cursor(grid).line as int, 0int);
            let left = (grid_cursor(grid).line - 1, grid_columns(grid) - 1);
            let n = if grid_cursor(grid).line == pen.point.line && mode & 0x1000 != 0x1000 {
                1int
            } else {
                0
            };
            &&& after.blink.cells().contains(here) <==> before.blink.is_active()
            &&& after.blink.cells().contains(left) <==> before.blink.is_active()
            &&& moved_by(before, n, grid, after, set![here, left])
        }),
        mode & 0x80 != 0x80 ==> moved_by(before, 0, grid, after, Set::empty()),
{
    let here = (grid_cursor(grid).line as int, 0int);
    let left = (grid_cursor(grid).line - 1, grid_columns(grid) - 1);
    assert(here != left);
}

/// A zero-width mark blinks with the character it is stacked on: the one before
/// the pen, or under it where a wrap is pending, and the first half of that one
/// if it is wide. Nothing scrolls and nothing else changes.
pub proof fn a_mark_blinks_with_what_it_is_on(
    before: BlinkTap,
    pen: Pen,
    mode: u32,
    grid: Grid<EmuCell>,
    after: BlinkTap,
)
    requires
        sound(grid),
        tap_step(before, TapCall::Input { pen, width: Some(0), mode, grid }, after),
        0 <= pen.point.line < grid_screen_lines(grid),
        pen.point.column < grid_columns(grid),
    ensures
        ({
            let line = pen.point.line as int;
            let under = if pen.wrap_pending || pen.point.column == 0 {
                pen.point.column as int
            } else {
                pen.point.column - 1
            };
            let wide = grid_cells(grid)[(line, under)].flags & 0x40 == 0x40;
            let here = (
                line,
                if wide && under >= 1 {
                    under - 1
                } else {
                    under
                },
            );
            &&& after.blink.cells().contains(here) <==> before.blink.is_active()
            &&& moved_by(before, 0, grid, after, set![here])
        }),
{
}

/// What leaves no trace on the grid leaves none here: a control character
/// changes nothing.
pub proof fn a_control_character_changes_nothing(
    before: BlinkTap,
    pen: Pen,
    mode: u32,
    grid: Grid<EmuCell>,
    after: BlinkTap,
)
    requires
        tap_step(before, TapCall::Input { pen, width: None, mode, grid }, after),
    ensures
        moved_by(before, 0, grid, after, Set::empty()),
{
}

/// Nothing scrolls off the alternate screen. On the primary one a line feed
/// scrolls one line exactly if it left the cursor where it was, a tab one line
/// exactly if it was a wrap that did, an explicit scroll as many as it was asked
/// for and a deletion as many if it began on the top line, each up to a screen,
/// and a clear as many as there were to clear. What blinked moves with them.
pub proof fn what_scrolls_moves_what_blinks(before: BlinkTap, call: TapCall, after: BlinkTap)
    requires
        tap_step(before, call, after),
    ensures
        call matches TapCall::Linefeed { before: line, mode, grid } ==> moved_by(
            before,
            if grid_cursor(grid).line == line && mode & 0x1000 != 0x1000 {
                1
            } else {
                0
            },
            grid,
            after,
            Set::empty(),
        ),
        call matches TapCall::PutTab { pen, mode, grid } ==> (grid_cursor(grid).line
            == pen.point.line || grid_cursor(grid).line == pen.point.line + 1 ==> moved_by(
            before,
            if pen.wrap_pending && mode & 0x80 == 0x80 && mode & 0x1000 != 0x1000 && grid_cursor(
                grid,
            ).line == pen.point.line {
                1
            } else {
                0
            },
            grid,
            after,
            Set::empty(),
        )),
        call matches TapCall::ScrollUp { lines, mode, grid } ==> moved_by(
            before,
            if mode & 0x1000 == 0x1000 {
                0
            } else if lines < grid_screen_lines(grid) {
                lines as int
            } else {
                grid_screen_lines(grid) as int
            },
            grid,
            after,
            Set::empty(),
        ),
        call matches TapCall::DeleteLines { before: line, lines, mode, grid } ==> moved_by(
            before,
            if line != 0 || mode & 0x1000 == 0x1000 {
                0
            } else if lines < grid_screen_lines(grid) {
                lines as int
            } else {
                grid_screen_lines(grid) as int
            },
            grid,
            after,
            Set::empty(),
        ),
        call matches TapCall::ClearScreen { lines, mode, grid } ==> moved_by(
            before,
            if mode & 0x1000 == 0x1000 {
                0
            } else {
                lines as int
            },
            grid,
            after,
            Set::empty(),
        ),
{
}

/// Blink is turned on by either of its two attributes, off by its own cancel or
/// by a reset, and by nothing else; turning it touches nothing already written.
pub proof fn blink_is_turned_by_its_own_attributes(before: BlinkTap, attr: Attr, after: BlinkTap)
    requires
        tap_step(before, TapCall::Attribute { attr }, after),
    ensures
        attr == Attr::BlinkSlow || attr == Attr::BlinkFast ==> after.blink.is_active(),
        attr == Attr::CancelBlink || attr == Attr::Reset ==> !after.blink.is_active(),
        attr == Attr::Other ==> after.blink.is_active() == before.blink.is_active(),
        after.blink.cells() == before.blink.cells(),
        after.scrolled == before.scrolled,
{
}

/// A character is as wide as the cursor moved past the first one on the ruler,
/// no cells wide if it was stacked on that one, and of no width if it left no
/// trace.
pub proof fn a_ruler_shows_a_width(ruler: Grid<EmuCell>)
    requires
        sound(ruler),
        0 <= grid_cursor(ruler).line < grid_screen_lines(ruler),
    ensures
        grid_cursor(ruler).column >= 2 ==> width_on(ruler) == Some(
            (grid_cursor(ruler).column - 1) as usize,
        ),
        grid_cursor(ruler).column < 2 && grid_cells(ruler)[(
            grid_cursor(ruler).line as int,
            0,
        )].marks.len() > 0 ==> width_on(ruler) == Some(0usize),
        grid_cursor(ruler).column < 2 && grid_cells(ruler)[(
            grid_cursor(ruler).line as int,
            0,
        )].marks.len() == 0 ==> width_on(ruler) is None,
{
}

/// A clear moves every line down to the last that shows anything, and the first
/// one in any case where there is no history yet.
pub proof fn a_clear_moves_what_shows(grid: Grid<EmuCell>, line: int)
    requires
        sound(grid),
    ensures
        moved_by_clear(grid) < line < grid_screen_lines(grid) ==> !line_shows(grid, line),
        moved_by_clear(grid) >= 2 ==> line_shows(grid, moved_by_clear(grid) - 1),
        moved_by_clear(grid) == 1 ==> line_shows(grid, 0) || (grid_total_lines(grid)
            == grid_screen_lines(grid)),
        moved_by_clear(grid) == 0 ==> grid_total_lines(grid) > grid_screen_lines(grid),
        0 <= line < grid_screen_lines(grid) && line_shows(grid, line) ==> moved_by_clear(grid)
            > line,
{
    what_shows_is_kept(grid, grid_screen_lines(grid), line);
}

/// What shows among the first lines of a screen.
proof fn what_shows_is_kept(grid: Grid<EmuCell>, n: nat, line: int)
    ensures
        shown_of(grid, n) <= n,
        shown_of(grid, n) > 0 ==> line_shows(grid, shown_of(grid, n) - 1),
        0 <= line < n && line_shows(grid, line) ==> shown_of(grid, n) > line,
    decreases n,
{
    if n > 0 {
        what_shows_is_kept(grid, (n - 1) as nat, line);
    }
}

/// A line shows something exactly if some cell of it does, and a cell shows
/// nothing only if it is a space or a tab in the two default colours, with no
/// mark and with none of the flags that would draw on it.
pub proof fn only_a_plain_space_shows_nothing(cell: CellView)
    ensures
        is_blank(cell) ==> cell.c == ' ' || cell.c == '\t',
        is_blank(cell) ==> cell.bg == VteColor::Named(NamedColor::Background),
        is_blank(cell) ==> cell.fg == VteColor::Named(NamedColor::Foreground),
        is_blank(cell) ==> cell.marks.len() == 0,
        is_blank(cell) ==> cell.flags & 0x1 == 0 && cell.flags & 0x8 == 0 && cell.flags & 0x10 == 0
            && cell.flags & 0x40 == 0 && cell.flags & 0x200 == 0 && cell.flags & 0x400 == 0
            && cell.flags & 0x7800 == 0,
        (cell.c == ' ' || cell.c == '\t') && cell.bg == VteColor::Named(NamedColor::Background)
            && cell.fg == VteColor::Named(NamedColor::Foreground) && cell.marks.len() == 0
            && cell.flags & 0x81a6 == cell.flags ==> is_blank(cell),
{
    let flags = cell.flags;
    assert(flags & 0x7e59 == 0 ==> flags & 0x1 == 0 && flags & 0x8 == 0 && flags & 0x10 == 0 && flags
        & 0x40 == 0 && flags & 0x200 == 0 && flags & 0x400 == 0 && flags & 0x7800 == 0)
        by (bit_vector);
    assert(flags & 0x81a6 == flags ==> flags & 0x7e59 == 0) by (bit_vector);
}

/// Every scroll takes a blinking point up by as many lines as scrolled, keeps its
/// column, and drops it once it is above the top of the grid.
pub proof fn a_scroll_moves_every_point_alike(
    cells: Set<(int, int)>,
    lines: int,
    topmost: int,
    line: int,
    column: int,
)
    ensures
        cells.contains((line, column)) && line - lines >= topmost ==> moved_up(
            cells,
            lines,
            topmost,
        ).contains((line - lines, column)),
        moved_up(cells, lines, topmost).contains((line, column)) ==> cells.contains(
            (line + lines, column),
        ) && line >= topmost,
{
}

} // verus!
