//! The host's terminal: what is kept beside the emulator, and the snapshot
//! everything downstream replicates.

use alacritty_terminal::grid::Grid;
use alacritty_terminal::term::cell::Cell as EmuCell;
use alacritty_terminal::term::color::Colors;
use vstd::prelude::*;

use crate::blink::{no_call_lowers_the_count, tap_step, BlinkPlane, BlinkTap, TapCall};
use crate::emulator::{
    cell_flags, color_overrides, grid_cells, grid_columns, grid_cursor, grid_screen_lines,
    grid_total_lines, history, inside, sound,
};
use crate::emulator::{
    cursor_of, history_size, mode_flags, read_flags, read_modes, CellData, CellView, ModeFlags,
    Point,
};
use crate::error::ApplyError;
use crate::grid::{cell_at, within_bounds, GridSize};
use crate::pty::{child_exited, exit_number, Wait};
use crate::palette::{
    entry, palette, proto_color, to_proto_color, NamedColor, Rgb, VteColor, PALETTE_LEN,
};
use crate::screen::{
    blank_look, no_attrs, Attrs, Cell, CellLook, Color, Cursor, CursorShape, Modes, MouseMode,
    ScreenState, TermSize,
};
use crate::signals::Signals;
use crate::text::{byte_len, byte_len_push, len_of, scalar_len};

verus! {

/// How much is read from the terminal at a time.
pub const READ_CHUNK: usize = 65536;

/// The most one turn drains before the caller gets control back.
///
/// Without this a turn need not end: a child that writes faster than it is
/// read keeps the terminal non-empty indefinitely, no frame is ever emitted
/// and the screen freezes.
pub const READ_BUDGET: usize = 65536;

/// The most bytes of text one cell may carry.
pub const MAX_CELL_TEXT: usize = 32;

/// Whether a scalar is a control character: C0, delete or C1.
pub open spec fn is_control(c: char) -> bool {
    c as u32 <= 0x1f || 0x7f <= c as u32 <= 0x9f
}

/// Whether a scalar is a control character: C0, delete or C1.
pub fn is_control_scalar(c: char) -> (r: bool)
    ensures
        r == is_control(c),
{
    let v: u32 = c as u32;
    v <= 0x1f || (0x7f <= v && v <= 0x9f)
}

/// How many of `marks` are kept on a text that has `len` bytes already: those
/// before the first that is a control character or does not fit.
pub open spec fn marks_kept(len: nat, marks: Seq<char>) -> nat
    decreases marks.len(),
{
    if marks.len() == 0 || is_control(marks[0]) || len + scalar_len(marks[0]) > MAX_CELL_TEXT {
        0
    } else {
        1 + marks_kept(len + scalar_len(marks[0]), marks.skip(1))
    }
}

/// What is sent of a cell's base character: nothing, if it is a control
/// character.
pub open spec fn base_of(c: char) -> Seq<char> {
    if is_control(c) {
        Seq::empty()
    } else {
        seq![c]
    }
}

/// The text of one cell, combining marks included.
pub open spec fn text_of_cell(cell: CellView) -> Seq<char> {
    if cell_flags(cell.flags).spacer || cell_flags(cell.flags).leading_spacer {
        Seq::empty()
    } else {
        base_of(cell.c) + cell.marks.take(marks_kept(scalar_len(cell.c), cell.marks) as int)
    }
}

/// No more marks are kept than there are.
proof fn marks_kept_bound(len: nat, marks: Seq<char>)
    ensures
        marks_kept(len, marks) <= marks.len(),
    decreases marks.len(),
{
    if marks_kept(len, marks) != 0 {
        marks_kept_bound(len + scalar_len(marks[0]), marks.skip(1));
    }
}

/// The text of one cell, combining marks included.
///
/// Combining marks are not separate cells in the emulator: they hang off the
/// base cell, and the emulator puts no cap on how many. A program that prints
/// combining marks in a loop grows one cell without limit, so the bound is
/// applied here, at the source and while the text is being built. The marks
/// are ordered: keeping a later one after dropping an earlier one would
/// reorder the cluster.
///
/// The right-hand half of a wide character carries no text at all: a renderer
/// that painted a space there would shift the row.
///
/// The emulator never puts a control character at the base of a cell. One that
/// stood there all the same would have the peer refuse the state, so it is left
/// out.
pub fn cell_text(cell: &CellData) -> (text: String)
    ensures
        text@ == text_of_cell(cell@),
{
    let flags = read_flags(cell.flags);
    if flags.spacer || flags.leading_spacer {
        return String::new();
    }
    let mut text = String::new();
    if !is_control_scalar(cell.c) {
        text.push(cell.c);
    }
    let mut len: usize = len_of(cell.c);
    let mut i: usize = 0;
    let ghost all = marks_kept(scalar_len(cell.c), cell.marks@);
    proof {
        assert(cell.marks@.skip(0) =~= cell.marks@);
        assert(text@ =~= base_of(cell.c) + cell.marks@.take(0));
    }
    while i < cell.marks.len()
        invariant
            i <= cell.marks@.len(),
            len <= MAX_CELL_TEXT,
            text@ == base_of(cell.c) + cell.marks@.take(i as int),
            all == i + marks_kept(len as nat, cell.marks@.skip(i as int)),
            all == marks_kept(scalar_len(cell.c), cell.marks@),
            !cell_flags(cell.flags).spacer && !cell_flags(cell.flags).leading_spacer,
        decreases cell.marks@.len() - i,
    {
        let m: char = cell.marks[i];
        if is_control_scalar(m) || len + len_of(m) > MAX_CELL_TEXT {
            return text;
        }
        proof {
            assert(cell.marks@.skip(i as int).skip(1) =~= cell.marks@.skip(i + 1));
            assert(base_of(cell.c) + cell.marks@.take(i + 1) =~= (base_of(cell.c)
                + cell.marks@.take(i as int)).push(m));
        }
        text.push(m);
        len += len_of(m);
        i += 1;
    }
    text
}

/// Taking as many marks as are kept stays within the bound and takes no
/// control character.
proof fn kept_marks_fit(base: Seq<char>, marks: Seq<char>)
    requires
        byte_len(base) <= MAX_CELL_TEXT,
    ensures
        byte_len(base + marks.take(marks_kept(byte_len(base), marks) as int)) <= MAX_CELL_TEXT,
        forall|i: int|
            0 <= i < marks_kept(byte_len(base), marks) ==> !is_control(#[trigger] marks[i]),
    decreases marks.len(),
{
    let n = marks_kept(byte_len(base), marks);
    marks_kept_bound(byte_len(base), marks);
    if n == 0 {
        assert(base + marks.take(0) =~= base);
    } else {
        let longer = base.push(marks[0]);
        byte_len_push(base, marks[0]);
        kept_marks_fit(longer, marks.skip(1));
        let rest = marks_kept(byte_len(longer), marks.skip(1));
        assert(longer + marks.skip(1).take(rest as int) =~= base + marks.take(n as int));
        assert forall|i: int| 0 <= i < n implies !is_control(#[trigger] marks[i]) by {
            if i > 0 {
                assert(marks.skip(1)[i - 1] == marks[i]);
            }
        }
    }
}

/// What the host sends for a cell fits the bound and holds no control
/// character, whatever the emulator put there.
pub proof fn cell_text_is_fitted(cell: CellView)
    ensures
        byte_len(text_of_cell(cell)) <= MAX_CELL_TEXT,
        forall|i: int|
            0 <= i < text_of_cell(cell).len() ==> !is_control(#[trigger] text_of_cell(cell)[i]),
{
    let base = seq![cell.c];
    assert(Seq::<char>::empty().push(cell.c) =~= base);
    byte_len_push(Seq::empty(), cell.c);
    kept_marks_fit(base, cell.marks);
    marks_kept_bound(scalar_len(cell.c), cell.marks);
    let kept = cell.marks.take(marks_kept(scalar_len(cell.c), cell.marks) as int);
    assert((base + kept).drop_first() =~= kept);
    assert(Seq::<char>::empty() + kept =~= kept);
}

/// A cluster that fits comes through whole.
pub proof fn a_fitting_cluster_is_untouched(cell: CellView)
    requires
        !cell_flags(cell.flags).spacer,
        !cell_flags(cell.flags).leading_spacer,
        !is_control(cell.c),
        byte_len(seq![cell.c] + cell.marks) <= MAX_CELL_TEXT,
        forall|i: int| 0 <= i < cell.marks.len() ==> !is_control(#[trigger] cell.marks[i]),
    ensures
        text_of_cell(cell) == seq![cell.c] + cell.marks,
{
    let base = seq![cell.c];
    assert(Seq::<char>::empty().push(cell.c) =~= base);
    byte_len_push(Seq::empty(), cell.c);
    all_marks_kept(base, cell.marks);
    assert(cell.marks.take(cell.marks.len() as int) =~= cell.marks);
}

/// Marks that all fit are all kept.
proof fn all_marks_kept(base: Seq<char>, marks: Seq<char>)
    requires
        byte_len(base + marks) <= MAX_CELL_TEXT,
        forall|i: int| 0 <= i < marks.len() ==> !is_control(#[trigger] marks[i]),
    ensures
        marks_kept(byte_len(base), marks) == marks.len(),
    decreases marks.len(),
{
    if marks.len() > 0 {
        let longer = base.push(marks[0]);
        byte_len_push(base, marks[0]);
        assert(longer + marks.skip(1) =~= base + marks);
        byte_len_prefix(longer, marks.skip(1));
        assert forall|i: int| 0 <= i < marks.skip(1).len() implies !is_control(
            #[trigger] marks.skip(1)[i],
        ) by {
            assert(marks.skip(1)[i] == marks[i + 1]);
        }
        all_marks_kept(longer, marks.skip(1));
    }
}

/// A text is no shorter than what it begins with.
proof fn byte_len_prefix(a: Seq<char>, b: Seq<char>)
    ensures
        byte_len(a) <= byte_len(a + b),
    decreases b.len(),
{
    if b.len() == 0 {
        assert(a + b =~= a);
    } else {
        byte_len_prefix(a, b.drop_last());
        assert((a + b.drop_last()).push(b.last()) =~= a + b);
        byte_len_push(a + b.drop_last(), b.last());
    }
}

/// The attributes of a cell, blink apart. The five underline styles are one.
pub open spec fn attrs_of_flags(flags: u16) -> Attrs {
    let f = cell_flags(flags);
    Attrs {
        bold: f.bold,
        italic: f.italic,
        underline: f.underlined,
        inverse: f.inverse,
        blink: false,
        strike: f.strikeout,
        dim: f.dim,
        hidden: f.hidden,
        wide_cont: f.spacer || f.leading_spacer,
    }
}

/// The attributes of a cell, blink apart.
pub fn attrs_of(flags: u16) -> (a: Attrs)
    ensures
        a == attrs_of_flags(flags),
{
    let f = read_flags(flags);
    Attrs {
        bold: f.bold,
        italic: f.italic,
        underline: f.underlined,
        inverse: f.inverse,
        blink: false,
        strike: f.strikeout,
        dim: f.dim,
        hidden: f.hidden,
        wide_cont: f.spacer || f.leading_spacer,
    }
}

/// The mouse mode among a set of modes, most specific first: the modes are
/// cumulative, and reporting the least specific one would drop events the
/// application asked for.
pub open spec fn mouse_mode_of(m: ModeFlags) -> MouseMode {
    if m.mouse_motion {
        MouseMode::AnyMotion
    } else if m.mouse_drag {
        MouseMode::ButtonMotion
    } else if m.mouse_click {
        MouseMode::PressRelease
    } else {
        MouseMode::Off
    }
}

fn mouse_mode(m: ModeFlags) -> (r: MouseMode)
    ensures
        r == mouse_mode_of(m),
{
    if m.mouse_motion {
        MouseMode::AnyMotion
    } else if m.mouse_drag {
        MouseMode::ButtonMotion
    } else if m.mouse_click {
        MouseMode::PressRelease
    } else {
        MouseMode::Off
    }
}

/// The modes a snapshot carries.
pub open spec fn modes_of_bits(bits: u32) -> Modes {
    let m = mode_flags(bits);
    Modes {
        alt_screen: m.alt_screen,
        bracketed_paste: m.bracketed_paste,
        mouse: mouse_mode_of(m),
        app_cursor: m.app_cursor,
        app_keypad: m.app_keypad,
    }
}

/// The modes a snapshot carries.
pub fn modes_of(bits: u32) -> (r: Modes)
    ensures
        r == modes_of_bits(bits),
{
    let m = read_modes(bits);
    Modes {
        alt_screen: m.alt_screen,
        bracketed_paste: m.bracketed_paste,
        mouse: mouse_mode(m),
        app_cursor: m.app_cursor,
        app_keypad: m.app_keypad,
    }
}

/// What a cell that stands at `p` looks like.
pub open spec fn look_of(
    cell: CellView,
    p: Point,
    blinking: Set<(int, int)>,
    over: Seq<Option<Rgb>>,
    table: Seq<Rgb>,
) -> CellLook {
    CellLook {
        text: text_of_cell(cell),
        fg: proto_color(cell.fg, over, table),
        bg: proto_color(cell.bg, over, table),
        attrs: Attrs {
            blink: blinking.contains((p.line as int, p.column as int)),
            ..attrs_of_flags(cell.flags)
        },
    }
}

/// Convert a cell that stands at `point`.
pub fn convert_cell(
    cell: &CellData,
    point: Point,
    blink: &BlinkPlane,
    overrides: &Colors,
    table: &[Rgb; PALETTE_LEN],
) -> (r: Cell)
    ensures
        r@ == look_of(cell@, point, blink.cells(), color_overrides(*overrides), table@),
{
    let mut attrs = attrs_of(cell.flags);
    attrs.blink = blink.is_blinking(point);
    Cell {
        text: cell_text(cell),
        fg: to_proto_color(cell.fg, overrides, table),
        bg: to_proto_color(cell.bg, overrides, table),
        attrs,
    }
}

/// What stands at `p`: the converted cell, or a blank outside the grid.
pub open spec fn look_at(
    grid: Grid<EmuCell>,
    p: Point,
    blinking: Set<(int, int)>,
    over: Seq<Option<Rgb>>,
    table: Seq<Rgb>,
) -> CellLook {
    if inside(grid, p) {
        look_of(grid_cells(grid)[(p.line as int, p.column as int)], p, blinking, over, table)
    } else {
        blank_look()
    }
}

/// One row of cells, `cols` wide.
fn row_at(
    grid: &Grid<EmuCell>,
    line: i32,
    cols: u16,
    blink: &BlinkPlane,
    overrides: &Colors,
    table: &[Rgb; PALETTE_LEN],
) -> (row: Vec<Cell>)
    requires
        sound(*grid),
    ensures
        row@.len() == cols,
        forall|c: int|
            0 <= c < cols ==> (#[trigger] row@[c])@ == look_at(
                *grid,
                Point { line, column: c as usize },
                blink.cells(),
                color_overrides(*overrides),
                table@,
            ),
{
    let mut row: Vec<Cell> = Vec::new();
    let mut col: u16 = 0;
    while col < cols
        invariant
            sound(*grid),
            col <= cols,
            row@.len() == col,
            forall|c: int|
                0 <= c < col ==> (#[trigger] row@[c])@ == look_at(
                    *grid,
                    Point { line, column: c as usize },
                    blink.cells(),
                    color_overrides(*overrides),
                    table@,
                ),
        decreases cols - col,
    {
        let point = Point { line, column: col as usize };
        let cell = match cell_at(grid, point) {
            Some(c) => convert_cell(&c, point, blink, overrides, table),
            None => Cell::blank(),
        };
        row.push(cell);
        col += 1;
    }
    row
}

/// The shape of a cursor, as the emulator has it.
#[derive(Clone, Copy, PartialEq, Eq, Debug, Structural)]
pub enum EmuCursorShape {
    Block,
    Underline,
    Beam,
    HollowBlock,
    Hidden,
}

/// The shape a cursor travels as.
pub open spec fn shape_of(shape: EmuCursorShape) -> CursorShape {
    match shape {
        EmuCursorShape::Underline => CursorShape::Underline,
        EmuCursorShape::Beam => CursorShape::Bar,
        _ => CursorShape::Block,
    }
}

/// A number brought into `0..n`, or 0 where that is empty.
pub open spec fn into_range(v: int, n: int) -> int {
    if v < 0 || n <= 0 {
        0
    } else if v >= n {
        n - 1
    } else {
        v
    }
}

/// The cursor of a snapshot: where the emulator has it, brought onto a screen
/// of the given size.
pub open spec fn cursor_on(p: Point, size: TermSize, mode: u32, shape: EmuCursorShape) -> Cursor {
    Cursor {
        row: into_range(p.line as int, size.rows as int) as u16,
        col: into_range((p.column as u16) as int, size.cols as int) as u16,
        visible: mode_flags(mode).show_cursor,
        shape: shape_of(shape),
    }
}

/// Bring the emulator's cursor onto a screen of the given size.
fn cursor_in(p: Point, size: TermSize, mode: u32, shape: EmuCursorShape) -> (r: Cursor)
    ensures
        r == cursor_on(p, size, mode, shape),
{
    let last_row: u16 = size.rows.saturating_sub(1);
    let last_col: u16 = size.cols.saturating_sub(1);
    let row: u16 = if p.line < 0 {
        0
    } else if p.line > last_row as i32 {
        last_row
    } else {
        p.line as u16
    };
    let column: u16 = #[verifier::truncate]
    (p.column as u16);
    let col: u16 = if column > last_col {
        last_col
    } else {
        column
    };
    Cursor {
        row,
        col,
        visible: read_modes(mode).show_cursor,
        shape: match shape {
            EmuCursorShape::Block | EmuCursorShape::HollowBlock | EmuCursorShape::Hidden => {
                CursorShape::Block
            },
            EmuCursorShape::Underline => CursorShape::Underline,
            EmuCursorShape::Beam => CursorShape::Bar,
        },
    }
}

/// What a state carries beside the screen.
pub struct StateMeta {
    pub seq: u64,
    pub title: String,
    pub bell: u32,
    pub scrollback_len: u64,
}

/// Whether `s` is what `grid` shows on a screen of the given size.
pub open spec fn shows(
    s: ScreenState,
    grid: Grid<EmuCell>,
    blinking: Set<(int, int)>,
    over: Seq<Option<Rgb>>,
    table: Seq<Rgb>,
    size: TermSize,
) -> bool {
    &&& s.rows == size.rows
    &&& s.cols == size.cols
    &&& s.cells@.len() == size.rows * size.cols
    &&& forall|r: int, c: int|
        0 <= r < size.rows && 0 <= c < size.cols ==> (#[trigger] s.cells@[r * size.cols + c])@
            == look_at(grid, Point { line: r as i32, column: c as usize }, blinking, over, table)
}

/// Convert what the emulator holds into a [`ScreenState`]: `grid` is its grid,
/// `mode` its mode bits, `shape` its cursor's shape and `overrides` its OSC
/// colours.
///
/// A point of the screen that the emulator's grid does not have becomes a
/// blank: the sizes can disagree for a moment after a resize, and the number
/// of cells matters more than the cell.
///
/// The title is as the program wrote it. The protocol bounds a title, and it is
/// fitted to that bound where the state is put on the wire.
pub fn screen_state_of(
    grid: &Grid<EmuCell>,
    mode: u32,
    shape: EmuCursorShape,
    overrides: &Colors,
    blink: &BlinkPlane,
    table: &[Rgb; PALETTE_LEN],
    size: TermSize,
    meta: StateMeta,
) -> (s: ScreenState)
    requires
        sound(*grid),
    ensures
        shows(s, *grid, blink.cells(), color_overrides(*overrides), table@, size),
        s.seq == meta.seq,
        s.cursor == cursor_on(grid_cursor(*grid), size, mode, shape),
        s.modes == modes_of_bits(mode),
        s.title == meta.title,
        s.bell == meta.bell,
        s.scrollback_len == meta.scrollback_len,
{
    let rows: u16 = size.rows;
    let cols: u16 = size.cols;
    let mut cells: Vec<Cell> = Vec::new();
    let mut row: u16 = 0;
    assert(0 * cols == 0) by (nonlinear_arith);
    while row < rows
        invariant
            sound(*grid),
            row <= rows,
            cells@.len() == row * cols,
            forall|r: int, c: int|
                0 <= r < row && 0 <= c < cols ==> (#[trigger] cells@[r * cols + c])@ == look_at(
                    *grid,
                    Point { line: r as i32, column: c as usize },
                    blink.cells(),
                    color_overrides(*overrides),
                    table@,
                ),
        decreases rows - row,
    {
        let ghost before = cells@;
        let mut line = row_at(grid, row as i32, cols, blink, overrides, table);
        let ghost added = line@;
        cells.append(&mut line);
        proof {
            assert(cells@ =~= before + added);
            assert((row + 1) * cols == row * cols + cols) by (nonlinear_arith);
            assert forall|r: int, c: int| 0 <= r < row + 1 && 0 <= c < cols implies (
            #[trigger] cells@[r * cols + c])@ == look_at(
                *grid,
                Point { line: r as i32, column: c as usize },
                blink.cells(),
                color_overrides(*overrides),
                table@,
            ) by {
                if r < row {
                    assert(r * cols + c < row * cols) by (nonlinear_arith)
                        requires
                            0 <= r < row,
                            0 <= c < cols,
                    ;
                    assert(0 <= r * cols) by (nonlinear_arith)
                        requires
                            0 <= r,
                            0 <= cols,
                    ;
                    assert(before[r * cols + c] == cells@[r * cols + c]);
                } else {
                    assert(cells@[row * cols + c] == added[c]);
                }
            }
        }
        row += 1;
    }
    ScreenState {
        seq: meta.seq,
        rows,
        cols,
        cells,
        cursor: cursor_in(cursor_of(grid), size, mode, shape),
        modes: modes_of(mode),
        title: meta.title,
        bell: meta.bell,
        scrollback_len: meta.scrollback_len,
    }
}

/// A snapshot of a screen that has a cell at all, under a real sequence
/// number, satisfies what every state has to satisfy.
pub proof fn a_snapshot_is_valid(
    s: ScreenState,
    grid: Grid<EmuCell>,
    blinking: Set<(int, int)>,
    over: Seq<Option<Rgb>>,
    table: Seq<Rgb>,
    size: TermSize,
    mode: u32,
    shape: EmuCursorShape,
)
    requires
        shows(s, grid, blinking, over, table, size),
        s.cursor == cursor_on(grid_cursor(grid), size, mode, shape),
        size.rows >= 1,
        size.cols >= 1,
        s.seq >= 1,
    ensures
        s.valid(),
{
}

/// One turn of draining the terminal.
#[derive(Clone, Copy, PartialEq, Eq, Debug, Structural)]
pub struct Turn {
    /// How much has been read in this turn.
    pub drained: usize,
    /// Whether anything has been read in this turn.
    pub changed: bool,
}

/// A turn in which nothing has been read.
pub open spec fn fresh_turn() -> Turn {
    Turn { drained: 0, changed: false }
}

/// A turn after a read of `n` bytes.
pub open spec fn turn_after(turn: Turn, n: usize) -> Turn {
    if n > 0 {
        Turn { drained: (turn.drained + n) as usize, changed: true }
    } else {
        turn
    }
}

impl Turn {
    pub fn new() -> (turn: Turn)
        ensures
            turn == fresh_turn(),
    {
        Turn { drained: 0, changed: false }
    }

    /// Whether the terminal may be read again in this turn. Whatever is left
    /// stays where it is and is picked up next turn.
    pub fn may_read(&self) -> (r: bool)
        ensures
            r == (self.drained < READ_BUDGET),
    {
        self.drained < READ_BUDGET
    }

    /// How much the next read of this turn may take.
    pub fn room(&self) -> (n: usize)
        requires
            self.drained <= READ_BUDGET,
        ensures
            n == READ_BUDGET - self.drained,
    {
        READ_BUDGET - self.drained
    }

    /// A read gave `n` bytes. Whether they are to be handed to the emulator:
    /// with none, the turn is over.
    pub fn note_read(&mut self, n: usize) -> (go_on: bool)
        requires
            old(self).drained + n <= READ_BUDGET,
        ensures
            go_on == (n > 0),
            *final(self) == turn_after(*old(self), n),
            final(self).drained == old(self).drained + n,
            final(self).drained <= READ_BUDGET,
    {
        if n == 0 {
            return false;
        }
        self.drained += n;
        self.changed = true;
        true
    }
}

/// The sum of a sequence of reads.
pub open spec fn total_read(reads: Seq<nat>) -> nat
    decreases reads.len(),
{
    if reads.len() == 0 {
        0
    } else {
        total_read(reads.drop_last()) + reads.last()
    }
}

/// A turn ends, whatever the child writes: reads that each give something, and
/// that each took no more than there was room for, are no more than the budget
/// and drain no more than the budget.
pub proof fn a_turn_is_bounded(reads: Seq<nat>)
    requires
        forall|i: int| 0 <= i < reads.len() ==> 1 <= #[trigger] reads[i],
        forall|i: int|
            0 <= i < reads.len() ==> total_read(#[trigger] reads.take(i)) + reads[i]
                <= READ_BUDGET,
    ensures
        reads.len() <= READ_BUDGET,
        total_read(reads) <= READ_BUDGET,
        total_read(reads) >= reads.len(),
    decreases reads.len(),
{
    if reads.len() > 0 {
        let head = reads.drop_last();
        assert(reads.take(reads.len() - 1) =~= head);
        assert forall|i: int| 0 <= i < head.len() implies total_read(#[trigger] head.take(i))
            + head[i] <= READ_BUDGET by {
            assert(head.take(i) =~= reads.take(i));
        }
        assert forall|i: int| 0 <= i < head.len() implies 1 <= #[trigger] head[i] by {
            assert(head[i] == reads[i]);
        }
        a_turn_is_bounded(head);
    }
}

/// What is kept beside the emulator for the life of a session.
#[derive(Debug)]
pub struct HostTerm {
    pub tap: BlinkTap,
    pub table: [Rgb; PALETTE_LEN],
    pub size: TermSize,
    pub history: usize,
    /// The most cells a screen may have.
    pub max_cells: u32,
    /// Accumulated across the session: the sink's own count resets on every
    /// drain.
    pub bell: u32,
    pub title: String,
    pub exited: Option<i32>,
}

/// The bell count after `more` bells.
pub open spec fn bell_after(bell: u32, more: u32) -> u32 {
    if bell + more <= u32::MAX {
        (bell + more) as u32
    } else {
        u32::MAX
    }
}

/// What a snapshot reads of the emulator.
pub struct Emulated {
    pub grid: Grid<EmuCell>,
    pub mode: u32,
    pub shape: EmuCursorShape,
    pub overrides: Colors,
}

/// Whether `s` is the state of a terminal beside an emulator, under a sequence
/// number.
pub open spec fn captured(s: ScreenState, t: HostTerm, e: Emulated, seq: u64) -> bool {
    &&& shows(
        s,
        e.grid,
        t.tap.blink.cells(),
        color_overrides(e.overrides),
        t.table@,
        t.size,
    )
    &&& s.seq == seq
    &&& s.cursor == cursor_on(grid_cursor(e.grid), t.size, e.mode, e.shape)
    &&& s.modes == modes_of_bits(e.mode)
    &&& s.title == t.title
    &&& s.bell == t.bell
    &&& s.scrollback_len == t.tap.scrolled
}

/// Whether the end of a turn takes `before` to `after`, and reports `changed`.
pub open spec fn finished(
    before: HostTerm,
    turn: Turn,
    signals: Signals,
    full: bool,
    after: HostTerm,
    changed: bool,
) -> bool {
    &&& changed == (full || turn.changed || signals.title is Some || signals.bells > 0)
    &&& after.title == (match signals.title {
        Some(t) => t,
        None => before.title,
    })
    &&& after.bell == bell_after(before.bell, signals.bells)
    &&& after.exited == (match signals.child_exit {
        Some(code) => Some(code),
        None => before.exited,
    })
    &&& after.tap == before.tap
    &&& after.table == before.table
    &&& after.size == before.size
    &&& after.history == before.history
    &&& after.max_cells == before.max_cells
}

/// Whether opening a terminal of the given size comes to `r`.
pub open spec fn opened(
    size: TermSize,
    scrollback: usize,
    max_cells: u32,
    r: Result<HostTerm, ApplyError>,
) -> bool {
    match r {
        Ok(t) => {
            &&& within_bounds(size, max_cells)
            &&& t.wf()
            &&& t.size == size
            &&& t.history == scrollback
            &&& t.max_cells == max_cells
            &&& t.bell == 0
            &&& t.title@ == Seq::<char>::empty()
            &&& t.exited is None
            &&& t.tap.scrolled == 0
            &&& t.tap.blink.cells() == Set::<(int, int)>::empty()
            &&& !t.tap.blink.is_active()
        },
        Err(e) => {
            &&& !within_bounds(size, max_cells)
            &&& e == (ApplyError::ScreenTooLarge { rows: size.rows, cols: size.cols })
        },
    }
}

/// Whether a new size takes a terminal from `before` to `after`, and `r` is what
/// the emulator is told.
pub open spec fn resized(
    before: HostTerm,
    size: TermSize,
    after: HostTerm,
    r: Result<GridSize, ApplyError>,
) -> bool {
    &&& match r {
        Ok(g) => {
            &&& within_bounds(size, before.max_cells)
            &&& g == (GridSize {
                screen_lines: size.rows as usize,
                columns: size.cols as usize,
                history: before.history,
            })
            &&& after.size == size
            &&& after.tap.blink.cells() == Set::<(int, int)>::empty()
            &&& after.tap.blink.is_active() == before.tap.blink.is_active()
            &&& after.tap.scrolled == before.tap.scrolled
        },
        Err(e) => {
            &&& !within_bounds(size, before.max_cells)
            &&& e == (ApplyError::ScreenTooLarge { rows: size.rows, cols: size.cols })
            &&& after.size == before.size
            &&& after.tap == before.tap
        },
    }
    &&& after.table == before.table
    &&& after.history == before.history
    &&& after.max_cells == before.max_cells
    &&& after.bell == before.bell
    &&& after.title == before.title
    &&& after.exited == before.exited
}

/// Whether asking after the child takes a terminal from `before` to `after`, and
/// `code` is what is known then.
pub open spec fn asked_after(
    before: HostTerm,
    wait: Wait,
    after: HostTerm,
    code: Option<i32>,
) -> bool {
    &&& code == (match before.exited {
        Some(known) => Some(known),
        None => match wait {
            Wait::Exited(status) => Some(exit_number(status)),
            Wait::Running => None,
            Wait::Failed => Some(-1i32),
        },
    })
    &&& after == (HostTerm { exited: code, ..before })
}

impl HostTerm {
    /// The colour table is the library's own, and the size is within bounds.
    pub open spec fn wf(&self) -> bool {
        &&& forall|i: int| 0 <= i < PALETTE_LEN ==> #[trigger] self.table@[i] == entry(i)
        &&& within_bounds(self.size, self.max_cells)
    }

    /// A terminal of the given size with `scrollback` lines of history. The
    /// size came from the client, so it is checked before anything is spawned.
    pub fn new(size: TermSize, scrollback: usize, max_cells: u32) -> (r: Result<
        HostTerm,
        ApplyError,
    >)
        ensures
            match r {
                Ok(t) => {
                    &&& within_bounds(size, max_cells)
                    &&& t.wf()
                    &&& t.size == size
                    &&& t.history == scrollback
                    &&& t.max_cells == max_cells
                    &&& t.bell == 0
                    &&& t.title@ == Seq::<char>::empty()
                    &&& t.exited is None
                    &&& t.tap.scrolled == 0
                    &&& t.tap.blink.cells() == Set::<(int, int)>::empty()
                    &&& !t.tap.blink.is_active()
                },
                Err(e) => {
                    &&& !within_bounds(size, max_cells)
                    &&& e == (ApplyError::ScreenTooLarge { rows: size.rows, cols: size.cols })
                },
            },
            opened(size, scrollback, max_cells, r),
    {
        match GridSize::new(size, scrollback, max_cells) {
            Ok(_) => Ok(
                HostTerm {
                    tap: BlinkTap::new(),
                    table: palette(),
                    size,
                    history: scrollback,
                    max_cells,
                    bell: 0,
                    title: String::new(),
                    exited: None,
                },
            ),
            Err(e) => Err(e),
        }
    }

    /// The dimensions for the emulator at a given size, or a refusal.
    pub fn dims(&self, size: TermSize) -> (r: Result<GridSize, ApplyError>)
        ensures
            match r {
                Ok(g) => {
                    &&& within_bounds(size, self.max_cells)
                    &&& g == (GridSize {
                        screen_lines: size.rows as usize,
                        columns: size.cols as usize,
                        history: self.history,
                    })
                },
                Err(e) => {
                    &&& !within_bounds(size, self.max_cells)
                    &&& e == (ApplyError::ScreenTooLarge { rows: size.rows, cols: size.cols })
                },
            },
    {
        GridSize::new(size, self.history, self.max_cells)
    }

    /// The terminal and the emulator have taken a new size.
    ///
    /// A size out of bounds is refused and changes nothing, so that everything
    /// still agrees about the old one.
    pub fn resize(&mut self, size: TermSize) -> (r: Result<GridSize, ApplyError>)
        requires
            old(self).wf(),
        ensures
            final(self).wf(),
            match r {
                Ok(g) => {
                    &&& within_bounds(size, old(self).max_cells)
                    &&& g == (GridSize {
                        screen_lines: size.rows as usize,
                        columns: size.cols as usize,
                        history: old(self).history,
                    })
                    &&& final(self).size == size
                    &&& final(self).tap.blink.cells() == Set::<(int, int)>::empty()
                    &&& final(self).tap.blink.is_active() == old(self).tap.blink.is_active()
                    &&& final(self).tap.scrolled == old(self).tap.scrolled
                },
                Err(e) => {
                    &&& !within_bounds(size, old(self).max_cells)
                    &&& e == (ApplyError::ScreenTooLarge { rows: size.rows, cols: size.cols })
                    &&& final(self).size == old(self).size
                    &&& final(self).tap == old(self).tap
                },
            },
            final(self).table == old(self).table,
            final(self).history == old(self).history,
            final(self).max_cells == old(self).max_cells,
            final(self).bell == old(self).bell,
            final(self).title == old(self).title,
            final(self).exited == old(self).exited,
            resized(*old(self), size, *final(self), r),
    {
        match self.dims(size) {
            Ok(dims) => {
                self.size = size;
                self.tap.blink.clear();
                Ok(dims)
            },
            Err(e) => Err(e),
        }
    }

    /// A turn of draining is over: take in what the emulator reported, and say
    /// whether the screen changed. `full` is the emulator's own answer to
    /// whether all of it did.
    pub fn finish_turn(&mut self, turn: Turn, signals: Signals, full: bool) -> (changed: bool)
        requires
            old(self).wf(),
        ensures
            final(self).wf(),
            finished(*old(self), turn, signals, full, *final(self), changed),
    {
        let mut changed = turn.changed;
        if let Some(t) = signals.title {
            self.title = t;
            changed = true;
        }
        if signals.bells > 0 {
            self.bell = self.bell.saturating_add(signals.bells);
            changed = true;
        }
        if let Some(code) = signals.child_exit {
            self.exited = Some(code);
        }
        full || changed
    }

    /// Build a state carrying the given sequence number.
    pub fn snapshot(
        &self,
        seq: u64,
        grid: &Grid<EmuCell>,
        mode: u32,
        shape: EmuCursorShape,
        overrides: &Colors,
    ) -> (s: ScreenState)
        requires
            self.wf(),
            sound(*grid),
        ensures
            captured(
                s,
                *self,
                Emulated { grid: *grid, mode, shape, overrides: *overrides },
                seq,
            ),
            self.size.rows >= 1 && self.size.cols >= 1 && seq >= 1 ==> s.valid(),
    {
        let s = screen_state_of(
            grid,
            mode,
            shape,
            overrides,
            &self.tap.blink,
            &self.table,
            self.size,
            StateMeta {
                seq,
                title: self.title.clone(),
                bell: self.bell,
                scrollback_len: self.tap.scrolled,
            },
        );
        proof {
            if self.size.rows >= 1 && self.size.cols >= 1 && seq >= 1 {
                a_snapshot_is_valid(
                    s,
                    *grid,
                    self.tap.blink.cells(),
                    color_overrides(*overrides),
                    self.table@,
                    self.size,
                    mode,
                    shape,
                );
            }
        }
        s
    }

    /// The first line of a request for scrollback that is still held.
    pub open spec fn first_held(&self, from: u64, grid: Grid<EmuCell>) -> int {
        let oldest = self.tap.scrolled - history(grid);
        if from < oldest {
            oldest
        } else {
            from as int
        }
    }

    /// How many lines of a request for scrollback are held.
    pub open spec fn held(&self, from: u64, to: u64, grid: Grid<EmuCell>) -> int {
        let end = if to < self.tap.scrolled {
            to as int
        } else {
            self.tap.scrolled as int
        };
        if self.first_held(from, grid) < end {
            end - self.first_held(from, grid)
        } else {
            0
        }
    }

    /// Whether `out` is what is held of scrollback lines `[from, to)`.
    pub open spec fn replayed(
        &self,
        from: u64,
        to: u64,
        grid: Grid<EmuCell>,
        over: Seq<Option<Rgb>>,
        out: Seq<Vec<Cell>>,
    ) -> bool {
        &&& out.len() == self.held(from, to, grid)
        &&& forall|k: int| 0 <= k < out.len() ==> (#[trigger] out[k])@.len() == self.size.cols
        &&& forall|k: int, c: int|
            0 <= k < out.len() && 0 <= c < self.size.cols ==> (#[trigger] out[k]@[c])@ == look_at(
                grid,
                Point {
                    line: (self.first_held(from, grid) + k - self.tap.scrolled) as i32,
                    column: c as usize,
                },
                self.tap.blink.cells(),
                over,
                self.table@,
            )
    }

    /// Scrollback lines `[from, to)` as rendered cell rows.
    ///
    /// `from` counts from the oldest line the client knows about, while the
    /// grid counts backwards from the newest: line -1 is the one that scrolled
    /// off last. Anything older than the ring still holds is simply gone.
    pub fn scrollback(&self, from: u64, to: u64, grid: &Grid<EmuCell>, overrides: &Colors) -> (out:
        Vec<Vec<Cell>>)
        requires
            self.wf(),
            sound(*grid),
        ensures
            out@.len() == self.held(from, to, *grid),
            forall|k: int|
                0 <= k < out@.len() ==> (#[trigger] out@[k])@.len() == self.size.cols,
            forall|k: int, c: int|
                0 <= k < out@.len() && 0 <= c < self.size.cols ==> (#[trigger] out@[k]@[c])@
                    == look_at(
                    *grid,
                    Point {
                        line: (self.first_held(from, *grid) + k - self.tap.scrolled) as i32,
                        column: c as usize,
                    },
                    self.tap.blink.cells(),
                    color_overrides(*overrides),
                    self.table@,
                ),
            self.replayed(from, to, *grid, color_overrides(*overrides), out@),
    {
        let kept: u64 = history_size(grid) as u64;
        let mut out: Vec<Vec<Cell>> = Vec::new();
        let len: u64 = self.tap.scrolled;
        let oldest: u64 = len.saturating_sub(kept);
        let mut want: u64 = if from < oldest {
            oldest
        } else {
            from
        };
        let ghost first = want as int;
        let end: u64 = if to < len {
            to
        } else {
            len
        };
        while want < end
            invariant
                sound(*grid),
                kept == history(*grid),
                len == self.tap.scrolled,
                end <= len,
                oldest <= first <= want,
                oldest >= len - kept,
                first < end ==> want <= end,
                first >= end ==> want == first,
                first == self.first_held(from, *grid) || first >= end,
                out@.len() == want - first,
                forall|k: int|
                    0 <= k < out@.len() ==> (#[trigger] out@[k])@.len() == self.size.cols,
                forall|k: int, c: int|
                    0 <= k < out@.len() && 0 <= c < self.size.cols ==> (#[trigger] out@[k]@[c])@
                        == look_at(
                        *grid,
                        Point { line: (first + k - len) as i32, column: c as usize },
                        self.tap.blink.cells(),
                        color_overrides(*overrides),
                        self.table@,
                    ),
            decreases end - want,
        {
            let back: u64 = len - want;
            let row = row_at(
                grid,
                -(back as i32),
                self.size.cols,
                &self.tap.blink,
                overrides,
                &self.table,
            );
            out.push(row);
            want += 1;
        }
        out
    }

    /// The child's exit code, once it is known. `wait` is what asking after
    /// the child came back with, and counts only while nothing was known.
    pub fn child_exited(&mut self, wait: Wait) -> (code: Option<i32>)
        requires
            wait matches Wait::Exited(status) ==> status.representable(),
        ensures
            code == (match old(self).exited {
                Some(known) => Some(known),
                None => match wait {
                    Wait::Exited(status) => Some(exit_number(status)),
                    Wait::Running => None,
                    Wait::Failed => Some(-1i32),
                },
            }),
            *final(self) == (HostTerm { exited: code, ..*old(self) }),
            asked_after(*old(self), wait, *final(self), code),
    {
        if self.exited.is_none() {
            self.exited = child_exited(wait);
        }
        self.exited
    }

    /// The size the emulator is currently at.
    pub fn size(&self) -> (size: TermSize)
        ensures
            size == self.size,
    {
        self.size
    }
}

/// The tap after the first `i` of `calls`, each with the tap it left.
pub open spec fn tap_at(from: BlinkTap, calls: Seq<(TapCall, BlinkTap)>, i: int) -> BlinkTap {
    if i <= 0 {
        from
    } else {
        calls[i - 1].1
    }
}

/// Whether call number `i` left the tap it is given with.
pub open spec fn call_leads(from: BlinkTap, calls: Seq<(TapCall, BlinkTap)>, i: int) -> bool {
    tap_step(tap_at(from, calls, i), calls[i].0, calls[i].1)
}

/// Whether every one of `calls` left the tap it is given with.
pub open spec fn calls_lead(from: BlinkTap, calls: Seq<(TapCall, BlinkTap)>) -> bool {
    forall|i: int| 0 <= i < calls.len() ==> #[trigger] call_leads(from, calls, i)
}

/// The count of scrolled lines never goes down, whatever the parser calls.
proof fn no_calls_lower_the_count(from: BlinkTap, calls: Seq<(TapCall, BlinkTap)>, i: int)
    requires
        calls_lead(from, calls),
        0 <= i <= calls.len(),
    ensures
        tap_at(from, calls, i).scrolled >= from.scrolled,
    decreases i,
{
    if i > 0 {
        no_calls_lower_the_count(from, calls, i - 1);
        assert(call_leads(from, calls, i - 1));
        no_call_lowers_the_count(
            tap_at(from, calls, i - 1),
            calls[i - 1].0,
            calls[i - 1].1,
        );
    }
}

/// How far a turn has come.
pub struct Draining {
    pub tap: BlinkTap,
    pub turn: Turn,
    pub emulated: Emulated,
}

/// One read of a turn: how much it gave, the calls the parser made of that,
/// and how far the turn has come.
pub struct Round {
    pub n: usize,
    pub calls: Seq<(TapCall, BlinkTap)>,
    pub after: Draining,
}

/// How far a turn had come before its read number `i`.
pub open spec fn drained_to(start: Draining, rounds: Seq<Round>, i: int) -> Draining {
    if i <= 0 {
        start
    } else {
        rounds[i - 1].after
    }
}

/// Whether read number `i` took no more than there was room for and was noted,
/// and all of it was parsed. What is not fed changes nothing.
pub open spec fn drained_by(start: Draining, rounds: Seq<Round>, i: int) -> bool {
    let before = drained_to(start, rounds, i);
    let round = rounds[i];
    &&& before.turn.drained + round.n <= READ_BUDGET
    &&& round.after.turn == turn_after(before.turn, round.n)
    &&& calls_lead(before.tap, round.calls)
    &&& round.after.tap == tap_at(before.tap, round.calls, round.calls.len() as int)
    &&& round.n == 0 ==> round.calls.len() == 0 && round.after.emulated == before.emulated
}

/// Whether every read is as a turn has it.
pub open spec fn drains(start: Draining, rounds: Seq<Round>) -> bool {
    forall|i: int| 0 <= i < rounds.len() ==> #[trigger] drained_by(start, rounds, i)
}

/// What holds all through a turn.
proof fn a_turn_only_adds(start: Draining, rounds: Seq<Round>, i: int)
    requires
        drains(start, rounds),
        start.turn == fresh_turn(),
        0 <= i <= rounds.len(),
    ensures
        drained_to(start, rounds, i).turn.drained <= READ_BUDGET,
        drained_to(start, rounds, i).tap.scrolled >= start.tap.scrolled,
        !drained_to(start, rounds, i).turn.changed ==> drained_to(start, rounds, i) == start,
    decreases i,
{
    if i > 0 {
        a_turn_only_adds(start, rounds, i - 1);
        assert(drained_by(start, rounds, i - 1));
        let before = drained_to(start, rounds, i - 1);
        let round = rounds[i - 1];
        no_calls_lower_the_count(before.tap, round.calls, round.calls.len() as int);
    }
}

/// Whether two states are the same, cell by cell.
pub open spec fn same_state(a: ScreenState, b: ScreenState) -> bool {
    &&& a.seq == b.seq
    &&& a.rows == b.rows
    &&& a.cols == b.cols
    &&& a.cells@.len() == b.cells@.len()
    &&& forall|k: int| 0 <= k < a.cells@.len() ==> (#[trigger] a.cells@[k])@ == b.cells@[k]@
    &&& a.cursor == b.cursor
    &&& a.modes == b.modes
    &&& a.title == b.title
    &&& a.bell == b.bell
    &&& a.scrollback_len == b.scrollback_len
}

/// Two states of one terminal beside one emulator are the same.
proof fn a_terminal_has_one_state(
    a: ScreenState,
    b: ScreenState,
    t: HostTerm,
    u: HostTerm,
    e: Emulated,
    seq: u64,
)
    requires
        captured(a, t, e, seq),
        captured(b, u, e, seq),
        t.tap == u.tap,
        t.table == u.table,
        t.size == u.size,
        t.title == u.title,
        t.bell == u.bell,
    ensures
        same_state(a, b),
{
    let cols = t.size.cols as int;
    let rows = t.size.rows as int;
    assert forall|k: int| 0 <= k < a.cells@.len() implies (#[trigger] a.cells@[k])@
        == b.cells@[k]@ by {
        let r = k / cols;
        let c = k % cols;
        assert(0 <= r < rows && 0 <= c < cols && r * cols + c == k) by (nonlinear_arith)
            requires
                0 <= k < rows * cols,
                0 <= cols,
                r == k / cols,
                c == k % cols,
        ;
        assert(a.cells@[r * t.size.cols + c]@ == b.cells@[r * t.size.cols + c]@);
    }
}

/// A poll only adds, and reports what it adds. Whatever the child wrote, it
/// takes no more than the budget; the bell and the count of scrolled lines do
/// not go down; and one that reports no change leaves the state as it was,
/// screen, title and bell.
///
/// `start` is the terminal and the emulator before the poll, `rounds` are its
/// reads, `signals` and `full` are what the emulator reported at its end, and
/// `a` and `b` are snapshots from before and after.
pub proof fn a_poll_reports_what_it_changes(
    before: HostTerm,
    emulated: Emulated,
    rounds: Seq<Round>,
    signals: Signals,
    full: bool,
    after: HostTerm,
    changed: bool,
    seq: u64,
    a: ScreenState,
    b: ScreenState,
)
    requires
        ({
            let start = Draining { tap: before.tap, turn: fresh_turn(), emulated };
            let end = drained_to(start, rounds, rounds.len() as int);
            &&& drains(start, rounds)
            &&& finished(
                HostTerm { tap: end.tap, ..before },
                end.turn,
                signals,
                full,
                after,
                changed,
            )
            &&& captured(a, before, emulated, seq)
            &&& captured(b, after, end.emulated, seq)
        }),
    ensures
        drained_to(
            Draining { tap: before.tap, turn: fresh_turn(), emulated },
            rounds,
            rounds.len() as int,
        ).turn.drained <= READ_BUDGET,
        b.bell >= a.bell,
        b.scrollback_len >= a.scrollback_len,
        !changed ==> same_state(a, b),
{
    let start = Draining { tap: before.tap, turn: fresh_turn(), emulated };
    a_turn_only_adds(start, rounds, rounds.len() as int);
    if !changed {
        a_terminal_has_one_state(a, b, before, after, emulated, seq);
    }
}

/// The bell never goes down and never loses a ring while it can still count.
pub proof fn the_bell_never_goes_backwards(bell: u32, more: u32)
    ensures
        bell_after(bell, more) >= bell,
        bell + more <= u32::MAX ==> bell_after(bell, more) == bell + more,
{
}

/// What a cell of a snapshot shows that stands in the grid.
proof fn a_snapshot_cell(s: ScreenState, t: HostTerm, e: Emulated, seq: u64, r: int, c: int)
    requires
        captured(s, t, e, seq),
        sound(e.grid),
        0 <= r < t.size.rows,
        0 <= c < t.size.cols,
        r < grid_screen_lines(e.grid),
        c < grid_columns(e.grid),
    ensures
        s.cells@[r * s.cols + c]@ == look_of(
            grid_cells(e.grid)[(r, c)],
            Point { line: r as i32, column: c as usize },
            t.tap.blink.cells(),
            color_overrides(e.overrides),
            t.table@,
        ),
{
    assert(s.cells@[r * t.size.cols + c]@ == look_at(
        e.grid,
        Point { line: r as i32, column: c as usize },
        t.tap.blink.cells(),
        color_overrides(e.overrides),
        t.table@,
    ));
}

/// A cell's background comes from the emulator cell's own background, whatever its
/// foreground is. A colour that was spelled out travels by its components, a
/// palette index travels as that index, the two defaults travel as the client's
/// own, a named colour of the sixteen travels as its index, and any other name
/// by the components the table has for it. An application's own setting of an
/// entry comes before all but the spelled-out colours and the two defaults.
pub proof fn a_background_comes_from_the_background(
    s: ScreenState,
    t: HostTerm,
    e: Emulated,
    seq: u64,
    r: int,
    c: int,
)
    requires
        captured(s, t, e, seq),
        t.wf(),
        sound(e.grid),
        0 <= r < t.size.rows,
        0 <= c < t.size.cols,
        r < grid_screen_lines(e.grid),
        c < grid_columns(e.grid),
    ensures
        ({
            let cell = grid_cells(e.grid)[(r, c)];
            let over = color_overrides(e.overrides);
            let out = s.cells@[r * s.cols + c].bg;
            &&& cell.bg matches VteColor::Spec(x) ==> out == Color::Rgb(x.r, x.g, x.b)
            &&& cell.bg matches VteColor::Indexed(i) ==> out == (match over[i as int] {
                Some(x) => Color::Rgb(x.r, x.g, x.b),
                None => Color::Idx(i),
            })
            &&& cell.bg == VteColor::Named(NamedColor::Foreground) ==> out == Color::Default
            &&& cell.bg == VteColor::Named(NamedColor::Background) ==> out == Color::Default
            &&& cell.bg == VteColor::Named(NamedColor::Black) ==> out == (match over[0] {
                Some(x) => Color::Rgb(x.r, x.g, x.b),
                None => Color::Idx(0),
            })
            &&& cell.bg == VteColor::Named(NamedColor::Red) ==> out == (match over[1] {
                Some(x) => Color::Rgb(x.r, x.g, x.b),
                None => Color::Idx(1),
            })
            &&& cell.bg == VteColor::Named(NamedColor::Green) ==> out == (match over[2] {
                Some(x) => Color::Rgb(x.r, x.g, x.b),
                None => Color::Idx(2),
            })
            &&& cell.bg == VteColor::Named(NamedColor::Yellow) ==> out == (match over[3] {
                Some(x) => Color::Rgb(x.r, x.g, x.b),
                None => Color::Idx(3),
            })
            &&& cell.bg == VteColor::Named(NamedColor::Blue) ==> out == (match over[4] {
                Some(x) => Color::Rgb(x.r, x.g, x.b),
                None => Color::Idx(4),
            })
            &&& cell.bg == VteColor::Named(NamedColor::Magenta) ==> out == (match over[5] {
                Some(x) => Color::Rgb(x.r, x.g, x.b),
                None => Color::Idx(5),
            })
            &&& cell.bg == VteColor::Named(NamedColor::Cyan) ==> out == (match over[6] {
                Some(x) => Color::Rgb(x.r, x.g, x.b),
                None => Color::Idx(6),
            })
            &&& cell.bg == VteColor::Named(NamedColor::White) ==> out == (match over[7] {
                Some(x) => Color::Rgb(x.r, x.g, x.b),
                None => Color::Idx(7),
            })
            &&& cell.bg == VteColor::Named(NamedColor::BrightBlack) ==> out == (match over[8] {
                Some(x) => Color::Rgb(x.r, x.g, x.b),
                None => Color::Idx(8),
            })
            &&& cell.bg == VteColor::Named(NamedColor::BrightRed) ==> out == (match over[9] {
                Some(x) => Color::Rgb(x.r, x.g, x.b),
                None => Color::Idx(9),
            })
            &&& cell.bg == VteColor::Named(NamedColor::BrightGreen) ==> out == (match over[10] {
                Some(x) => Color::Rgb(x.r, x.g, x.b),
                None => Color::Idx(10),
            })
            &&& cell.bg == VteColor::Named(NamedColor::BrightYellow) ==> out == (match over[11] {
                Some(x) => Color::Rgb(x.r, x.g, x.b),
                None => Color::Idx(11),
            })
            &&& cell.bg == VteColor::Named(NamedColor::BrightBlue) ==> out == (match over[12] {
                Some(x) => Color::Rgb(x.r, x.g, x.b),
                None => Color::Idx(12),
            })
            &&& cell.bg == VteColor::Named(NamedColor::BrightMagenta) ==> out == (match over[13] {
                Some(x) => Color::Rgb(x.r, x.g, x.b),
                None => Color::Idx(13),
            })
            &&& cell.bg == VteColor::Named(NamedColor::BrightCyan) ==> out == (match over[14] {
                Some(x) => Color::Rgb(x.r, x.g, x.b),
                None => Color::Idx(14),
            })
            &&& cell.bg == VteColor::Named(NamedColor::BrightWhite) ==> out == (match over[15] {
                Some(x) => Color::Rgb(x.r, x.g, x.b),
                None => Color::Idx(15),
            })
            &&& cell.bg == VteColor::Named(NamedColor::Cursor) ==> out == (match over[258] {
                Some(x) => Color::Rgb(x.r, x.g, x.b),
                None => Color::Rgb(216, 216, 216),
            })
            &&& cell.bg == VteColor::Named(NamedColor::DimBlack) ==> out == (match over[259] {
                Some(x) => Color::Rgb(x.r, x.g, x.b),
                None => Color::Rgb(0, 0, 0),
            })
            &&& cell.bg == VteColor::Named(NamedColor::DimRed) ==> out == (match over[260] {
                Some(x) => Color::Rgb(x.r, x.g, x.b),
                None => Color::Rgb(136, 0, 0),
            })
            &&& cell.bg == VteColor::Named(NamedColor::DimGreen) ==> out == (match over[261] {
                Some(x) => Color::Rgb(x.r, x.g, x.b),
                None => Color::Rgb(0, 136, 0),
            })
            &&& cell.bg == VteColor::Named(NamedColor::DimYellow) ==> out == (match over[262] {
                Some(x) => Color::Rgb(x.r, x.g, x.b),
                None => Color::Rgb(136, 136, 0),
            })
            &&& cell.bg == VteColor::Named(NamedColor::DimBlue) ==> out == (match over[263] {
                Some(x) => Color::Rgb(x.r, x.g, x.b),
                None => Color::Rgb(0, 0, 158),
            })
            &&& cell.bg == VteColor::Named(NamedColor::DimMagenta) ==> out == (match over[264] {
                Some(x) => Color::Rgb(x.r, x.g, x.b),
                None => Color::Rgb(136, 0, 136),
            })
            &&& cell.bg == VteColor::Named(NamedColor::DimCyan) ==> out == (match over[265] {
                Some(x) => Color::Rgb(x.r, x.g, x.b),
                None => Color::Rgb(0, 136, 136),
            })
            &&& cell.bg == VteColor::Named(NamedColor::DimWhite) ==> out == (match over[266] {
                Some(x) => Color::Rgb(x.r, x.g, x.b),
                None => Color::Rgb(152, 152, 152),
            })
            &&& cell.bg == VteColor::Named(NamedColor::BrightForeground) ==> out == (match over[267] {
                Some(x) => Color::Rgb(x.r, x.g, x.b),
                None => Color::Rgb(255, 255, 255),
            })
            &&& cell.bg == VteColor::Named(NamedColor::DimForeground) ==> out == (match over[268] {
                Some(x) => Color::Rgb(x.r, x.g, x.b),
                None => Color::Rgb(144, 144, 144),
            })
        }),
{
    a_snapshot_cell(s, t, e, seq, r, c);
}

/// A cell's foreground comes from the emulator cell's own foreground, whatever its
/// background is. A colour that was spelled out travels by its components, a
/// palette index travels as that index, the two defaults travel as the client's
/// own, a named colour of the sixteen travels as its index, and any other name
/// by the components the table has for it. An application's own setting of an
/// entry comes before all but the spelled-out colours and the two defaults.
pub proof fn a_foreground_comes_from_the_foreground(
    s: ScreenState,
    t: HostTerm,
    e: Emulated,
    seq: u64,
    r: int,
    c: int,
)
    requires
        captured(s, t, e, seq),
        t.wf(),
        sound(e.grid),
        0 <= r < t.size.rows,
        0 <= c < t.size.cols,
        r < grid_screen_lines(e.grid),
        c < grid_columns(e.grid),
    ensures
        ({
            let cell = grid_cells(e.grid)[(r, c)];
            let over = color_overrides(e.overrides);
            let out = s.cells@[r * s.cols + c].fg;
            &&& cell.fg matches VteColor::Spec(x) ==> out == Color::Rgb(x.r, x.g, x.b)
            &&& cell.fg matches VteColor::Indexed(i) ==> out == (match over[i as int] {
                Some(x) => Color::Rgb(x.r, x.g, x.b),
                None => Color::Idx(i),
            })
            &&& cell.fg == VteColor::Named(NamedColor::Foreground) ==> out == Color::Default
            &&& cell.fg == VteColor::Named(NamedColor::Background) ==> out == Color::Default
            &&& cell.fg == VteColor::Named(NamedColor::Black) ==> out == (match over[0] {
                Some(x) => Color::Rgb(x.r, x.g, x.b),
                None => Color::Idx(0),
            })
            &&& cell.fg == VteColor::Named(NamedColor::Red) ==> out == (match over[1] {
                Some(x) => Color::Rgb(x.r, x.g, x.b),
                None => Color::Idx(1),
            })
            &&& cell.fg == VteColor::Named(NamedColor::Green) ==> out == (match over[2] {
                Some(x) => Color::Rgb(x.r, x.g, x.b),
                None => Color::Idx(2),
            })
            &&& cell.fg == VteColor::Named(NamedColor::Yellow) ==> out == (match over[3] {
                Some(x) => Color::Rgb(x.r, x.g, x.b),
                None => Color::Idx(3),
            })
            &&& cell.fg == VteColor::Named(NamedColor::Blue) ==> out == (match over[4] {
                Some(x) => Color::Rgb(x.r, x.g, x.b),
                None => Color::Idx(4),
            })
            &&& cell.fg == VteColor::Named(NamedColor::Magenta) ==> out == (match over[5] {
                Some(x) => Color::Rgb(x.r, x.g, x.b),
                None => Color::Idx(5),
            })
            &&& cell.fg == VteColor::Named(NamedColor::Cyan) ==> out == (match over[6] {
                Some(x) => Color::Rgb(x.r, x.g, x.b),
                None => Color::Idx(6),
            })
            &&& cell.fg == VteColor::Named(NamedColor::White) ==> out == (match over[7] {
                Some(x) => Color::Rgb(x.r, x.g, x.b),
                None => Color::Idx(7),
            })
            &&& cell.fg == VteColor::Named(NamedColor::BrightBlack) ==> out == (match over[8] {
                Some(x) => Color::Rgb(x.r, x.g, x.b),
                None => Color::Idx(8),
            })
            &&& cell.fg == VteColor::Named(NamedColor::BrightRed) ==> out == (match over[9] {
                Some(x) => Color::Rgb(x.r, x.g, x.b),
                None => Color::Idx(9),
            })
            &&& cell.fg == VteColor::Named(NamedColor::BrightGreen) ==> out == (match over[10] {
                Some(x) => Color::Rgb(x.r, x.g, x.b),
                None => Color::Idx(10),
            })
            &&& cell.fg == VteColor::Named(NamedColor::BrightYellow) ==> out == (match over[11] {
                Some(x) => Color::Rgb(x.r, x.g, x.b),
                None => Color::Idx(11),
            })
            &&& cell.fg == VteColor::Named(NamedColor::BrightBlue) ==> out == (match over[12] {
                Some(x) => Color::Rgb(x.r, x.g, x.b),
                None => Color::Idx(12),
            })
            &&& cell.fg == VteColor::Named(NamedColor::BrightMagenta) ==> out == (match over[13] {
                Some(x) => Color::Rgb(x.r, x.g, x.b),
                None => Color::Idx(13),
            })
            &&& cell.fg == VteColor::Named(NamedColor::BrightCyan) ==> out == (match over[14] {
                Some(x) => Color::Rgb(x.r, x.g, x.b),
                None => Color::Idx(14),
            })
            &&& cell.fg == VteColor::Named(NamedColor::BrightWhite) ==> out == (match over[15] {
                Some(x) => Color::Rgb(x.r, x.g, x.b),
                None => Color::Idx(15),
            })
            &&& cell.fg == VteColor::Named(NamedColor::Cursor) ==> out == (match over[258] {
                Some(x) => Color::Rgb(x.r, x.g, x.b),
                None => Color::Rgb(216, 216, 216),
            })
            &&& cell.fg == VteColor::Named(NamedColor::DimBlack) ==> out == (match over[259] {
                Some(x) => Color::Rgb(x.r, x.g, x.b),
                None => Color::Rgb(0, 0, 0),
            })
            &&& cell.fg == VteColor::Named(NamedColor::DimRed) ==> out == (match over[260] {
                Some(x) => Color::Rgb(x.r, x.g, x.b),
                None => Color::Rgb(136, 0, 0),
            })
            &&& cell.fg == VteColor::Named(NamedColor::DimGreen) ==> out == (match over[261] {
                Some(x) => Color::Rgb(x.r, x.g, x.b),
                None => Color::Rgb(0, 136, 0),
            })
            &&& cell.fg == VteColor::Named(NamedColor::DimYellow) ==> out == (match over[262] {
                Some(x) => Color::Rgb(x.r, x.g, x.b),
                None => Color::Rgb(136, 136, 0),
            })
            &&& cell.fg == VteColor::Named(NamedColor::DimBlue) ==> out == (match over[263] {
                Some(x) => Color::Rgb(x.r, x.g, x.b),
                None => Color::Rgb(0, 0, 158),
            })
            &&& cell.fg == VteColor::Named(NamedColor::DimMagenta) ==> out == (match over[264] {
                Some(x) => Color::Rgb(x.r, x.g, x.b),
                None => Color::Rgb(136, 0, 136),
            })
            &&& cell.fg == VteColor::Named(NamedColor::DimCyan) ==> out == (match over[265] {
                Some(x) => Color::Rgb(x.r, x.g, x.b),
                None => Color::Rgb(0, 136, 136),
            })
            &&& cell.fg == VteColor::Named(NamedColor::DimWhite) ==> out == (match over[266] {
                Some(x) => Color::Rgb(x.r, x.g, x.b),
                None => Color::Rgb(152, 152, 152),
            })
            &&& cell.fg == VteColor::Named(NamedColor::BrightForeground) ==> out == (match over[267] {
                Some(x) => Color::Rgb(x.r, x.g, x.b),
                None => Color::Rgb(255, 255, 255),
            })
            &&& cell.fg == VteColor::Named(NamedColor::DimForeground) ==> out == (match over[268] {
                Some(x) => Color::Rgb(x.r, x.g, x.b),
                None => Color::Rgb(144, 144, 144),
            })
        }),
{
    a_snapshot_cell(s, t, e, seq, r, c);
}

/// Neither colour leaks into the other. Two cells of two snapshots that have
/// the same background travel with the same background, and two that have the
/// same foreground with the same foreground, wherever they stand and however
/// else they differ, as long as the applications set the same entries.
pub proof fn colours_do_not_mix(
    s: ScreenState,
    t: HostTerm,
    e: Emulated,
    seq: u64,
    r: int,
    c: int,
    s2: ScreenState,
    t2: HostTerm,
    e2: Emulated,
    seq2: u64,
    r2: int,
    c2: int,
)
    requires
        captured(s, t, e, seq),
        captured(s2, t2, e2, seq2),
        t.wf(),
        t2.wf(),
        sound(e.grid),
        sound(e2.grid),
        color_overrides(e.overrides) == color_overrides(e2.overrides),
        0 <= r < t.size.rows,
        0 <= c < t.size.cols,
        r < grid_screen_lines(e.grid),
        c < grid_columns(e.grid),
        0 <= r2 < t2.size.rows,
        0 <= c2 < t2.size.cols,
        r2 < grid_screen_lines(e2.grid),
        c2 < grid_columns(e2.grid),
    ensures
        grid_cells(e.grid)[(r, c)].bg == grid_cells(e2.grid)[(r2, c2)].bg
            ==> s.cells@[r * s.cols + c].bg == s2.cells@[r2 * s2.cols + c2].bg,
        grid_cells(e.grid)[(r, c)].fg == grid_cells(e2.grid)[(r2, c2)].fg
            ==> s.cells@[r * s.cols + c].fg == s2.cells@[r2 * s2.cols + c2].fg,
{
    a_snapshot_cell(s, t, e, seq, r, c);
    a_snapshot_cell(s2, t2, e2, seq2, r2, c2);
    assert(t.table@ =~= t2.table@);
}

/// Every attribute of a cell is one the emulator's cell has, and each comes
/// from its own bits: five underline styles are one, either kind of spacer is
/// the continuation of a wide character, and blink is the plane's own answer
/// for where the cell stands.
pub proof fn attributes_come_from_their_own_bits(
    s: ScreenState,
    t: HostTerm,
    e: Emulated,
    seq: u64,
    r: int,
    c: int,
)
    requires
        captured(s, t, e, seq),
        sound(e.grid),
        0 <= r < t.size.rows,
        0 <= c < t.size.cols,
        r < grid_screen_lines(e.grid),
        c < grid_columns(e.grid),
    ensures
        ({
            let flags = grid_cells(e.grid)[(r, c)].flags;
            let attrs = s.cells@[r * s.cols + c].attrs;
            &&& attrs.inverse <==> flags & 0x1 != 0
            &&& attrs.bold <==> flags & 0x2 != 0
            &&& attrs.italic <==> flags & 0x4 != 0
            &&& attrs.underline <==> flags & 0x7808 != 0
            &&& attrs.dim <==> flags & 0x80 != 0
            &&& attrs.hidden <==> flags & 0x100 != 0
            &&& attrs.strike <==> flags & 0x200 != 0
            &&& attrs.wide_cont <==> flags & 0x440 != 0
            &&& attrs.blink <==> t.tap.blink.cells().contains((r, c))
        }),
{
    a_snapshot_cell(s, t, e, seq, r, c);
    let flags = grid_cells(e.grid)[(r, c)].flags;
    assert((flags & 0x1 == 0x1 <==> flags & 0x1 != 0) && (flags & 0x2 == 0x2 <==> flags & 0x2 != 0)
        && (flags & 0x4 == 0x4 <==> flags & 0x4 != 0) && (flags & 0x80 == 0x80 <==> flags & 0x80
        != 0) && (flags & 0x100 == 0x100 <==> flags & 0x100 != 0) && (flags & 0x200 == 0x200
        <==> flags & 0x200 != 0) && ((flags & 0x40 == 0x40 || flags & 0x400 == 0x400) <==> flags
        & 0x440 != 0)) by (bit_vector);
}

/// The mark after the last one kept is a control character or does not fit.
proof fn the_next_mark_is_refused(base: Seq<char>, marks: Seq<char>)
    requires
        byte_len(base) <= MAX_CELL_TEXT,
        marks_kept(byte_len(base), marks) < marks.len(),
    ensures
        ({
            let n = marks_kept(byte_len(base), marks) as int;
            is_control(marks[n]) || byte_len(base + marks.take(n)) + scalar_len(marks[n])
                > MAX_CELL_TEXT
        }),
    decreases marks.len(),
{
    let n = marks_kept(byte_len(base), marks);
    if n == 0 {
        assert(base + marks.take(0) =~= base);
    } else {
        let longer = base.push(marks[0]);
        byte_len_push(base, marks[0]);
        kept_marks_fit(base, marks);
        the_next_mark_is_refused(longer, marks.skip(1));
        let rest = marks_kept(byte_len(longer), marks.skip(1));
        assert(longer + marks.skip(1).take(rest as int) =~= base + marks.take(n as int));
        assert(marks.skip(1)[rest as int] == marks[n as int]);
    }
}

/// The text of a cell is its base character and then its marks, in order and
/// with none left out between, up to 32 bytes. It stops only where the next
/// mark is a control character or would be past those bytes. A half of a wide
/// character that stands for the other carries nothing.
pub proof fn a_cell_keeps_its_text(
    s: ScreenState,
    t: HostTerm,
    e: Emulated,
    seq: u64,
    r: int,
    c: int,
)
    requires
        captured(s, t, e, seq),
        sound(e.grid),
        0 <= r < t.size.rows,
        0 <= c < t.size.cols,
        r < grid_screen_lines(e.grid),
        c < grid_columns(e.grid),
    ensures
        ({
            let cell = grid_cells(e.grid)[(r, c)];
            let text = s.cells@[r * s.cols + c].text@;
            let kept = text.len() - 1;
            let control = cell.c as u32 <= 0x1f || 0x7f <= cell.c as u32 <= 0x9f;
            &&& cell.flags & 0x440 != 0 ==> text.len() == 0
            &&& cell.flags & 0x440 == 0 && !control ==> {
                &&& 0 <= kept <= cell.marks.len()
                &&& text == seq![cell.c] + cell.marks.take(kept)
                &&& byte_len(text) <= 32
                &&& kept < cell.marks.len() ==> {
                    ||| cell.marks[kept] as u32 <= 0x1f
                    ||| 0x7f <= cell.marks[kept] as u32 <= 0x9f
                    ||| byte_len(text) + scalar_len(cell.marks[kept]) > 32
                }
            }
            &&& cell.flags & 0x440 == 0 && control ==> {
                &&& text.len() <= cell.marks.len()
                &&& text == cell.marks.take(text.len() as int)
            }
        }),
{
    a_snapshot_cell(s, t, e, seq, r, c);
    let cell = grid_cells(e.grid)[(r, c)];
    let flags = cell.flags;
    assert((flags & 0x40 == 0x40 || flags & 0x400 == 0x400) <==> flags & 0x440 != 0)
        by (bit_vector);
    let text = s.cells@[r * s.cols + c].text@;
    assert(text == text_of_cell(cell));
    if flags & 0x440 == 0 {
        let base = seq![cell.c];
        assert(Seq::<char>::empty().push(cell.c) =~= base);
        byte_len_push(Seq::empty(), cell.c);
        marks_kept_bound(scalar_len(cell.c), cell.marks);
        kept_marks_fit(base, cell.marks);
        let n = marks_kept(scalar_len(cell.c), cell.marks);
        if n < cell.marks.len() {
            the_next_mark_is_refused(base, cell.marks);
        }
        if is_control(cell.c) {
            assert(text =~= cell.marks.take(n as int));
        } else {
            assert(text =~= base + cell.marks.take(n as int));
        }
    }
}

/// A snapshot has a cell for every point of the screen, and what the emulator
/// has no cell for is a blank one: a space in the client's own colours, with no
/// attribute.
pub proof fn what_is_not_in_the_grid_is_blank(
    s: ScreenState,
    t: HostTerm,
    e: Emulated,
    seq: u64,
    r: int,
    c: int,
)
    requires
        captured(s, t, e, seq),
        sound(e.grid),
        0 <= r < t.size.rows,
        0 <= c < t.size.cols,
        r >= grid_screen_lines(e.grid) || c >= grid_columns(e.grid),
    ensures
        s.rows == t.size.rows,
        s.cols == t.size.cols,
        s.cells@.len() == s.rows * s.cols,
        ({
            let cell = s.cells@[r * s.cols + c];
            &&& cell.text@ == seq![' ']
            &&& cell.fg == Color::Default
            &&& cell.bg == Color::Default
            &&& !cell.attrs.bold && !cell.attrs.italic && !cell.attrs.underline
            &&& !cell.attrs.inverse && !cell.attrs.blink && !cell.attrs.strike
            &&& !cell.attrs.dim && !cell.attrs.hidden && !cell.attrs.wide_cont
        }),
{
    reveal_strlit(" ");
    assert(" "@ =~= seq![' ']);
    assert(s.cells@[r * t.size.cols + c]@ == look_at(
        e.grid,
        Point { line: r as i32, column: c as usize },
        t.tap.blink.cells(),
        color_overrides(e.overrides),
        t.table@,
    ));
}

/// The cursor of a snapshot is where the emulator's is, on the nearest cell of
/// the screen where that is off it; it shows exactly while the emulator shows
/// it, and has the shape it has there, a block standing for the two that do not
/// travel.
pub proof fn the_cursor_is_where_the_emulator_has_it(
    s: ScreenState,
    t: HostTerm,
    e: Emulated,
    seq: u64,
)
    requires
        captured(s, t, e, seq),
        t.size.rows >= 1,
        t.size.cols >= 1,
    ensures
        ({
            let p = grid_cursor(e.grid);
            &&& 0 <= p.line < t.size.rows ==> s.cursor.row == p.line
            &&& p.line < 0 ==> s.cursor.row == 0
            &&& p.line >= t.size.rows ==> s.cursor.row == t.size.rows - 1
            &&& p.column < t.size.cols ==> s.cursor.col == p.column
            &&& t.size.cols <= p.column <= 0xffff ==> s.cursor.col == t.size.cols - 1
        }),
        s.cursor.visible <==> e.mode & 0x1 != 0,
        e.shape is Underline <==> s.cursor.shape == CursorShape::Underline,
        e.shape is Beam <==> s.cursor.shape == CursorShape::Bar,
        e.shape is Block || e.shape is HollowBlock || e.shape is Hidden <==> s.cursor.shape
            == CursorShape::Block,
{
    let mode = e.mode;
    assert(mode & 0x1 == 0x1 <==> mode & 0x1 != 0) by (bit_vector);
}

/// Each mode of a snapshot comes from its own bit, and the mouse mode is the
/// most specific of those that are on.
pub proof fn modes_come_from_their_own_bits(s: ScreenState, t: HostTerm, e: Emulated, seq: u64)
    requires
        captured(s, t, e, seq),
    ensures
        s.modes.app_cursor <==> e.mode & 0x2 != 0,
        s.modes.app_keypad <==> e.mode & 0x4 != 0,
        s.modes.bracketed_paste <==> e.mode & 0x10 != 0,
        s.modes.alt_screen <==> e.mode & 0x1000 != 0,
        s.modes.mouse == MouseMode::AnyMotion <==> e.mode & 0x40 != 0,
        s.modes.mouse == MouseMode::ButtonMotion <==> e.mode & 0x40 == 0 && e.mode & 0x2000 != 0,
        s.modes.mouse == MouseMode::PressRelease <==> e.mode & 0x2040 == 0 && e.mode & 0x8 != 0,
        s.modes.mouse == MouseMode::Off <==> e.mode & 0x2048 == 0,
{
    let mode = e.mode;
    assert((mode & 0x2 == 0x2 <==> mode & 0x2 != 0) && (mode & 0x4 == 0x4 <==> mode & 0x4 != 0)
        && (mode & 0x8 == 0x8 <==> mode & 0x8 != 0) && (mode & 0x10 == 0x10 <==> mode & 0x10 != 0)
        && (mode & 0x40 == 0x40 <==> mode & 0x40 != 0) && (mode & 0x1000 == 0x1000 <==> mode
        & 0x1000 != 0) && (mode & 0x2000 == 0x2000 <==> mode & 0x2000 != 0)) by (bit_vector);
    assert((mode & 0x2040 == 0 <==> mode & 0x40 == 0 && mode & 0x2000 == 0) && (mode & 0x2048 == 0
        <==> mode & 0x40 == 0 && mode & 0x2000 == 0 && mode & 0x8 == 0)) by (bit_vector);
}

/// A snapshot carries the number it was asked for, the title and the bell as
/// they stand, and as its scrollback every line that has scrolled off.
pub proof fn a_snapshot_carries_the_session(s: ScreenState, t: HostTerm, e: Emulated, seq: u64)
    requires
        captured(s, t, e, seq),
    ensures
        s.seq == seq,
        s.title@ == t.title@,
        s.bell == t.bell,
        s.scrollback_len == t.tap.scrolled,
        s.rows == t.size.rows,
        s.cols == t.size.cols,
{
}

/// A line that has scrolled off and is still in the ring is given back under
/// its own number. Line `n` of a request comes `n` places after the first one
/// that is held, and shows the grid's line that many above the top: the last
/// one to scroll off is line -1. A request gets every held line it asks for,
/// each as wide as the screen, and no other.
pub proof fn scrollback_lines_keep_their_numbers(
    t: HostTerm,
    from: u64,
    to: u64,
    grid: Grid<EmuCell>,
    over: Seq<Option<Rgb>>,
    out: Seq<Vec<Cell>>,
    n: int,
    c: int,
)
    requires
        t.replayed(from, to, grid, over, out),
        t.wf(),
        sound(grid),
        from <= n < to,
        0 <= n < t.tap.scrolled,
        n >= t.tap.scrolled - (grid_total_lines(grid) - grid_screen_lines(grid)),
        0 <= c < t.size.cols,
        c < grid_columns(grid),
    ensures
        ({
            let oldest = t.tap.scrolled - (grid_total_lines(grid) - grid_screen_lines(grid));
            let first = if from >= oldest {
                from as int
            } else {
                oldest
            };
            let last = if to <= t.tap.scrolled {
                to as int
            } else {
                t.tap.scrolled as int
            };
            let cell = grid_cells(grid)[(n - t.tap.scrolled, c)];
            let shown = out[n - first]@[c];
            &&& out.len() == last - first
            &&& 0 <= n - first < out.len()
            &&& out[n - first]@.len() == t.size.cols
            &&& shown.attrs.bold <==> cell.flags & 0x2 != 0
            &&& shown.attrs.blink <==> t.tap.blink.cells().contains((n - t.tap.scrolled, c))
            &&& cell.fg matches VteColor::Spec(x) ==> shown.fg == Color::Rgb(x.r, x.g, x.b)
            &&& cell.bg matches VteColor::Spec(x) ==> shown.bg == Color::Rgb(x.r, x.g, x.b)
            &&& cell.fg matches VteColor::Indexed(i) ==> (over[i as int] is None ==> shown.fg
                == Color::Idx(i))
            &&& cell.bg matches VteColor::Indexed(i) ==> (over[i as int] is None ==> shown.bg
                == Color::Idx(i))
            &&& cell.flags & 0x440 == 0 && cell.c as u32 >= 0x20 && (cell.c as u32) < 0x7f
                ==> shown.text@.len() >= 1 && shown.text@[0] == cell.c
        }),
{
    let oldest = t.tap.scrolled - history(grid);
    let first = if from >= oldest {
        from as int
    } else {
        oldest
    };
    let line = n - t.tap.scrolled;
    assert(out[n - first]@[c]@ == look_at(
        grid,
        Point { line: line as i32, column: c as usize },
        t.tap.blink.cells(),
        over,
        t.table@,
    ));
    let flags = grid_cells(grid)[(line, c)].flags;
    assert((flags & 0x2 == 0x2 <==> flags & 0x2 != 0) && ((flags & 0x40 == 0x40 || flags & 0x400
        == 0x400) <==> flags & 0x440 != 0)) by (bit_vector);
}

/// What has fallen off the ring is not made up: a request for nothing that is
/// held is answered with nothing.
pub proof fn what_is_gone_is_gone(
    t: HostTerm,
    from: u64,
    to: u64,
    grid: Grid<EmuCell>,
    over: Seq<Option<Rgb>>,
    out: Seq<Vec<Cell>>,
)
    requires
        t.replayed(from, to, grid, over, out),
        sound(grid),
        to <= from || from >= t.tap.scrolled || to <= t.tap.scrolled - (grid_total_lines(grid)
            - grid_screen_lines(grid)),
    ensures
        out.len() == 0,
{
}

/// What the emulator reports at the end of a turn is taken in and told. A title
/// replaces the one before, every bell is counted as far as the count goes, an
/// exit code is remembered, and each of the first two is a change, as is
/// anything that was read or a screen that changed as a whole. An exit alone is
/// none.
pub proof fn a_turn_takes_in_what_was_reported(
    before: HostTerm,
    turn: Turn,
    signals: Signals,
    full: bool,
    after: HostTerm,
    changed: bool,
)
    requires
        finished(before, turn, signals, full, after, changed),
    ensures
        signals.title matches Some(title) ==> after.title == title && changed,
        signals.title is None ==> after.title == before.title,
        signals.bells > 0 ==> changed,
        before.bell + signals.bells <= 0xffff_ffff ==> after.bell == before.bell + signals.bells,
        before.bell + signals.bells > 0xffff_ffff ==> after.bell == 0xffff_ffff,
        signals.child_exit matches Some(code) ==> after.exited == Some(code),
        signals.child_exit is None ==> after.exited == before.exited,
        turn.changed ==> changed,
        full ==> changed,
        changed ==> full || turn.changed || signals.title is Some || signals.bells > 0,
        after.tap == before.tap,
        after.table == before.table,
        after.size == before.size,
        after.history == before.history,
        after.max_cells == before.max_cells,
{
}

/// A turn counts what it reads. It starts with nothing read and nothing
/// changed, every read adds what it gave, and it has changed something exactly
/// once a read gave anything.
pub proof fn a_turn_counts_what_it_reads(turn: Turn, n: usize)
    requires
        turn.drained + n <= 65536,
    ensures
        fresh_turn().drained == 0,
        !fresh_turn().changed,
        turn_after(turn, n).drained == turn.drained + n,
        turn_after(turn, n).changed <==> turn.changed || n > 0,
        READ_BUDGET == 65536,
        READ_CHUNK == 65536,
{
}

/// A terminal is opened, and a new size taken, exactly if neither side is over
/// 2048 and the cells are no more than the cap; otherwise the size is named in
/// the refusal. A terminal starts with nothing rung, scrolled, titled, exited or
/// blinking.
pub proof fn a_terminal_opens_within_bounds(
    size: TermSize,
    scrollback: usize,
    max_cells: u32,
    r: Result<HostTerm, ApplyError>,
)
    requires
        opened(size, scrollback, max_cells, r),
    ensures
        r is Ok <==> size.rows <= 2048 && size.cols <= 2048 && size.rows * size.cols <= max_cells,
        r matches Ok(t) ==> {
            &&& t.size.rows == size.rows
            &&& t.size.cols == size.cols
            &&& t.history == scrollback
            &&& t.max_cells == max_cells
            &&& t.bell == 0
            &&& t.title@.len() == 0
            &&& t.exited is None
            &&& t.tap.scrolled == 0
            &&& !t.tap.blink.is_active()
            &&& forall|p: (int, int)| !(#[trigger] t.tap.blink.cells().contains(p))
        },
        r matches Err(e) ==> e == (ApplyError::ScreenTooLarge { rows: size.rows, cols: size.cols }),
{
}

/// A new size that is within bounds is taken as it is, with the emulator asked
/// for its rows as lines, its columns as columns and the history it had. Nothing
/// blinks any more, because nothing is known of where it went, and nothing else
/// is touched; a size out of bounds touches nothing at all.
pub proof fn a_resize_takes_the_size_and_nothing_else(
    before: HostTerm,
    size: TermSize,
    after: HostTerm,
    r: Result<GridSize, ApplyError>,
)
    requires
        resized(before, size, after, r),
    ensures
        r is Ok <==> size.rows <= 2048 && size.cols <= 2048 && size.rows * size.cols
            <= before.max_cells,
        r matches Ok(g) ==> {
            &&& g.screen_lines == size.rows
            &&& g.columns == size.cols
            &&& g.history == before.history
            &&& after.size == size
            &&& after.tap.scrolled == before.tap.scrolled
            &&& after.tap.blink.is_active() == before.tap.blink.is_active()
            &&& forall|p: (int, int)| !(#[trigger] after.tap.blink.cells().contains(p))
        },
        r matches Err(e) ==> {
            &&& e == (ApplyError::ScreenTooLarge { rows: size.rows, cols: size.cols })
            &&& after.size == before.size
            &&& after.tap == before.tap
        },
        after.table == before.table,
        after.history == before.history,
        after.max_cells == before.max_cells,
        after.bell == before.bell,
        after.title == before.title,
        after.exited == before.exited,
{
}

/// An exit code that is known stays as it is, whatever asking again says. One
/// that is not is the child's own, 128 and the signal that ended it, -1 for a
/// child that cannot be asked after, and none while it runs.
pub proof fn an_exit_is_learned_once(
    before: HostTerm,
    wait: Wait,
    after: HostTerm,
    code: Option<i32>,
)
    requires
        asked_after(before, wait, after, code),
    ensures
        before.exited matches Some(known) ==> code == Some(known),
        before.exited is None ==> {
            &&& wait is Running ==> code is None
            &&& wait is Failed ==> code == Some(-1i32)
            &&& wait matches Wait::Exited(status) ==> {
                &&& status.code matches Some(n) ==> code == Some(n)
                &&& status.code is None && status.signal is None ==> code == Some(128i32)
                &&& status.code is None ==> (status.signal matches Some(n) ==> (128 + n
                    <= i32::MAX ==> code == Some((128 + n) as i32)))
            }
        },
        after.exited == code,
        after.tap == before.tap,
        after.size == before.size,
        after.title == before.title,
        after.bell == before.bell,
{
}

} // verus!
