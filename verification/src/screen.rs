//! The screen model: what a terminal looks like, as both ends hold it.

use vstd::prelude::*;

use crate::error::ApplyError;

verus! {

/// The size of a terminal, in cells.
#[derive(Clone, Copy, PartialEq, Eq, Debug, Structural)]
pub struct TermSize {
    pub cols: u16,
    pub rows: u16,
}

/// A colour, as it travels.
#[derive(Clone, Copy, PartialEq, Eq, Debug, Structural)]
pub enum Color {
    /// Whatever the client's own theme says.
    Default,
    /// A palette index, which a themed client may honour in its own way.
    Idx(u8),
    Rgb(u8, u8, u8),
}

/// How a cell is drawn.
#[derive(Clone, Copy, PartialEq, Eq, Debug, Structural)]
pub struct Attrs {
    pub bold: bool,
    pub italic: bool,
    pub underline: bool,
    pub inverse: bool,
    pub blink: bool,
    pub strike: bool,
    pub dim: bool,
    pub hidden: bool,
    /// The right-hand half of a wide character.
    pub wide_cont: bool,
}

/// No attribute at all.
pub open spec fn no_attrs() -> Attrs {
    Attrs {
        bold: false,
        italic: false,
        underline: false,
        inverse: false,
        blink: false,
        strike: false,
        dim: false,
        hidden: false,
        wide_cont: false,
    }
}

impl Attrs {
    /// No attribute at all.
    pub fn empty() -> (a: Attrs)
        ensures
            a == no_attrs(),
    {
        Attrs {
            bold: false,
            italic: false,
            underline: false,
            inverse: false,
            blink: false,
            strike: false,
            dim: false,
            hidden: false,
            wide_cont: false,
        }
    }
}

/// One cell of a screen.
#[derive(Clone, PartialEq, Eq, Debug)]
pub struct Cell {
    pub text: String,
    pub fg: Color,
    pub bg: Color,
    pub attrs: Attrs,
}

/// What a cell shows.
pub struct CellLook {
    pub text: Seq<char>,
    pub fg: Color,
    pub bg: Color,
    pub attrs: Attrs,
}

impl View for Cell {
    type V = CellLook;

    open spec fn view(&self) -> CellLook {
        CellLook { text: self.text@, fg: self.fg, bg: self.bg, attrs: self.attrs }
    }
}

/// A cell nothing was ever written to.
pub open spec fn blank_look() -> CellLook {
    CellLook { text: " "@, fg: Color::Default, bg: Color::Default, attrs: no_attrs() }
}

impl Cell {
    /// A cell nothing was ever written to.
    pub fn blank() -> (cell: Cell)
        ensures
            cell@ == blank_look(),
    {
        Cell {
            text: " ".to_owned(),
            fg: Color::Default,
            bg: Color::Default,
            attrs: Attrs::empty(),
        }
    }
}

/// The shape of a cursor.
#[derive(Clone, Copy, PartialEq, Eq, Debug, Structural)]
pub enum CursorShape {
    Block,
    Underline,
    Bar,
}

/// Where the cursor is and how it is drawn.
#[derive(Clone, Copy, PartialEq, Eq, Debug, Structural)]
pub struct Cursor {
    pub row: u16,
    pub col: u16,
    pub visible: bool,
    pub shape: CursorShape,
}

/// Which mouse events the application asked for.
#[derive(Clone, Copy, PartialEq, Eq, Debug, Structural)]
pub enum MouseMode {
    Off,
    PressRelease,
    ButtonMotion,
    AnyMotion,
}

/// The terminal modes a client has to follow.
#[derive(Clone, Copy, PartialEq, Eq, Debug, Structural)]
pub struct Modes {
    pub alt_screen: bool,
    pub bracketed_paste: bool,
    pub mouse: MouseMode,
    pub app_cursor: bool,
    pub app_keypad: bool,
}

/// A whole screen, numbered.
#[derive(Clone, PartialEq, Eq, Debug)]
pub struct ScreenState {
    pub seq: u64,
    pub rows: u16,
    pub cols: u16,
    /// Row by row, exactly `rows * cols` of them.
    pub cells: Vec<Cell>,
    pub cursor: Cursor,
    pub modes: Modes,
    pub title: String,
    /// How often the bell has rung. It never goes down.
    pub bell: u32,
    /// How many lines have scrolled off. It never goes down.
    pub scrollback_len: u64,
}

impl ScreenState {
    /// The cells are exactly those of the screen.
    pub open spec fn cells_fit(&self) -> bool {
        self.cells@.len() == self.rows * self.cols
    }

    /// The cursor sits on a cell that exists.
    pub open spec fn cursor_fits(&self) -> bool {
        self.cursor.row < self.rows && self.cursor.col < self.cols
    }

    /// What every state either end accepts satisfies.
    pub open spec fn valid(&self) -> bool {
        self.cells_fit() && self.cursor_fits() && self.seq != 0
    }

    /// Whether `r` is what becomes of a state that is held to what every state
    /// has to satisfy.
    pub open spec fn judged(&self, r: Result<(), ApplyError>) -> bool {
        r == (if !self.cells_fit() {
            Err::<(), ApplyError>(
                ApplyError::LengthMismatch {
                    len: self.cells@.len() as usize,
                    rows: self.rows,
                    cols: self.cols,
                },
            )
        } else if !self.cursor_fits() {
            Err(
                ApplyError::CursorOutOfBounds {
                    row: self.cursor.row,
                    col: self.cursor.col,
                    rows: self.rows,
                    cols: self.cols,
                },
            )
        } else if self.seq == 0 {
            Err(ApplyError::SeqZero)
        } else {
            Ok(())
        })
    }

    /// Refuse a state that does not hold together.
    pub fn validate(&self) -> (r: Result<(), ApplyError>)
        ensures
            r == (if !self.cells_fit() {
                Err::<(), ApplyError>(
                    ApplyError::LengthMismatch {
                        len: self.cells@.len() as usize,
                        rows: self.rows,
                        cols: self.cols,
                    },
                )
            } else if !self.cursor_fits() {
                Err(
                    ApplyError::CursorOutOfBounds {
                        row: self.cursor.row,
                        col: self.cursor.col,
                        rows: self.rows,
                        cols: self.cols,
                    },
                )
            } else if self.seq == 0 {
                Err(ApplyError::SeqZero)
            } else {
                Ok(())
            }),
            self.judged(r),
    {
        proof {
            assert(0 <= self.rows * self.cols <= 0xffff * 0xffff) by (nonlinear_arith)
                requires
                    0 <= self.rows <= 0xffff,
                    0 <= self.cols <= 0xffff,
            ;
        }
        let len: usize = self.cells.len();
        if len as u64 != self.rows as u64 * self.cols as u64 {
            return Err(ApplyError::LengthMismatch { len, rows: self.rows, cols: self.cols });
        }
        if self.cursor.row >= self.rows || self.cursor.col >= self.cols {
            return Err(
                ApplyError::CursorOutOfBounds {
                    row: self.cursor.row,
                    col: self.cursor.col,
                    rows: self.rows,
                    cols: self.cols,
                },
            );
        }
        if self.seq == 0 {
            return Err(ApplyError::SeqZero);
        }
        Ok(())
    }

    /// The cell at a row and a column.
    pub open spec fn at(&self, row: u16, col: u16) -> Cell {
        self.cells@[row * self.cols + col]
    }

    /// The cell at a row and a column.
    pub fn cell(&self, row: u16, col: u16) -> (cell: &Cell)
        requires
            self.cells_fit(),
            row < self.rows,
            col < self.cols,
        ensures
            *cell == self.cells@[row * self.cols + col],
            *cell == self.at(row, col),
    {
        proof {
            assert(row * self.cols + col < self.rows * self.cols) by (nonlinear_arith)
                requires
                    0 <= row < self.rows,
                    0 <= col < self.cols,
            ;
            assert(0 <= row * self.cols) by (nonlinear_arith)
                requires
                    0 <= row,
                    0 <= self.cols,
            ;
        }
        let len: usize = self.cells.len();
        assert(row * self.cols + col < len);
        &self.cells[row as usize * self.cols as usize + col as usize]
    }
}

/// A state holds together exactly if it has a cell for every point of its screen,
/// its cursor stands on one of them and it has a number of its own; what is wrong
/// first is what it is refused with.
pub proof fn a_state_is_refused_for_what_is_wrong_first(
    s: ScreenState,
    r: Result<(), ApplyError>,
)
    requires
        s.judged(r),
    ensures
        r is Ok <==> s.cells@.len() == s.rows * s.cols && s.cursor.row < s.rows && s.cursor.col
            < s.cols && s.seq != 0,
        s.cells@.len() != s.rows * s.cols ==> r == Err::<(), ApplyError>(
            ApplyError::LengthMismatch { len: s.cells@.len() as usize, rows: s.rows, cols: s.cols },
        ),
        s.cells@.len() == s.rows * s.cols && (s.cursor.row >= s.rows || s.cursor.col >= s.cols)
            ==> r == Err::<(), ApplyError>(
            ApplyError::CursorOutOfBounds {
                row: s.cursor.row,
                col: s.cursor.col,
                rows: s.rows,
                cols: s.cols,
            },
        ),
        s.cells@.len() == s.rows * s.cols && s.cursor.row < s.rows && s.cursor.col < s.cols && s.seq
            == 0 ==> r == Err::<(), ApplyError>(ApplyError::SeqZero),
{
}

/// Cells are kept row by row: each next column is the next cell, and each next
/// row begins where the one above it ends.
pub proof fn cells_are_kept_row_by_row(s: ScreenState, row: u16, col: u16)
    requires
        s.cells_fit(),
        row < s.rows,
        col < s.cols,
    ensures
        s.at(row, col) == s.cells@[row * s.cols + col],
        s.at(0, col) == s.cells@[col as int],
        col + 1 < s.cols ==> s.at(row, (col + 1) as u16) == s.cells@[row * s.cols + col + 1],
        row + 1 < s.rows ==> s.at((row + 1) as u16, col) == s.cells@[row * s.cols + col + s.cols],
{
    assert(0 * s.cols == 0) by (nonlinear_arith);
    assert((row + 1) * s.cols == row * s.cols + s.cols) by (nonlinear_arith);
}

} // verus!
