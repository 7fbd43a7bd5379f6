//! Dimensions, and the one checked way to read a cell.

use alacritty_terminal::grid::Grid;
use alacritty_terminal::term::cell::Cell as EmuCell;
use vstd::prelude::*;

use crate::emulator::{cell_inside, clamp, CellData, Point};
use crate::emulator::{clamped, grid_cells, inside, sound};
use crate::error::ApplyError;
use crate::screen::TermSize;

verus! {

/// The most rows, and the most columns, a screen may have.
pub const MAX_SCREEN_DIM: u16 = 2048;

/// A screen size the emulator will accept.
#[derive(Clone, Copy, PartialEq, Eq, Debug, Structural)]
pub struct GridSize {
    pub screen_lines: usize,
    pub columns: usize,
    pub history: usize,
}

/// Whether a size is within bounds: neither dimension too large, and no more
/// than `max_cells` cells in all.
pub open spec fn within_bounds(size: TermSize, max_cells: u32) -> bool {
    &&& size.rows <= MAX_SCREEN_DIM
    &&& size.cols <= MAX_SCREEN_DIM
    &&& size.rows * size.cols <= max_cells
}

impl TermSize {
    /// Refuse a size that is out of bounds.
    pub fn check_bounds(&self, max_cells: u32) -> (r: Result<(), ApplyError>)
        ensures
            r is Ok <==> within_bounds(*self, max_cells),
            r matches Err(e) ==> e == (ApplyError::ScreenTooLarge {
                rows: self.rows,
                cols: self.cols,
            }),
    {
        proof {
            assert(0 <= self.rows * self.cols <= 0xffff * 0xffff) by (nonlinear_arith)
                requires
                    0 <= self.rows <= 0xffff,
                    0 <= self.cols <= 0xffff,
            ;
        }
        if self.rows > MAX_SCREEN_DIM || self.cols > MAX_SCREEN_DIM || self.rows as u32
            * self.cols as u32 > max_cells {
            Err(ApplyError::ScreenTooLarge { rows: self.rows, cols: self.cols })
        } else {
            Ok(())
        }
    }
}

impl GridSize {
    /// The choke point where a size chosen by the peer becomes an allocation:
    /// the emulator allocates `(screen_lines + history) * columns` cells from
    /// whatever this returns, with no bound of its own.
    ///
    /// Refused rather than clamped: a clamped size means the two ends silently
    /// disagree about how big the screen is. History is no part of the bound.
    pub fn new(size: TermSize, history: usize, max_cells: u32) -> (r: Result<GridSize, ApplyError>)
        ensures
            match r {
                Ok(g) => {
                    &&& within_bounds(size, max_cells)
                    &&& g.screen_lines == size.rows
                    &&& g.columns == size.cols
                    &&& g.history == history
                },
                Err(e) => {
                    &&& !within_bounds(size, max_cells)
                    &&& e == (ApplyError::ScreenTooLarge { rows: size.rows, cols: size.cols })
                },
            },
    {
        match size.check_bounds(max_cells) {
            Ok(()) => Ok(
                GridSize { screen_lines: size.rows as usize, columns: size.cols as usize, history },
            ),
            Err(e) => Err(e),
        }
    }

    /// The lines on screen and the lines of history together.
    pub fn total_lines(&self) -> (n: usize)
        requires
            self.screen_lines + self.history <= usize::MAX,
        ensures
            n == self.screen_lines + self.history,
    {
        self.screen_lines + self.history
    }
}

/// Read one cell, or `None` if the point is outside the grid.
///
/// The emulator's own indexing checks nothing in a release build: out of range
/// it reads whatever is next along. So every access is clamped first and
/// compared against what was asked for.
pub fn cell_at(grid: &Grid<EmuCell>, point: Point) -> (cell: Option<CellData>)
    requires
        sound(*grid),
    ensures
        match cell {
            Some(c) => inside(*grid, point) && c@ == grid_cells(*grid)[(
                point.line as int,
                point.column as int,
            )],
            None => !inside(*grid, point),
        },
{
    let moved = clamp(grid, point);
    // The clamp moved it, so the point was never in the grid.
    if moved != point {
        return None;
    }
    Some(cell_inside(grid, point))
}

/// A size is within bounds exactly if neither side is over 2048 and its cells are
/// no more than the cap; making one of two sizes smaller never takes it out of
/// bounds.
pub proof fn bounds_are_on_both_sides_and_on_the_cells(
    size: TermSize,
    smaller: TermSize,
    max_cells: u32,
)
    requires
        smaller.rows <= size.rows,
        smaller.cols <= size.cols,
    ensures
        within_bounds(size, max_cells) <==> size.rows <= 2048 && size.cols <= 2048 && size.rows
            * size.cols <= max_cells,
        within_bounds(size, max_cells) ==> within_bounds(smaller, max_cells),
{
    assert(smaller.rows * smaller.cols <= size.rows * size.cols) by (nonlinear_arith)
        requires
            0 <= smaller.rows <= size.rows,
            0 <= smaller.cols <= size.cols,
    ;
}

} // verus!
