//! The error a state or a size is refused with.

use vstd::prelude::*;

use crate::text::{decimal, number};

verus! {

/// Why a state or a diff was refused.
///
/// Every variant means the same thing operationally: nothing was applied.
/// There is no partial application, because a half-applied diff is a state
/// that validates while describing a screen neither end is looking at.
#[derive(PartialEq, Eq, Debug)]
#[allow(inconsistent_fields)]
pub enum ApplyError {
    BaseMismatch { base: u64, current: u64 },
    OutOfBounds { row: u16, rows: u16 },
    Decode(String),
    /// The cells must be exactly `rows * cols`: every access is a computed
    /// row-major offset, so a short vector has cells missing and a long one
    /// addresses the wrong cell forever.
    LengthMismatch { len: usize, rows: u16, cols: u16 },
    /// The cursor must sit on a cell that exists. Rejected, never clamped.
    CursorOutOfBounds { row: u16, col: u16, rows: u16, cols: u16 },
    /// Sequence zero is the full-state sentinel.
    SeqZero,
    /// The bell is a monotonic counter.
    BellWentBackwards { was: u32, now: u32 },
    /// Lines that have scrolled off do not come back.
    ScrollbackShrank { was: u64, now: u64 },
    /// A screen is bounded in each direction and in the number of its cells.
    ScreenTooLarge { rows: u16, cols: u16 },
}

/// What an error says.
pub open spec fn apply_error_text(e: ApplyError) -> Seq<char> {
    match e {
        ApplyError::BaseMismatch { base, current } => "diff base "@ + decimal(base as nat)
            + " does not match current state "@ + decimal(current as nat),
        ApplyError::OutOfBounds { row, rows } => "diff refers to row "@ + decimal(row as nat)
            + " outside "@ + decimal(rows as nat) + " rows"@,
        ApplyError::Decode(what) => "decode: "@ + what@,
        ApplyError::LengthMismatch { len, rows, cols } => "cells length "@ + decimal(len as nat)
            + " does not match "@ + decimal(rows as nat) + "x"@ + decimal(cols as nat),
        ApplyError::CursorOutOfBounds { row, col, rows, cols } => "cursor ("@ + decimal(
            row as nat,
        ) + ","@ + decimal(col as nat) + ") outside "@ + decimal(rows as nat) + "x"@ + decimal(
            cols as nat,
        ),
        ApplyError::SeqZero => "sequence 0 is the full-state sentinel, never a real state"@,
        ApplyError::BellWentBackwards { was, now } => "bell went backwards: was "@ + decimal(
            was as nat,
        ) + ", now "@ + decimal(now as nat),
        ApplyError::ScrollbackShrank { was, now } => "scrollback shrank: was "@ + decimal(
            was as nat,
        ) + ", now "@ + decimal(now as nat),
        ApplyError::ScreenTooLarge { rows, cols } => "screen "@ + decimal(rows as nat) + "x"@
            + decimal(cols as nat) + " exceeds the maximum"@,
    }
}

/// Append a number in decimal.
fn add_number(s: &mut String, n: u64)
    ensures
        final(s)@ == old(s)@ + decimal(n as nat),
{
    let digits = number(n);
    s.append(digits.as_str());
}

impl ApplyError {
    /// What the error says.
    pub fn message(&self) -> (s: String)
        ensures
            s@ == apply_error_text(*self),
    {
        match self {
            ApplyError::BaseMismatch { base, current } => {
                let mut s = "diff base ".to_owned();
                add_number(&mut s, *base);
                s.append(" does not match current state ");
                add_number(&mut s, *current);
                s
            },
            ApplyError::OutOfBounds { row, rows } => {
                let mut s = "diff refers to row ".to_owned();
                add_number(&mut s, *row as u64);
                s.append(" outside ");
                add_number(&mut s, *rows as u64);
                s.append(" rows");
                s
            },
            ApplyError::Decode(what) => {
                let mut s = "decode: ".to_owned();
                s.append(what.as_str());
                s
            },
            ApplyError::LengthMismatch { len, rows, cols } => {
                let mut s = "cells length ".to_owned();
                add_number(&mut s, *len as u64);
                s.append(" does not match ");
                add_number(&mut s, *rows as u64);
                s.append("x");
                add_number(&mut s, *cols as u64);
                s
            },
            ApplyError::CursorOutOfBounds { row, col, rows, cols } => {
                let mut s = "cursor (".to_owned();
                add_number(&mut s, *row as u64);
                s.append(",");
                add_number(&mut s, *col as u64);
                s.append(") outside ");
                add_number(&mut s, *rows as u64);
                s.append("x");
                add_number(&mut s, *cols as u64);
                s
            },
            ApplyError::SeqZero => {
                "sequence 0 is the full-state sentinel, never a real state".to_owned()
            },
            ApplyError::BellWentBackwards { was, now } => {
                let mut s = "bell went backwards: was ".to_owned();
                add_number(&mut s, *was as u64);
                s.append(", now ");
                add_number(&mut s, *now as u64);
                s
            },
            ApplyError::ScrollbackShrank { was, now } => {
                let mut s = "scrollback shrank: was ".to_owned();
                add_number(&mut s, *was);
                s.append(", now ");
                add_number(&mut s, *now);
                s
            },
            ApplyError::ScreenTooLarge { rows, cols } => {
                let mut s = "screen ".to_owned();
                add_number(&mut s, *rows as u64);
                s.append("x");
                add_number(&mut s, *cols as u64);
                s.append(" exceeds the maximum");
                s
            },
        }
    }
}

/// What an error says names each of its numbers, in the order a reader needs
/// them: what was found, then what it was held against.
pub proof fn an_error_names_its_numbers(
    a: u64,
    b: u64,
    r: u16,
    c: u16,
    rows: u16,
    cols: u16,
    n: u32,
    m: u32,
    len: usize,
    what: String,
)
    ensures
        apply_error_text(ApplyError::Decode(what)) == "decode: "@ + what@,
        apply_error_text(ApplyError::BaseMismatch { base: a, current: b }) == "diff base "@
            + decimal(a as nat) + " does not match current state "@ + decimal(b as nat),
        apply_error_text(ApplyError::OutOfBounds { row: r, rows }) == "diff refers to row "@
            + decimal(r as nat) + " outside "@ + decimal(rows as nat) + " rows"@,
        apply_error_text(ApplyError::LengthMismatch { len, rows, cols }) == "cells length "@
            + decimal(len as nat) + " does not match "@ + decimal(rows as nat) + "x"@ + decimal(
            cols as nat,
        ),
        apply_error_text(ApplyError::CursorOutOfBounds { row: r, col: c, rows, cols })
            == "cursor ("@ + decimal(r as nat) + ","@ + decimal(c as nat) + ") outside "@ + decimal(
            rows as nat,
        ) + "x"@ + decimal(cols as nat),
        apply_error_text(ApplyError::SeqZero)
            == "sequence 0 is the full-state sentinel, never a real state"@,
        apply_error_text(ApplyError::BellWentBackwards { was: n, now: m })
            == "bell went backwards: was "@ + decimal(n as nat) + ", now "@ + decimal(m as nat),
        apply_error_text(ApplyError::ScrollbackShrank { was: a, now: b })
            == "scrollback shrank: was "@ + decimal(a as nat) + ", now "@ + decimal(b as nat),
        apply_error_text(ApplyError::ScreenTooLarge { rows, cols }) == "screen "@ + decimal(
            rows as nat,
        ) + "x"@ + decimal(cols as nat) + " exceeds the maximum"@,
{
}

} // verus!
