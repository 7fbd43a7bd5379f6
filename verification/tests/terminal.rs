//! The host's terminal over a real emulator, with no child behind it.

use std::sync::{Arc, Mutex};

use alacritty_terminal::event::{Event as EmuEvent, EventListener, VoidListener};
use alacritty_terminal::grid::Dimensions;
use alacritty_terminal::index::{Column, Line};
use alacritty_terminal::term::cell::Flags;
use alacritty_terminal::term::{Config, Osc52, TermDamage, TermMode};
use alacritty_terminal::vte::ansi::{
    Attr as EmuAttr, ClearMode, CursorShape as VteCursorShape, CursorStyle, Handler, PrivateMode, Processor,
    Rgb as EmuRgb,
};
use alacritty_terminal::Term;
use oxutrm::blink::{lines_to_clear, pen_of, width_of, Attr, BlinkPlane, BlinkTap, Pen};
use oxutrm::emulator::{history_size, is_sound, topmost_line, CellData, Point};
use oxutrm::error::ApplyError;
use oxutrm::grid::{cell_at, GridSize};
use oxutrm::host::{
    attrs_of, cell_text, convert_cell, is_control_scalar, modes_of, screen_state_of,
    EmuCursorShape, HostTerm, StateMeta, Turn, MAX_CELL_TEXT, READ_BUDGET,
};
use oxutrm::palette::{palette, NamedColor, VteColor};
use oxutrm::pty::{ExitStatus, Wait};
use oxutrm::screen::{Attrs, Cell, Color, CursorShape, MouseMode, ScreenState, TermSize};
use oxutrm::signals::{ClipboardType, Event, EventSink, Signals};

/// The most cells a screen has in these tests.
const MAX_CELLS: u32 = 1_000_000;

/// The library's sink, shared with the emulator.
#[derive(Clone)]
struct Shared(Arc<Mutex<EventSink>>);

impl Shared {
    fn drain(&self) -> Signals {
        self.0.lock().expect("the sink").drain()
    }
}

impl EventListener for Shared {
    fn send_event(&self, event: EmuEvent) {
        let event = match event {
            EmuEvent::Title(t) => Event::Title(t),
            EmuEvent::ResetTitle => Event::ResetTitle,
            EmuEvent::Bell => Event::Bell,
            EmuEvent::ClipboardStore(_, text) => {
                Event::ClipboardStore(ClipboardType::Clipboard, text)
            }
            EmuEvent::Wakeup => Event::Wakeup,
            _ => Event::Other,
        };
        self.0.lock().expect("the sink").send_event(event);
    }
}

/// A size, as the emulator asks for one.
#[derive(Clone, Copy)]
struct Dims(GridSize);

impl Dimensions for Dims {
    fn total_lines(&self) -> usize {
        self.0.total_lines()
    }

    fn screen_lines(&self) -> usize {
        self.0.screen_lines
    }

    fn columns(&self) -> usize {
        self.0.columns
    }
}

/// How many cells the emulator gives a character.
fn width(c: char) -> Option<usize> {
    let dims = Dims(GridSize { screen_lines: 1, columns: 8, history: 0 });
    let mut ruler = Term::new(Config::default(), &dims, VoidListener);
    ruler.input('a');
    ruler.input(c);
    assert!(is_sound(ruler.grid()));
    width_of(ruler.grid())
}

/// Hands the parser's calls to the emulator, and the tap what it records.
struct Tapped<'a> {
    term: &'a mut Term<Shared>,
    tap: &'a mut BlinkTap,
}

impl Handler for Tapped<'_> {
    fn input(&mut self, c: char) {
        let pen = pen_of(self.term.grid());
        let mode = self.term.mode().bits();
        self.term.input(c);
        self.tap.input(pen, width(c), mode, self.term.grid());
    }

    fn put_tab(&mut self, count: u16) {
        let pen = pen_of(self.term.grid());
        let mode = self.term.mode().bits();
        self.term.put_tab(count);
        self.tap.put_tab(pen, mode, self.term.grid());
    }

    fn linefeed(&mut self) {
        let before = self.term.grid().cursor.point.line.0;
        let mode = self.term.mode().bits();
        self.term.linefeed();
        self.tap.linefeed(before, mode, self.term.grid());
    }

    fn scroll_up(&mut self, lines: usize) {
        let mode = self.term.mode().bits();
        self.term.scroll_up(lines);
        self.tap.scroll_up(lines, mode, self.term.grid());
    }

    fn delete_lines(&mut self, lines: usize) {
        let before = self.term.grid().cursor.point.line.0;
        let mode = self.term.mode().bits();
        self.term.delete_lines(lines);
        self.tap.delete_lines(before, lines, mode, self.term.grid());
    }

    fn clear_screen(&mut self, what: ClearMode) {
        let whole = matches!(what, ClearMode::All);
        let lines = lines_to_clear(self.term.grid());
        let mode = self.term.mode().bits();
        self.term.clear_screen(what);
        if whole {
            self.tap.clear_screen(lines, mode, self.term.grid());
        }
    }

    fn terminal_attribute(&mut self, attr: EmuAttr) {
        self.tap.terminal_attribute(match attr {
            EmuAttr::Reset => Attr::Reset,
            EmuAttr::BlinkSlow => Attr::BlinkSlow,
            EmuAttr::BlinkFast => Attr::BlinkFast,
            EmuAttr::CancelBlink => Attr::CancelBlink,
            _ => Attr::Other,
        });
        self.term.terminal_attribute(attr);
    }

    fn carriage_return(&mut self) {
        self.term.carriage_return();
    }

    fn bell(&mut self) {
        self.term.bell();
    }

    fn goto(&mut self, line: i32, col: usize) {
        self.term.goto(line, col);
    }

    fn set_title(&mut self, title: Option<String>) {
        self.term.set_title(title);
    }

    fn set_cursor_style(&mut self, style: Option<CursorStyle>) {
        self.term.set_cursor_style(style);
    }

    fn set_private_mode(&mut self, mode: PrivateMode) {
        self.term.set_private_mode(mode);
    }

    fn unset_private_mode(&mut self, mode: PrivateMode) {
        self.term.unset_private_mode(mode);
    }

    fn set_color(&mut self, index: usize, color: EmuRgb) {
        self.term.set_color(index, color);
    }

    fn set_keypad_application_mode(&mut self) {
        self.term.set_keypad_application_mode();
    }

    fn clipboard_store(&mut self, clipboard: u8, text: &[u8]) {
        self.term.clipboard_store(clipboard, text);
    }
}

/// A terminal, the emulator beside it, and what drives it.
struct Rig {
    host: HostTerm,
    term: Term<Shared>,
    parser: Processor,
    events: Shared,
}

impl Rig {
    fn new(size: TermSize, scrollback: usize) -> Rig {
        let host = HostTerm::new(size, scrollback, MAX_CELLS).expect("a legal size");
        let dims = Dims(host.dims(size).expect("a legal size"));
        let events = Shared(Arc::new(Mutex::new(EventSink::new())));
        let config = Config {
            scrolling_history: scrollback,
            osc52: Osc52::CopyPaste,
            ..Config::default()
        };
        let term = Term::new(config, &dims, events.clone());
        Rig { host, term, parser: Processor::new(), events }
    }

    /// One turn in which the child wrote `bytes`.
    fn feed(&mut self, bytes: &[u8]) -> bool {
        let mut turn = Turn::new();
        if turn.may_read() && turn.note_read(bytes.len()) {
            let mut tapped = Tapped { term: &mut self.term, tap: &mut self.host.tap };
            self.parser.advance(&mut tapped, bytes);
        }
        let signals = self.events.drain();
        let full = matches!(self.term.damage(), TermDamage::Full);
        let changed = self.host.finish_turn(turn, signals, full);
        self.term.reset_damage();
        changed
    }

    fn resize(&mut self, size: TermSize) -> Result<(), ApplyError> {
        let dims = self.host.resize(size)?;
        self.term.resize(Dims(dims));
        Ok(())
    }

    fn shape(&self) -> EmuCursorShape {
        match self.term.cursor_style().shape {
            VteCursorShape::Block => EmuCursorShape::Block,
            VteCursorShape::Underline => EmuCursorShape::Underline,
            VteCursorShape::Beam => EmuCursorShape::Beam,
            VteCursorShape::HollowBlock => EmuCursorShape::HollowBlock,
            VteCursorShape::Hidden => EmuCursorShape::Hidden,
        }
    }

    fn snapshot(&self, seq: u64) -> ScreenState {
        assert!(is_sound(self.term.grid()));
        self.host.snapshot(
            seq,
            self.term.grid(),
            self.term.mode().bits(),
            self.shape(),
            self.term.colors(),
        )
    }

    fn scrollback(&self, from: u64, to: u64) -> Vec<Vec<Cell>> {
        assert!(is_sound(self.term.grid()));
        self.host.scrollback(from, to, self.term.grid(), self.term.colors())
    }
}

fn size() -> TermSize {
    TermSize { cols: 40, rows: 10 }
}

/// A terminal of the usual size to which `text` was written.
fn wrote(text: &str) -> Rig {
    let mut rig = Rig::new(size(), 200);
    rig.feed(text.as_bytes());
    rig
}

/// A screen of the given size to which `text` was written.
fn render(rows: u16, cols: u16, text: &str) -> ScreenState {
    let mut rig = Rig::new(TermSize { cols, rows }, 100);
    rig.feed(text.as_bytes());
    rig.snapshot(1)
}

fn text_of(cells: &[Cell]) -> String {
    cells.iter().map(|c| c.text.as_str()).collect()
}

fn row_text(s: &ScreenState, row: u16) -> String {
    let from = usize::from(row) * usize::from(s.cols);
    text_of(&s.cells[from..from + usize::from(s.cols)])
}

/// An emulator of the given size, fed `bytes`.
fn term_with(rows: u16, cols: u16, bytes: &[u8]) -> Term<Shared> {
    let dims = Dims(GridSize::new(TermSize { cols, rows }, 100, MAX_CELLS).expect("a legal size"));
    let events = Shared(Arc::new(Mutex::new(EventSink::new())));
    let mut term = Term::new(Config::default(), &dims, events);
    let mut parser: Processor = Processor::new();
    parser.advance(&mut term, bytes);
    term
}

fn point(line: i32, column: usize) -> Point {
    Point { line, column }
}

/// One cell holding `base` with `marks` stacked on it.
fn stacked(base: char, marks: &[char]) -> CellData {
    CellData {
        c: base,
        fg: VteColor::Named(NamedColor::Foreground),
        bg: VteColor::Named(NamedColor::Background),
        flags: 0,
        marks: marks.to_vec(),
    }
}

// ------------------------------------------------------------------ the grid

#[test]
fn dimensions_are_what_the_emulator_asks_for() {
    let g = Dims(
        GridSize::new(TermSize { cols: 80, rows: 24 }, 1_000, MAX_CELLS).expect("80x24 is legal"),
    );
    assert_eq!(g.columns(), 80);
    assert_eq!(g.screen_lines(), 24);
    assert_eq!(g.total_lines(), 1_024);
    assert_eq!(g.history_size(), 1_000, "provided by the trait, from the two above");
    assert_eq!(g.last_column(), Column(79));
    assert_eq!(g.bottommost_line(), Line(23));
    assert_eq!(g.topmost_line(), Line(-1_000));
}

#[test]
fn an_over_cap_size_is_refused_rather_than_allocated() {
    for (rows, cols, why) in [
        (u16::MAX, u16::MAX, "the unbounded resize bomb itself"),
        (2_049, 1, "rows alone past the bound"),
        (1, 2_049, "cols alone past the bound"),
        (1_024, 1_024, "each dimension legal, the product is not"),
    ] {
        let err = GridSize::new(TermSize { cols, rows }, 1_000, MAX_CELLS)
            .expect_err(&format!("{rows}x{cols} must be refused: {why}"));
        assert!(
            matches!(err, ApplyError::ScreenTooLarge { .. }),
            "{rows}x{cols} ({why}) gave {err:?}, not ScreenTooLarge"
        );
    }
}

#[test]
fn a_legal_size_survives_a_deep_history() {
    let g = GridSize::new(TermSize { cols: 400, rows: 120 }, 100_000, MAX_CELLS)
        .expect("a large display with deep scrollback");
    assert_eq!(g.total_lines(), 100_120);
}

#[test]
fn the_bounds_are_met_exactly() {
    assert!(TermSize { cols: 2_048, rows: 1 }.check_bounds(2_048).is_ok());
    assert!(TermSize { cols: 2_048, rows: 1 }.check_bounds(2_047).is_err());
    assert!(TermSize { cols: 0, rows: 0 }.check_bounds(0).is_ok());
    assert_eq!(
        TermSize { cols: 7, rows: 2_049 }.check_bounds(MAX_CELLS),
        Err(ApplyError::ScreenTooLarge { rows: 2_049, cols: 7 })
    );
}

#[test]
fn a_cell_inside_the_grid_reads_back() {
    let term = term_with(4, 8, b"hi");
    let c = cell_at(term.grid(), point(0, 0)).expect("in range");
    assert_eq!(c.c, 'h');
}

#[test]
fn every_boundary_is_checked_rather_than_clamped_into_a_wrong_cell() {
    let term = term_with(4, 8, b"");
    let grid = term.grid();
    // Inside.
    assert!(cell_at(grid, point(0, 0)).is_some());
    assert!(cell_at(grid, point(3, 7)).is_some(), "last cell");
    // One past, in each direction.
    assert!(cell_at(grid, point(4, 0)).is_none(), "past the last row");
    assert!(cell_at(grid, point(0, 8)).is_none(), "past the last column");
    assert!(cell_at(grid, point(3, 8)).is_none());
    assert!(cell_at(grid, point(4, 8)).is_none());
    // Far out, both signs.
    assert!(cell_at(grid, point(9_999, 0)).is_none());
    assert!(cell_at(grid, point(0, 9_999)).is_none());
    assert!(
        cell_at(grid, point(-9_999, 0)).is_none(),
        "below the oldest history line"
    );
}

#[test]
fn history_lines_are_reachable_with_a_negative_line() {
    let mut bytes = Vec::new();
    for i in 0..8u8 {
        bytes.extend_from_slice(&[b'a' + i, b'\r', b'\n']);
    }
    let term = term_with(2, 8, &bytes);
    assert!(term.history_size() > 0, "lines must have scrolled off");
    assert!(cell_at(term.grid(), point(-1, 0)).is_some());
}

#[test]
fn history_is_read_from_the_newest_line_up() {
    let term = term_with(2, 8, b"a\r\nb\r\nc\r\nd");
    assert_eq!(history_size(term.grid()), 2);
    assert_eq!(topmost_line(term.grid()), -2);
    assert_eq!(cell_at(term.grid(), point(1, 0)).expect("in range").c, 'd');
    assert_eq!(cell_at(term.grid(), point(0, 0)).expect("in range").c, 'c');
    assert_eq!(cell_at(term.grid(), point(-1, 0)).expect("in range").c, 'b');
    assert_eq!(cell_at(term.grid(), point(-2, 0)).expect("in range").c, 'a');
    assert!(cell_at(term.grid(), point(-3, 0)).is_none());
}

#[test]
fn a_cell_carries_its_colours_flags_and_marks() {
    let term = term_with(2, 8, "\x1b[1;31;48;5;42mx\u{301}\x1b[38;2;1;2;3my".as_bytes());
    let x = cell_at(term.grid(), point(0, 0)).expect("in range");
    assert_eq!((x.c, x.marks.as_slice()), ('x', &['\u{301}'][..]));
    assert_eq!(x.fg, VteColor::Named(NamedColor::Red));
    assert_eq!(x.bg, VteColor::Indexed(42));
    assert_eq!(x.flags, Flags::BOLD.bits());
    let y = cell_at(term.grid(), point(0, 1)).expect("in range");
    assert_eq!(y.fg, VteColor::Spec(oxutrm::palette::Rgb { r: 1, g: 2, b: 3 }));
    let z = cell_at(term.grid(), point(0, 2)).expect("in range");
    assert_eq!(z.fg, VteColor::Named(NamedColor::Foreground));
    assert_eq!(z.bg, VteColor::Named(NamedColor::Background));
    assert!(z.marks.is_empty());
}

// ------------------------------------------------------------- text of a cell

#[test]
fn a_cell_the_emulator_can_over_fill_is_fitted_at_the_source() {
    let cell = stacked('e', &['\u{301}'; 500]);
    let text = cell_text(&cell);
    assert!(
        text.len() <= MAX_CELL_TEXT,
        "the host must not emit {} bytes in one cell",
        text.len()
    );
    assert!(!text.chars().any(is_control_scalar));
    assert!(
        text.starts_with('e'),
        "the base character is what must survive: {text:?}"
    );
    assert_eq!(text.len(), 31, "one byte, and fifteen marks of two");
}

#[test]
fn a_real_grapheme_cluster_passes_through_the_host_untouched() {
    let clusters: [(char, &[char]); 6] = [
        ('e', &['\u{301}']),
        ('e', &['\u{302}', '\u{301}']),
        ('\u{5d0}', &['\u{5b8}', '\u{5bc}', '\u{591}']),
        ('\u{f40}', &['\u{f90}', '\u{fb5}', '\u{f72}']),
        ('🦀', &['\u{fe0f}']),
        ('1', &['\u{fe0f}', '\u{20e3}']),
    ];
    for (base, marks) in clusters {
        let mut want = String::from(base);
        want.extend(marks.iter());
        assert_eq!(
            cell_text(&stacked(base, marks)).as_str(),
            want,
            "a real cluster must survive intact"
        );
    }
}

#[test]
fn ordinary_characters_are_unchanged_by_the_fitting() {
    for c in ['x', ' ', 'é', '\u{4f60}', '🦀'] {
        assert_eq!(cell_text(&stacked(c, &[])).as_str(), c.to_string());
    }
}

#[test]
fn a_control_character_ends_the_cluster_it_is_stacked_in() {
    assert_eq!(cell_text(&stacked('e', &['\u{301}', '\u{7}', '\u{302}'])), "e\u{301}");
    assert_eq!(cell_text(&stacked('e', &['\u{9b}'])), "e");
    assert_eq!(cell_text(&stacked('\u{7}', &[])), "", "nor does one at the base get out");
    for c in ['\0', '\u{1f}', '\u{7f}', '\u{80}', '\u{9f}'] {
        assert!(is_control_scalar(c));
    }
    for c in [' ', '~', '\u{a0}', 'é'] {
        assert!(!is_control_scalar(c));
    }
}

#[test]
fn a_mark_that_does_not_fit_ends_the_cluster_even_if_a_later_one_would() {
    let mut marks = vec!['\u{301}'; 15];
    marks.push('\u{20e3}');
    marks.push('a');
    assert_eq!(cell_text(&stacked('e', &marks)).len(), 31);
}

#[test]
fn the_halves_of_a_wide_character_carry_no_text() {
    let mut cell = stacked(' ', &[]);
    cell.flags = Flags::WIDE_CHAR_SPACER.bits();
    assert_eq!(cell_text(&cell), "");
    cell.flags = Flags::LEADING_WIDE_CHAR_SPACER.bits();
    assert_eq!(cell_text(&cell), "");
    assert!(attrs_of(cell.flags).wide_cont);
}

// ----------------------------------------------------------------- the bounds

#[test]
fn a_client_cannot_resize_the_host_beyond_the_cap() {
    let mut t = Rig::new(size(), 200);
    let err = t
        .resize(TermSize { cols: 1024, rows: 1024 })
        .expect_err("a screen that large must be refused");
    assert!(
        err.message().contains("exceeds the maximum"),
        "expected the bound's error, got: {}",
        err.message()
    );
    assert_eq!(
        t.host.size(),
        size(),
        "a refused resize must leave the terminal and the emulator agreeing"
    );
    t.resize(TermSize { cols: 60, rows: 20 })
        .expect("an ordinary resize still works");
    assert_eq!(t.host.size(), TermSize { cols: 60, rows: 20 });
}

#[test]
fn a_host_terminal_cannot_be_spawned_beyond_the_cap() {
    let got = HostTerm::new(TermSize { cols: u16::MAX, rows: u16::MAX }, 200, MAX_CELLS);
    let err = got.err().expect("a screen that large must be refused");
    assert_eq!(err.message(), "screen 65535x65535 exceeds the maximum");
}

// --------------------------------------------------------------- the snapshot

#[test]
fn output_from_the_child_lands_on_the_screen() {
    let t = wrote("hello");
    assert!(row_text(&t.snapshot(1), 0).starts_with("hello"));
}

#[test]
fn a_snapshot_always_satisfies_the_state_invariants() {
    let t = wrote("one\r\ntwo\r\nthree\r\n");
    for seq in 1..4u64 {
        let s = t.snapshot(seq);
        assert_eq!(s.validate(), Ok(()), "seq {seq}");
        assert_eq!(s.cells.len(), size().rows as usize * size().cols as usize);
        assert_eq!(s.seq, seq);
    }
}

#[test]
fn the_sequence_number_is_whatever_the_caller_asked_for() {
    let t = wrote("");
    assert_eq!(t.snapshot(42).seq, 42);
}

#[test]
fn a_title_reaches_the_snapshot() {
    let t = wrote("\x1b]2;oxutrm-title\x07");
    assert_eq!(t.snapshot(1).title, "oxutrm-title");
}

#[test]
fn there_is_no_icon_because_vte_drops_osc_1() {
    let t = wrote("\x1b]1;an-icon\x07x");
    assert!(row_text(&t.snapshot(1), 0).starts_with('x'));
    assert_eq!(t.snapshot(1).title, "", "OSC 1 must not have set the title either");
}

#[test]
fn the_bell_counts_up_and_never_resets() {
    let mut t = wrote("\x07\x07\x07");
    assert_eq!(t.snapshot(1).bell, 3);
    t.feed(b"");
    assert_eq!(t.snapshot(1).bell, 3, "the bell is a counter, not a flag");
    t.feed(b"\x07");
    assert_eq!(t.snapshot(1).bell, 4);
}

#[test]
fn scrollback_length_keeps_climbing_past_the_ring_capacity() {
    let mut t = Rig::new(TermSize { cols: 40, rows: 4 }, 16);
    for i in 0..120 {
        t.feed(format!("line{i}\r\n").as_bytes());
    }
    let len = t.snapshot(1).scrollback_len;
    assert!(len > 40, "got {len}");
    assert!(
        len > 16,
        "scrollback_len {len} did not exceed the 16-line ring, so it is just the history size"
    );
    assert_eq!(len, 117, "121 lines, four of them on screen");
    assert_eq!(history_size(t.term.grid()), 16);
}

#[test]
fn scrollback_lines_come_back_and_are_the_right_width() {
    let mut t = Rig::new(TermSize { cols: 20, rows: 4 }, 200);
    for i in 0..30 {
        t.feed(format!("row{i}\r\n").as_bytes());
    }
    let total = t.snapshot(1).scrollback_len;
    let lines = t.scrollback(total.saturating_sub(5), total);
    assert!(!lines.is_empty(), "expected some history back");
    for line in &lines {
        assert_eq!(line.len(), 20, "a scrollback row is a full screen width");
    }
    assert_eq!(total, 27);
    let texts: Vec<String> = lines.iter().map(|l| text_of(l).trim().to_owned()).collect();
    assert_eq!(texts, ["row22", "row23", "row24", "row25", "row26"]);
}

#[test]
fn asking_for_scrollback_that_does_not_exist_returns_nothing() {
    let t = wrote("");
    assert!(t.scrollback(0, 10).is_empty(), "nothing has scrolled yet");
    assert!(t.scrollback(5, 5).is_empty(), "an empty range is empty");
    assert!(t.scrollback(9, 3).is_empty(), "a reversed range is not a panic");
    assert!(t.scrollback(u64::MAX - 1, u64::MAX).is_empty());
}

#[test]
fn scrollback_older_than_the_ring_is_gone() {
    let mut t = Rig::new(TermSize { cols: 20, rows: 2 }, 3);
    for i in 0..10 {
        t.feed(format!("row{i}\r\n").as_bytes());
    }
    let lines = t.scrollback(0, u64::MAX);
    let texts: Vec<String> = lines.iter().map(|l| text_of(l).trim().to_owned()).collect();
    assert_eq!(texts, ["row6", "row7", "row8"]);
}

#[test]
fn a_resize_changes_the_snapshot_and_keeps_it_valid() {
    let mut t = wrote("");
    assert_eq!(t.snapshot(1).cols, 40);

    let bigger = TermSize { cols: 100, rows: 30 };
    t.resize(bigger).expect("resize");
    let s = t.snapshot(2);
    assert_eq!((s.cols, s.rows), (100, 30));
    assert_eq!(s.cells.len(), 3_000);
    assert_eq!(s.validate(), Ok(()));
    assert_eq!(t.host.size(), bigger);

    t.resize(size()).expect("resize");
    let s = t.snapshot(3);
    assert_eq!((s.cols, s.rows), (40, 10));
    assert_eq!(s.validate(), Ok(()));
}

#[test]
fn a_screen_larger_than_the_grid_is_padded_with_blanks() {
    let term = term_with(2, 3, b"abc");
    let s = screen_state_of(
        term.grid(),
        term.mode().bits(),
        EmuCursorShape::Beam,
        term.colors(),
        &BlinkPlane::new(),
        &palette(),
        TermSize { cols: 5, rows: 3 },
        StateMeta { seq: 1, title: String::new(), bell: 0, scrollback_len: 0 },
    );
    assert_eq!(s.validate(), Ok(()));
    assert_eq!(row_text(&s, 0), "abc  ");
    assert_eq!(*s.cell(2, 4), Cell::blank());
    assert_eq!(s.cursor.shape, CursorShape::Bar);
}

#[test]
fn a_wide_character_occupies_two_cells_and_the_second_is_marked() {
    let s = wrote("\u{4f60}x").snapshot(1);
    assert_eq!(s.cell(0, 0).text, "\u{4f60}");
    assert!(!s.cell(0, 0).attrs.wide_cont);
    assert!(s.cell(0, 1).attrs.wide_cont, "the right half must be flagged");
    assert_ne!(s.cell(0, 1).text, " ", "and must not be a space");
    assert_eq!(s.cell(0, 2).text, "x", "the next character starts at column 2");
}

#[test]
fn a_combining_mark_stays_in_the_cell_it_belongs_to() {
    let s = wrote("e\u{301}z").snapshot(1);
    assert_eq!(s.cell(0, 0).text, "e\u{0301}", "base plus combining acute, one cell");
    assert_eq!(s.cell(0, 1).text, "z", "and the next character did not shift");
}

#[test]
fn the_native_attributes_arrive() {
    let s = wrote("\x1b[1;3;4;7;9;8mA\x1b[0mB").snapshot(1);
    let a = s.cell(0, 0).attrs;
    for (set, name) in [
        (a.bold, "bold"),
        (a.italic, "italic"),
        (a.underline, "underline"),
        (a.inverse, "inverse"),
        (a.strike, "strike"),
        (a.hidden, "hidden"),
    ] {
        assert!(set, "{name} missing from {a:?}");
    }
    assert_eq!(s.cell(0, 1).attrs, Attrs::empty(), "SGR 0 reset everything");
}

#[test]
fn blink_is_recovered_even_though_the_emulator_discards_it() {
    let s = wrote("\x1b[5mA\x1b[25mB").snapshot(1);
    assert!(s.cell(0, 0).attrs.blink, "SGR 5 must set blink");
    assert!(!s.cell(0, 1).attrs.blink, "SGR 25 must cancel it again");
}

#[test]
fn every_underline_style_flattens_onto_one_attribute() {
    for sgr in ["4", "4:2", "4:3", "4:4", "4:5"] {
        let s = wrote(&format!("\x1b[{sgr}mU")).snapshot(1);
        assert_eq!(s.cell(0, 0).text, "U");
        assert!(
            s.cell(0, 0).attrs.underline,
            "SGR {sgr} did not produce an underline"
        );
    }
}

#[test]
fn colours_arrive_as_indices_and_as_rgb() {
    let s = wrote("\x1b[31mR\x1b[38;2;1;2;3mT\x1b[0mZ").snapshot(1);
    assert_eq!(s.cell(0, 0).fg, Color::Idx(1), "SGR 31 is palette red");
    assert_eq!(s.cell(0, 1).fg, Color::Rgb(1, 2, 3));
    assert_eq!(
        s.cell(0, 2).fg,
        Color::Default,
        "reset leaves the client its own theme"
    );
}

#[test]
fn an_osc_colour_reaches_the_snapshot() {
    let s = wrote("\x1b]4;1;rgb:0a/0b/0c\x07\x1b[31mR").snapshot(1);
    assert_eq!(s.cell(0, 0).fg, Color::Rgb(10, 11, 12));
}

#[test]
fn modes_are_reported() {
    let m = wrote("\x1b[?2004h\x1b[?1h\x1b[?1000hm").snapshot(1).modes;
    assert!(m.bracketed_paste, "DECSET 2004");
    assert!(m.app_cursor, "DECSET 1");
    assert_eq!(m.mouse, MouseMode::PressRelease, "DECSET 1000");
    assert!(!m.alt_screen);
    assert!(!m.app_keypad);
    assert!(wrote("\x1b=").snapshot(1).modes.app_keypad);
}

#[test]
fn the_most_specific_mouse_mode_is_reported() {
    let click = TermMode::MOUSE_REPORT_CLICK;
    assert_eq!(modes_of(click.bits()).mouse, MouseMode::PressRelease);
    assert_eq!(
        modes_of((click | TermMode::MOUSE_DRAG).bits()).mouse,
        MouseMode::ButtonMotion
    );
    assert_eq!(
        modes_of((click | TermMode::MOUSE_DRAG | TermMode::MOUSE_MOTION).bits()).mouse,
        MouseMode::AnyMotion
    );
    assert_eq!(modes_of(0).mouse, MouseMode::Off);
    assert!(modes_of(TermMode::all().bits()).alt_screen);
}

#[test]
fn the_alternate_screen_is_reported() {
    assert!(
        wrote("\x1b[?1049ha").snapshot(1).modes.alt_screen,
        "DECSET 1049 must show as alt_screen"
    );
}

#[test]
fn the_cursor_is_inside_the_screen_and_visible_by_default() {
    let s = wrote("abc").snapshot(1);
    assert!(s.cursor.row < s.rows && s.cursor.col < s.cols);
    assert_eq!((s.cursor.row, s.cursor.col), (0, 3));
    assert!(s.cursor.visible);
    assert_eq!(s.cursor.shape, CursorShape::Block);
    assert_eq!(s.validate(), Ok(()), "an out-of-range cursor would fail here");
}

#[test]
fn a_hidden_cursor_is_reported_hidden() {
    assert!(
        !wrote("\x1b[?25lx").snapshot(1).cursor.visible,
        "DECTCEM off must hide the cursor"
    );
}

#[test]
fn the_shape_of_the_cursor_is_reported() {
    assert_eq!(wrote("\x1b[4 q").snapshot(1).cursor.shape, CursorShape::Underline);
    assert_eq!(wrote("\x1b[6 q").snapshot(1).cursor.shape, CursorShape::Bar);
}

#[test]
fn an_exit_code_comes_back() {
    let mut t = wrote("");
    assert_eq!(t.host.child_exited(Wait::Running), None);
    let status = ExitStatus { code: Some(5), signal: None };
    assert_eq!(t.host.child_exited(Wait::Exited(status)), Some(5));
    assert_eq!(t.host.child_exited(Wait::Running), Some(5), "once known, it stays");
}

#[test]
fn a_turn_ends_even_when_the_child_never_stops_writing() {
    let mut turn = Turn::new();
    let mut reads = 0;
    while turn.may_read() {
        assert!(turn.note_read(turn.room().min(17)));
        reads += 1;
    }
    assert_eq!(reads, READ_BUDGET.div_ceil(17));
    assert_eq!(turn.drained, READ_BUDGET, "the budget and no byte more");
    assert_eq!(turn.room(), 0);
    assert!(turn.changed);

    let mut greedy = Turn::new();
    assert_eq!(greedy.room(), READ_BUDGET);
    assert!(greedy.note_read(READ_BUDGET - 1));
    assert!(greedy.may_read());
    assert_eq!(greedy.room(), 1, "one byte is left, however much is there");
    assert!(greedy.note_read(1));
    assert!(!greedy.may_read());

    let mut quiet = Turn::new();
    assert!(!quiet.note_read(0), "with nothing to read the turn is over");
    assert_eq!(quiet, Turn::new());
}

#[test]
fn a_quiet_turn_changes_nothing() {
    let mut t = wrote("x");
    let before = t.snapshot(1);
    t.feed(b"");
    assert_eq!(t.snapshot(1), before);

    let mut host = HostTerm::new(size(), 10, MAX_CELLS).expect("a legal size");
    assert!(!host.finish_turn(Turn::new(), Signals::new(), false));
    assert!(host.finish_turn(Turn::new(), Signals::new(), true));
    let mut rung = Signals::new();
    rung.bells = 2;
    assert!(host.finish_turn(Turn::new(), rung, false));
    assert_eq!(host.bell, 2);
    let mut gone = Signals::new();
    gone.child_exit = Some(3);
    assert!(!host.finish_turn(Turn::new(), gone, false));
    assert_eq!(host.child_exited(Wait::Running), Some(3));
}

#[test]
fn the_bell_stops_at_the_largest_count() {
    let mut host = HostTerm::new(size(), 10, MAX_CELLS).expect("a legal size");
    host.bell = u32::MAX - 1;
    let mut rung = Signals::new();
    rung.bells = 5;
    host.finish_turn(Turn::new(), rung, false);
    assert_eq!(host.bell, u32::MAX);
}

// ------------------------------------------------------------------- blinking

#[test]
fn blink_moves_up_with_what_it_was_written_on() {
    let mut t = Rig::new(TermSize { cols: 10, rows: 2 }, 5);
    t.feed(b"\x1b[5mA\x1b[0m\r\nb\r\nc");
    assert_eq!(t.host.tap.scrolled, 1);
    assert!(t.host.tap.blink.is_blinking(point(-1, 0)));
    assert!(!t.host.tap.blink.is_blinking(point(0, 0)));
    assert!(t.scrollback(0, 1)[0][0].attrs.blink);
    t.feed(b"\r\nd");
    assert!(t.host.tap.blink.is_blinking(point(-2, 0)), "two scrolls add up");
}

#[test]
fn blink_that_leaves_the_grid_is_forgotten() {
    let mut t = Rig::new(TermSize { cols: 10, rows: 2 }, 2);
    t.feed(b"\x1b[5mA\x1b[0m\r\nb\r\nc\r\nd\r\ne");
    assert_eq!(topmost_line(t.term.grid()), -2);
    for line in -9..2 {
        assert!(!t.host.tap.blink.is_blinking(point(line, 0)));
    }
}

#[test]
fn overwriting_a_blinking_cell_clears_it() {
    let mut t = wrote("\x1b[6mAB\x1b[0m");
    assert!(t.snapshot(1).cell(0, 1).attrs.blink);
    t.feed(b"\rx");
    assert!(!t.snapshot(1).cell(0, 0).attrs.blink);
    assert!(t.snapshot(1).cell(0, 1).attrs.blink);
}

#[test]
fn a_resize_forgets_where_it_blinked() {
    let mut t = wrote("\x1b[5mA");
    t.resize(TermSize { cols: 50, rows: 10 }).expect("resize");
    assert!(!t.snapshot(1).cell(0, 0).attrs.blink);
    t.feed(b"B");
    assert!(t.snapshot(1).cell(0, 1).attrs.blink, "blink itself is still on");
}

#[test]
fn the_alternate_screen_does_not_count_as_scrolled() {
    let mut t = Rig::new(TermSize { cols: 10, rows: 2 }, 5);
    t.feed(b"\x1b[?1049ha\r\nb\r\nc\x1b[3S");
    assert_eq!(t.host.tap.scrolled, 0);
    t.feed(b"\x1b[?1049l\x1b[3S");
    assert_eq!(t.host.tap.scrolled, 2, "no more than the screen is high");
}

#[test]
fn an_explicit_scroll_counts_what_it_moves() {
    let mut t = Rig::new(TermSize { cols: 4, rows: 24 }, 200);
    t.feed(b"a\x1b[5S");
    assert_eq!((t.host.tap.scrolled, history_size(t.term.grid())), (5, 5));
    t.feed(b"\x1b[100S");
    assert_eq!((t.host.tap.scrolled, history_size(t.term.grid())), (29, 29));
}

#[test]
fn lines_deleted_at_the_top_are_counted() {
    let mut t = Rig::new(TermSize { cols: 4, rows: 3 }, 50);
    t.feed(b"\x1b[5ma\x1b[0m\r\nb\r\nc\x1b[H\x1b[1M");
    assert_eq!((t.host.tap.scrolled, history_size(t.term.grid())), (1, 1));
    assert!(t.host.tap.blink.is_blinking(point(-1, 0)));
    assert!(!t.host.tap.blink.is_blinking(point(0, 0)));
    t.feed(b"\x1b[9M");
    assert_eq!((t.host.tap.scrolled, history_size(t.term.grid())), (4, 4));
    t.feed(b"\x1b[2;1H\x1b[1M");
    assert_eq!(t.host.tap.scrolled, 4, "below the top nothing leaves the screen");
    t.feed(b"\x1b[?1049h\x1b[H\x1b[1M");
    assert_eq!(t.host.tap.scrolled, 4, "nor on the alternate screen");
}

#[test]
fn what_a_clear_moves_into_history_is_counted() {
    let mut t = Rig::new(TermSize { cols: 4, rows: 3 }, 4);
    t.feed(b"\x1b[2J");
    assert_eq!((t.host.tap.scrolled, history_size(t.term.grid())), (1, 1), "an empty screen");
    t.feed(b"\x1b[2J");
    assert_eq!((t.host.tap.scrolled, history_size(t.term.grid())), (1, 1));
    t.feed(b"\x1b[H\x1b[5ma\x1b[0m\r\n\x1b[7m \x1b[0m\x1b[2J");
    assert_eq!((t.host.tap.scrolled, history_size(t.term.grid())), (3, 3));
    assert!(t.host.tap.blink.is_blinking(point(-2, 0)));
    assert_eq!(t.scrollback(1, 2)[0][0].text, "a");
    t.feed(b"\x1b[Hx\r\ny\r\nz\x1b[2J");
    assert_eq!(history_size(t.term.grid()), 4, "the ring is full");
    assert_eq!(t.host.tap.scrolled, 6);
    assert_eq!(text_of(&t.scrollback(5, 6)[0]).trim_end(), "z");
    t.feed(b"\x1b[Hw\x1b[0J\x1b[1J");
    assert_eq!(t.host.tap.scrolled, 6, "a part of the screen is not moved");
    t.feed(b"\x1b[?1049hv\x1b[2J");
    assert_eq!(t.host.tap.scrolled, 6, "nor is the alternate screen");
}

/// An ordinary character was written where the cursor of `term` is.
fn write_one(tap: &mut BlinkTap, term: &Term<Shared>) {
    tap.input(pen_of(term.grid()), Some(1), term.mode().bits(), term.grid());
}

#[test]
fn the_emulator_says_how_wide_a_character_is() {
    assert_eq!(width('x'), Some(1));
    assert_eq!(width(' '), Some(1));
    assert_eq!(width('\u{4f60}'), Some(2));
    assert_eq!(width('\u{301}'), Some(0));
    assert_eq!(width('\u{200b}'), Some(0));
    assert_eq!(width('\u{7}'), None);
}

#[test]
fn blink_is_recorded_where_a_wrapped_character_landed() {
    let mut t = Rig::new(TermSize { cols: 3, rows: 2 }, 10);
    t.feed(b"abc\x1b[5m");
    assert_eq!(pen_of(t.term.grid()), Pen { point: point(0, 2), wrap_pending: true });
    t.feed(b"d");
    assert!(t.host.tap.blink.is_blinking(point(1, 0)));
    assert!(!t.host.tap.blink.is_blinking(point(0, 2)));
    assert_eq!(t.host.tap.scrolled, 0, "there was a line to go to");
}

#[test]
fn a_wrap_off_the_last_line_is_counted() {
    let mut t = Rig::new(TermSize { cols: 3, rows: 2 }, 10);
    t.feed(b"abc\r\n\x1b[5mdef");
    assert_eq!(t.host.tap.scrolled, 0);
    t.feed(b"\x1b[0mg");
    assert_eq!(t.host.tap.scrolled, 1);
    assert_eq!(history_size(t.term.grid()), 1);
    assert_eq!(text_of(&t.scrollback(0, 1)[0]), "abc");
    for column in 0..3 {
        assert!(t.host.tap.blink.is_blinking(point(0, column)), "moved up with what it is on");
        assert!(!t.host.tap.blink.is_blinking(point(1, column)));
    }
    t.feed(b"hi\tj");
    assert_eq!(t.host.tap.scrolled, 2, "a tab where a wrap is pending is that wrap");
    assert_eq!(history_size(t.term.grid()), 2);
}

#[test]
fn a_flood_of_wrapped_text_counts_every_line() {
    let mut t = Rig::new(TermSize { cols: 4, rows: 2 }, 3);
    t.feed(&[b'x'; 4 * 50]);
    assert_eq!(t.host.tap.scrolled, 48, "the ring holds three lines and fifty were written");
    assert_eq!(t.snapshot(1).scrollback_len, 48);
}

#[test]
fn a_wrap_on_the_alternate_screen_is_not_counted() {
    let mut t = Rig::new(TermSize { cols: 3, rows: 2 }, 10);
    t.feed(b"\x1b[?1049h\x1b[Habcdefg");
    assert_eq!(t.host.tap.scrolled, 0);
}

#[test]
fn where_lines_do_not_wrap_the_last_cell_is_written_over() {
    let mut t = Rig::new(TermSize { cols: 3, rows: 2 }, 10);
    t.feed(b"\x1b[?7l\x1b[5mabcd");
    assert!(t.host.tap.blink.is_blinking(point(0, 2)));
    assert!(!t.host.tap.blink.is_blinking(point(1, 0)));
    t.feed(b"\x1b[25me");
    assert!(!t.host.tap.blink.is_blinking(point(0, 2)));
    t.feed("\x1b[5m\u{4f60}".as_bytes());
    assert!(!t.host.tap.blink.is_blinking(point(0, 2)), "it had no room and was discarded");
    assert_eq!(t.host.tap.scrolled, 0);
}

#[test]
fn a_wide_character_without_room_blinks_on_the_next_line() {
    let mut t = Rig::new(TermSize { cols: 3, rows: 2 }, 10);
    t.feed("ab\x1b[5m\u{4f60}".as_bytes());
    assert!(t.host.tap.blink.is_blinking(point(1, 0)));
    assert!(t.host.tap.blink.is_blinking(point(0, 2)), "its placeholder is written with it");
    assert_eq!(t.snapshot(1).cell(1, 0).text, "\u{4f60}");
    t.feed("\x1b[0m\u{4f60}".as_bytes());
    assert_eq!(t.host.tap.scrolled, 1, "and scrolls from the last one");
    assert!(t.host.tap.blink.is_blinking(point(0, 0)));
    assert!(!t.host.tap.blink.is_blinking(point(1, 0)));
    assert!(t.host.tap.blink.is_blinking(point(-1, 2)));

    let mut over = Rig::new(TermSize { cols: 3, rows: 2 }, 10);
    over.feed("\x1b[5mabc\x1b[0m\x1b[1;3H\u{4f60}".as_bytes());
    assert!(!over.host.tap.blink.is_blinking(point(0, 2)), "what blinked there is gone");
    assert!(over.host.tap.blink.is_blinking(point(0, 1)));
}

#[test]
fn a_mark_blinks_with_the_character_it_is_stacked_on() {
    let mut t = Rig::new(TermSize { cols: 3, rows: 2 }, 10);
    t.feed("a\x1b[5m\u{301}".as_bytes());
    assert!(t.host.tap.blink.is_blinking(point(0, 0)));
    assert!(!t.host.tap.blink.is_blinking(point(0, 1)));

    let mut full = Rig::new(TermSize { cols: 3, rows: 2 }, 10);
    full.feed("abc\x1b[5m\u{301}".as_bytes());
    assert!(full.host.tap.blink.is_blinking(point(0, 2)), "the last one, not the one before it");

    let mut wide = Rig::new(TermSize { cols: 4, rows: 2 }, 10);
    wide.feed("\u{4f60}\x1b[5m\u{301}".as_bytes());
    assert!(wide.host.tap.blink.is_blinking(point(0, 0)), "its first half");
    assert!(!wide.host.tap.blink.is_blinking(point(0, 1)));
    assert_eq!(wide.host.tap.scrolled, 0);
}

#[test]
fn a_plane_moves_up_and_drops_what_passes_the_top() {
    let term = term_with(3, 4, b"");
    let mut tap = BlinkTap::new();
    tap.terminal_attribute(Attr::BlinkFast);
    tap.terminal_attribute(Attr::Other);
    write_one(&mut tap, &term);
    assert!(tap.blink.is_blinking(point(0, 0)));
    tap.blink.scrolled(0, 0);
    assert!(tap.blink.is_blinking(point(0, 0)));
    tap.blink.scrolled(2, -5);
    assert!(tap.blink.is_blinking(point(-2, 0)));
    tap.blink.scrolled(4, -5);
    assert!(!tap.blink.is_blinking(point(-6, 0)));
    write_one(&mut tap, &term);
    tap.blink.clear();
    assert!(!tap.blink.is_blinking(point(0, 0)));
    tap.terminal_attribute(Attr::Reset);
    write_one(&mut tap, &term);
    assert!(!tap.blink.is_blinking(point(0, 0)));
}

#[test]
fn the_count_of_scrolled_lines_stops_at_the_largest() {
    let term = term_with(3, 4, b"");
    let mut tap = BlinkTap::new();
    tap.scrolled = u64::MAX - 2;
    tap.scroll_up(7, 0, term.grid());
    assert_eq!(tap.scrolled, u64::MAX);
    tap.linefeed(0, 0, term.grid());
    assert_eq!(tap.scrolled, u64::MAX);
}

#[test]
fn a_converted_cell_takes_blink_from_the_plane() {
    let term = term_with(3, 4, b"");
    let mut tap = BlinkTap::new();
    tap.terminal_attribute(Attr::BlinkSlow);
    write_one(&mut tap, &term);
    let none = alacritty_terminal::term::color::Colors::default();
    let cell = stacked('x', &[]);
    let on = convert_cell(&cell, point(0, 0), &tap.blink, &none, &palette());
    assert_eq!(on.attrs, Attrs { blink: true, ..Attrs::empty() });
    assert_eq!((on.text.as_str(), on.fg, on.bg), ("x", Color::Default, Color::Default));
    let off = convert_cell(&cell, point(0, 1), &tap.blink, &none, &palette());
    assert_eq!(off.attrs, Attrs::empty());
}

// ------------------------------------------------------- whole screens, pinned

/// The cells that are not blank: where, what, and the colour of the text.
fn inked(s: &ScreenState) -> Vec<(u16, u16, String, Color)> {
    let mut out = Vec::new();
    for r in 0..s.rows {
        for c in 0..s.cols {
            let cell = s.cell(r, c);
            if *cell != Cell::blank() {
                out.push((r, c, cell.text.clone(), cell.fg));
            }
        }
    }
    out
}

#[test]
fn plain_text_with_sgr_colours() {
    let state = render(
        4,
        24,
        "\x1b[31mred\x1b[0m \x1b[92mbright\x1b[0m \x1b[38;2;10;20;30mtrue\x1b[0m",
    );
    assert_eq!(state.validate(), Ok(()));
    assert_eq!(row_text(&state, 0), "red bright true         ");
    let ink = inked(&state);
    assert_eq!(ink.len(), 13);
    for (_, c, _, fg) in ink {
        let want = match c {
            0..=2 => Color::Idx(1),
            4..=9 => Color::Idx(10),
            _ => Color::Rgb(10, 20, 30),
        };
        assert_eq!(fg, want, "column {c}");
    }
    assert_eq!((state.cursor.row, state.cursor.col), (0, 15));
}

#[test]
fn a_wide_character_at_the_right_margin_wraps() {
    let state = render(3, 5, "abcd\u{4f60}\u{597d}");
    assert_eq!(state.validate(), Ok(()));
    assert_eq!(state.cell(0, 4).text, "", "there was no room for half of it");
    assert!(state.cell(0, 4).attrs.wide_cont);
    assert_eq!(state.cell(1, 0).text, "\u{4f60}");
    assert!(!state.cell(1, 0).attrs.wide_cont);
    assert_eq!(state.cell(1, 1).text, "");
    assert!(state.cell(1, 1).attrs.wide_cont);
    assert_eq!(state.cell(1, 2).text, "\u{597d}");
    assert!(state.cell(1, 3).attrs.wide_cont);
    assert_eq!(*state.cell(1, 4), Cell::blank());
}

#[test]
fn the_alternate_screen_is_entered_and_left() {
    let state = render(4, 20, "primary\r\n\x1b[?1049halternate\x1b[?1049l");
    assert_eq!(state.validate(), Ok(()));
    assert!(!state.modes.alt_screen, "we left the alternate screen");
    assert_eq!(row_text(&state, 0).trim_end(), "primary");
    assert_eq!(row_text(&state, 1).trim_end(), "");
}

#[test]
fn the_alternate_screen_while_still_inside_it() {
    let state = render(4, 20, "primary\r\n\x1b[?1049halternate");
    assert_eq!(state.validate(), Ok(()));
    assert!(state.modes.alt_screen);
    assert_eq!(row_text(&state, 0).trim_end(), "");
    assert_eq!(row_text(&state, 1).trim_end(), "alternate");
}

#[test]
fn an_osc_two_title() {
    let state = render(2, 12, "\x1b]1;an-icon\x07\x1b]2;a title\x07hi");
    assert_eq!(state.title, "a title");
    assert_eq!(row_text(&state, 0).trim_end(), "hi");
}

#[test]
fn blink_strikethrough_and_hidden_together() {
    let state = render(
        3,
        24,
        "\x1b[5mblink\x1b[0m \x1b[9mstrike\x1b[0m \x1b[8mhidden\x1b[0m",
    );
    assert_eq!(state.validate(), Ok(()));
    assert!(state.cell(0, 0).attrs.blink, "blink was dropped");
    for c in 0..24 {
        let a = state.cell(0, c).attrs;
        assert_eq!(
            a,
            Attrs {
                blink: c < 5,
                strike: (6..12).contains(&c),
                hidden: (13..19).contains(&c),
                ..Attrs::empty()
            },
            "column {c}"
        );
    }
}

#[test]
fn every_underline_style_flattens_to_one() {
    let state = render(3, 30, "\x1b[4ma\x1b[4:2mb\x1b[4:3mc\x1b[4:4md\x1b[4:5me\x1b[0m");
    assert_eq!(state.validate(), Ok(()));
    for c in 0..5 {
        assert_eq!(state.cell(0, c).attrs, Attrs { underline: true, ..Attrs::empty() });
    }
    assert_eq!(state.cell(0, 5).attrs, Attrs::empty());
}

#[test]
fn a_reflow_shrinks_and_grows_back_losslessly() {
    let wide = TermSize { cols: 20, rows: 4 };
    let narrow = TermSize { cols: 8, rows: 4 };
    let mut t = Rig::new(wide, 100);
    t.feed(b"abcdefghijklmnopqr");
    let before = t.snapshot(1);
    t.resize(narrow).expect("a legal size");
    let shrunk = t.snapshot(2);
    t.resize(wide).expect("a legal size");
    let after = t.snapshot(3);

    assert_eq!(before.validate(), Ok(()));
    assert_eq!(shrunk.validate(), Ok(()));
    assert_eq!(after.validate(), Ok(()));

    let flat = |s: &ScreenState| text_of(&s.cells).replace(' ', "");
    // What is lossless is the grid, viewport and history together: rows that
    // no longer fit go into history, and widening does not pull them back.
    assert!(
        flat(&before).contains("abcdefghijklmnopqr"),
        "the fixture should start on one line: {:?}",
        flat(&before)
    );
    assert!(!flat(&shrunk).is_empty(), "narrowing must keep something on screen");
}

#[test]
fn an_osc_52_copy_is_kept_for_the_client() {
    let mut t = Rig::new(size(), 10);
    let mut tapped = Tapped { term: &mut t.term, tap: &mut t.host.tap };
    t.parser.advance(&mut tapped, b"\x1b]52;c;cGxhaW4=\x07");
    let got = t.events.drain().clipboard;
    assert_eq!(got, [(ClipboardType::Clipboard, "plain".to_owned())]);
}

#[test]
fn every_way_a_state_can_be_refused() {
    let good = wrote("abc").snapshot(1);
    assert_eq!(good.validate(), Ok(()));

    let mut short = good.clone();
    short.cells.pop();
    let err = short.validate().expect_err("a cell is missing");
    assert_eq!(err, ApplyError::LengthMismatch { len: 399, rows: 10, cols: 40 });
    assert_eq!(err.message(), "cells length 399 does not match 10x40");

    let mut astray = good.clone();
    astray.cursor.col = 40;
    let err = astray.validate().expect_err("the cursor is off the screen");
    assert_eq!(err.message(), "cursor (0,40) outside 10x40");

    let mut zero = good.clone();
    zero.seq = 0;
    let err = zero.validate().expect_err("zero is the sentinel");
    assert_eq!(err, ApplyError::SeqZero);
    assert_eq!(
        err.message(),
        "sequence 0 is the full-state sentinel, never a real state"
    );
}

#[test]
fn what_the_other_errors_say() {
    assert_eq!(
        ApplyError::BaseMismatch { base: 3, current: 17 }.message(),
        "diff base 3 does not match current state 17"
    );
    assert_eq!(
        ApplyError::OutOfBounds { row: 9, rows: 8 }.message(),
        "diff refers to row 9 outside 8 rows"
    );
    assert_eq!(ApplyError::Decode("eof".to_owned()).message(), "decode: eof");
    assert_eq!(
        ApplyError::BellWentBackwards { was: 2, now: 1 }.message(),
        "bell went backwards: was 2, now 1"
    );
    assert_eq!(
        ApplyError::ScrollbackShrank { was: 10, now: 0 }.message(),
        "scrollback shrank: was 10, now 0"
    );
}
