//! What is decided about the child and its terminal.

use oxutrm::pty::{
    after_hangup, child_exited, exit_code, is_watchable, part_with, read_ready, reap_is_over,
    watch, winsize_of, ExitStatus, Parting, ReadResult, Wait, Watch, Winsize,
};
use oxutrm::screen::TermSize;

const EIO: i32 = 5;

const ESRCH: i32 = 3;

fn exited(code: i32) -> Wait {
    Wait::Exited(ExitStatus { code: Some(code), signal: None })
}

#[test]
fn a_child_killed_by_a_signal_reports_what_a_shell_would() {
    assert_eq!(exit_code(ExitStatus { code: Some(7), signal: None }), 7);
    assert_eq!(exit_code(ExitStatus { code: None, signal: Some(9) }), 137);
    assert_eq!(exit_code(ExitStatus { code: None, signal: None }), 128);
}

#[test]
fn a_running_child_has_no_exit_code() {
    assert_eq!(child_exited(Wait::Running), None);
    assert_eq!(child_exited(exited(0)), Some(0));
    assert_eq!(child_exited(Wait::Failed), Some(-1));
}

#[test]
fn the_kernel_is_told_rows_and_columns() {
    assert_eq!(
        winsize_of(TermSize { cols: 132, rows: 43 }),
        Winsize { ws_row: 43, ws_col: 132, ws_xpixel: 0, ws_ypixel: 0 }
    );
}

#[test]
fn a_closed_terminal_reads_as_nothing_and_not_as_a_failure() {
    assert_eq!(read_ready(ReadResult::Bytes(12), EIO), Ok(12));
    assert_eq!(read_ready(ReadResult::WouldBlock, EIO), Ok(0));
    assert_eq!(read_ready(ReadResult::Errno(EIO), EIO), Ok(0));
    assert_eq!(read_ready(ReadResult::Errno(9), EIO), Err(()));
    assert_eq!(read_ready(ReadResult::Failed, EIO), Err(()));
}

#[test]
fn a_child_is_hung_up_on_before_it_is_killed() {
    assert_eq!(part_with(exited(0), true), Parting::Done);
    assert_eq!(part_with(Wait::Running, true), Parting::Hangup);
    assert_eq!(part_with(Wait::Failed, true), Parting::Hangup);
    assert_eq!(part_with(Wait::Running, false), Parting::Reap);
    assert_eq!(after_hangup(Wait::Running), Parting::Kill);
    assert_eq!(after_hangup(exited(1)), Parting::Reap);
}

#[test]
fn waiting_for_a_killed_child_ends() {
    assert!(!reap_is_over(Wait::Running, false));
    assert!(reap_is_over(Wait::Running, true));
    assert!(reap_is_over(Wait::Failed, false));
    assert!(reap_is_over(exited(0), false));
}

#[test]
fn a_child_that_was_gone_before_it_was_watched_is_no_error() {
    assert!(is_watchable(1));
    assert!(!is_watchable(0));
    assert_eq!(watch(Ok(()), ESRCH), Watch::Armed);
    assert_eq!(watch(Err(ESRCH), ESRCH), Watch::Unarmed);
    assert_eq!(watch(Err(1), ESRCH), Watch::Failed(1));
}
