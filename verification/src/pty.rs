//! What is decided about the pseudoterminal and the child on the far end of
//! it. The descriptors themselves stay outside.

use vstd::prelude::*;

use crate::screen::TermSize;

verus! {

/// How a child ended: with a code of its own, or by a signal.
#[derive(Clone, Copy, PartialEq, Eq, Debug, Structural)]
pub struct ExitStatus {
    pub code: Option<i32>,
    pub signal: Option<i32>,
}

/// A child's exit status as one number.
pub open spec fn exit_number(status: ExitStatus) -> i32 {
    match status.code {
        Some(code) => code,
        None => match status.signal {
            Some(n) => (128 + n) as i32,
            None => 128,
        },
    }
}

impl ExitStatus {
    /// Whether the status fits one number.
    pub open spec fn representable(&self) -> bool {
        self.code is None ==> (self.signal matches Some(n) ==> 128 + n <= i32::MAX)
    }
}

/// A child's exit status as one number.
///
/// A shell killed by a signal has no exit code. 128+n is what every shell
/// reports, so the number matches what `echo $?` would have said.
pub fn exit_code(status: ExitStatus) -> (n: i32)
    requires
        status.representable(),
    ensures
        n == exit_number(status),
{
    match status.code {
        Some(code) => code,
        None => match status.signal {
            Some(n) => 128 + n,
            None => 128,
        },
    }
}

/// The size of a terminal as the kernel is told it.
#[derive(Clone, Copy, PartialEq, Eq, Debug, Structural)]
pub struct Winsize {
    pub ws_row: u16,
    pub ws_col: u16,
    pub ws_xpixel: u16,
    pub ws_ypixel: u16,
}

/// The size of a terminal as the kernel is told it.
pub open spec fn window(size: TermSize) -> Winsize {
    Winsize { ws_row: size.rows, ws_col: size.cols, ws_xpixel: 0, ws_ypixel: 0 }
}

pub fn winsize_of(size: TermSize) -> (w: Winsize)
    ensures
        w == (Winsize { ws_row: size.rows, ws_col: size.cols, ws_xpixel: 0, ws_ypixel: 0 }),
        w == window(size),
{
    Winsize { ws_row: size.rows, ws_col: size.cols, ws_xpixel: 0, ws_ypixel: 0 }
}

/// What a read of the terminal came back with.
#[derive(Clone, Copy, PartialEq, Eq, Debug, Structural)]
pub enum ReadResult {
    Bytes(usize),
    /// There was nothing to read.
    WouldBlock,
    /// The system gave this error number.
    Errno(i32),
    /// It failed with no error number.
    Failed,
}

/// How much is ready, by what a read came back with.
pub open spec fn ready(result: ReadResult, eio: i32) -> Result<usize, ()> {
    match result {
        ReadResult::Bytes(n) => Ok::<usize, ()>(n),
        ReadResult::WouldBlock => Ok(0),
        ReadResult::Errno(e) => if e == eio {
            Ok(0)
        } else {
            Err(())
        },
        ReadResult::Failed => Err(()),
    }
}

/// How much is ready: `Ok(0)` means nothing was, and an error is a failure to
/// read. `eio` is the number the system has for an input/output error: on a
/// pseudoterminal that means the child closed its side, which is how one
/// reports the end and not a failure.
pub fn read_ready(result: ReadResult, eio: i32) -> (r: Result<usize, ()>)
    ensures
        r == (match result {
            ReadResult::Bytes(n) => Ok::<usize, ()>(n),
            ReadResult::WouldBlock => Ok(0),
            ReadResult::Errno(e) => if e == eio {
                Ok(0)
            } else {
                Err(())
            },
            ReadResult::Failed => Err(()),
        }),
        r == ready(result, eio),
{
    match result {
        ReadResult::Bytes(n) => Ok(n),
        ReadResult::WouldBlock => Ok(0),
        ReadResult::Errno(e) => {
            if e == eio {
                Ok(0)
            } else {
                Err(())
            }
        },
        ReadResult::Failed => Err(()),
    }
}

/// What asking after the child came back with.
#[derive(Clone, Copy, PartialEq, Eq, Debug, Structural)]
pub enum Wait {
    Exited(ExitStatus),
    Running,
    /// The child cannot be waited for.
    Failed,
}

/// The exit code that asking after a child tells.
pub open spec fn exit_known(wait: Wait) -> Option<i32> {
    match wait {
        Wait::Exited(status) => Some(exit_number(status)),
        Wait::Running => None,
        Wait::Failed => Some(-1i32),
    }
}

/// The child's exit code, or `None` while it is still running.
///
/// A child that is gone and cannot be waited for counts as exited: that beats
/// claiming a session is alive forever when nothing is on the other end.
pub fn child_exited(wait: Wait) -> (code: Option<i32>)
    requires
        wait matches Wait::Exited(status) ==> status.representable(),
    ensures
        code == (match wait {
            Wait::Exited(status) => Some(exit_number(status)),
            Wait::Running => None,
            Wait::Failed => Some(-1i32),
        }),
        code == exit_known(wait),
{
    match wait {
        Wait::Exited(status) => Some(exit_code(status)),
        Wait::Running => None,
        Wait::Failed => Some(-1),
    }
}

/// Whether waiting for a killed child is over.
pub open spec fn reaped(wait: Wait, past_deadline: bool) -> bool {
    !(wait is Running) || past_deadline
}

/// Whether waiting for a killed child is over: it has been reaped, it cannot
/// be waited for and so is nobody's zombie, or the budget is spent.
pub fn reap_is_over(wait: Wait, past_deadline: bool) -> (r: bool)
    ensures
        r == (!(wait is Running) || past_deadline),
        r == reaped(wait, past_deadline),
{
    match wait {
        Wait::Exited(_) | Wait::Failed => true,
        Wait::Running => past_deadline,
    }
}

/// What to do next with a child whose terminal is going away.
#[derive(Clone, Copy, PartialEq, Eq, Debug, Structural)]
pub enum Parting {
    /// It has exited: nothing.
    Done,
    /// Send it a hangup, give it a moment, and ask after it again.
    Hangup,
    /// Kill it, then wait for it.
    Kill,
    /// Wait for it.
    Reap,
}

/// The first thing to do with a child whose terminal is going away.
pub open spec fn parting(wait: Wait, has_pid: bool) -> Parting {
    if wait is Exited {
        Parting::Done
    } else if has_pid {
        Parting::Hangup
    } else {
        Parting::Reap
    }
}

/// The first thing to do with a child whose terminal is going away. A hangup
/// comes first, because a shell knows how to clean up after one; a child
/// without a process id can only be waited for.
pub fn part_with(wait: Wait, has_pid: bool) -> (p: Parting)
    ensures
        p == (if wait is Exited {
            Parting::Done
        } else if has_pid {
            Parting::Hangup
        } else {
            Parting::Reap
        }),
        p == parting(wait, has_pid),
{
    match wait {
        Wait::Exited(_) => Parting::Done,
        Wait::Running | Wait::Failed => {
            if has_pid {
                Parting::Hangup
            } else {
                Parting::Reap
            }
        },
    }
}

/// What to do with a child that was hung up on.
pub open spec fn hung_up(wait: Wait) -> Parting {
    if wait is Exited {
        Parting::Reap
    } else {
        Parting::Kill
    }
}

/// What to do with a child that was sent a hangup.
pub fn after_hangup(wait: Wait) -> (p: Parting)
    ensures
        p == (if wait is Exited {
            Parting::Reap
        } else {
            Parting::Kill
        }),
        p == hung_up(wait),
{
    match wait {
        Wait::Exited(_) => Parting::Reap,
        Wait::Running | Wait::Failed => Parting::Kill,
    }
}

/// What opening a descriptor for a child's exit came back with.
#[derive(Clone, Copy, PartialEq, Eq, Debug, Structural)]
pub enum Watch {
    /// There is a descriptor to wait on.
    Armed,
    /// There is none, because the child had already exited.
    Unarmed,
    /// The child could not be watched.
    Failed(i32),
}

/// Whether a child can be watched at all: process id zero names none.
pub fn is_watchable(pid: u32) -> (r: bool)
    ensures
        r == (pid != 0),
{
    pid != 0
}

/// What a descriptor for a child's exit comes to.
pub open spec fn watched(opened: Result<(), i32>, esrch: i32) -> Watch {
    match opened {
        Ok(()) => Watch::Armed,
        Err(e) => if e == esrch {
            Watch::Unarmed
        } else {
            Watch::Failed(e)
        },
    }
}

/// What a descriptor for a child's exit comes to. `esrch` is the number the
/// system has for a process that does not exist: the child was gone before it
/// could be watched, which is neither an error nor a missed exit.
pub fn watch(opened: Result<(), i32>, esrch: i32) -> (w: Watch)
    ensures
        w == (match opened {
            Ok(()) => Watch::Armed,
            Err(e) => if e == esrch {
                Watch::Unarmed
            } else {
                Watch::Failed(e)
            },
        }),
        w == watched(opened, esrch),
{
    match opened {
        Ok(()) => Watch::Armed,
        Err(e) => {
            if e == esrch {
                Watch::Unarmed
            } else {
                Watch::Failed(e)
            }
        },
    }
}

/// A child's exit is reported as its own code if it has one, and as 128 and the
/// signal that ended it if it has not.
pub proof fn an_exit_is_reported_as_a_shell_would(status: ExitStatus)
    requires
        status.representable(),
    ensures
        status.code matches Some(code) ==> exit_number(status) == code,
        status.code is None ==> (status.signal matches Some(n) ==> exit_number(status) == 128 + n),
        status.code is None && status.signal is None ==> exit_number(status) == 128,
{
}

/// Only a child that is running has no exit code yet. One that is gone has its
/// own, and one that cannot be waited for counts as gone, with -1.
pub proof fn a_child_without_a_code_is_running(wait: Wait)
    requires
        wait matches Wait::Exited(status) ==> status.representable(),
    ensures
        exit_known(wait) is None <==> wait is Running,
        wait is Failed ==> exit_known(wait) == Some(-1i32),
        wait matches Wait::Exited(status) ==> {
            &&& status.code matches Some(code) ==> exit_known(wait) == Some(code)
            &&& status.code is None ==> (status.signal matches Some(n) ==> exit_known(wait)
                == Some((128 + n) as i32))
        },
{
}

/// The kernel is told the rows as rows and the columns as columns, and no pixels.
pub proof fn a_window_keeps_its_sides(size: TermSize)
    ensures
        window(size).ws_row == size.rows,
        window(size).ws_col == size.cols,
        window(size).ws_xpixel == 0,
        window(size).ws_ypixel == 0,
{
}

/// A read gives what it read; nothing to read, and the error by which a
/// pseudoterminal reports its end, are nothing; and any other error is one.
pub proof fn the_end_of_a_terminal_is_no_error(result: ReadResult, eio: i32)
    ensures
        result matches ReadResult::Bytes(n) ==> ready(result, eio) == Ok::<usize, ()>(n),
        result is WouldBlock ==> ready(result, eio) == Ok::<usize, ()>(0),
        result matches ReadResult::Errno(e) ==> {
            &&& e == eio ==> ready(result, eio) == Ok::<usize, ()>(0)
            &&& e != eio ==> ready(result, eio) is Err
        },
        result is Failed ==> ready(result, eio) is Err,
{
}

/// A child whose terminal goes away is hung up on first, killed if that did not
/// end it, and waited for; one that has exited is left alone, and one without a
/// process id is only waited for.
pub proof fn a_child_is_hung_up_on_before_it_is_killed(wait: Wait, has_pid: bool, late: bool)
    ensures
        wait is Exited ==> parting(wait, has_pid) == Parting::Done,
        !(wait is Exited) && has_pid ==> parting(wait, has_pid) == Parting::Hangup,
        !(wait is Exited) && !has_pid ==> parting(wait, has_pid) == Parting::Reap,
        parting(wait, has_pid) != Parting::Kill,
        hung_up(wait) == Parting::Reap <==> wait is Exited,
        hung_up(wait) == Parting::Kill <==> !(wait is Exited),
        wait is Running && !late ==> !reaped(wait, late),
        late || wait is Exited || wait is Failed ==> reaped(wait, late),
{
}

/// A child that was gone before it could be watched is neither watched nor an
/// error, and any other error is passed on.
pub proof fn a_child_gone_early_is_no_error(opened: Result<(), i32>, esrch: i32)
    ensures
        opened is Ok ==> watched(opened, esrch) == Watch::Armed,
        opened matches Err(e) ==> {
            &&& e == esrch ==> watched(opened, esrch) == Watch::Unarmed
            &&& e != esrch ==> watched(opened, esrch) == Watch::Failed(e)
        },
{
}

} // verus!
