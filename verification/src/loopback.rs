//! Both halves in one process, with no network in between.
//!
//! Every screen and every keystroke still makes the round trip: encoded to
//! bytes, decoded again, and applied. There is no queue anywhere: if the child
//! produces output faster than the tick, the newer state replaces the older
//! one, and the next frame is current by construction.

use vstd::prelude::*;

use crate::screen::TermSize;
use crate::signal::Trouble;

verus! {

/// How often the loop offers a frame, in milliseconds.
pub const TICK: u64 = 8;

/// What one turn of the loop did.
#[derive(Clone, Copy, PartialEq, Eq, Debug, Structural)]
pub struct Tick {
    /// A screen frame went round the loop.
    pub screen_frame: bool,
    /// An input frame went round the loop.
    pub input_frame: bool,
    /// Bytes the screen frame occupied on the wire. Zero when there was none.
    pub screen_bytes: usize,
    /// The client repainted.
    pub rendered: bool,
    /// The child is gone, with this exit code.
    pub exited: Option<i32>,
}

/// A turn in which nothing has happened.
pub open spec fn idle() -> Tick {
    Tick {
        screen_frame: false,
        input_frame: false,
        screen_bytes: 0,
        rendered: false,
        exited: None,
    }
}

impl Default for Tick {
    fn default() -> (t: Tick)
        ensures
            t == idle(),
    {
        Tick {
            screen_frame: false,
            input_frame: false,
            screen_bytes: 0,
            rendered: false,
            exited: None,
        }
    }
}

/// How far a turn has come.
#[derive(Clone, Copy, PartialEq, Eq, Debug, Structural)]
pub enum TurnStage {
    /// Between turns.
    Rest,
    /// What was typed is being appended.
    Append,
    /// The client is being asked for an input frame.
    OfferInput,
    /// The input frame is on its way to the host.
    ApplyInput,
    /// This many bytes of input are being written to the terminal.
    WriteInput(usize),
    /// This many bytes of input are being dropped from what is pending.
    ConsumeInput(usize),
    /// The terminal is being drained.
    Poll,
    /// The screen is being captured.
    Capture,
    /// The host is being asked for a screen frame.
    OfferScreen,
    /// The screen frame is on its way to the client.
    ApplyScreen,
    /// The screen is being painted.
    Render,
    /// The child is being asked after.
    AskExit,
}

/// What happened.
#[derive(Debug)]
pub enum TurnEvent {
    /// What was to be done is done.
    Done,
    /// There is an input frame, or there is none.
    InputFrame(bool),
    /// The input frame made its round trip; whether it was new, and how many
    /// bytes are pending at the host.
    InputApplied { new: bool, pending: usize },
    /// Whether the screen changed.
    Polled(bool),
    /// A screen frame of this many bytes made its round trip, or there was
    /// none.
    ScreenFrame(Option<usize>),
    /// Whether the screen frame was new.
    ScreenApplied(bool),
    /// The child's exit code, if it is gone.
    Exited(Option<i32>),
    /// It went wrong. `what` is what was being done, where that is worth
    /// saying.
    Failed { what: Option<String>, error: String },
}

/// What to do next.
#[derive(Debug)]
pub enum TurnAction {
    Append,
    OfferInput,
    ApplyInput,
    /// Write what is pending at the host to the terminal.
    WriteInput,
    /// Drop this many bytes from what the client holds.
    ConsumeInput(usize),
    Poll,
    Capture,
    OfferScreen,
    ApplyScreen,
    Render,
    AskExit,
    /// The turn is over.
    End(Tick),
    Fail(Trouble),
    /// Nothing: that event belongs to another stage.
    OutOfTurn,
}

/// Both halves, joined.
#[derive(Debug)]
pub struct Loopback {
    pub size: TermSize,
    pub frames_sent: u64,
    pub bytes_sent: u64,
    pub tick: Tick,
    pub stage: TurnStage,
}

/// Whether an action is a failure that says what an event said.
pub open spec fn fails(action: TurnAction, what: Option<String>, error: String) -> bool {
    action matches TurnAction::Fail(t) && match what {
        Some(w) => t.failed_at(w@, error@),
        None => t.says(error@),
    }
}

/// Whether `event` at `before` leads to `after` and `action`.
pub open spec fn turn_step(
    before: Loopback,
    event: TurnEvent,
    after: Loopback,
    action: TurnAction,
) -> bool {
    match (before.stage, event) {
        (TurnStage::Rest, _) => after == before && action is OutOfTurn,
        (_, TurnEvent::Failed { what, error }) => {
            after == (Loopback { stage: TurnStage::Rest, ..before }) && fails(action, what, error)
        },
        (TurnStage::Append, TurnEvent::Done) => {
            after == (Loopback { stage: TurnStage::OfferInput, ..before })
                && action is OfferInput
        },
        (TurnStage::OfferInput, TurnEvent::InputFrame(there)) => if there {
            after == (Loopback { stage: TurnStage::ApplyInput, ..before })
                && action is ApplyInput
        } else {
            after == (Loopback { stage: TurnStage::Poll, ..before }) && action is Poll
        },
        (TurnStage::ApplyInput, TurnEvent::InputApplied { new, pending }) => {
            let tick = Tick { input_frame: new || before.tick.input_frame, ..before.tick };
            if new && pending > 0 {
                after == (Loopback { stage: TurnStage::WriteInput(pending), tick, ..before })
                    && action is WriteInput
            } else {
                after == (Loopback { stage: TurnStage::Poll, tick, ..before }) && action is Poll
            }
        },
        (TurnStage::WriteInput(n), TurnEvent::Done) => {
            after == (Loopback { stage: TurnStage::ConsumeInput(n), ..before }) && action
                == TurnAction::ConsumeInput(n)
        },
        (TurnStage::ConsumeInput(_), TurnEvent::Done) => {
            after == (Loopback { stage: TurnStage::Poll, ..before }) && action is Poll
        },
        (TurnStage::Poll, TurnEvent::Polled(changed)) => if changed {
            after == (Loopback { stage: TurnStage::Capture, ..before }) && action is Capture
        } else {
            after == (Loopback { stage: TurnStage::OfferScreen, ..before })
                && action is OfferScreen
        },
        (TurnStage::Capture, TurnEvent::Done) => {
            after == (Loopback { stage: TurnStage::OfferScreen, ..before })
                && action is OfferScreen
        },
        (TurnStage::OfferScreen, TurnEvent::ScreenFrame(Some(n))) => {
            after == (Loopback {
                stage: TurnStage::ApplyScreen,
                tick: Tick { screen_bytes: n, ..before.tick },
                frames_sent: (before.frames_sent + 1) as u64,
                bytes_sent: (before.bytes_sent + n) as u64,
                ..before
            }) && action is ApplyScreen
        },
        (TurnStage::OfferScreen, TurnEvent::ScreenFrame(None)) => {
            after == (Loopback { stage: TurnStage::AskExit, ..before }) && action is AskExit
        },
        (TurnStage::ApplyScreen, TurnEvent::ScreenApplied(new)) => if new {
            after == (Loopback {
                stage: TurnStage::Render,
                tick: Tick { screen_frame: true, ..before.tick },
                ..before
            }) && action is Render
        } else {
            after == (Loopback { stage: TurnStage::AskExit, ..before }) && action is AskExit
        },
        (TurnStage::Render, TurnEvent::Done) => {
            after == (Loopback {
                stage: TurnStage::AskExit,
                tick: Tick { rendered: true, ..before.tick },
                ..before
            }) && action is AskExit
        },
        (TurnStage::AskExit, TurnEvent::Exited(exited)) => {
            let tick = Tick { exited, ..before.tick };
            after == (Loopback { stage: TurnStage::Rest, tick, ..before }) && action
                == TurnAction::End(tick)
        },
        _ => after == before && action is OutOfTurn,
    }
}

/// Whether a window of this size is news.
pub open spec fn is_news(l: Loopback, size: TermSize) -> bool {
    size != l.size
}

/// Whether taking a new size takes `before` to `after`.
pub open spec fn takes_size(before: Loopback, size: TermSize, after: Loopback) -> bool {
    after == (Loopback { size, ..before })
}

/// Whether beginning a turn with `typed` bytes takes `before` to `after`, and
/// asks for `action` first.
pub open spec fn begun(before: Loopback, typed: usize, after: Loopback, action: TurnAction) -> bool {
    &&& after == (Loopback {
        tick: idle(),
        stage: if typed > 0 {
            TurnStage::Append
        } else {
            TurnStage::OfferInput
        },
        ..before
    })
    &&& if typed > 0 {
        action is Append
    } else {
        action is OfferInput
    }
}

impl Loopback {
    pub fn new(size: TermSize) -> (l: Loopback)
        ensures
            l == (Loopback {
                size,
                frames_sent: 0,
                bytes_sent: 0,
                tick: idle(),
                stage: TurnStage::Rest,
            }),
    {
        Loopback {
            size,
            frames_sent: 0,
            bytes_sent: 0,
            tick: Tick::default(),
            stage: TurnStage::Rest,
        }
    }

    /// Begin a turn; `typed` is how many bytes the user typed since the last.
    pub fn tick(&mut self, typed: usize) -> (action: TurnAction)
        ensures
            *final(self) == (Loopback {
                tick: idle(),
                stage: if typed > 0 {
                    TurnStage::Append
                } else {
                    TurnStage::OfferInput
                },
                ..*old(self)
            }),
            typed > 0 ==> action is Append,
            typed == 0 ==> action is OfferInput,
            begun(*old(self), typed, *final(self), action),
    {
        self.tick = Tick::default();
        if typed > 0 {
            self.stage = TurnStage::Append;
            TurnAction::Append
        } else {
            self.stage = TurnStage::OfferInput;
            TurnAction::OfferInput
        }
    }

    /// Take in what happened, and say what to do next.
    ///
    /// Input is written only straight after a frame was applied: what is
    /// pending stays there until the next frame trims it, so writing on a turn
    /// that applied nothing would send the same keystrokes twice.
    pub fn step(&mut self, event: TurnEvent) -> (action: TurnAction)
        requires
            old(self).stage == TurnStage::OfferScreen ==> (event matches TurnEvent::ScreenFrame(
                Some(n),
            ) ==> old(self).frames_sent < u64::MAX && old(self).bytes_sent + n <= u64::MAX),
        ensures
            turn_step(*old(self), event, *final(self), action),
    {
        match (self.stage, event) {
            (TurnStage::Rest, _) => TurnAction::OutOfTurn,
            (_, TurnEvent::Failed { what, error }) => {
                self.stage = TurnStage::Rest;
                match what {
                    Some(w) => TurnAction::Fail(Trouble::at(w.as_str(), error)),
                    None => TurnAction::Fail(Trouble::say(error)),
                }
            },
            (TurnStage::Append, TurnEvent::Done) => {
                self.stage = TurnStage::OfferInput;
                TurnAction::OfferInput
            },
            (TurnStage::OfferInput, TurnEvent::InputFrame(there)) => {
                if there {
                    self.stage = TurnStage::ApplyInput;
                    TurnAction::ApplyInput
                } else {
                    self.stage = TurnStage::Poll;
                    TurnAction::Poll
                }
            },
            (TurnStage::ApplyInput, TurnEvent::InputApplied { new, pending }) => {
                if new {
                    self.tick.input_frame = true;
                }
                if new && pending > 0 {
                    self.stage = TurnStage::WriteInput(pending);
                    TurnAction::WriteInput
                } else {
                    self.stage = TurnStage::Poll;
                    TurnAction::Poll
                }
            },
            (TurnStage::WriteInput(n), TurnEvent::Done) => {
                self.stage = TurnStage::ConsumeInput(n);
                TurnAction::ConsumeInput(n)
            },
            (TurnStage::ConsumeInput(_), TurnEvent::Done) => {
                self.stage = TurnStage::Poll;
                TurnAction::Poll
            },
            (TurnStage::Poll, TurnEvent::Polled(changed)) => {
                if changed {
                    self.stage = TurnStage::Capture;
                    TurnAction::Capture
                } else {
                    self.stage = TurnStage::OfferScreen;
                    TurnAction::OfferScreen
                }
            },
            (TurnStage::Capture, TurnEvent::Done) => {
                self.stage = TurnStage::OfferScreen;
                TurnAction::OfferScreen
            },
            (TurnStage::OfferScreen, TurnEvent::ScreenFrame(Some(n))) => {
                self.stage = TurnStage::ApplyScreen;
                self.tick.screen_bytes = n;
                self.frames_sent += 1;
                self.bytes_sent += n as u64;
                TurnAction::ApplyScreen
            },
            (TurnStage::OfferScreen, TurnEvent::ScreenFrame(None)) => {
                self.stage = TurnStage::AskExit;
                TurnAction::AskExit
            },
            (TurnStage::ApplyScreen, TurnEvent::ScreenApplied(new)) => {
                if new {
                    self.stage = TurnStage::Render;
                    self.tick.screen_frame = true;
                    TurnAction::Render
                } else {
                    self.stage = TurnStage::AskExit;
                    TurnAction::AskExit
                }
            },
            (TurnStage::Render, TurnEvent::Done) => {
                self.stage = TurnStage::AskExit;
                self.tick.rendered = true;
                TurnAction::AskExit
            },
            (TurnStage::AskExit, TurnEvent::Exited(exited)) => {
                self.stage = TurnStage::Rest;
                self.tick.exited = exited;
                TurnAction::End(self.tick)
            },
            _ => TurnAction::OutOfTurn,
        }
    }

    /// Whether a window of this size is news.
    pub fn wants_resize(&self, size: TermSize) -> (r: bool)
        ensures
            r == (size != self.size),
            r == is_news(*self, size),
    {
        size != self.size
    }

    /// The terminal and the renderer have taken the new size.
    pub fn resize(&mut self, size: TermSize)
        ensures
            *final(self) == (Loopback { size, ..*old(self) }),
            takes_size(*old(self), size, *final(self)),
    {
        self.size = size;
    }
}

/// How many stages of a turn are at most ahead.
pub open spec fn ahead(stage: TurnStage) -> nat {
    match stage {
        TurnStage::Rest => 0,
        TurnStage::AskExit => 1,
        TurnStage::Render => 2,
        TurnStage::ApplyScreen => 3,
        TurnStage::OfferScreen => 4,
        TurnStage::Capture => 5,
        TurnStage::Poll => 6,
        TurnStage::ConsumeInput(_) => 7,
        TurnStage::WriteInput(_) => 8,
        TurnStage::ApplyInput => 9,
        TurnStage::OfferInput => 10,
        TurnStage::Append => 11,
    }
}

/// A turn goes forward and nowhere else: every event that is not out of turn
/// leaves fewer stages ahead, so a turn ends, and none of its stages comes
/// twice.
pub proof fn a_turn_only_goes_forward(
    before: Loopback,
    event: TurnEvent,
    after: Loopback,
    action: TurnAction,
)
    requires
        turn_step(before, event, after, action),
        !(action is OutOfTurn),
    ensures
        ahead(after.stage) < ahead(before.stage),
{
}

/// Input reaches the terminal only in the turn, and at the moment, that a new
/// frame brought it, and what was written is what the client drops.
pub proof fn input_is_written_only_after_a_new_frame(
    before: Loopback,
    event: TurnEvent,
    after: Loopback,
    action: TurnAction,
)
    requires
        turn_step(before, event, after, action),
    ensures
        action is WriteInput ==> before.stage == TurnStage::ApplyInput && (
        event matches TurnEvent::InputApplied { new, pending } && new && pending > 0 && after.stage
            == TurnStage::WriteInput(pending)),
        action matches TurnAction::ConsumeInput(n) ==> before.stage == TurnStage::WriteInput(n),
{
}

/// A turn sends one frame at most, whatever the child writes.
pub proof fn a_turn_sends_one_frame_at_most(
    before: Loopback,
    event: TurnEvent,
    after: Loopback,
    action: TurnAction,
)
    requires
        turn_step(before, event, after, action),
        after.frames_sent != before.frames_sent,
    ensures
        before.stage == TurnStage::OfferScreen,
        after.stage == TurnStage::ApplyScreen,
        after.frames_sent == (before.frames_sent + 1) as u64,
{
}

/// One step of a turn: what happened, and what that led to.
pub struct TurnRound {
    pub event: TurnEvent,
    pub after: Loopback,
    pub action: TurnAction,
}

/// The loop before step number `i`.
pub open spec fn turn_at(start: Loopback, rounds: Seq<TurnRound>, i: int) -> Loopback {
    if i <= 0 {
        start
    } else {
        rounds[i - 1].after
    }
}

/// Whether step number `i` of a turn is one, and runs no counter over.
pub open spec fn turned(start: Loopback, rounds: Seq<TurnRound>, i: int) -> bool {
    let before = turn_at(start, rounds, i);
    let round = rounds[i];
    &&& turn_step(before, round.event, round.after, round.action)
    &&& before.stage == TurnStage::OfferScreen ==> (
    round.event matches TurnEvent::ScreenFrame(Some(n)) ==> before.frames_sent < u64::MAX
        && before.bytes_sent + n <= u64::MAX)
}

/// Whether every step of a turn is one, and none runs a counter over.
pub open spec fn turns(start: Loopback, rounds: Seq<TurnRound>) -> bool {
    forall|i: int| 0 <= i < rounds.len() ==> #[trigger] turned(start, rounds, i)
}

/// How `now` stands to the loop its turn began from.
spec fn adds_up(before: Loopback, now: Loopback) -> bool {
    let tick = now.tick;
    let sent = now.frames_sent - before.frames_sent;
    &&& now.bytes_sent == before.bytes_sent + tick.screen_bytes
    &&& sent == 0 || sent == 1
    &&& sent == 0 ==> tick.screen_bytes == 0 && !tick.screen_frame && !tick.rendered
    &&& ahead(now.stage) >= 4 ==> sent == 0
    &&& now.stage == TurnStage::ApplyScreen ==> sent == 1 && !tick.screen_frame && !tick.rendered
    &&& now.stage == TurnStage::Render ==> sent == 1 && tick.screen_frame && !tick.rendered
    &&& now.stage == TurnStage::AskExit ==> tick.rendered == tick.screen_frame
}

/// What holds all through a turn.
proof fn a_turn_keeps_adding_up(before: Loopback, start: Loopback, rounds: Seq<TurnRound>, i: int)
    requires
        adds_up(before, start),
        turns(start, rounds),
        0 <= i <= rounds.len(),
    ensures
        adds_up(before, turn_at(start, rounds, i)),
    decreases i,
{
    if i > 0 {
        a_turn_keeps_adding_up(before, start, rounds, i - 1);
        assert(turned(start, rounds, i - 1));
    }
}

/// A turn that ends reports what it did: it repainted exactly if a screen
/// frame came through, it sent one frame at most, and what it sent is as many
/// bytes as it says.
///
/// `before` is the loop between turns, `start` is what beginning the turn made
/// of it, and `rounds` are the steps up to the one that ended it.
pub proof fn a_turn_reports_what_it_did(
    before: Loopback,
    typed: usize,
    start: Loopback,
    rounds: Seq<TurnRound>,
    tick: Tick,
)
    requires
        start == (Loopback {
            tick: idle(),
            stage: if typed > 0 {
                TurnStage::Append
            } else {
                TurnStage::OfferInput
            },
            ..before
        }),
        turns(start, rounds),
        rounds.len() > 0,
        rounds.last().action == TurnAction::End(tick),
    ensures
        tick.rendered == tick.screen_frame,
        ({
            let sent = rounds.last().after.frames_sent - before.frames_sent;
            &&& sent == 0 || sent == 1
            &&& sent == 0 ==> tick.screen_bytes == 0 && !tick.screen_frame
        }),
        rounds.last().after.bytes_sent == before.bytes_sent + tick.screen_bytes,
        rounds.last().after.tick == tick,
{
    a_turn_keeps_adding_up(before, start, rounds, rounds.len() - 1);
    assert(turned(start, rounds, rounds.len() - 1));
}

/// A turn that never got so far again has fewer stages ahead.
proof fn stages_do_not_come_back(start: Loopback, rounds: Seq<TurnRound>, i: int, j: int)
    requires
        turns(start, rounds),
        0 <= i <= j <= rounds.len(),
    ensures
        ahead(turn_at(start, rounds, j).stage) <= ahead(turn_at(start, rounds, i).stage),
    decreases j - i,
{
    if i < j {
        stages_do_not_come_back(start, rounds, i, j - 1);
        assert(turned(start, rounds, j - 1));
    }
}

/// A step that has input written is the one from applying an input frame.
proof fn writing_follows_applying(start: Loopback, rounds: Seq<TurnRound>, i: int)
    requires
        turns(start, rounds),
        0 <= i < rounds.len(),
        rounds[i].action is WriteInput,
    ensures
        ahead(turn_at(start, rounds, i).stage) == 9,
        ahead(turn_at(start, rounds, i + 1).stage) == 8,
{
    assert(turned(start, rounds, i));
    let round = rounds[i];
    input_is_written_only_after_a_new_frame(
        turn_at(start, rounds, i),
        round.event,
        round.after,
        round.action,
    );
}

/// Input is written to the terminal once in a turn at most.
pub proof fn input_is_written_once_a_turn(
    start: Loopback,
    rounds: Seq<TurnRound>,
    i: int,
    j: int,
)
    requires
        turns(start, rounds),
        0 <= i < j < rounds.len(),
        rounds[i].action is WriteInput,
    ensures
        !(rounds[j].action is WriteInput),
{
    if rounds[j].action is WriteInput {
        writing_follows_applying(start, rounds, i);
        writing_follows_applying(start, rounds, j);
        stages_do_not_come_back(start, rounds, i + 1, j);
    }
}

/// One call on the loop: a turn begins with what was typed since the last, or
/// something happened in it.
pub enum LoopCall {
    Begin(Seq<u8>),
    Happened(TurnEvent),
}

/// Where the typed bytes are.
pub struct Typing {
    /// What was handed to all turns so far, in order.
    pub given: Seq<u8>,
    /// What was handed to the current turn.
    pub input: Seq<u8>,
    /// What the client still holds.
    pub held: Seq<u8>,
    /// What was written to the terminal, in order.
    pub written: Seq<u8>,
}

/// One call, and what it led to.
pub struct LoopRound {
    pub call: LoopCall,
    pub after: Loopback,
    pub action: TurnAction,
    pub typing: Typing,
}

/// The loop before call number `i`.
pub open spec fn loop_at(start: Loopback, rounds: Seq<LoopRound>, i: int) -> Loopback {
    if i <= 0 {
        start
    } else {
        rounds[i - 1].after
    }
}

/// Where the typed bytes are before call number `i`: nowhere, at first.
pub open spec fn typing_at(rounds: Seq<LoopRound>, i: int) -> Typing {
    if i <= 0 {
        Typing {
            given: Seq::empty(),
            input: Seq::empty(),
            held: Seq::empty(),
            written: Seq::empty(),
        }
    } else {
        rounds[i - 1].typing
    }
}

/// Where a call takes the typed bytes: into the turn as it begins, to the
/// client when they are appended, to the terminal when they are written, and
/// out of the client's hands when it drops them.
pub open spec fn typed_by(t: Typing, stage: TurnStage, call: LoopCall) -> Typing {
    match (stage, call) {
        (_, LoopCall::Begin(input)) => Typing { given: t.given + input, input, ..t },
        (TurnStage::Append, LoopCall::Happened(TurnEvent::Done)) => Typing {
            held: t.held + t.input,
            ..t
        },
        (TurnStage::WriteInput(n), LoopCall::Happened(TurnEvent::Done)) => Typing {
            written: t.written + t.held.take(n as int),
            ..t
        },
        (TurnStage::ConsumeInput(n), LoopCall::Happened(TurnEvent::Done)) => Typing {
            held: t.held.skip(n as int),
            ..t
        },
        _ => t,
    }
}

/// Whether call number `i` went as the loop has it, and well: a turn begins
/// only when the last one is over, nothing fails, and no counter runs over.
/// Of the synchroniser between the halves this asks one thing: that a new
/// frame leaves pending at the host what the client holds.
pub open spec fn looped(start: Loopback, rounds: Seq<LoopRound>, i: int) -> bool {
    let before = loop_at(start, rounds, i);
    let t = typing_at(rounds, i);
    let round = rounds[i];
    &&& round.typing == typed_by(t, before.stage, round.call)
    &&& match round.call {
        LoopCall::Begin(input) => {
            &&& before.stage == TurnStage::Rest
            &&& round.after == (Loopback {
                tick: idle(),
                stage: if input.len() > 0 {
                    TurnStage::Append
                } else {
                    TurnStage::OfferInput
                },
                ..before
            })
            &&& if input.len() > 0 {
                round.action is Append
            } else {
                round.action is OfferInput
            }
        },
        LoopCall::Happened(event) => {
            &&& turn_step(before, event, round.after, round.action)
            &&& !(round.action is Fail)
            &&& before.stage == TurnStage::OfferScreen ==> (event matches TurnEvent::ScreenFrame(
                Some(n),
            ) ==> before.frames_sent < u64::MAX && before.bytes_sent + n <= u64::MAX)
            &&& before.stage == TurnStage::ApplyInput ==> (
            event matches TurnEvent::InputApplied { new, pending } ==> (new ==> pending
                == t.held.len()))
        },
    }
}

/// Whether every call went as the loop has it.
pub open spec fn loops(start: Loopback, rounds: Seq<LoopRound>) -> bool {
    &&& start.stage == TurnStage::Rest
    &&& forall|i: int| 0 <= i < rounds.len() ==> #[trigger] looped(start, rounds, i)
}

/// Every byte that was handed in is in one place.
spec fn accounted(l: Loopback, t: Typing) -> bool {
    match l.stage {
        TurnStage::Append => t.given == t.written + t.held + t.input,
        TurnStage::WriteInput(n) => t.given == t.written + t.held && n == t.held.len(),
        TurnStage::ConsumeInput(n) => t.given == t.written + t.held.skip(n as int) && n
            == t.held.len(),
        _ => t.given == t.written + t.held,
    }
}

/// What one call does to that.
proof fn a_call_loses_nothing(start: Loopback, rounds: Seq<LoopRound>, i: int)
    requires
        looped(start, rounds, i),
        0 <= i < rounds.len(),
        accounted(loop_at(start, rounds, i), typing_at(rounds, i)),
    ensures
        accounted(loop_at(start, rounds, i + 1), typing_at(rounds, i + 1)),
{
    let before = loop_at(start, rounds, i);
    let t = typing_at(rounds, i);
    let u = typing_at(rounds, i + 1);
    match rounds[i].call {
        LoopCall::Begin(input) => {
            assert(u.given =~= t.written + t.held + input);
            if input.len() == 0 {
                assert(t.written + t.held + input =~= t.written + t.held);
            }
        },
        LoopCall::Happened(event) => {
            assert(t.written + t.held + t.input =~= t.written + (t.held + t.input));
            match before.stage {
                TurnStage::WriteInput(n) => {
                    assert(t.written + t.held =~= (t.written + t.held.take(n as int))
                        + t.held.skip(n as int));
                },
                _ => {},
            }
        },
    }
}

/// Every byte handed to the loop is written to the terminal once and in the
/// order it was handed in, over any number of turns and however many of them
/// have none: between turns, what was written and what the client still holds
/// are together what was handed in.
pub proof fn every_byte_is_written_once_and_in_order(
    start: Loopback,
    rounds: Seq<LoopRound>,
    i: int,
)
    requires
        loops(start, rounds),
        0 <= i <= rounds.len(),
        loop_at(start, rounds, i).stage == TurnStage::Rest,
    ensures
        typing_at(rounds, i).given == typing_at(rounds, i).written + typing_at(rounds, i).held,
        typing_at(rounds, i).written.is_prefix_of(typing_at(rounds, i).given),
{
    nothing_is_lost(start, rounds, i);
    let t = typing_at(rounds, i);
    assert(t.given.take(t.written.len() as int) =~= t.written);
}

/// Every byte is in one place before every call.
proof fn nothing_is_lost(start: Loopback, rounds: Seq<LoopRound>, i: int)
    requires
        loops(start, rounds),
        0 <= i <= rounds.len(),
    ensures
        accounted(loop_at(start, rounds, i), typing_at(rounds, i)),
    decreases i,
{
    if i == 0 {
        let t = typing_at(rounds, 0);
        assert(t.given =~= t.written + t.held);
    } else {
        nothing_is_lost(start, rounds, i - 1);
        assert(looped(start, rounds, i - 1));
        a_call_loses_nothing(start, rounds, i - 1);
    }
}

/// What the first `i` calls came to.
pub struct Totals {
    /// How many new input frames were applied.
    pub new_frames: nat,
    /// How often input was written, and how many bytes that was.
    pub writes: nat,
    pub written: nat,
    /// How many bytes the client was told to drop.
    pub dropped: nat,
    /// How many turns ended, and how many bytes of screen they reported.
    pub ended: nat,
    pub reported: nat,
}

/// What a call adds to that.
pub open spec fn totals_with(t: Totals, stage: TurnStage, round: LoopRound) -> Totals {
    let t = if stage == TurnStage::ApplyInput && (round.call matches LoopCall::Happened(
        TurnEvent::InputApplied { new, .. },
    ) && new) {
        Totals { new_frames: t.new_frames + 1, ..t }
    } else {
        t
    };
    match (round.action, round.after.stage) {
        (TurnAction::WriteInput, TurnStage::WriteInput(n)) => Totals {
            writes: t.writes + 1,
            written: t.written + n as nat,
            ..t
        },
        (TurnAction::ConsumeInput(n), _) => Totals { dropped: t.dropped + n as nat, ..t },
        (TurnAction::End(tick), _) => Totals {
            ended: t.ended + 1,
            reported: t.reported + tick.screen_bytes as nat,
            ..t
        },
        _ => t,
    }
}

/// What the first `i` calls came to.
pub open spec fn totals(start: Loopback, rounds: Seq<LoopRound>, i: int) -> Totals
    decreases i,
{
    if i <= 0 {
        Totals { new_frames: 0, writes: 0, written: 0, dropped: 0, ended: 0, reported: 0 }
    } else {
        totals_with(
            totals(start, rounds, i - 1),
            loop_at(start, rounds, i - 1).stage,
            rounds[i - 1],
        )
    }
}

/// How the totals stand to the loop.
spec fn balanced(start: Loopback, l: Loopback, t: Totals) -> bool {
    let open = if l.stage == TurnStage::Rest {
        0
    } else {
        l.tick.screen_bytes as int
    };
    &&& t.writes <= t.new_frames
    &&& t.written == t.dropped + (match l.stage {
        TurnStage::WriteInput(n) => n as int,
        _ => 0,
    })
    &&& l.bytes_sent == start.bytes_sent + t.reported + open
    &&& start.frames_sent <= l.frames_sent <= start.frames_sent + t.ended + (if l.stage
        == TurnStage::Rest || ahead(l.stage) >= 4 {
        0int
    } else {
        1
    })
    &&& ahead(l.stage) >= 4 ==> l.tick.screen_bytes == 0
}

/// The totals stand so before every call.
proof fn totals_stay_balanced(start: Loopback, rounds: Seq<LoopRound>, i: int)
    requires
        loops(start, rounds),
        0 <= i <= rounds.len(),
    ensures
        balanced(start, loop_at(start, rounds, i), totals(start, rounds, i)),
    decreases i,
{
    if i > 0 {
        totals_stay_balanced(start, rounds, i - 1);
        assert(looped(start, rounds, i - 1));
    }
}

/// Over any number of turns, every time input is written it answers a new
/// frame of its own, and the client has dropped as much as was written; what
/// was sent is as many bytes as the turns reported, in one frame a turn at
/// most.
pub proof fn turns_add_up(start: Loopback, rounds: Seq<LoopRound>, i: int)
    requires
        loops(start, rounds),
        0 <= i <= rounds.len(),
        loop_at(start, rounds, i).stage == TurnStage::Rest,
    ensures
        totals(start, rounds, i).writes <= totals(start, rounds, i).new_frames,
        totals(start, rounds, i).dropped == totals(start, rounds, i).written,
        loop_at(start, rounds, i).bytes_sent == start.bytes_sent + totals(
            start,
            rounds,
            i,
        ).reported,
        start.frames_sent <= loop_at(start, rounds, i).frames_sent <= start.frames_sent + totals(
            start,
            rounds,
            i,
        ).ended,
{
    totals_stay_balanced(start, rounds, i);
}

/// A poll that reports a change leads to a capture, and one that reports none
/// straight to the offer, whatever else the turn has done and whatever the loop
/// has counted.
pub proof fn a_reported_change_is_captured(
    before: Loopback,
    changed: bool,
    after: Loopback,
    action: TurnAction,
)
    requires
        before.stage == TurnStage::Poll,
        turn_step(before, TurnEvent::Polled(changed), after, action),
    ensures
        action is Capture <==> changed,
        action is OfferScreen <==> !changed,
        after.stage == TurnStage::Capture <==> changed,
        after.tick == before.tick,
        after.size == before.size,
        after.frames_sent == before.frames_sent,
        after.bytes_sent == before.bytes_sent,
{
}

/// How many of the first `i` calls reported a change of the screen.
pub open spec fn changes(rounds: Seq<LoopRound>, start: Loopback, i: int) -> nat
    decreases i,
{
    if i <= 0 {
        0
    } else {
        changes(rounds, start, i - 1) + (if loop_at(start, rounds, i - 1).stage == TurnStage::Poll
            && rounds[i - 1].call == LoopCall::Happened(TurnEvent::Polled(true)) {
            1nat
        } else {
            0
        })
    }
}

/// How many of the first `i` calls were answered with a capture.
pub open spec fn captures(rounds: Seq<LoopRound>, i: int) -> nat
    decreases i,
{
    if i <= 0 {
        0
    } else {
        captures(rounds, i - 1) + (if rounds[i - 1].action is Capture {
            1nat
        } else {
            0
        })
    }
}

/// Over any number of turns, there are as many captures as changes reported.
pub proof fn every_change_is_captured_once(start: Loopback, rounds: Seq<LoopRound>, i: int)
    requires
        loops(start, rounds),
        0 <= i <= rounds.len(),
    ensures
        captures(rounds, i) == changes(rounds, start, i),
    decreases i,
{
    if i > 0 {
        every_change_is_captured_once(start, rounds, i - 1);
        assert(looped(start, rounds, i - 1));
    }
}

/// Over any number of turns, every change that was reported is captured, and
/// the capture is done, before the host is next asked for a frame.
pub proof fn a_change_is_captured_before_the_next_offer(
    start: Loopback,
    rounds: Seq<LoopRound>,
    i: int,
    j: int,
)
    requires
        loops(start, rounds),
        0 <= i < j < rounds.len(),
        loop_at(start, rounds, i).stage == TurnStage::Poll,
        rounds[i].call == LoopCall::Happened(TurnEvent::Polled(true)),
        rounds[j].action is OfferScreen,
    ensures
        rounds[i].action is Capture,
        exists|k: int|
            i < k <= j && loop_at(start, rounds, k).stage == TurnStage::Capture
                && #[trigger] rounds[k].call == LoopCall::Happened(TurnEvent::Done)
                && rounds[k].action is OfferScreen,
{
    assert(looped(start, rounds, i));
    waits_for_the_capture(start, rounds, i + 1, j);
}

/// A loop that waits for a capture offers nothing until it is done.
proof fn waits_for_the_capture(start: Loopback, rounds: Seq<LoopRound>, i: int, j: int)
    requires
        loops(start, rounds),
        0 <= i <= j < rounds.len(),
        loop_at(start, rounds, i).stage == TurnStage::Capture,
        rounds[j].action is OfferScreen,
    ensures
        exists|k: int|
            i <= k <= j && loop_at(start, rounds, k).stage == TurnStage::Capture
                && #[trigger] rounds[k].call == LoopCall::Happened(TurnEvent::Done)
                && rounds[k].action is OfferScreen,
    decreases j - i,
{
    assert(looped(start, rounds, i));
    if rounds[i].call == LoopCall::Happened(TurnEvent::Done) {
        assert(rounds[i].action is OfferScreen);
    } else {
        assert(loop_at(start, rounds, i + 1).stage == TurnStage::Capture);
        assert(!(rounds[i].action is OfferScreen));
        waits_for_the_capture(start, rounds, i + 1, j);
    }
}

/// A turn begins with an empty report and with what was typed, if anything was,
/// and otherwise with the input that is already held. Nothing counted so far is
/// lost.
pub proof fn a_turn_begins_with_what_was_typed(
    before: Loopback,
    typed: usize,
    after: Loopback,
    action: TurnAction,
)
    requires
        begun(before, typed, after, action),
    ensures
        action is Append <==> typed > 0,
        action is OfferInput <==> typed == 0,
        after.stage == TurnStage::Append <==> typed > 0,
        after.stage == TurnStage::OfferInput <==> typed == 0,
        !after.tick.screen_frame,
        !after.tick.input_frame,
        !after.tick.rendered,
        after.tick.screen_bytes == 0,
        after.tick.exited is None,
        after.size == before.size,
        after.frames_sent == before.frames_sent,
        after.bytes_sent == before.bytes_sent,
{
}

/// Input takes the same way whatever else the loop has done: what was typed is
/// offered, an input frame is applied, and what a new one leaves pending is
/// written, and then dropped, byte for byte. A frame that is not new, or that
/// leaves nothing pending, is written nowhere; and the terminal is polled in
/// every turn.
pub proof fn input_takes_one_way(
    before: Loopback,
    event: TurnEvent,
    after: Loopback,
    action: TurnAction,
)
    requires
        turn_step(before, event, after, action),
    ensures
        before.stage == TurnStage::Append && event is Done ==> action is OfferInput && after.stage
            == TurnStage::OfferInput && after.tick == before.tick,
        before.stage == TurnStage::OfferInput ==> (event matches TurnEvent::InputFrame(there) ==> {
            &&& action is ApplyInput <==> there
            &&& action is Poll <==> !there
            &&& after.stage == TurnStage::ApplyInput <==> there
            &&& after.stage == TurnStage::Poll <==> !there
            &&& after.tick == before.tick
        }),
        before.stage == TurnStage::ApplyInput ==> (
        event matches TurnEvent::InputApplied { new, pending } ==> {
            &&& action is WriteInput <==> new && pending > 0
            &&& action is Poll <==> !(new && pending > 0)
            &&& new && pending > 0 ==> after.stage == TurnStage::WriteInput(pending)
            &&& !(new && pending > 0) ==> after.stage == TurnStage::Poll
            &&& after.tick.input_frame <==> new || before.tick.input_frame
            &&& after.tick.screen_frame == before.tick.screen_frame
            &&& after.tick.screen_bytes == before.tick.screen_bytes
            &&& after.tick.rendered == before.tick.rendered
            &&& after.tick.exited == before.tick.exited
        }),
        before.stage matches TurnStage::WriteInput(n) ==> (event is Done ==> action
            == TurnAction::ConsumeInput(n) && after.stage == TurnStage::ConsumeInput(n)
            && after.tick == before.tick),
        before.stage is ConsumeInput && event is Done ==> action is Poll && after.stage
            == TurnStage::Poll && after.tick == before.tick,
        before.stage is Append || before.stage is OfferInput || before.stage is ApplyInput
            || before.stage is WriteInput || before.stage is ConsumeInput ==> after.frames_sent
            == before.frames_sent && after.bytes_sent == before.bytes_sent && after.size
            == before.size,
{
}

/// A screen frame is counted when it is sent, applied where it arrives and
/// painted if it was new; without one nothing is counted and nothing painted.
/// Every turn that gets so far asks after the child, and ends with its answer.
pub proof fn a_screen_frame_takes_one_way(
    before: Loopback,
    event: TurnEvent,
    after: Loopback,
    action: TurnAction,
)
    requires
        turn_step(before, event, after, action),
        before.frames_sent < u64::MAX,
        event matches TurnEvent::ScreenFrame(Some(n)) ==> before.bytes_sent + n <= u64::MAX,
    ensures
        before.stage == TurnStage::Capture && event is Done ==> action is OfferScreen
            && after.stage == TurnStage::OfferScreen && after.tick == before.tick,
        before.stage == TurnStage::OfferScreen ==> (event matches TurnEvent::ScreenFrame(
            Some(n),
        ) ==> {
            &&& action is ApplyScreen
            &&& after.stage == TurnStage::ApplyScreen
            &&& after.frames_sent == before.frames_sent + 1
            &&& after.bytes_sent == before.bytes_sent + n
            &&& after.tick.screen_bytes == n
            &&& after.tick.screen_frame == before.tick.screen_frame
            &&& after.tick.input_frame == before.tick.input_frame
            &&& after.tick.rendered == before.tick.rendered
        }),
        before.stage == TurnStage::OfferScreen ==> (event matches TurnEvent::ScreenFrame(
            None,
        ) ==> {
            &&& action is AskExit
            &&& after.stage == TurnStage::AskExit
            &&& after.frames_sent == before.frames_sent
            &&& after.bytes_sent == before.bytes_sent
            &&& after.tick == before.tick
        }),
        before.stage == TurnStage::ApplyScreen ==> (event matches TurnEvent::ScreenApplied(
            new,
        ) ==> {
            &&& action is Render <==> new
            &&& action is AskExit <==> !new
            &&& after.stage == TurnStage::Render <==> new
            &&& after.stage == TurnStage::AskExit <==> !new
            &&& after.tick.screen_frame <==> new || before.tick.screen_frame
            &&& after.tick.screen_bytes == before.tick.screen_bytes
            &&& after.tick.input_frame == before.tick.input_frame
            &&& after.tick.rendered == before.tick.rendered
        }),
        before.stage == TurnStage::Render && event is Done ==> {
            &&& action is AskExit
            &&& after.stage == TurnStage::AskExit
            &&& after.tick.rendered
            &&& after.tick.screen_frame == before.tick.screen_frame
            &&& after.tick.screen_bytes == before.tick.screen_bytes
            &&& after.tick.input_frame == before.tick.input_frame
        },
        before.stage == TurnStage::AskExit ==> (event matches TurnEvent::Exited(exited) ==> {
            &&& action matches TurnAction::End(tick)
            &&& after.stage == TurnStage::Rest
            &&& after.tick == tick
            &&& tick.exited == exited
            &&& tick.screen_frame == before.tick.screen_frame
            &&& tick.input_frame == before.tick.input_frame
            &&& tick.screen_bytes == before.tick.screen_bytes
            &&& tick.rendered == before.tick.rendered
        }),
        !(before.stage is OfferScreen) ==> after.frames_sent == before.frames_sent
            && after.bytes_sent == before.bytes_sent,
        after.size == before.size,
{
}

/// A turn that fails is over, says what failed and why, and has counted nothing
/// for it.
pub proof fn a_failed_turn_is_over(
    before: Loopback,
    what: Option<String>,
    error: String,
    after: Loopback,
    action: TurnAction,
)
    requires
        turn_step(before, TurnEvent::Failed { what, error }, after, action),
        before.stage != TurnStage::Rest,
    ensures
        after.stage == TurnStage::Rest,
        after.frames_sent == before.frames_sent,
        after.bytes_sent == before.bytes_sent,
        after.size == before.size,
        action matches TurnAction::Fail(t) && {
            &&& t.refused is None
            &&& what is Some ==> t.what@ == what->0@ && (t.cause matches Some(c) && c@ == error@)
            &&& what is None ==> t.what@ == error@ && t.cause is None
        },
{
}

/// Between turns nothing happens, and an event that belongs elsewhere changes
/// nothing.
pub proof fn nothing_happens_between_turns(
    before: Loopback,
    event: TurnEvent,
    after: Loopback,
    action: TurnAction,
)
    requires
        turn_step(before, event, after, action),
    ensures
        before.stage == TurnStage::Rest ==> action is OutOfTurn,
        action is OutOfTurn ==> after == before,
        action is OutOfTurn ==> before.stage == TurnStage::Rest || !(event is Failed),
        action is OutOfTurn && before.stage == TurnStage::Poll ==> !(event is Polled),
{
}

/// An event that belongs to another stage is left alone: each stage answers its
/// own kind of event, and a failure, and nothing else.
pub proof fn an_event_of_another_stage_is_left_alone(
    before: Loopback,
    event: TurnEvent,
    after: Loopback,
    action: TurnAction,
)
    requires
        turn_step(before, event, after, action),
    ensures
        ({
            let awaited = match before.stage {
                TurnStage::Rest => false,
                TurnStage::Append => event is Done,
                TurnStage::OfferInput => event is InputFrame,
                TurnStage::ApplyInput => event is InputApplied,
                TurnStage::WriteInput(_) => event is Done,
                TurnStage::ConsumeInput(_) => event is Done,
                TurnStage::Poll => event is Polled,
                TurnStage::Capture => event is Done,
                TurnStage::OfferScreen => event is ScreenFrame,
                TurnStage::ApplyScreen => event is ScreenApplied,
                TurnStage::Render => event is Done,
                TurnStage::AskExit => event is Exited,
            };
            &&& action is OutOfTurn <==> !awaited && (before.stage == TurnStage::Rest || !(
            event is Failed))
            &&& action is OutOfTurn ==> after == before
            &&& action is Fail <==> before.stage != TurnStage::Rest && event is Failed
        }),
{
}

/// A window is news exactly if either side differs, and once it is taken it is
/// news no more; taking it touches nothing else.
pub proof fn a_window_is_news_once(before: Loopback, size: TermSize, after: Loopback)
    requires
        takes_size(before, size, after),
    ensures
        is_news(before, size) <==> size.rows != before.size.rows || size.cols != before.size.cols,
        !is_news(after, size),
        after.size.rows == size.rows,
        after.size.cols == size.cols,
        after.stage == before.stage,
        after.tick == before.tick,
        after.frames_sent == before.frames_sent,
        after.bytes_sent == before.bytes_sent,
{
}

} // verus!
