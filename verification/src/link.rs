//! Which channel a frame takes.
//!
//! A frame that fits in a datagram goes in a datagram. One that does not goes
//! on a fresh stream, and at most one stream is in flight: if a newer state
//! becomes current while one is still being written, the old stream is reset
//! and a new one opened. Queueing would deliver a screen the user has already
//! moved past.
//!
//! "In flight" means still being written, not started once: a writer that has
//! finished, failed or been reset stops counting, so a state that never
//! advances can be offered again after a lost attempt.
//!
//! Nothing here ends a session. A dropped frame costs one pacing interval.

use vstd::prelude::*;

use crate::text::{decimal, number};

verus! {

/// The code a superseded stream is reset with.
pub const SUPERSEDED: u32 = 1;

/// The largest frame that is put on a stream, in bytes.
pub const MAX_FRAME: usize = 8_388_608;

/// How long the last frame of a session waits for the peer's acknowledgement,
/// in milliseconds.
pub const FINAL_ACK_WAIT: u64 = 2000;

/// What became of a frame. None of these end a session.
#[derive(Clone, Debug, PartialEq, Eq)]
pub enum SendOutcome {
    /// It went in a datagram.
    Datagram(usize),
    /// It went on a fresh stream, superseding any in flight.
    Stream { bytes: usize, superseded: bool },
    /// The peer accepts no datagrams, so nothing can be sent at all.
    DatagramsDisabled,
    /// It did not go. The next pacing tick will carry the same information.
    Dropped(String),
}

/// What became of a frame.
pub enum OutcomeView {
    Datagram(usize),
    Stream { bytes: usize, superseded: bool },
    DatagramsDisabled,
    Dropped(Seq<char>),
}

impl View for SendOutcome {
    type V = OutcomeView;

    open spec fn view(&self) -> OutcomeView {
        match self {
            SendOutcome::Datagram(n) => OutcomeView::Datagram(*n),
            SendOutcome::Stream { bytes, superseded } => OutcomeView::Stream {
                bytes: *bytes,
                superseded: *superseded,
            },
            SendOutcome::DatagramsDisabled => OutcomeView::DatagramsDisabled,
            SendOutcome::Dropped(why) => OutcomeView::Dropped(why@),
        }
    }
}

/// How a frame is to be sent.
#[derive(Debug, PartialEq, Eq)]
pub enum SendPlan {
    /// Not at all, with this outcome. `warn` asks for the one warning that
    /// this peer accepts no datagrams.
    No { outcome: SendOutcome, warn: bool },
    /// In a datagram, of this many bytes.
    Datagram(usize),
    /// On a fresh stream; `superseded` asks for the one in flight to be reset.
    Stream { bytes: usize, superseded: bool },
}

/// How a frame is to be sent.
pub enum PlanOf {
    No(OutcomeView),
    Datagram(usize),
    Stream { bytes: usize, superseded: bool },
}

impl View for SendPlan {
    type V = PlanOf;

    open spec fn view(&self) -> PlanOf {
        match self {
            SendPlan::No { outcome, .. } => PlanOf::No(outcome@),
            SendPlan::Datagram(n) => PlanOf::Datagram(*n),
            SendPlan::Stream { bytes, superseded } => PlanOf::Stream {
                bytes: *bytes,
                superseded: *superseded,
            },
        }
    }
}

/// What is said of a frame that is too large.
pub open spec fn absurd_text(bytes: usize) -> Seq<char> {
    "frame of "@ + decimal(bytes as nat) + " bytes is absurd"@
}

/// The state a stream in flight is carrying, if there is one that is still
/// being written.
pub open spec fn live(in_flight: Option<u64>, finished: bool) -> Option<u64> {
    if finished {
        None
    } else {
        in_flight
    }
}

/// How a frame of `bytes` bytes carrying `my_state` is sent, when a datagram
/// may be `limit` bytes long and the stream `carrying` is being written.
pub open spec fn plan_of(
    bytes: usize,
    limit: Option<usize>,
    my_state: u64,
    carrying: Option<u64>,
) -> PlanOf {
    if bytes > MAX_FRAME {
        PlanOf::No(OutcomeView::Dropped(absurd_text(bytes)))
    } else if limit is None {
        PlanOf::No(OutcomeView::DatagramsDisabled)
    } else if bytes <= limit->0 {
        PlanOf::Datagram(bytes)
    } else {
        match carrying {
            Some(old) => if old < my_state {
                PlanOf::Stream { bytes, superseded: true }
            } else {
                PlanOf::No(OutcomeView::Dropped("a newer state is already in flight"@))
            },
            None => PlanOf::Stream { bytes, superseded: false },
        }
    }
}

/// What became of a datagram.
pub open spec fn datagram_of(bytes: usize, sent: Result<(), String>) -> OutcomeView {
    match sent {
        Ok(()) => OutcomeView::Datagram(bytes),
        Err(e) => OutcomeView::Dropped("datagram: "@ + e@),
    }
}

/// What is said of a datagram that did not go.
pub fn datagram_outcome(bytes: usize, sent: Result<(), String>) -> (o: SendOutcome)
    ensures
        o@ == (match sent {
            Ok(()) => OutcomeView::Datagram(bytes),
            Err(e) => OutcomeView::Dropped("datagram: "@ + e@),
        }),
        o@ == datagram_of(bytes, sent),
{
    match sent {
        Ok(()) => SendOutcome::Datagram(bytes),
        Err(e) => {
            let mut s = "datagram: ".to_owned();
            s.append(e.as_str());
            SendOutcome::Dropped(s)
        },
    }
}

/// How the last frame of a session fared on its stream.
#[derive(Debug)]
pub enum FinalEnd {
    NotOpened(String),
    NotWritten(String),
    NotFinished(String),
    /// The peer has acknowledged every byte.
    Acknowledged,
    /// The wait for that ended otherwise: the peer stopped the stream, or the
    /// connection was lost.
    NotAcknowledged(String),
    TimedOut,
}

/// What became of the last frame of a session, by how its stream ended.
pub open spec fn final_of(bytes: usize, superseded: bool, end: FinalEnd) -> OutcomeView {
    match end {
        FinalEnd::NotOpened(e) => OutcomeView::Dropped("opening the final stream: "@ + e@),
        FinalEnd::NotWritten(e) => OutcomeView::Dropped("writing the final frame: "@ + e@),
        FinalEnd::NotFinished(e) => OutcomeView::Dropped("finishing the final stream: "@ + e@),
        FinalEnd::Acknowledged => OutcomeView::Stream { bytes, superseded },
        FinalEnd::NotAcknowledged(e) => OutcomeView::Dropped(
            "the peer never acknowledged the final frame: "@ + e@,
        ),
        FinalEnd::TimedOut => OutcomeView::Dropped(
            "the peer never acknowledged the final frame"@,
        ),
    }
}

/// What became of the last frame of a session. It is not sent until the peer
/// has it: closing the connection discards whatever is still in flight.
pub fn final_outcome(bytes: usize, superseded: bool, end: FinalEnd) -> (o: SendOutcome)
    ensures
        o@ == (match end {
            FinalEnd::NotOpened(e) => OutcomeView::Dropped("opening the final stream: "@ + e@),
            FinalEnd::NotWritten(e) => OutcomeView::Dropped("writing the final frame: "@ + e@),
            FinalEnd::NotFinished(e) => OutcomeView::Dropped("finishing the final stream: "@ + e@),
            FinalEnd::Acknowledged => OutcomeView::Stream { bytes, superseded },
            FinalEnd::NotAcknowledged(e) => OutcomeView::Dropped(
                "the peer never acknowledged the final frame: "@ + e@,
            ),
            FinalEnd::TimedOut => OutcomeView::Dropped(
                "the peer never acknowledged the final frame"@,
            ),
        }),
        o@ == final_of(bytes, superseded, end),
{
    match end {
        FinalEnd::NotOpened(e) => {
            let mut s = "opening the final stream: ".to_owned();
            s.append(e.as_str());
            SendOutcome::Dropped(s)
        },
        FinalEnd::NotWritten(e) => {
            let mut s = "writing the final frame: ".to_owned();
            s.append(e.as_str());
            SendOutcome::Dropped(s)
        },
        FinalEnd::NotFinished(e) => {
            let mut s = "finishing the final stream: ".to_owned();
            s.append(e.as_str());
            SendOutcome::Dropped(s)
        },
        FinalEnd::Acknowledged => SendOutcome::Stream { bytes, superseded },
        FinalEnd::NotAcknowledged(e) => {
            let mut s = "the peer never acknowledged the final frame: ".to_owned();
            s.append(e.as_str());
            SendOutcome::Dropped(s)
        },
        FinalEnd::TimedOut => {
            SendOutcome::Dropped("the peer never acknowledged the final frame".to_owned())
        },
    }
}

/// What is said of a frame that is too large.
fn absurd(bytes: usize) -> (s: String)
    ensures
        s@ == absurd_text(bytes),
{
    let mut s = "frame of ".to_owned();
    s.append(number(bytes as u64).as_str());
    s.append(" bytes is absurd");
    s
}

/// What is said of a frame that could not be encoded.
fn unencoded(e: &str) -> (s: String)
    ensures
        s@ == "encoding a frame: "@ + e@,
{
    let mut s = "encoding a frame: ".to_owned();
    s.append(e);
    s
}

/// What the sending half keeps.
#[derive(Debug)]
pub struct FrameSink {
    /// The state that the stream last started is carrying, until it is known
    /// to be over.
    pub in_flight: Option<u64>,
    /// Whether the warning that this peer accepts no datagrams has been given.
    /// The condition is permanent for the life of a connection, so it is given
    /// once.
    pub warned_no_datagrams: bool,
}

/// Whether sending a frame takes a sink from `before` to `after`, by `plan`.
pub open spec fn send_step(
    before: FrameSink,
    my_state: u64,
    encoded: Result<usize, String>,
    limit: Option<usize>,
    finished: bool,
    after: FrameSink,
    plan: SendPlan,
) -> bool {
    &&& plan@ == (match encoded {
        Ok(bytes) => plan_of(bytes, limit, my_state, live(before.in_flight, finished)),
        Err(e) => PlanOf::No(OutcomeView::Dropped("encoding a frame: "@ + e@)),
    })
    &&& match plan {
        SendPlan::No { outcome, warn } => {
            &&& warn == (outcome is DatagramsDisabled && !before.warned_no_datagrams)
            &&& after.warned_no_datagrams == (before.warned_no_datagrams
                || outcome is DatagramsDisabled)
            &&& after.in_flight == before.in_flight
        },
        SendPlan::Datagram(_) => after == before,
        SendPlan::Stream { .. } => {
            &&& after.in_flight == Some(my_state)
            &&& after.warned_no_datagrams == before.warned_no_datagrams
        },
    }
}

/// Whether sending the last frame of a session takes a sink from `before` to
/// `after`, by `plan`.
pub open spec fn final_step(
    before: FrameSink,
    encoded: Result<usize, String>,
    finished: bool,
    after: FrameSink,
    plan: SendPlan,
) -> bool {
    &&& plan@ == (match encoded {
        Ok(bytes) => if bytes > MAX_FRAME {
            PlanOf::No(OutcomeView::Dropped(absurd_text(bytes)))
        } else {
            PlanOf::Stream { bytes, superseded: live(before.in_flight, finished) is Some }
        },
        Err(e) => PlanOf::No(OutcomeView::Dropped("encoding a frame: "@ + e@)),
    })
    &&& plan is No ==> after == before
    &&& plan is Stream ==> after.in_flight is None
    &&& after.warned_no_datagrams == before.warned_no_datagrams
}

impl FrameSink {
    pub fn new() -> (sink: FrameSink)
        ensures
            sink.in_flight is None,
            !sink.warned_no_datagrams,
    {
        FrameSink { in_flight: None, warned_no_datagrams: false }
    }

    /// How to send one frame, carrying `my_state`: `encoded` is its length or
    /// why it has none, `limit` is how long a datagram may be now, and
    /// `finished` is whether the writer of the stream in flight has stopped.
    ///
    /// Without a limit the peer accepts no datagrams at all. Streaming every
    /// frame instead would turn the recovery channel into the whole transport
    /// and present a configuration bug as a slow terminal, so that is refused.
    pub fn send(
        &mut self,
        my_state: u64,
        encoded: Result<usize, String>,
        limit: Option<usize>,
        finished: bool,
    ) -> (plan: SendPlan)
        ensures
            send_step(*old(self), my_state, encoded, limit, finished, *final(self), plan),
    {
        let bytes: usize = match encoded {
            Ok(n) => n,
            Err(e) => {
                return SendPlan::No {
                    outcome: SendOutcome::Dropped(unencoded(e.as_str())),
                    warn: false,
                };
            },
        };
        if bytes > MAX_FRAME {
            return SendPlan::No { outcome: SendOutcome::Dropped(absurd(bytes)), warn: false };
        }
        let limit: usize = match limit {
            Some(n) => n,
            None => {
                let warn = !self.warned_no_datagrams;
                self.warned_no_datagrams = true;
                return SendPlan::No { outcome: SendOutcome::DatagramsDisabled, warn };
            },
        };
        if bytes <= limit {
            return SendPlan::Datagram(bytes);
        }
        self.send_on_stream(my_state, bytes, finished)
    }

    /// How to send a frame that does not fit a datagram.
    ///
    /// A writer that has stopped is set aside before anything is decided: else
    /// a state that does not advance would get exactly one attempt in its
    /// life, and a long-finished stream would be reported as superseded.
    pub fn send_on_stream(&mut self, my_state: u64, bytes: usize, finished: bool) -> (plan:
        SendPlan)
        ensures
            plan@ == (match live(old(self).in_flight, finished) {
                Some(carrying) => if carrying < my_state {
                    PlanOf::Stream { bytes, superseded: true }
                } else {
                    PlanOf::No(OutcomeView::Dropped("a newer state is already in flight"@))
                },
                None => PlanOf::Stream { bytes, superseded: false },
            }),
            plan is No ==> !plan->warn && !(plan->outcome is DatagramsDisabled)
                && final(self).in_flight == old(self).in_flight,
            plan is Stream ==> final(self).in_flight == Some(my_state),
            final(self).warned_no_datagrams == old(self).warned_no_datagrams,
    {
        let carrying = if finished {
            None
        } else {
            self.in_flight
        };
        let superseded = match carrying {
            Some(old) => {
                if old >= my_state {
                    return SendPlan::No {
                        outcome: SendOutcome::Dropped(
                            "a newer state is already in flight".to_owned(),
                        ),
                        warn: false,
                    };
                }
                true
            },
            None => false,
        };
        self.in_flight = Some(my_state);
        SendPlan::Stream { bytes, superseded }
    }

    /// How to send the last frame of a session. Whatever its size, it goes on
    /// a stream, because there is no next interval to make up for a loss; and
    /// whatever is still being written carries an older state and is reset.
    pub fn send_final(&mut self, encoded: Result<usize, String>, finished: bool) -> (plan: SendPlan)
        ensures
            plan@ == (match encoded {
                Ok(bytes) => if bytes > MAX_FRAME {
                    PlanOf::No(OutcomeView::Dropped(absurd_text(bytes)))
                } else {
                    PlanOf::Stream {
                        bytes,
                        superseded: live(old(self).in_flight, finished) is Some,
                    }
                },
                Err(e) => PlanOf::No(OutcomeView::Dropped("encoding a frame: "@ + e@)),
            }),
            plan is No ==> !plan->warn && *final(self) == *old(self),
            plan is Stream ==> final(self).in_flight is None,
            final(self).warned_no_datagrams == old(self).warned_no_datagrams,
            final_step(*old(self), encoded, finished, *final(self), plan),
    {
        let bytes: usize = match encoded {
            Ok(n) => n,
            Err(e) => {
                return SendPlan::No {
                    outcome: SendOutcome::Dropped(unencoded(e.as_str())),
                    warn: false,
                };
            },
        };
        if bytes > MAX_FRAME {
            return SendPlan::No { outcome: SendOutcome::Dropped(absurd(bytes)), warn: false };
        }
        let superseded = self.in_flight.is_some() && !finished;
        self.in_flight = None;
        SendPlan::Stream { bytes, superseded }
    }
}

/// What happened at the receiving half.
#[derive(Debug)]
pub enum SourceEvent<F> {
    /// A datagram arrived, and this is the frame it holds, if it holds one.
    Datagram(Option<F>),
    /// No datagram will arrive any more.
    DatagramsGone,
    /// The frame of a datagram was handed on, or nobody takes frames any more.
    Handed(bool),
    /// The peer opened a stream.
    Stream,
    /// A stream was read to its end, and this is the frame it holds. There is
    /// none if it was reset, was too long or held no frame.
    StreamRead(Option<F>),
    /// No stream will be opened any more.
    StreamsGone,
}

/// What the receiving half does next.
#[derive(Debug)]
pub enum SourceAction<F> {
    /// Read the next datagram.
    ReadDatagram,
    /// Hand this frame on, and say whether it was taken.
    Hand(F),
    /// Hand this frame on, if anybody takes it.
    HandAndForget(F),
    /// Read this stream to its end, at most so many bytes, while the next one
    /// is awaited.
    ReadStream { limit: usize },
    /// Nothing more on that channel.
    Stop,
    /// Nothing: there is nothing to do about that.
    Nothing,
}

/// What the receiving half keeps: which of its two channels are still read.
#[derive(Clone, Copy, PartialEq, Eq, Debug, Structural)]
pub struct FrameSource {
    pub datagrams: bool,
    pub streams: bool,
}

/// Whether `event` takes a receiving half from `before` to `after` and
/// `action`.
pub open spec fn source_step<F>(
    before: FrameSource,
    event: SourceEvent<F>,
    after: FrameSource,
    action: SourceAction<F>,
) -> bool {
    &&& after.datagrams == (before.datagrams && !(event is DatagramsGone) && !(
    event matches SourceEvent::Handed(taken) && !taken))
    &&& after.streams == (before.streams && !(event is StreamsGone))
    &&& action == (match event {
        SourceEvent::Datagram(Some(f)) => SourceAction::Hand(f),
        SourceEvent::Datagram(None) => SourceAction::ReadDatagram,
        SourceEvent::Handed(true) => SourceAction::ReadDatagram,
        SourceEvent::Handed(false) => SourceAction::Stop,
        SourceEvent::DatagramsGone => SourceAction::Stop,
        SourceEvent::Stream => SourceAction::ReadStream { limit: MAX_FRAME },
        SourceEvent::StreamRead(Some(f)) => SourceAction::HandAndForget(f),
        SourceEvent::StreamRead(None) => SourceAction::Nothing,
        SourceEvent::StreamsGone => SourceAction::Stop,
    })
}

impl FrameSource {
    pub fn new() -> (source: FrameSource)
        ensures
            source == (FrameSource { datagrams: true, streams: true }),
    {
        FrameSource { datagrams: true, streams: true }
    }

    /// Take in what happened, and say what to do next.
    ///
    /// A malformed datagram is one bad datagram, not a bad session, and a
    /// stream that was reset vanishes without a trace: a newer state made it
    /// irrelevant.
    pub fn step<F>(&mut self, event: SourceEvent<F>) -> (action: SourceAction<F>)
        ensures
            final(self).datagrams == (old(self).datagrams && !(event is DatagramsGone) && !(
            event matches SourceEvent::Handed(taken) && !taken)),
            final(self).streams == (old(self).streams && !(event is StreamsGone)),
            action == (match event {
                SourceEvent::Datagram(Some(f)) => SourceAction::Hand(f),
                SourceEvent::Datagram(None) => SourceAction::ReadDatagram,
                SourceEvent::Handed(true) => SourceAction::ReadDatagram,
                SourceEvent::Handed(false) => SourceAction::Stop,
                SourceEvent::DatagramsGone => SourceAction::Stop,
                SourceEvent::Stream => SourceAction::ReadStream { limit: MAX_FRAME },
                SourceEvent::StreamRead(Some(f)) => SourceAction::HandAndForget(f),
                SourceEvent::StreamRead(None) => SourceAction::Nothing,
                SourceEvent::StreamsGone => SourceAction::Stop,
            }),
            source_step(*old(self), event, *final(self), action),
    {
        match event {
            SourceEvent::Datagram(Some(f)) => SourceAction::Hand(f),
            SourceEvent::Datagram(None) => SourceAction::ReadDatagram,
            SourceEvent::Handed(true) => SourceAction::ReadDatagram,
            SourceEvent::Handed(false) | SourceEvent::DatagramsGone => {
                self.datagrams = false;
                SourceAction::Stop
            },
            SourceEvent::Stream => SourceAction::ReadStream { limit: MAX_FRAME },
            SourceEvent::StreamRead(Some(f)) => SourceAction::HandAndForget(f),
            SourceEvent::StreamRead(None) => SourceAction::Nothing,
            SourceEvent::StreamsGone => {
                self.streams = false;
                SourceAction::Stop
            },
        }
    }
}

/// How long to wait before offering the next frame, in nanoseconds.
pub open spec fn paced(rtt: u128) -> u128 {
    if rtt / 2 < 8_000_000 {
        8_000_000
    } else if rtt / 2 > 100_000_000 {
        100_000_000
    } else {
        rtt / 2
    }
}

/// How long to wait before offering the next frame, in nanoseconds, when a
/// round trip takes `rtt` of them: half of it, but at least 8 and at most 100
/// milliseconds.
pub fn pacing_interval(rtt: u128) -> (wait: u128)
    ensures
        wait == (if rtt / 2 < 8_000_000 {
            8_000_000
        } else if rtt / 2 > 100_000_000 {
            100_000_000
        } else {
            rtt / 2
        }),
        wait == paced(rtt),
{
    let half: u128 = rtt / 2;
    if half < 8_000_000 {
        8_000_000
    } else if half > 100_000_000 {
        100_000_000
    } else {
        half
    }
}

/// A peer that accepts no datagrams is refused every frame that could be sent
/// at all, whatever its size.
pub proof fn without_datagrams_nothing_is_streamed(
    bytes: usize,
    my_state: u64,
    carrying: Option<u64>,
)
    requires
        bytes <= MAX_FRAME,
    ensures
        plan_of(bytes, None, my_state, carrying) == PlanOf::No(OutcomeView::DatagramsDisabled),
{
}

/// A stream that is over never stands in the way of another and is never
/// reported as superseded.
pub proof fn a_finished_stream_stops_counting(
    bytes: usize,
    limit: usize,
    my_state: u64,
    in_flight: Option<u64>,
)
    requires
        limit < bytes <= MAX_FRAME,
    ensures
        plan_of(bytes, Some(limit), my_state, live(in_flight, true)) == (PlanOf::Stream {
            bytes,
            superseded: false,
        }),
{
}

/// A stream is started only for a state newer than the one being written, and
/// it is reported as superseding exactly when one was being written.
pub proof fn streams_never_queue(
    bytes: usize,
    limit: Option<usize>,
    my_state: u64,
    carrying: Option<u64>,
)
    ensures
        plan_of(bytes, limit, my_state, carrying) matches PlanOf::Stream { superseded, .. } ==> {
            &&& superseded == (carrying is Some)
            &&& carrying matches Some(old) ==> old < my_state
        },
{
}

/// A sink, which send started its latest stream, and which streams are being
/// written.
pub struct Wire {
    pub sink: FrameSink,
    pub latest: Option<int>,
    pub writing: Set<int>,
}

/// One send: what was asked for, whether the writer of the latest stream had
/// stopped by then, what was decided, and what that left.
pub struct Sending {
    pub my_state: u64,
    pub encoded: Result<usize, String>,
    pub limit: Option<usize>,
    pub finished: bool,
    pub plan: SendPlan,
    pub after: Wire,
}

/// The wire before send number `i`.
pub open spec fn wire_at(start: Wire, sends: Seq<Sending>, i: int) -> Wire {
    if i <= 0 {
        start
    } else {
        sends[i - 1].after
    }
}

/// What is being written of `wire` once it is known whether the writer of its
/// latest stream has stopped.
pub open spec fn still_writing(wire: Wire, finished: bool) -> Set<int> {
    match wire.latest {
        Some(k) => if finished {
            wire.writing.remove(k)
        } else {
            wire.writing
        },
        None => wire.writing,
    }
}

/// Whether send number `i` leaves the wire as its plan says: a stream is
/// started for it where the plan has one, and the latest one is reset where
/// the plan supersedes it. Streams that are over may have been taken away.
pub open spec fn wired(start: Wire, sends: Seq<Sending>, i: int) -> bool {
    let before = wire_at(start, sends, i);
    let send = sends[i];
    let running = still_writing(before, send.finished);
    &&& send_step(
        before.sink,
        send.my_state,
        send.encoded,
        send.limit,
        send.finished,
        send.after.sink,
        send.plan,
    )
    &&& match send.plan {
        SendPlan::Stream { superseded, .. } => {
            &&& send.after.latest == Some(i)
            &&& send.after.writing.subset_of(
                (if superseded && before.latest is Some {
                    running.remove(before.latest->0)
                } else {
                    running
                }).insert(i),
            )
        },
        _ => send.after.latest == before.latest && send.after.writing.subset_of(running),
    }
}

/// A sink that has started nothing.
pub open spec fn quiet(wire: Wire) -> bool {
    wire.sink.in_flight is None && wire.latest is None && wire.writing == Set::<int>::empty()
}

/// However many frames are sent, whatever their states and sizes, and whenever
/// their writers stop, at most one stream is being written, and it is the
/// latest one started.
pub proof fn at_most_one_stream_is_written(start: Wire, sends: Seq<Sending>, i: int)
    requires
        quiet(start),
        forall|k: int| 0 <= k < sends.len() ==> #[trigger] wired(start, sends, k),
        0 <= i <= sends.len(),
    ensures
        wire_at(start, sends, i).sink.in_flight is Some == wire_at(start, sends, i).latest is Some,
        forall|x: int|
            wire_at(start, sends, i).writing.contains(x) ==> wire_at(start, sends, i).latest
                == Some(x),
    decreases i,
{
    if i > 0 {
        at_most_one_stream_is_written(start, sends, i - 1);
        assert(wired(start, sends, i - 1));
        let send = sends[i - 1];
        if let Ok(bytes) = send.encoded {
            streams_never_queue(
                bytes,
                send.limit,
                send.my_state,
                live(wire_at(start, sends, i - 1).sink.in_flight, send.finished),
            );
        }
    }
}

/// The newest state always gets its stream. A frame that fits no datagram goes
/// on a stream whatever state the one being written carries, as long as that is
/// an older one, by however much; it is held back only for a state that is as
/// new or newer, and never for a stream that is over.
pub proof fn a_newer_state_is_never_held_back(
    before: FrameSink,
    my_state: u64,
    bytes: usize,
    limit: usize,
    finished: bool,
    after: FrameSink,
    plan: SendPlan,
)
    requires
        send_step(
            before,
            my_state,
            Ok::<usize, String>(bytes),
            Some(limit),
            finished,
            after,
            plan,
        ),
        limit < bytes <= 8_388_608,
    ensures
        before.in_flight matches Some(old) ==> {
            &&& !finished && old < my_state ==> plan == (SendPlan::Stream {
                bytes,
                superseded: true,
            })
            &&& !finished && old >= my_state ==> {
                &&& plan matches SendPlan::No { outcome, warn }
                &&& outcome matches SendOutcome::Dropped(why)
                &&& why@ == "a newer state is already in flight"@
                &&& !warn
            }
            &&& !finished && old >= my_state ==> after.in_flight == Some(old)
            &&& finished ==> plan == (SendPlan::Stream { bytes, superseded: false })
        },
        before.in_flight is None ==> plan == (SendPlan::Stream { bytes, superseded: false }),
        plan is Stream ==> after.in_flight == Some(my_state),
        after.warned_no_datagrams == before.warned_no_datagrams,
{
}

/// A frame that fits a datagram goes in one, whatever its state and whatever is
/// being written, and disturbs nothing.
pub proof fn a_small_frame_goes_in_a_datagram(
    before: FrameSink,
    my_state: u64,
    bytes: usize,
    limit: usize,
    finished: bool,
    after: FrameSink,
    plan: SendPlan,
)
    requires
        send_step(
            before,
            my_state,
            Ok::<usize, String>(bytes),
            Some(limit),
            finished,
            after,
            plan,
        ),
        bytes <= limit,
        bytes <= 8_388_608,
    ensures
        plan == SendPlan::Datagram(bytes),
        after == before,
{
}

/// What cannot be sent is dropped with its reason and starts nothing: a frame
/// over eight mebibytes whatever the peer accepts, one that could not be
/// encoded, and any frame to a peer that accepts no datagrams, which is warned
/// of once and no more.
pub proof fn what_cannot_be_sent_starts_nothing(
    before: FrameSink,
    my_state: u64,
    encoded: Result<usize, String>,
    limit: Option<usize>,
    finished: bool,
    after: FrameSink,
    plan: SendPlan,
)
    requires
        send_step(before, my_state, encoded, limit, finished, after, plan),
        encoded is Err || encoded->Ok_0 > 8_388_608 || limit is None,
    ensures
        plan is No,
        after.in_flight == before.in_flight,
        encoded matches Err(e) ==> plan@ == PlanOf::No(
            OutcomeView::Dropped("encoding a frame: "@ + e@),
        ),
        encoded matches Ok(bytes) ==> {
            &&& bytes > 8_388_608 ==> plan@ == PlanOf::No(
                OutcomeView::Dropped("frame of "@ + decimal(bytes as nat) + " bytes is absurd"@),
            )
            &&& bytes <= 8_388_608 ==> plan@ == PlanOf::No(OutcomeView::DatagramsDisabled)
        },
        plan->warn <==> (encoded is Ok && encoded->Ok_0 <= 8_388_608
            && !before.warned_no_datagrams),
        after.warned_no_datagrams <==> before.warned_no_datagrams || (encoded is Ok
            && encoded->Ok_0 <= 8_388_608),
{
}

/// Two sends to one sink at one moment: if the older of two states gets a
/// stream, so does the newer, and in the same way.
pub proof fn newer_is_never_worse(
    before: FrameSink,
    older: u64,
    newer: u64,
    bytes: usize,
    limit: Option<usize>,
    finished: bool,
    after: FrameSink,
    plan: SendPlan,
    after2: FrameSink,
    plan2: SendPlan,
)
    requires
        older <= newer,
        send_step(before, older, Ok::<usize, String>(bytes), limit, finished, after, plan),
        send_step(before, newer, Ok::<usize, String>(bytes), limit, finished, after2, plan2),
        plan is Stream,
    ensures
        plan2 == plan,
{
}

/// A session whose states only grow never has one held back: over any number of
/// sends that fit no datagram, every one is put on a stream of its own, however
/// far its state is ahead of the one before and whenever the writers stop.
pub proof fn growing_states_are_never_held_back(start: Wire, sends: Seq<Sending>, i: int)
    requires
        quiet(start),
        forall|k: int| 0 <= k < sends.len() ==> #[trigger] wired(start, sends, k),
        forall|k: int, l: int|
            0 <= k < l < sends.len() ==> (#[trigger] sends[k]).my_state < (
            #[trigger] sends[l]).my_state,
        forall|k: int|
            0 <= k < sends.len() ==> {
                &&& (#[trigger] sends[k]).encoded is Ok
                &&& sends[k].limit is Some
                &&& sends[k].limit->0 < sends[k].encoded->Ok_0 <= 8_388_608
            },
        0 <= i < sends.len(),
    ensures
        sends[i].plan == (SendPlan::Stream {
            bytes: sends[i].encoded->Ok_0,
            superseded: i > 0 && !sends[i].finished,
        }),
        sends[i].after.sink.in_flight == Some(sends[i].my_state),
    decreases i,
{
    if i > 0 {
        growing_states_are_never_held_back(start, sends, i - 1);
        assert(sends[i - 1].my_state < sends[i].my_state);
    }
    assert(wired(start, sends, i));
    let send = sends[i];
    let before = wire_at(start, sends, i);
    a_newer_state_is_never_held_back(
        before.sink,
        send.my_state,
        send.encoded->Ok_0,
        send.limit->0,
        send.finished,
        send.after.sink,
        send.plan,
    );
}

/// The last frame of a session goes on a stream whatever its size, up to eight
/// mebibytes, and whatever is being written; it says it superseded something
/// exactly if something was still being written.
pub proof fn the_last_frame_always_goes_on_a_stream(
    before: FrameSink,
    encoded: Result<usize, String>,
    finished: bool,
    after: FrameSink,
    plan: SendPlan,
)
    requires
        final_step(before, encoded, finished, after, plan),
    ensures
        encoded matches Ok(bytes) ==> {
            &&& bytes <= 8_388_608 ==> plan == (SendPlan::Stream {
                bytes,
                superseded: before.in_flight is Some && !finished,
            }) && after.in_flight is None
            &&& bytes > 8_388_608 ==> plan@ == PlanOf::No(
                OutcomeView::Dropped("frame of "@ + decimal(bytes as nat) + " bytes is absurd"@),
            ) && after == before
        },
        encoded matches Err(e) ==> plan@ == PlanOf::No(
            OutcomeView::Dropped("encoding a frame: "@ + e@),
        ) && after == before,
        after.warned_no_datagrams == before.warned_no_datagrams,
{
}

/// The last frame counts as sent only once the peer has acknowledged it: every
/// other end of its stream is a drop that says what went wrong.
pub proof fn only_an_acknowledged_frame_was_sent(bytes: usize, superseded: bool, end: FinalEnd)
    ensures
        final_of(bytes, superseded, end) is Stream <==> end is Acknowledged,
        final_of(bytes, superseded, end) is Dropped <==> !(end is Acknowledged),
        end is Acknowledged ==> final_of(bytes, superseded, end) == (OutcomeView::Stream {
            bytes,
            superseded,
        }),
        end matches FinalEnd::NotOpened(e) ==> final_of(bytes, superseded, end)
            == OutcomeView::Dropped("opening the final stream: "@ + e@),
        end matches FinalEnd::NotWritten(e) ==> final_of(bytes, superseded, end)
            == OutcomeView::Dropped("writing the final frame: "@ + e@),
        end matches FinalEnd::NotFinished(e) ==> final_of(bytes, superseded, end)
            == OutcomeView::Dropped("finishing the final stream: "@ + e@),
        end matches FinalEnd::NotAcknowledged(e) ==> final_of(bytes, superseded, end)
            == OutcomeView::Dropped("the peer never acknowledged the final frame: "@ + e@),
        end is TimedOut ==> final_of(bytes, superseded, end) == OutcomeView::Dropped(
            "the peer never acknowledged the final frame"@,
        ),
{
}

/// A datagram that went is reported with its length, and one that did not with
/// why.
pub proof fn a_datagram_is_reported_as_it_went(bytes: usize, sent: Result<(), String>)
    ensures
        sent is Ok ==> datagram_of(bytes, sent) == OutcomeView::Datagram(bytes),
        sent matches Err(e) ==> datagram_of(bytes, sent) == OutcomeView::Dropped(
            "datagram: "@ + e@,
        ),
{
}

/// Every frame that arrives is handed on as it came, by whichever channel; a bad
/// datagram costs nothing but itself, a stream without a frame nothing at all,
/// and the two channels stop apart from each other: datagrams once there are no
/// more or nobody takes them, streams once there are no more.
pub proof fn frames_are_handed_on_as_they_came<F>(
    before: FrameSource,
    event: SourceEvent<F>,
    after: FrameSource,
    action: SourceAction<F>,
)
    requires
        source_step(before, event, after, action),
    ensures
        event matches SourceEvent::Datagram(Some(f)) ==> action == SourceAction::Hand(f),
        event matches SourceEvent::StreamRead(Some(f)) ==> action
            == SourceAction::HandAndForget(f),
        event matches SourceEvent::Datagram(None) ==> action is ReadDatagram,
        event matches SourceEvent::StreamRead(None) ==> action is Nothing,
        event matches SourceEvent::Handed(true) ==> action is ReadDatagram,
        event matches SourceEvent::Handed(false) ==> action is Stop && !after.datagrams,
        event is DatagramsGone ==> action is Stop && !after.datagrams,
        event is StreamsGone ==> action is Stop && !after.streams,
        event is Stream ==> action == (SourceAction::<F>::ReadStream { limit: 8_388_608 }),
        !(event is StreamsGone) ==> after.streams == before.streams,
        !(event is DatagramsGone) && event != SourceEvent::<F>::Handed(false) ==> after.datagrams
            == before.datagrams,
{
}

/// The wait between frames follows the round trip: half of it, never under 8
/// nor over 100 milliseconds, and no shorter for a longer round trip.
pub proof fn pacing_follows_the_round_trip(rtt: u128, longer: u128)
    requires
        rtt <= longer,
    ensures
        8_000_000 <= paced(rtt) <= 100_000_000,
        16_000_000 <= rtt <= 200_000_000 ==> 2 * paced(rtt) <= rtt < 2 * paced(rtt) + 2,
        rtt < 16_000_000 ==> paced(rtt) == 8_000_000,
        rtt > 200_000_000 ==> paced(rtt) == 100_000_000,
        paced(rtt) <= paced(longer),
{
}

} // verus!
