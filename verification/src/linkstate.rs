//! Whether the host is still answering, and what the user is told about it.
//!
//! Every method takes the current time as a parameter rather than reading the
//! clock.

use std::time::Instant;

use vstd::prelude::*;

verus! {

/// How long a reply may be owed before the user is told, in nanoseconds. Below
/// this a blip resolves without ever painting.
pub const SILENT_AFTER: u128 = 2_000_000_000;

/// A moment, by the system's monotonic clock.
#[verifier::external_type_specification]
#[verifier::external_body]
pub struct ExInstant(Instant);

/// How many nanoseconds lie between two moments: none, if the later one is not
/// later.
pub uninterp spec fn nanos_between(later: Instant, earlier: Instant) -> nat;

/// `Instant::duration_since`, in nanoseconds. How the two moments are
/// represented is left to std.
#[verifier::external_body]
fn nanos_since(later: Instant, earlier: Instant) -> (n: u128)
    ensures
        n == nanos_between(later, earlier),
{
    later.duration_since(earlier).as_nanos()
}

#[derive(Clone, Copy, PartialEq, Eq, Debug)]
pub enum Phase {
    Live,
    Silent { since: Instant },
    Confirming,
}

/// What the client believes about the link, and why.
pub struct LinkState {
    phase: Phase,
    /// The last time anything at all arrived from the host.
    last_heard: Instant,
}

/// What one lap makes of a phase, when the host was last heard `elapsed`
/// nanoseconds ago, at `last_heard`.
pub open spec fn judged(phase: Phase, last_heard: Instant, elapsed: nat, reply_owed: bool) -> Phase {
    if phase is Silent {
        phase
    } else if reply_owed && elapsed >= SILENT_AFTER {
        Phase::Silent { since: last_heard }
    } else {
        phase
    }
}

impl LinkState {
    pub closed spec fn spec_phase(&self) -> Phase {
        self.phase
    }

    /// The last time anything at all arrived from the host.
    pub closed spec fn spec_last_heard(&self) -> Instant {
        self.last_heard
    }

    /// A silence is dated from the last thing heard.
    pub open spec fn wf(&self) -> bool {
        self.spec_phase() matches Phase::Silent { since } ==> since == self.spec_last_heard()
    }

    /// Whether the host was heard at `now`, and nothing has been judged since.
    pub open spec fn heard_at(&self, now: Instant) -> bool {
        self.spec_phase() == Phase::Live && self.spec_last_heard() == now
    }

    pub fn new(now: Instant) -> (link: LinkState)
        ensures
            link.wf(),
            link.spec_phase() == Phase::Live,
            link.spec_last_heard() == now,
            link.heard_at(now),
    {
        LinkState { phase: Phase::Live, last_heard: now }
    }

    pub fn phase(&self) -> (p: Phase)
        ensures
            p == self.spec_phase(),
    {
        self.phase
    }

    /// A frame arrived. Whatever we believed, the host is answering.
    pub fn heard(&mut self, now: Instant)
        ensures
            final(self).wf(),
            final(self).spec_phase() == Phase::Live,
            final(self).spec_last_heard() == now,
            final(self).heard_at(now),
    {
        self.last_heard = now;
        self.phase = Phase::Live;
    }

    /// One lap's worth of judgement.
    ///
    /// `reply_owed` is the caller's answer to "have we said something the host
    /// has not acknowledged". With nothing owed, silence is indistinguishable
    /// from calm.
    pub fn evaluate(&mut self, now: Instant, reply_owed: bool) -> (p: Phase)
        requires
            old(self).wf(),
        ensures
            final(self).wf(),
            p == judged(
                old(self).spec_phase(),
                old(self).spec_last_heard(),
                nanos_between(now, old(self).spec_last_heard()),
                reply_owed,
            ),
            final(self).spec_phase() == p,
            final(self).spec_last_heard() == old(self).spec_last_heard(),
    {
        let elapsed: u128 = nanos_since(now, self.last_heard);
        self.evaluate_after(elapsed, reply_owed)
    }

    /// One lap's worth of judgement, `elapsed` nanoseconds after the host was
    /// last heard.
    pub fn evaluate_after(&mut self, elapsed: u128, reply_owed: bool) -> (p: Phase)
        requires
            old(self).wf(),
        ensures
            final(self).wf(),
            p == judged(
                old(self).spec_phase(),
                old(self).spec_last_heard(),
                elapsed as nat,
                reply_owed,
            ),
            final(self).spec_phase() == p,
            final(self).spec_last_heard() == old(self).spec_last_heard(),
    {
        match self.phase {
            // Already told the user. The clock keeps running from
            // `last_heard`; recomputing it here would restart the counter
            // every lap.
            Phase::Silent { .. } => {
                return self.phase;
            },
            _ => {},
        }
        if reply_owed && elapsed >= SILENT_AFTER {
            // `last_heard` and not `now`: the counter must report how long the
            // host has been quiet, not how long since we worked it out.
            self.phase = Phase::Silent { since: self.last_heard };
        }
        self.phase
    }
}

/// Once silent, a link stays silent, dated as it was, however many laps pass.
pub proof fn silence_does_not_restart_its_clock(
    phase: Phase,
    last_heard: Instant,
    first: nat,
    later: nat,
    owed: bool,
    owed_later: bool,
)
    requires
        judged(phase, last_heard, first, owed) is Silent,
    ensures
        judged(judged(phase, last_heard, first, owed), last_heard, later, owed_later) == judged(
            phase,
            last_heard,
            first,
            owed,
        ),
{
}

/// With nothing owed, no length of silence changes what is believed.
pub proof fn nothing_owed_is_nothing_known(phase: Phase, last_heard: Instant, elapsed: nat)
    ensures
        judged(phase, last_heard, elapsed, false) == phase,
{
}

/// A link that is not silent yet becomes silent exactly when a reply has been
/// owed for two seconds or more, dated from the last thing heard and not from
/// when that was noticed; otherwise what is believed stays.
pub proof fn silence_is_two_seconds_owed(
    phase: Phase,
    last_heard: Instant,
    elapsed: nat,
    owed: bool,
)
    ensures
        !(phase is Silent) ==> {
            &&& judged(phase, last_heard, elapsed, owed) is Silent <==> owed && elapsed
                >= 2_000_000_000
            &&& owed && elapsed >= 2_000_000_000 ==> judged(phase, last_heard, elapsed, owed) == (
            Phase::Silent { since: last_heard })
            &&& !(owed && elapsed >= 2_000_000_000) ==> judged(phase, last_heard, elapsed, owed)
                == phase
        },
        phase is Silent ==> judged(phase, last_heard, elapsed, owed) == phase,
{
}

/// A longer silence is never judged more kindly than a shorter one.
pub proof fn longer_is_never_less_silent(
    phase: Phase,
    last_heard: Instant,
    elapsed: nat,
    longer: nat,
    owed: bool,
)
    requires
        elapsed <= longer,
        judged(phase, last_heard, elapsed, owed) is Silent,
    ensures
        judged(phase, last_heard, longer, owed) == judged(phase, last_heard, elapsed, owed),
{
}

/// Hearing from the host starts the clock again: a link that was heard at `now` is
/// not silent before two more seconds have passed, and if it goes silent then, it
/// is since `now`.
pub proof fn hearing_starts_the_clock_again(
    link: LinkState,
    now: Instant,
    elapsed: nat,
    owed: bool,
)
    requires
        link.heard_at(now),
    ensures
        link.spec_phase() is Live,
        elapsed < 2_000_000_000 ==> judged(
            link.spec_phase(),
            link.spec_last_heard(),
            elapsed,
            owed,
        ) is Live,
        elapsed >= 2_000_000_000 && owed ==> judged(
            link.spec_phase(),
            link.spec_last_heard(),
            elapsed,
            owed,
        ) == (Phase::Silent { since: now }),
{
}

} // verus!
