//! Rebuilding the link the client is on, without being asked.
//!
//! An attempt is a fresh ssh channel and the exchange every other connect
//! runs. What is decided here is what a failure means: an answer from the far
//! end ends the loop, and anything else is worth trying again.

use vstd::prelude::*;

use crate::chooser::Choice;
use crate::signal::{sessions_offered, Signal, Trouble};
use crate::text::{contains, holding_is_being_around, lowercase, lowered, occurs};

verus! {

/// What a rebuild's ssh is started with: it must never stop to ask a question,
/// because the screen belongs to the renderer.
pub fn batch_mode() -> (args: (&'static str, &'static str))
    ensures
        args.0@ == "-o"@,
        args.1@ == "BatchMode=yes"@,
{
    ("-o", "BatchMode=yes")
}

/// What one attempt produced, and what the loop should do about it.
#[derive(Debug)]
pub enum AttemptOutcome<E> {
    Landed(E),
    /// Worth trying again, with the reason kept for the notice.
    Retry(String),
    /// Not worth trying again, in the far end's own words where there are any.
    Definite(String),
}

/// What went wrong with an attempt.
#[derive(Debug)]
pub struct Failure {
    /// The far end's own words, if it was the far end that gave up.
    pub refused: Option<String>,
    /// What ssh wrote, if it was ssh that failed.
    pub ssh_stderr: Option<String>,
    /// The whole of it on one line.
    pub shown: String,
}

/// What is said of a far end that is too old.
pub open spec fn too_old_text(target: Seq<char>, stderr: Seq<char>) -> Seq<char> {
    "the oxutrm on "@ + target
        + " does not understand `oxutrm host --connect`, so it is too old to reconnect to; both ends have to be upgraded together. It said: "@
        + stderr
}

/// Whether what ssh wrote, in lower case, says that the far end does not know
/// an option.
pub open spec fn says_unknown_option(lowered: Seq<char>) -> bool {
    occurs(lowered, "unknown option"@)
}

/// Whether an outcome is what a failure comes to, when what ssh wrote is
/// `lowered` in lower case.
pub open spec fn classified_on<E>(
    f: Failure,
    lowered: Seq<char>,
    target: Seq<char>,
    outcome: AttemptOutcome<E>,
) -> bool {
    match f.refused {
        Some(reason) => outcome matches AttemptOutcome::Definite(why) && why@ == reason@,
        None => if f.ssh_stderr is Some && says_unknown_option(lowered) {
            outcome matches AttemptOutcome::Definite(why) && why@ == too_old_text(
                target,
                f.ssh_stderr->0@,
            )
        } else {
            outcome matches AttemptOutcome::Retry(why) && why@ == f.shown@
        },
    }
}

/// Whether an outcome is what a failure comes to.
pub open spec fn classified<E>(f: Failure, target: Seq<char>, outcome: AttemptOutcome<E>) -> bool {
    classified_on(
        f,
        match f.ssh_stderr {
            Some(stderr) => lowercase(stderr@),
            None => Seq::empty(),
        },
        target,
        outcome,
    )
}

/// Which side of the split a failure falls on, when what ssh wrote is
/// `lowered` in lower case. An answer from the far end is final, and so is a
/// far end that does not know the option it was asked for; everything else is
/// a network that may come back.
pub fn classify_lowered<E>(target: &str, failure: Failure, lowered: &str) -> (outcome:
    AttemptOutcome<E>)
    ensures
        classified_on(failure, lowered@, target@, outcome),
{
    let Failure { refused, ssh_stderr, shown } = failure;
    if let Some(reason) = refused {
        return AttemptOutcome::Definite(reason);
    }
    if let Some(stderr) = ssh_stderr {
        if contains(lowered, "unknown option") {
            let mut why = "the oxutrm on ".to_owned();
            why.append(target);
            why.append(
                " does not understand `oxutrm host --connect`, so it is too old to reconnect to; both ends have to be upgraded together. It said: ",
            );
            why.append(stderr.as_str());
            return AttemptOutcome::Definite(why);
        }
    }
    AttemptOutcome::Retry(shown)
}

/// Which side of the split a failure falls on.
pub fn classify<E>(target: &str, failure: Failure) -> (outcome: AttemptOutcome<E>)
    ensures
        classified(failure, target@, outcome),
{
    let low = match &failure.ssh_stderr {
        Some(stderr) => lowered(stderr.as_str()),
        None => String::new(),
    };
    classify_lowered(target, failure, low.as_str())
}

/// How far an attempt has come.
#[derive(Clone, Copy, PartialEq, Eq, Debug, Structural)]
pub enum AttemptStage {
    /// ssh is being started.
    Ssh,
    /// The host's list of sessions is being read.
    Offer,
    /// The host is being told which session we want.
    Choosing,
    /// The attach is under way.
    Exchange,
    Over,
}

/// What happened.
pub enum AttemptEvent<E> {
    Opened(Result<(), Failure>),
    /// A message arrived, with it as text, or none could be read.
    Offered(Result<(Signal, String), Failure>),
    Sent(Result<(), Failure>),
    Exchanged(Result<E, Failure>),
}

/// What to do next.
pub enum AttemptAction<E> {
    Open,
    ReadOffer,
    Send(Signal),
    Exchange,
    End(AttemptOutcome<E>),
    /// Nothing: that event belongs to another stage.
    OutOfTurn,
}

/// One attempt at getting back into a session.
#[derive(Debug)]
pub struct Attempt {
    pub target: String,
    pub session_id: String,
    pub stage: AttemptStage,
}

/// Whether an action ends an attempt the way a failure is classified.
pub open spec fn ends_with<E>(action: AttemptAction<E>, f: Failure, target: Seq<char>) -> bool {
    action matches AttemptAction::End(outcome) && classified(f, target, outcome)
}

/// Whether `event` takes an attempt from `before` to `after` and `action`.
pub open spec fn attempt_step<E>(
    before: Attempt,
    event: AttemptEvent<E>,
    after: Attempt,
    action: AttemptAction<E>,
) -> bool {
    &&& after.target == before.target
    &&& after.session_id == before.session_id
    &&& match (before.stage, event) {
        (AttemptStage::Ssh, AttemptEvent::Opened(Ok(()))) => after.stage
            == AttemptStage::Offer && action is ReadOffer,
        (AttemptStage::Ssh, AttemptEvent::Opened(Err(f))) => after.stage
            == AttemptStage::Over && ends_with(action, f, before.target@),
        (AttemptStage::Offer, AttemptEvent::Offered(Err(f))) => after.stage
            == AttemptStage::Over && ends_with(action, f, before.target@),
        (AttemptStage::Offer, AttemptEvent::Offered(Ok((signal, shown)))) => match signal {
            Signal::Sessions { .. } => after.stage == AttemptStage::Choosing && (
            action matches AttemptAction::Send(
                Signal::Choose { choice: Choice::Attach { id } },
            ) && id@ == before.session_id@),
            Signal::Failed { reason } => after.stage == AttemptStage::Over && (
            action matches AttemptAction::End(AttemptOutcome::Definite(why)) && why@
                == reason@),
            _ => after.stage == AttemptStage::Over && (
            action matches AttemptAction::End(AttemptOutcome::Retry(why)) && why@
                == "the host opened with "@ + shown@
                + " instead of its list of sessions"@),
        },
        (AttemptStage::Choosing, AttemptEvent::Sent(Ok(()))) => after.stage
            == AttemptStage::Exchange && action is Exchange,
        (AttemptStage::Choosing, AttemptEvent::Sent(Err(f))) => after.stage
            == AttemptStage::Over && ends_with(action, f, before.target@),
        (AttemptStage::Exchange, AttemptEvent::Exchanged(Ok(e))) => after.stage
            == AttemptStage::Over && action == AttemptAction::End(
            AttemptOutcome::Landed(e),
        ),
        (AttemptStage::Exchange, AttemptEvent::Exchanged(Err(f))) => after.stage
            == AttemptStage::Over && ends_with(action, f, before.target@),
        _ => after.stage == before.stage && action is OutOfTurn,
    }
}

impl Attempt {
    /// Begin an attempt at getting back into `session_id` on `target`.
    pub fn start<E>(target: String, session_id: String) -> (r: (Attempt, AttemptAction<E>))
        ensures
            r.0 == (Attempt { target, session_id, stage: AttemptStage::Ssh }),
            r.1 is Open,
    {
        (Attempt { target, session_id, stage: AttemptStage::Ssh }, AttemptAction::Open)
    }

    /// Take in what happened, and say what to do next.
    ///
    /// What was offered is not consulted: the host decides whether the session
    /// we name is still there, and a client that decided it again would be a
    /// second place that can be wrong about it.
    pub fn step<E>(&mut self, event: AttemptEvent<E>) -> (action: AttemptAction<E>)
        ensures
            final(self).target == old(self).target,
            final(self).session_id == old(self).session_id,
            match (old(self).stage, event) {
                (AttemptStage::Ssh, AttemptEvent::Opened(Ok(()))) => final(self).stage
                    == AttemptStage::Offer && action is ReadOffer,
                (AttemptStage::Ssh, AttemptEvent::Opened(Err(f))) => final(self).stage
                    == AttemptStage::Over && ends_with(action, f, old(self).target@),
                (AttemptStage::Offer, AttemptEvent::Offered(Err(f))) => final(self).stage
                    == AttemptStage::Over && ends_with(action, f, old(self).target@),
                (AttemptStage::Offer, AttemptEvent::Offered(Ok((signal, shown)))) => match signal {
                    Signal::Sessions { .. } => final(self).stage == AttemptStage::Choosing && (
                    action matches AttemptAction::Send(
                        Signal::Choose { choice: Choice::Attach { id } },
                    ) && id@ == old(self).session_id@),
                    Signal::Failed { reason } => final(self).stage == AttemptStage::Over && (
                    action matches AttemptAction::End(AttemptOutcome::Definite(why)) && why@
                        == reason@),
                    _ => final(self).stage == AttemptStage::Over && (
                    action matches AttemptAction::End(AttemptOutcome::Retry(why)) && why@
                        == "the host opened with "@ + shown@
                        + " instead of its list of sessions"@),
                },
                (AttemptStage::Choosing, AttemptEvent::Sent(Ok(()))) => final(self).stage
                    == AttemptStage::Exchange && action is Exchange,
                (AttemptStage::Choosing, AttemptEvent::Sent(Err(f))) => final(self).stage
                    == AttemptStage::Over && ends_with(action, f, old(self).target@),
                (AttemptStage::Exchange, AttemptEvent::Exchanged(Ok(e))) => final(self).stage
                    == AttemptStage::Over && action == AttemptAction::End(
                    AttemptOutcome::Landed(e),
                ),
                (AttemptStage::Exchange, AttemptEvent::Exchanged(Err(f))) => final(self).stage
                    == AttemptStage::Over && ends_with(action, f, old(self).target@),
                _ => final(self).stage == old(self).stage && action is OutOfTurn,
            },
            attempt_step(*old(self), event, *final(self), action),
    {
        match (self.stage, event) {
            (AttemptStage::Ssh, AttemptEvent::Opened(Ok(()))) => {
                self.stage = AttemptStage::Offer;
                AttemptAction::ReadOffer
            },
            (AttemptStage::Ssh, AttemptEvent::Opened(Err(f))) => self.end(f),
            (AttemptStage::Offer, AttemptEvent::Offered(Err(f))) => self.end(f),
            (AttemptStage::Offer, AttemptEvent::Offered(Ok((signal, shown)))) => {
                match sessions_offered(signal, shown.as_str()) {
                    Ok(_) => {
                        self.stage = AttemptStage::Choosing;
                        let choice = Choice::Attach { id: self.session_id.clone() };
                        AttemptAction::Send(Signal::Choose { choice })
                    },
                    Err(t) => {
                        let shown = t.message();
                        let Trouble { refused, .. } = t;
                        self.end(Failure { refused, ssh_stderr: None, shown })
                    },
                }
            },
            (AttemptStage::Choosing, AttemptEvent::Sent(Ok(()))) => {
                self.stage = AttemptStage::Exchange;
                AttemptAction::Exchange
            },
            (AttemptStage::Choosing, AttemptEvent::Sent(Err(f))) => self.end(f),
            (AttemptStage::Exchange, AttemptEvent::Exchanged(Ok(e))) => {
                self.stage = AttemptStage::Over;
                AttemptAction::End(AttemptOutcome::Landed(e))
            },
            (AttemptStage::Exchange, AttemptEvent::Exchanged(Err(f))) => self.end(f),
            _ => AttemptAction::OutOfTurn,
        }
    }

    /// The attempt came to nothing.
    fn end<E>(&mut self, f: Failure) -> (action: AttemptAction<E>)
        ensures
            *final(self) == (Attempt { stage: AttemptStage::Over, ..*old(self) }),
            ends_with(action, f, old(self).target@),
    {
        self.stage = AttemptStage::Over;
        AttemptAction::End(classify(self.target.as_str(), f))
    }
}

/// What a client needs to get back into the session it already has.
#[derive(Debug)]
pub struct Rebuild {
    pub target: String,
    pub session_id: String,
    /// An attempt is running.
    pub in_flight: bool,
    /// An attempt has begun and no swap has happened since, so being taken
    /// over may be our own doing. It outlives the attempt: one can get far
    /// enough for the host to adopt it and then fail, and the close of the old
    /// link is still on its way.
    pub displacing: bool,
}

/// Something that happens to a rebuild.
pub enum RebuildCall {
    /// An attempt begins.
    Begin,
    /// The attempt reported back.
    Finished,
    /// The attempt is given up on.
    Cancel,
    /// A rebuilt link is in place.
    Swapped,
}

/// A rebuild after one call.
pub open spec fn after_call(r: Rebuild, call: RebuildCall) -> Rebuild {
    match call {
        RebuildCall::Begin => Rebuild { in_flight: true, displacing: true, ..r },
        RebuildCall::Finished => Rebuild { in_flight: false, ..r },
        RebuildCall::Cancel => Rebuild { in_flight: false, ..r },
        RebuildCall::Swapped => Rebuild { displacing: false, ..r },
    }
}

/// A rebuild after a sequence of calls.
pub open spec fn after_calls(r: Rebuild, calls: Seq<RebuildCall>) -> Rebuild
    decreases calls.len(),
{
    if calls.len() == 0 {
        r
    } else {
        after_call(after_calls(r, calls.drop_last()), calls.last())
    }
}

/// Whether giving up takes a rebuild from `before` to `after`, and there is
/// something to abort.
pub open spec fn cancels(before: Rebuild, abort: bool, after: Rebuild) -> bool {
    abort == before.in_flight && after == after_call(before, RebuildCall::Cancel)
}

/// Whether beginning an attempt takes a rebuild from `before` to `after`.
pub open spec fn begun_by(before: Rebuild, after: Rebuild, attempt: Attempt) -> bool {
    &&& after == after_call(before, RebuildCall::Begin)
    &&& attempt.target@ == before.target@
    &&& attempt.session_id@ == before.session_id@
    &&& attempt.stage == AttemptStage::Ssh
}

impl Rebuild {
    pub fn new(target: String, session_id: String) -> (r: Rebuild)
        ensures
            r == (Rebuild { target, session_id, in_flight: false, displacing: false }),
    {
        Rebuild { target, session_id, in_flight: false, displacing: false }
    }

    /// Is an attempt running right now?
    pub fn is_running(&self) -> (r: bool)
        ensures
            r == self.in_flight,
    {
        self.in_flight
    }

    /// Could being taken over on the current link be this client's own doing?
    pub fn may_have_displaced_us(&self) -> (r: bool)
        ensures
            r == self.displacing,
    {
        self.displacing
    }

    /// A rebuilt link is in place, so nothing still outstanding can displace
    /// us out of a link we did not build.
    pub fn swapped(&mut self)
        ensures
            *final(self) == after_call(*old(self), RebuildCall::Swapped),
    {
        self.displacing = false;
    }

    /// Start an attempt.
    pub fn begin<E>(&mut self) -> (r: (Attempt, AttemptAction<E>))
        ensures
            *final(self) == after_call(*old(self), RebuildCall::Begin),
            r.0.target@ == old(self).target@,
            r.0.session_id@ == old(self).session_id@,
            r.0.stage == AttemptStage::Ssh,
            r.1 is Open,
            begun_by(*old(self), *final(self), r.0),
    {
        self.displacing = true;
        self.in_flight = true;
        Attempt::start(self.target.clone(), self.session_id.clone())
    }

    /// The attempt reported back, so there is nothing left to hold.
    pub fn finished(&mut self)
        ensures
            *final(self) == after_call(*old(self), RebuildCall::Finished),
    {
        self.in_flight = false;
    }

    /// Give up on the attempt in flight. Whether there is one to abort.
    pub fn cancel(&mut self) -> (abort: bool)
        ensures
            abort == old(self).in_flight,
            *final(self) == after_call(*old(self), RebuildCall::Cancel),
            cancels(*old(self), abort, *final(self)),
    {
        let abort = self.in_flight;
        self.in_flight = false;
        abort
    }
}

/// An answer from the far end ends the loop, whatever else went wrong; and
/// without one, and without a far end that does not know the option, a failure
/// is always worth trying again.
pub proof fn only_an_answer_is_definite<E>(
    f: Failure,
    target: Seq<char>,
    outcome: AttemptOutcome<E>,
)
    requires
        classified(f, target, outcome),
    ensures
        outcome is Definite <==> f.refused is Some || (f.ssh_stderr matches Some(stderr)
            && says_unknown_option(lowercase(stderr@))),
        !(outcome is Landed),
{
}

/// From the moment an attempt begins until a rebuilt link is in place, being
/// taken over may be this client's own doing, however often attempts report
/// back or are given up on in between; and nothing changes which session is
/// being got back into.
pub proof fn displacing_outlives_the_attempt(r: Rebuild, calls: Seq<RebuildCall>)
    requires
        forall|i: int| 0 <= i < calls.len() ==> !(#[trigger] calls[i] is Swapped),
    ensures
        after_calls(after_call(r, RebuildCall::Begin), calls).displacing,
        after_calls(after_call(r, RebuildCall::Begin), calls).target == r.target,
        after_calls(after_call(r, RebuildCall::Begin), calls).session_id == r.session_id,
    decreases calls.len(),
{
    if calls.len() > 0 {
        let head = calls.drop_last();
        assert forall|i: int| 0 <= i < head.len() implies !(#[trigger] head[i] is Swapped) by {
            assert(head[i] == calls[i]);
        }
        displacing_outlives_the_attempt(r, head);
        assert(!(calls[calls.len() - 1] is Swapped));
    }
}

/// The far end's own words are final and come through as they are; a far end
/// that does not know the option it was asked for is too old, and is quoted; and
/// anything else is tried again, with the whole of what went wrong.
pub proof fn a_failure_is_judged_by_who_spoke<E>(
    f: Failure,
    lowered: Seq<char>,
    target: Seq<char>,
    outcome: AttemptOutcome<E>,
    a: Seq<char>,
    b: Seq<char>,
)
    requires
        classified_on(f, lowered, target, outcome),
    ensures
        f.refused matches Some(reason) ==> (outcome matches AttemptOutcome::Definite(why) && why@
            == reason@),
        f.refused is None && f.ssh_stderr is None ==> (outcome matches AttemptOutcome::Retry(why)
            && why@ == f.shown@),
        f.refused is None ==> (f.ssh_stderr matches Some(stderr) ==> (lowered == a
            + "unknown option"@ + b ==> (outcome matches AttemptOutcome::Definite(why) && why@
            == "the oxutrm on "@ + target
            + " does not understand `oxutrm host --connect`, so it is too old to reconnect to; both ends have to be upgraded together. It said: "@
            + stderr@))),
        f.refused is None && !occurs(lowered, "unknown option"@) ==> (
        outcome matches AttemptOutcome::Retry(why) && why@ == f.shown@),
{
    if lowered == a + "unknown option"@ + b {
        holding_is_being_around(lowered, "unknown option"@);
        assert(occurs(lowered, "unknown option"@));
    }
}

/// An attempt asks for the session it is about, whatever the host offers, and
/// lands with what the attach came to. A host that gives up in place of its list
/// is final, and one that says anything else there is tried again.
pub proof fn an_attempt_asks_for_its_own_session<E>(
    before: Attempt,
    event: AttemptEvent<E>,
    after: Attempt,
    action: AttemptAction<E>,
)
    requires
        attempt_step(before, event, after, action),
    ensures
        after.target == before.target,
        after.session_id == before.session_id,
        before.stage == AttemptStage::Ssh && event == AttemptEvent::<E>::Opened(Ok(())) ==> action
            is ReadOffer && after.stage == AttemptStage::Offer,
        before.stage == AttemptStage::Offer ==> (event matches AttemptEvent::Offered(Ok(heard))
            ==> {
            &&& heard.0 is Sessions ==> after.stage == AttemptStage::Choosing && (
            action matches AttemptAction::Send(Signal::Choose { choice: Choice::Attach { id } })
                && id@ == before.session_id@)
            &&& heard.0 matches Signal::Failed { reason } ==> after.stage == AttemptStage::Over && (
            action matches AttemptAction::End(AttemptOutcome::Definite(why)) && why@ == reason@)
            &&& !(heard.0 is Sessions || heard.0 is Failed) ==> after.stage == AttemptStage::Over
                && (action matches AttemptAction::End(AttemptOutcome::Retry(why)) && why@
                == "the host opened with "@ + heard.1@ + " instead of its list of sessions"@)
        }),
        before.stage == AttemptStage::Choosing && event == AttemptEvent::<E>::Sent(Ok(()))
            ==> action is Exchange && after.stage == AttemptStage::Exchange,
        before.stage == AttemptStage::Exchange ==> (event matches AttemptEvent::Exchanged(Ok(e))
            ==> after.stage == AttemptStage::Over && action == AttemptAction::End(
            AttemptOutcome::Landed(e),
        )),
        action is End ==> after.stage == AttemptStage::Over,
        action is OutOfTurn ==> after.stage == before.stage,
        before.stage == AttemptStage::Over ==> action is OutOfTurn,
{
}

/// A failure at any stage ends the attempt, judged by who spoke: the far end's
/// words are final, and where nobody spoke and ssh wrote nothing it is tried
/// again with all of what went wrong.
pub proof fn a_failed_attempt_is_over<E>(
    before: Attempt,
    event: AttemptEvent<E>,
    after: Attempt,
    action: AttemptAction<E>,
    f: Failure,
)
    requires
        attempt_step(before, event, after, action),
        (before.stage == AttemptStage::Ssh && event == AttemptEvent::<E>::Opened(Err(f))) || (
        before.stage == AttemptStage::Offer && event == AttemptEvent::<E>::Offered(Err(f))) || (
        before.stage == AttemptStage::Choosing && event == AttemptEvent::<E>::Sent(Err(f))) || (
        before.stage == AttemptStage::Exchange && event == AttemptEvent::<E>::Exchanged(Err(f))),
    ensures
        after.stage == AttemptStage::Over,
        f.refused matches Some(reason) ==> (action matches AttemptAction::End(
            AttemptOutcome::Definite(why),
        ) && why@ == reason@),
        f.refused is None && f.ssh_stderr is None ==> (action matches AttemptAction::End(
            AttemptOutcome::Retry(why),
        ) && why@ == f.shown@),
        action is End,
{
}

/// An attempt is running from when it begins until it reports back or is given
/// up on, and nothing else touches that; a rebuilt link in place ends only the
/// suspicion.
pub proof fn an_attempt_runs_until_it_reports(r: Rebuild)
    ensures
        after_call(r, RebuildCall::Begin).in_flight,
        after_call(r, RebuildCall::Begin).displacing,
        !after_call(r, RebuildCall::Finished).in_flight,
        after_call(r, RebuildCall::Finished).displacing == r.displacing,
        !after_call(r, RebuildCall::Cancel).in_flight,
        after_call(r, RebuildCall::Cancel).displacing == r.displacing,
        !after_call(r, RebuildCall::Swapped).displacing,
        after_call(r, RebuildCall::Swapped).in_flight == r.in_flight,
{
}

/// An event that belongs to another stage is left alone: each stage of an attempt
/// answers its own kind of event and nothing else.
pub proof fn an_attempt_leaves_other_events_alone<E>(
    before: Attempt,
    event: AttemptEvent<E>,
    after: Attempt,
    action: AttemptAction<E>,
)
    requires
        attempt_step(before, event, after, action),
    ensures
        ({
            let awaited = match before.stage {
                AttemptStage::Ssh => event is Opened,
                AttemptStage::Offer => event is Offered,
                AttemptStage::Choosing => event is Sent,
                AttemptStage::Exchange => event is Exchanged,
                AttemptStage::Over => false,
            };
            &&& action is OutOfTurn <==> !awaited
            &&& !awaited ==> after.stage == before.stage
        }),
{
}

/// An attempt begins where its rebuild is: on its target, for its session, with
/// ssh first.
pub proof fn an_attempt_begins_with_ssh(before: Rebuild, after: Rebuild, attempt: Attempt)
    requires
        begun_by(before, after, attempt),
    ensures
        attempt.target@ == before.target@,
        attempt.session_id@ == before.session_id@,
        attempt.stage == AttemptStage::Ssh,
        after.in_flight,
        after.displacing,
        after.target == before.target,
        after.session_id == before.session_id,
{
}

/// There is something to abort exactly if an attempt is running, and after giving
/// up on it there is nothing to abort any more.
pub proof fn giving_up_aborts_what_is_running(
    before: Rebuild,
    abort: bool,
    between: Rebuild,
    again: bool,
    after: Rebuild,
)
    requires
        cancels(before, abort, between),
        cancels(between, again, after),
    ensures
        abort <==> before.in_flight,
        !again,
        !between.in_flight,
        between.displacing == before.displacing,
        between.target == before.target,
        between.session_id == before.session_id,
{
}

} // verus!
