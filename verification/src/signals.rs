//! Catching the things that arrive as events rather than as grid contents.

use vstd::prelude::*;

use crate::pty::{exit_code, exit_number, ExitStatus};

verus! {

/// Which clipboard an application copied to.
#[derive(Clone, Copy, PartialEq, Eq, Debug, Structural)]
pub enum ClipboardType {
    Clipboard,
    Selection,
}

/// Something the emulator reports.
#[derive(Debug)]
pub enum Event {
    Title(String),
    ResetTitle,
    Bell,
    ClipboardStore(ClipboardType, String),
    ChildExit(ExitStatus),
    Wakeup,
    /// For an interactive front end: mouse shape, colour queries, write-backs.
    Other,
}

/// What the emulator has told us since the last drain.
#[derive(Debug)]
pub struct Signals {
    /// The most recent title. `None` when it never changed.
    pub title: Option<String>,
    /// How many times the bell rang. A count and not a flag: the client rings
    /// once per increment.
    pub bells: u32,
    /// OSC 52 copy requests, already decoded.
    pub clipboard: Vec<(ClipboardType, String)>,
    /// The child's exit code, once the emulator reports one.
    pub child_exit: Option<i32>,
    /// Something changed that a renderer would care about.
    pub wakeup: bool,
}

impl Signals {
    /// Whether nothing has been reported.
    pub open spec fn quiet(&self) -> bool {
        &&& self.title is None
        &&& self.bells == 0
        &&& self.clipboard@.len() == 0
        &&& self.child_exit is None
        &&& !self.wakeup
    }

    /// Nothing reported yet.
    pub fn new() -> (s: Signals)
        ensures
            s.quiet(),
    {
        Signals { title: None, bells: 0, clipboard: Vec::new(), child_exit: None, wakeup: false }
    }
}

/// What has been reported since the last drain.
#[derive(Debug)]
pub struct EventSink {
    pub inner: Signals,
}

/// Whether a drain of `before` takes `taken` and leaves `after`.
pub open spec fn drained(before: Signals, taken: Signals, after: Signals) -> bool {
    taken == before && after.quiet()
}

/// Whether recording `event` takes what was reported from `before` to `after`.
pub open spec fn recorded(before: Signals, event: Event, after: Signals) -> bool {
    &&& match event {
        Event::Title(t) => after.title == Some(t),
        Event::ResetTitle => after.title matches Some(t) && t@.len() == 0,
        _ => after.title == before.title,
    }
    &&& after.bells == (if event is Bell && before.bells < u32::MAX {
        (before.bells + 1) as u32
    } else {
        before.bells
    })
    &&& after.clipboard@ == (match event {
        Event::ClipboardStore(kind, text) => before.clipboard@.push((kind, text)),
        _ => before.clipboard@,
    })
    &&& after.child_exit == (match event {
        Event::ChildExit(status) => Some(exit_number(status)),
        _ => before.child_exit,
    })
    &&& after.wakeup == (event is Wakeup || before.wakeup)
}

impl EventSink {
    pub fn new() -> (sink: EventSink)
        ensures
            sink.inner.quiet(),
    {
        EventSink { inner: Signals::new() }
    }

    /// Take everything accumulated so far, leaving the sink empty.
    pub fn drain(&mut self) -> (s: Signals)
        ensures
            s == old(self).inner,
            final(self).inner.quiet(),
            drained(old(self).inner, s, final(self).inner),
    {
        let mut taken = Signals::new();
        std::mem::swap(&mut taken, &mut self.inner);
        taken
    }

    /// Record one event.
    pub fn send_event(&mut self, event: Event)
        requires
            event matches Event::ChildExit(status) ==> status.representable(),
        ensures
            match event {
                Event::Title(t) => final(self).inner.title == Some(t),
                Event::ResetTitle => final(self).inner.title matches Some(t) && t@.len() == 0,
                _ => final(self).inner.title == old(self).inner.title,
            },
            final(self).inner.bells == (if event is Bell && old(self).inner.bells < u32::MAX {
                (old(self).inner.bells + 1) as u32
            } else {
                old(self).inner.bells
            }),
            final(self).inner.clipboard@ == (match event {
                Event::ClipboardStore(kind, text) => old(self).inner.clipboard@.push((kind, text)),
                _ => old(self).inner.clipboard@,
            }),
            final(self).inner.child_exit == (match event {
                Event::ChildExit(status) => Some(exit_number(status)),
                _ => old(self).inner.child_exit,
            }),
            final(self).inner.wakeup == (event is Wakeup || old(self).inner.wakeup),
            recorded(old(self).inner, event, final(self).inner),
    {
        match event {
            Event::Title(t) => {
                self.inner.title = Some(t);
            },
            Event::ResetTitle => {
                self.inner.title = Some(String::new());
            },
            Event::Bell => {
                self.inner.bells = self.inner.bells.saturating_add(1);
            },
            Event::ClipboardStore(kind, text) => {
                self.inner.clipboard.push((kind, text));
            },
            Event::ChildExit(status) => {
                self.inner.child_exit = Some(exit_code(status));
            },
            Event::Wakeup => {
                self.inner.wakeup = true;
            },
            Event::Other => {},
        }
    }
}

/// Each event is recorded in its own place and nowhere else: the last title
/// stands, a reset is an empty one, every bell is counted as far as the count
/// goes, every copy is kept in order, and an exit is its code.
pub proof fn an_event_is_recorded_in_its_own_place(before: Signals, event: Event, after: Signals)
    requires
        recorded(before, event, after),
        event matches Event::ChildExit(status) ==> status.representable(),
    ensures
        event matches Event::Title(t) ==> after.title == Some(t),
        event is ResetTitle ==> (after.title matches Some(t) && t@.len() == 0),
        !(event is Title || event is ResetTitle) ==> after.title == before.title,
        event is Bell && before.bells < 0xffff_ffff ==> after.bells == before.bells + 1,
        event is Bell && before.bells == 0xffff_ffff ==> after.bells == 0xffff_ffff,
        !(event is Bell) ==> after.bells == before.bells,
        event matches Event::ClipboardStore(kind, text) ==> {
            &&& after.clipboard@.len() == before.clipboard@.len() + 1
            &&& after.clipboard@.last() == (kind, text)
            &&& after.clipboard@.drop_last() == before.clipboard@
        },
        !(event is ClipboardStore) ==> after.clipboard@ == before.clipboard@,
        event matches Event::ChildExit(status) ==> {
            &&& status.code matches Some(code) ==> after.child_exit == Some(code)
            &&& status.code is None ==> (status.signal matches Some(n) ==> after.child_exit == Some(
                (128 + n) as i32,
            ))
        },
        !(event is ChildExit) ==> after.child_exit == before.child_exit,
        after.wakeup <==> event is Wakeup || before.wakeup,
{
    if let Event::ClipboardStore(kind, text) = event {
        assert(after.clipboard@.drop_last() =~= before.clipboard@);
    }
}

/// A sink after a sequence of events.
pub open spec fn recorded_all(before: Signals, events: Seq<Event>, after: Seq<Signals>) -> bool {
    &&& after.len() == events.len()
    &&& forall|i: int|
        0 <= i < events.len() ==> recorded(
            if i == 0 {
                before
            } else {
                after[i - 1]
            },
            events[i],
            #[trigger] after[i],
        )
}

/// How many of the first `i` events rang the bell.
pub open spec fn rings(events: Seq<Event>, i: int) -> nat
    decreases i,
{
    if i <= 0 {
        0
    } else {
        rings(events, i - 1) + (if events[i - 1] is Bell {
            1nat
        } else {
            0
        })
    }
}

/// No bell is lost between two drains: from an empty sink, the count is how
/// often the bell rang, whatever else was reported in between.
pub proof fn no_bell_is_lost(before: Signals, events: Seq<Event>, after: Seq<Signals>, i: int)
    requires
        before.quiet(),
        recorded_all(before, events, after),
        0 < i <= events.len(),
        i < 0xffff_ffff,
    ensures
        after[i - 1].bells == rings(events, i),
        rings(events, i) <= i,
    decreases i,
{
    assert(recorded(
        if i == 1 {
            before
        } else {
            after[i - 2]
        },
        events[i - 1],
        after[i - 1],
    ));
    if i > 1 {
        no_bell_is_lost(before, events, after, i - 1);
    } else {
        assert(rings(events, 0) == 0);
    }
}

/// A drain takes all that was reported and leaves nothing to be reported twice.
pub proof fn a_drain_takes_everything_once(
    before: Signals,
    taken: Signals,
    between: Signals,
    again: Signals,
    after: Signals,
)
    requires
        drained(before, taken, between),
        drained(between, again, after),
    ensures
        taken == before,
        again.title is None,
        again.bells == 0,
        again.clipboard@.len() == 0,
        again.child_exit is None,
        !again.wakeup,
{
}

} // verus!
