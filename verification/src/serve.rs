//! The host's half: from the first attach to the end of the shell.

use vstd::prelude::*;

use crate::attach_exchange::SessionMeta;
use crate::ladder::Rung;
use crate::screen::TermSize;
use crate::signal::{PathDescription, Trouble};
use crate::text::decimal;

verus! {

/// How many lines of scrollback the host keeps.
pub const SCROLLBACK: usize = 10_000;

/// Whether `meta` is what is recorded of a session before any attach.
pub open spec fn is_fresh(
    session_id: String,
    pid: u32,
    created_unix: u64,
    shell: Option<String>,
    meta: SessionMeta,
) -> bool {
    &&& meta.session_id == session_id
    &&& meta.attach_id == 0
    &&& meta.pid == pid
    &&& meta.created_unix == created_unix
    &&& meta.shell@ == (match shell {
        Some(s) => s@,
        None => "/bin/sh"@,
    })
    &&& meta.size == (TermSize { cols: 80, rows: 24 })
    &&& !meta.detachable
}

/// What is recorded of a session before any attach. The size is replaced by
/// what the client actually has, and whether it can be detached is settled
/// from the nominated rung: until then it cannot, which is the safe direction.
pub fn fresh_meta(
    session_id: String,
    pid: u32,
    created_unix: u64,
    shell: Option<String>,
) -> (meta: SessionMeta)
    ensures
        meta.session_id == session_id,
        meta.attach_id == 0,
        meta.pid == pid,
        meta.created_unix == created_unix,
        meta.shell@ == (match shell {
            Some(s) => s@,
            None => "/bin/sh"@,
        }),
        meta.size == (TermSize { cols: 80, rows: 24 }),
        !meta.detachable,
        is_fresh(session_id, pid, created_unix, shell, meta),
{
    SessionMeta {
        session_id,
        attach_id: 0,
        pid,
        created_unix,
        shell: match shell {
            Some(s) => s,
            None => "/bin/sh".to_owned(),
        },
        size: TermSize { cols: 80, rows: 24 },
        detachable: false,
    }
}

/// Settle whether a session can be detached, from the rung it was reached on,
/// and say so. Rung 4 runs inside the ssh connection, so it keeps its ssh for
/// life; anything else can do without.
pub fn settle_detachability(meta: &mut SessionMeta, rung: Rung) -> (detachable: bool)
    ensures
        detachable == (rung != Rung::SshTunnel),
        *final(meta) == (SessionMeta { detachable, ..*old(meta) }),
{
    let detachable = rung != Rung::SshTunnel;
    meta.detachable = detachable;
    detachable
}

/// How far a session has come, and what it knows.
pub enum ServeStage {
    /// The first attach is under way.
    Attach,
    /// The process is being severed from ssh.
    Sever { client_size: TermSize },
    /// The session is being recorded in the registry.
    Register { client_size: TermSize },
    /// The session's socket is being bound.
    Listen { client_size: TermSize },
    /// The shell is being started.
    Spawn,
    Running,
    /// Whatever answered attaches is being waited out; the session ended so.
    Closing { end: Result<(), Trouble> },
    Over,
}

/// What happened.
pub enum ServeEvent {
    /// The first attach is complete, leaving this record of the session, or
    /// came to nothing.
    Attached(Result<(SessionMeta, PathDescription, TermSize), Trouble>),
    Severed(Result<(), String>),
    Registered(Result<(), String>),
    /// The session's socket is bound.
    Listening,
    /// Its path is too long for a socket.
    PathTooLong(String),
    /// It could not be bound, at this path.
    BindFailed { path: String, error: String },
    Spawned(Result<(), String>),
    /// The shell is over, with this exit code.
    Ran(Result<i32, String>),
    /// Nothing answers attaches any more, nor holds on to the record.
    Closed,
}

/// What to do next.
pub enum ServeAction {
    Attach,
    Sever,
    Register,
    /// Bind the session's socket and answer attaches on it.
    Listen,
    /// Start a shell on a terminal of this size.
    Spawn { shell: String, size: TermSize, scrollback: usize },
    /// Run the session; `attaches` is whether it can be attached to again.
    Run { attaches: bool },
    /// Stop answering attaches, and wait until what answered them is gone: as
    /// long as it lives it holds on to the session's record.
    Close,
    /// Take the session out of the registry, and end.
    Finish(Result<(), Trouble>),
    Fail(Trouble),
    /// Nothing: that event belongs to another stage.
    OutOfTurn,
}

/// One session, as its host sees it.
pub struct Serve {
    pub meta: SessionMeta,
    pub stage: ServeStage,
}

/// Whether a session fails at `what`, because of `cause`.
pub open spec fn serve_fails_at(action: ServeAction, what: Seq<char>, cause: Seq<char>) -> bool {
    action matches ServeAction::Fail(t) && t.failed_at(what, cause)
}

/// Whether an action starts the shell of a session.
pub open spec fn spawns(action: ServeAction, meta: SessionMeta, size: TermSize) -> bool {
    action matches ServeAction::Spawn { shell, size: z, scrollback } && shell@ == meta.shell@ && z
        == size && scrollback == SCROLLBACK
}

/// Whether `end` is how a session ends whose shell ran so.
pub open spec fn ended_as(ran: Result<i32, String>, end: Result<(), Trouble>) -> bool {
    match ran {
        Ok(_) => end is Ok,
        Err(e) => end matches Err(t) && t.says(e@),
    }
}

/// Whether `event` at `before` leads to `after` and `action`.
pub open spec fn serve_step(
    before: Serve,
    event: ServeEvent,
    after: Serve,
    action: ServeAction,
) -> bool {
    match (before.stage, event) {
        (ServeStage::Attach, ServeEvent::Attached(Ok((meta, path, client_size)))) => {
            let detachable = path.rung != Rung::SshTunnel;
            &&& after.meta == (SessionMeta { detachable, ..meta })
            &&& if detachable {
                after.stage == (ServeStage::Sever { client_size }) && action is Sever
            } else {
                after.stage == (ServeStage::Register { client_size }) && action is Register
            }
        },
        (ServeStage::Attach, ServeEvent::Attached(Err(t))) => {
            &&& after == (Serve { stage: ServeStage::Over, ..before })
            &&& action == ServeAction::Fail(t)
        },
        (ServeStage::Sever { client_size }, ServeEvent::Severed(Ok(()))) => {
            &&& after == (Serve { stage: ServeStage::Register { client_size }, ..before })
            &&& action is Register
        },
        (ServeStage::Sever { .. }, ServeEvent::Severed(Err(e))) => {
            &&& after == (Serve { stage: ServeStage::Over, ..before })
            &&& serve_fails_at(action, "severing from ssh"@, e@)
        },
        (ServeStage::Register { client_size }, ServeEvent::Registered(Ok(()))) => {
            if before.meta.detachable {
                &&& after == (Serve { stage: ServeStage::Listen { client_size }, ..before })
                &&& action is Listen
            } else {
                &&& after == (Serve { stage: ServeStage::Spawn, ..before })
                &&& spawns(action, before.meta, client_size)
            }
        },
        (ServeStage::Register { .. }, ServeEvent::Registered(Err(e))) => {
            &&& after == (Serve { stage: ServeStage::Over, ..before })
            &&& serve_fails_at(action, "recording the session in the registry"@, e@)
        },
        (ServeStage::Listen { client_size }, ServeEvent::Listening) => {
            &&& after == (Serve { stage: ServeStage::Spawn, ..before })
            &&& spawns(action, before.meta, client_size)
        },
        (ServeStage::Listen { .. }, ServeEvent::PathTooLong(e)) => {
            &&& after == (Serve { stage: ServeStage::Over, ..before })
            &&& action matches ServeAction::Fail(t) && t.says(e@)
        },
        (ServeStage::Listen { .. }, ServeEvent::BindFailed { path, error }) => {
            &&& after == (Serve { stage: ServeStage::Over, ..before })
            &&& serve_fails_at(action, "binding the session socket at "@ + path@, error@)
        },
        (ServeStage::Spawn, ServeEvent::Spawned(Ok(()))) => {
            &&& after == (Serve { stage: ServeStage::Running, ..before })
            &&& action == (ServeAction::Run { attaches: before.meta.detachable })
        },
        (ServeStage::Spawn, ServeEvent::Spawned(Err(e))) => {
            &&& after == (Serve { stage: ServeStage::Over, ..before })
            &&& serve_fails_at(action, "starting the shell"@, e@)
        },
        (ServeStage::Running, ServeEvent::Ran(ran)) => {
            &&& after.meta == before.meta
            &&& if before.meta.detachable {
                action is Close && (after.stage matches ServeStage::Closing { end } && ended_as(
                    ran,
                    end,
                ))
            } else {
                after.stage is Over && (action matches ServeAction::Finish(end) && ended_as(
                    ran,
                    end,
                ))
            }
        },
        (ServeStage::Closing { end }, ServeEvent::Closed) => {
            &&& after == (Serve { stage: ServeStage::Over, ..before })
            &&& action == ServeAction::Finish(end)
        },
        _ => after == before && action is OutOfTurn,
    }
}

impl Serve {
    /// Begin a session.
    pub fn start(meta: SessionMeta) -> (r: (Serve, ServeAction))
        ensures
            r.0 == (Serve { meta, stage: ServeStage::Attach }),
            r.1 is Attach,
    {
        (Serve { meta, stage: ServeStage::Attach }, ServeAction::Attach)
    }

    /// Take in what happened, and say what to do next.
    ///
    /// The registry comes after the sever: severing closes every descriptor it
    /// finds, and would close the session's socket with them.
    pub fn step(self, event: ServeEvent) -> (r: (Serve, ServeAction))
        ensures
            serve_step(self, event, r.0, r.1),
    {
        let Serve { meta, stage } = self;
        match (stage, event) {
            (ServeStage::Attach, ServeEvent::Attached(Ok((attached, path, client_size)))) => {
                let mut meta = attached;
                if settle_detachability(&mut meta, path.rung) {
                    (
                        Serve { meta, stage: ServeStage::Sever { client_size } },
                        ServeAction::Sever,
                    )
                } else {
                    (
                        Serve { meta, stage: ServeStage::Register { client_size } },
                        ServeAction::Register,
                    )
                }
            },
            (ServeStage::Attach, ServeEvent::Attached(Err(t))) => (
                Serve { meta, stage: ServeStage::Over },
                ServeAction::Fail(t),
            ),
            (ServeStage::Sever { client_size }, ServeEvent::Severed(Ok(()))) => (
                Serve { meta, stage: ServeStage::Register { client_size } },
                ServeAction::Register,
            ),
            (ServeStage::Sever { .. }, ServeEvent::Severed(Err(e))) => (
                Serve { meta, stage: ServeStage::Over },
                ServeAction::Fail(Trouble::at("severing from ssh", e)),
            ),
            (ServeStage::Register { client_size }, ServeEvent::Registered(Ok(()))) => {
                if meta.detachable {
                    (
                        Serve { meta, stage: ServeStage::Listen { client_size } },
                        ServeAction::Listen,
                    )
                } else {
                    let shell = meta.shell.clone();
                    (
                        Serve { meta, stage: ServeStage::Spawn },
                        ServeAction::Spawn { shell, size: client_size, scrollback: SCROLLBACK },
                    )
                }
            },
            (ServeStage::Register { .. }, ServeEvent::Registered(Err(e))) => (
                Serve { meta, stage: ServeStage::Over },
                ServeAction::Fail(Trouble::at("recording the session in the registry", e)),
            ),
            (ServeStage::Listen { client_size }, ServeEvent::Listening) => {
                let shell = meta.shell.clone();
                (
                    Serve { meta, stage: ServeStage::Spawn },
                    ServeAction::Spawn { shell, size: client_size, scrollback: SCROLLBACK },
                )
            },
            (ServeStage::Listen { .. }, ServeEvent::PathTooLong(e)) => (
                Serve { meta, stage: ServeStage::Over },
                ServeAction::Fail(Trouble::say(e)),
            ),
            (ServeStage::Listen { .. }, ServeEvent::BindFailed { path, error }) => {
                let mut what = "binding the session socket at ".to_owned();
                what.append(path.as_str());
                (
                    Serve { meta, stage: ServeStage::Over },
                    ServeAction::Fail(Trouble::at(what.as_str(), error)),
                )
            },
            (ServeStage::Spawn, ServeEvent::Spawned(Ok(()))) => {
                let attaches = meta.detachable;
                (Serve { meta, stage: ServeStage::Running }, ServeAction::Run { attaches })
            },
            (ServeStage::Spawn, ServeEvent::Spawned(Err(e))) => (
                Serve { meta, stage: ServeStage::Over },
                ServeAction::Fail(Trouble::at("starting the shell", e)),
            ),
            (ServeStage::Running, ServeEvent::Ran(ran)) => {
                let end = match ran {
                    Ok(_) => Ok(()),
                    Err(e) => Err(Trouble::say(e)),
                };
                if meta.detachable {
                    (Serve { meta, stage: ServeStage::Closing { end } }, ServeAction::Close)
                } else {
                    (Serve { meta, stage: ServeStage::Over }, ServeAction::Finish(end))
                }
            },
            (ServeStage::Closing { end }, ServeEvent::Closed) => (
                Serve { meta, stage: ServeStage::Over },
                ServeAction::Finish(end),
            ),
            (stage, _) => (Serve { meta, stage }, ServeAction::OutOfTurn),
        }
    }
}

/// What a session knows of itself is consistent: one that is being severed,
/// whose socket is being bound, or whose door is being closed, can be
/// detached.
pub open spec fn consistent(s: Serve) -> bool {
    s.stage is Sever || s.stage is Listen || s.stage is Closing ==> s.meta.detachable
}

/// A session is severed from ssh, and answers further attaches, exactly when
/// it was not reached through ssh; and it is severed before it is recorded and
/// recorded before its socket is bound.
pub proof fn only_a_detachable_session_is_severed_and_listens(
    before: Serve,
    event: ServeEvent,
    after: Serve,
    action: ServeAction,
)
    requires
        serve_step(before, event, after, action),
        consistent(before),
    ensures
        consistent(after),
        action is Sever || action is Listen ==> after.meta.detachable,
        action matches ServeAction::Run { attaches } ==> attaches == after.meta.detachable,
        action is Listen ==> before.stage is Register,
        action is Register ==> before.stage is Sever || (before.stage is Attach
            && !after.meta.detachable),
{
}

/// A session is taken out of the registry only once nothing answers attaches
/// to it: either nothing ever did, or what did is gone.
pub proof fn the_record_outlives_the_door(
    before: Serve,
    event: ServeEvent,
    after: Serve,
    action: ServeAction,
)
    requires
        serve_step(before, event, after, action),
        consistent(before),
    ensures
        action is Finish ==> (!before.meta.detachable || (before.stage is Closing
            && event is Closed)),
        before.stage is Running && event is Ran && before.meta.detachable ==> action is Close,
{
}

/// How long one attach attempt may hold the door, in seconds.
pub const ATTACH_TIMEOUT: u64 = 90;

/// How far the answering of attaches has come.
#[derive(Clone, Copy, PartialEq, Eq, Debug, Structural)]
pub enum DoorStage {
    /// A client is awaited.
    Waiting,
    /// An attach is under way.
    Attaching,
    /// The session is being handed its new link.
    Handing,
    /// Nobody answers any more.
    Closed,
}

/// What happened at the door.
#[derive(Clone, Copy, PartialEq, Eq, Debug, Structural)]
pub enum DoorEvent {
    /// A client came, or could not be let in.
    Came(bool),
    Attached,
    AttachFailed,
    TimedOut,
    /// The session took its new link, or is gone.
    Handed(bool),
}

/// What to do at the door.
#[derive(Debug)]
pub enum DoorAction {
    Wait,
    /// Run an attach, bounded by the timeout. One at a time: two would race to
    /// hand the session a link.
    Attach,
    /// Write the registry, then hand the session its new link.
    RecordAndHand,
    /// Say this, then wait.
    Complain(String),
    Stop,
    /// Nothing: that event belongs to another stage.
    OutOfTurn,
}

/// What is said of an attach that held the door for too long.
pub open spec fn stalled_text(secs: u64) -> Seq<char> {
    "oxutrm: an attach attempt got no further than "@ + crate::text::decimal(secs as nat)
        + "s and was given up on; the session is still accepting"@
}

/// Answering attaches for the life of a session.
#[derive(Clone, Copy, PartialEq, Eq, Debug, Structural)]
pub struct Door {
    pub stage: DoorStage,
    /// How long an attach may take, in seconds.
    pub timeout: u64,
}

/// Whether `event` takes a door from `before` to `after` and `action`.
pub open spec fn door_step(
    before: Door,
    event: DoorEvent,
    after: Door,
    action: DoorAction,
) -> bool {
    &&& after.timeout == before.timeout
    &&& match (before.stage, event) {
        (DoorStage::Waiting, DoorEvent::Came(true)) => after.stage == DoorStage::Attaching
            && action is Attach,
        (DoorStage::Waiting, DoorEvent::Came(false)) => after.stage == DoorStage::Waiting
            && action is Wait,
        (DoorStage::Attaching, DoorEvent::Attached) => after.stage == DoorStage::Handing
            && action is RecordAndHand,
        (DoorStage::Attaching, DoorEvent::AttachFailed) => after.stage == DoorStage::Waiting
            && action is Wait,
        (DoorStage::Attaching, DoorEvent::TimedOut) => after.stage == DoorStage::Waiting && (
        action matches DoorAction::Complain(s) && s@ == stalled_text(before.timeout)),
        (DoorStage::Handing, DoorEvent::Handed(true)) => after.stage == DoorStage::Waiting
            && action is Wait,
        (DoorStage::Handing, DoorEvent::Handed(false)) => after.stage == DoorStage::Closed
            && action is Stop,
        _ => after.stage == before.stage && action is OutOfTurn,
    }
}

impl Door {
    pub fn new(timeout: u64) -> (door: Door)
        ensures
            door == (Door { stage: DoorStage::Waiting, timeout }),
    {
        Door { stage: DoorStage::Waiting, timeout }
    }

    /// Take in what happened, and say what to do next.
    ///
    /// An attempt that fails or stalls leaves the session untouched: nothing is
    /// recorded, the session never hears of it, and the door is open again.
    pub fn step(&mut self, event: DoorEvent) -> (action: DoorAction)
        ensures
            final(self).timeout == old(self).timeout,
            match (old(self).stage, event) {
                (DoorStage::Waiting, DoorEvent::Came(true)) => final(self).stage
                    == DoorStage::Attaching && action is Attach,
                (DoorStage::Waiting, DoorEvent::Came(false)) => final(self).stage
                    == DoorStage::Waiting && action is Wait,
                (DoorStage::Attaching, DoorEvent::Attached) => final(self).stage
                    == DoorStage::Handing && action is RecordAndHand,
                (DoorStage::Attaching, DoorEvent::AttachFailed) => final(self).stage
                    == DoorStage::Waiting && action is Wait,
                (DoorStage::Attaching, DoorEvent::TimedOut) => final(self).stage
                    == DoorStage::Waiting && (action matches DoorAction::Complain(s) && s@
                    == stalled_text(old(self).timeout)),
                (DoorStage::Handing, DoorEvent::Handed(true)) => final(self).stage
                    == DoorStage::Waiting && action is Wait,
                (DoorStage::Handing, DoorEvent::Handed(false)) => final(self).stage
                    == DoorStage::Closed && action is Stop,
                _ => final(self).stage == old(self).stage && action is OutOfTurn,
            },
            door_step(*old(self), event, *final(self), action),
    {
        match (self.stage, event) {
            (DoorStage::Waiting, DoorEvent::Came(true)) => {
                self.stage = DoorStage::Attaching;
                DoorAction::Attach
            },
            (DoorStage::Waiting, DoorEvent::Came(false)) => DoorAction::Wait,
            (DoorStage::Attaching, DoorEvent::Attached) => {
                self.stage = DoorStage::Handing;
                DoorAction::RecordAndHand
            },
            (DoorStage::Attaching, DoorEvent::AttachFailed) => {
                self.stage = DoorStage::Waiting;
                DoorAction::Wait
            },
            (DoorStage::Attaching, DoorEvent::TimedOut) => {
                self.stage = DoorStage::Waiting;
                let mut s = "oxutrm: an attach attempt got no further than ".to_owned();
                s.append(crate::text::number(self.timeout).as_str());
                s.append("s and was given up on; the session is still accepting");
                DoorAction::Complain(s)
            },
            (DoorStage::Handing, DoorEvent::Handed(true)) => {
                self.stage = DoorStage::Waiting;
                DoorAction::Wait
            },
            (DoorStage::Handing, DoorEvent::Handed(false)) => {
                self.stage = DoorStage::Closed;
                DoorAction::Stop
            },
            _ => DoorAction::OutOfTurn,
        }
    }
}

/// A session that can do without its ssh is severed from it, recorded, given a
/// socket and only then a shell; one that was reached through ssh is recorded
/// and given its shell at once, and is never severed and never listens. The
/// shell is the one on record, on a terminal of the client's own size with ten
/// thousand lines of scrollback. What the attach recorded stays as it was, and
/// the session is detachable exactly if the path is not the ssh tunnel.
pub proof fn a_session_follows_its_path(
    s: Seq<Serve>,
    a: Seq<ServeAction>,
    meta: SessionMeta,
    path: PathDescription,
    size: TermSize,
)
    requires
        s.len() == 5,
        a.len() == 4,
        s[0].stage is Attach,
        serve_step(s[0], ServeEvent::Attached(Ok((meta, path, size))), s[1], a[0]),
        path.rung != Rung::SshTunnel ==> {
            &&& serve_step(s[1], ServeEvent::Severed(Ok(())), s[2], a[1])
            &&& serve_step(s[2], ServeEvent::Registered(Ok(())), s[3], a[2])
            &&& serve_step(s[3], ServeEvent::Listening, s[4], a[3])
        },
        path.rung == Rung::SshTunnel ==> serve_step(
            s[1],
            ServeEvent::Registered(Ok(())),
            s[4],
            a[3],
        ),
    ensures
        path.rung != Rung::SshTunnel ==> a[0] is Sever && a[1] is Register && a[2] is Listen,
        path.rung == Rung::SshTunnel ==> a[0] is Register,
        a[3] matches ServeAction::Spawn { shell, size: z, scrollback } && shell@ == meta.shell@ && z
            == size && scrollback == 10_000,
        s[4].stage is Spawn,
        s[4].meta.detachable <==> path.rung != Rung::SshTunnel,
        s[4].meta.session_id == meta.session_id,
        s[4].meta.attach_id == meta.attach_id,
        s[4].meta.pid == meta.pid,
        s[4].meta.created_unix == meta.created_unix,
        s[4].meta.shell == meta.shell,
        s[4].meta.size == meta.size,
{
}

/// A shell that is up is run, answering attaches exactly if the session can be
/// detached. When it is over, a session that answered them waits until nothing
/// does, and both end well if the shell ran, whatever its code, and otherwise
/// with what went wrong.
pub proof fn a_session_ends_with_its_shell(
    s: Seq<Serve>,
    a: Seq<ServeAction>,
    ran: Result<i32, String>,
)
    requires
        s.len() == 4,
        a.len() == 3,
        s[0].stage is Spawn,
        serve_step(s[0], ServeEvent::Spawned(Ok(())), s[1], a[0]),
        serve_step(s[1], ServeEvent::Ran(ran), s[2], a[1]),
        s[0].meta.detachable ==> serve_step(s[2], ServeEvent::Closed, s[3], a[2]),
        !s[0].meta.detachable ==> s[3] == s[2] && a[2] == a[1],
    ensures
        a[0] == (ServeAction::Run { attaches: s[0].meta.detachable }),
        s[0].meta.detachable ==> a[1] is Close,
        a[2] matches ServeAction::Finish(end) && {
            &&& end is Ok <==> ran is Ok
            &&& ran matches Err(e) ==> (end matches Err(t) && t.what@ == e@ && t.cause is None
                && t.refused is None)
        },
        s[3].stage is Over,
        s[3].meta == s[0].meta,
{
}

/// Whatever fails ends the session, in its own words, with what went wrong behind
/// them. What an attach came to nothing with is passed on as it is.
pub proof fn a_failed_session_says_what_failed(
    before: Serve,
    event: ServeEvent,
    after: Serve,
    action: ServeAction,
    e: String,
    t: Trouble,
)
    requires
        serve_step(before, event, after, action),
    ensures
        ({
            let failed = |what: Seq<char>|
                after.stage is Over && (action matches ServeAction::Fail(x) && x.what@ == what && (
                x.cause matches Some(c) && c@ == e@) && x.refused is None);
            let no = Err::<(), String>(e);
            &&& before.stage is Sever && event == ServeEvent::Severed(no) ==> failed(
                "severing from ssh"@,
            )
            &&& before.stage is Register && event == ServeEvent::Registered(no) ==> failed(
                "recording the session in the registry"@,
            )
            &&& before.stage is Listen ==> (event matches ServeEvent::BindFailed { path, error }
                ==> (error == e ==> failed("binding the session socket at "@ + path@)))
            &&& before.stage is Spawn && event == ServeEvent::Spawned(no) ==> failed(
                "starting the shell"@,
            )
            &&& before.stage is Listen && event == ServeEvent::PathTooLong(e) ==> after.stage
                is Over && (action matches ServeAction::Fail(x) && x.what@ == e@ && x.cause is None
                && x.refused is None)
            &&& before.stage is Attach && event == ServeEvent::Attached(
                Err::<(SessionMeta, PathDescription, TermSize), Trouble>(t),
            ) ==> after.stage is Over && action == ServeAction::Fail(t)
        }),
        before.stage is Over ==> after == before && action is OutOfTurn,
        action is OutOfTurn ==> after == before,
        action is Fail ==> after.meta == before.meta,
{
}

/// The door answers one client at a time. A client that came is attached, one
/// that could not be let in is not, and only an attach that came through is
/// recorded and handed to the session. One that failed or stalled leaves the
/// door open, and a stall is said with how long it was given. The door closes
/// only when the session is gone.
pub proof fn the_door_answers_one_at_a_time(
    before: Door,
    event: DoorEvent,
    after: Door,
    action: DoorAction,
)
    requires
        door_step(before, event, after, action),
    ensures
        before.stage == DoorStage::Waiting && event == DoorEvent::Came(true) ==> action is Attach
            && after.stage == DoorStage::Attaching,
        before.stage == DoorStage::Waiting && event == DoorEvent::Came(false) ==> action is Wait
            && after.stage == DoorStage::Waiting,
        before.stage == DoorStage::Attaching && event == DoorEvent::Attached ==> action
            is RecordAndHand && after.stage == DoorStage::Handing,
        before.stage == DoorStage::Attaching && event == DoorEvent::AttachFailed ==> action is Wait
            && after.stage == DoorStage::Waiting,
        before.stage == DoorStage::Attaching && event == DoorEvent::TimedOut ==> after.stage
            == DoorStage::Waiting && (action matches DoorAction::Complain(s) && s@
            == "oxutrm: an attach attempt got no further than "@ + decimal(before.timeout as nat)
            + "s and was given up on; the session is still accepting"@),
        before.stage == DoorStage::Handing && event == DoorEvent::Handed(true) ==> action is Wait
            && after.stage == DoorStage::Waiting,
        before.stage == DoorStage::Handing && event == DoorEvent::Handed(false) ==> action is Stop
            && after.stage == DoorStage::Closed,
        action is Attach ==> before.stage == DoorStage::Waiting,
        action is RecordAndHand ==> before.stage == DoorStage::Attaching,
        action is Stop <==> before.stage == DoorStage::Handing && event == DoorEvent::Handed(false),
        action is OutOfTurn ==> after.stage == before.stage,
        before.stage == DoorStage::Closed ==> action is OutOfTurn,
        after.timeout == before.timeout,
{
}

/// What is recorded of a session at first says no more than is known: its own
/// id, process, time and shell, no attach yet, the usual size, and that it
/// cannot be detached.
pub proof fn a_fresh_record_promises_nothing(
    session_id: String,
    pid: u32,
    created_unix: u64,
    shell: Option<String>,
    meta: SessionMeta,
)
    requires
        is_fresh(session_id, pid, created_unix, shell, meta),
    ensures
        meta.session_id@ == session_id@,
        meta.pid == pid,
        meta.created_unix == created_unix,
        shell matches Some(s) ==> meta.shell@ == s@,
        shell is None ==> meta.shell@ == "/bin/sh"@,
        meta.attach_id == 0,
        meta.size.cols == 80,
        meta.size.rows == 24,
        !meta.detachable,
{
}

/// An event that belongs to another stage is left alone: each stage answers its
/// own kind of event and nothing else.
pub proof fn an_event_of_another_stage_is_left_alone(
    before: Serve,
    event: ServeEvent,
    after: Serve,
    action: ServeAction,
)
    requires
        serve_step(before, event, after, action),
    ensures
        ({
            let awaited = match before.stage {
                ServeStage::Attach => event is Attached,
                ServeStage::Sever { .. } => event is Severed,
                ServeStage::Register { .. } => event is Registered,
                ServeStage::Listen { .. } => event is Listening || event is PathTooLong
                    || event is BindFailed,
                ServeStage::Spawn => event is Spawned,
                ServeStage::Running => event is Ran,
                ServeStage::Closing { .. } => event is Closed,
                ServeStage::Over => false,
            };
            &&& action is OutOfTurn <==> !awaited
            &&& !awaited ==> after == before
        }),
{
}

} // verus!
