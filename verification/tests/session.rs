//! A session's life: on the host, on the client that rebuilds its link, and
//! in the loop that has both halves.

use oxutrm::addr::{IpAddr, SocketAddr};
use oxutrm::attach_exchange::SessionMeta;
use oxutrm::chooser::Choice;
use oxutrm::ladder::Rung;
use oxutrm::loopback::{Loopback, Tick, TurnAction, TurnEvent, TurnStage};
use oxutrm::rebuild::{
    batch_mode, classify, classify_lowered, Attempt, AttemptAction, AttemptEvent, AttemptOutcome, AttemptStage,
    Failure, Rebuild,
};
use oxutrm::screen::TermSize;
use oxutrm::serve::{
    fresh_meta, settle_detachability, Door, DoorAction, DoorEvent, DoorStage, Serve, ServeAction,
    ServeEvent, ServeStage, ATTACH_TIMEOUT, SCROLLBACK,
};
use oxutrm::signal::{NatType, PathDescription, Signal, Trouble};

fn size() -> TermSize {
    TermSize { cols: 40, rows: 10 }
}

fn path(rung: Rung) -> PathDescription {
    let addr = SocketAddr { ip: IpAddr::V4(1), port: 2, flow_info: 0, scope_id: 0 };
    PathDescription {
        rung,
        local: addr,
        remote: addr,
        probes_sent: 0,
        nat_type: NatType::NoNat,
        rtt_ms: 1,
        mtu: 1200,
    }
}

fn meta() -> SessionMeta {
    fresh_meta("door".to_owned(), 77, 1_757_200_000, Some("/bin/zsh".to_owned()))
}

fn said(t: &Trouble) -> String {
    t.message()
}

// -------------------------------------------------------------------- serving

#[test]
fn a_fresh_session_is_nothing_yet() {
    let m = meta();
    assert_eq!((m.session_id.as_str(), m.attach_id, m.pid), ("door", 0, 77));
    assert_eq!((m.created_unix, m.shell.as_str()), (1_757_200_000, "/bin/zsh"));
    assert_eq!(m.size, TermSize { cols: 80, rows: 24 });
    assert!(!m.detachable);
    assert_eq!(fresh_meta(String::new(), 0, 0, None).shell, "/bin/sh");
}

#[test]
fn only_a_tunnelled_session_cannot_be_detached() {
    for rung in [Rung::Ipv6Direct, Rung::PortMapped, Rung::StunPunch, Rung::Birthday] {
        let mut m = meta();
        assert!(settle_detachability(&mut m, rung));
        assert!(m.detachable);
    }
    let mut m = meta();
    m.detachable = true;
    assert!(!settle_detachability(&mut m, Rung::SshTunnel));
    assert!(!m.detachable);
}

/// A session whose first attach went over `rung`.
fn attached(rung: Rung) -> (Serve, ServeAction) {
    let (s, action) = Serve::start(meta());
    assert!(matches!(action, ServeAction::Attach));
    let mut m = meta();
    m.attach_id = 1;
    s.step(ServeEvent::Attached(Ok((m, path(rung), size()))))
}

fn serve_failure(action: ServeAction) -> String {
    match action {
        ServeAction::Fail(t) => said(&t),
        ServeAction::Finish(Err(t)) => format!("(finish) {}", said(&t)),
        _ => panic!("the session went on"),
    }
}

#[test]
fn a_session_that_can_be_detached_is_severed_recorded_and_listens() {
    let (s, action) = attached(Rung::StunPunch);
    assert!(matches!(action, ServeAction::Sever));
    assert_eq!(s.meta.attach_id, 1);
    let (s, action) = s.step(ServeEvent::Severed(Ok(())));
    assert!(matches!(action, ServeAction::Register));
    let (s, action) = s.step(ServeEvent::Registered(Ok(())));
    assert!(matches!(action, ServeAction::Listen));
    let (s, action) = s.step(ServeEvent::Listening);
    assert!(matches!(
        action,
        ServeAction::Spawn { shell, size: z, scrollback }
            if shell == "/bin/zsh" && z == size() && scrollback == SCROLLBACK
    ));
    let (s, action) = s.step(ServeEvent::Spawned(Ok(())));
    assert!(matches!(action, ServeAction::Run { attaches: true }));
    let (s, action) = s.step(ServeEvent::Ran(Ok(3)));
    assert!(matches!(action, ServeAction::Close));
    let (s, action) = s.step(ServeEvent::Closed);
    assert!(matches!(action, ServeAction::Finish(Ok(()))));
    assert!(matches!(s.stage, ServeStage::Over));
}

/// A session that answers attaches, at its shell.
fn running() -> Serve {
    let (s, _) = attached(Rung::StunPunch);
    let (s, _) = s.step(ServeEvent::Severed(Ok(())));
    let (s, _) = s.step(ServeEvent::Registered(Ok(())));
    let (s, _) = s.step(ServeEvent::Listening);
    let (s, _) = s.step(ServeEvent::Spawned(Ok(())));
    s
}

#[test]
fn awaiting_the_aborted_listener_is_what_lets_the_guard_clean_up() {
    for ran in [Ok(0), Err("E".to_owned())] {
        let (s, action) = running().step(ServeEvent::Ran(ran));
        assert!(matches!(action, ServeAction::Close), "the record went before the door");
        let (s, action) = s.step(ServeEvent::Listening);
        assert!(matches!(action, ServeAction::OutOfTurn));
        let (_, action) = s.step(ServeEvent::Closed);
        assert!(matches!(action, ServeAction::Finish(_)));
    }
}

#[test]
fn a_tunnelled_session_keeps_its_ssh_and_never_listens() {
    let (s, action) = attached(Rung::SshTunnel);
    assert!(matches!(action, ServeAction::Register));
    let (s, action) = s.step(ServeEvent::Registered(Ok(())));
    assert!(matches!(action, ServeAction::Spawn { .. }));
    let (s, action) = s.step(ServeEvent::Spawned(Ok(())));
    assert!(matches!(action, ServeAction::Run { attaches: false }));
    let (_, action) = s.step(ServeEvent::Ran(Ok(0)));
    assert!(matches!(action, ServeAction::Finish(Ok(()))));
}

#[test]
fn every_way_a_session_fails() {
    let e = || "E".to_owned();
    let trouble = Trouble { what: "W".to_owned(), cause: Some(e()), refused: None };
    let (s, _) = Serve::start(meta());
    let (s, a) = s.step(ServeEvent::Attached(Err(trouble)));
    assert_eq!(serve_failure(a), "W: E");
    let (_, a) = s.step(ServeEvent::Listening);
    assert!(matches!(a, ServeAction::OutOfTurn));

    let severed = || attached(Rung::StunPunch).0;
    let (_, a) = severed().step(ServeEvent::Severed(Err(e())));
    assert_eq!(serve_failure(a), "severing from ssh: E");
    let recorded = || severed().step(ServeEvent::Severed(Ok(()))).0;
    let (_, a) = recorded().step(ServeEvent::Registered(Err(e())));
    assert_eq!(serve_failure(a), "recording the session in the registry: E");
    let listening = || recorded().step(ServeEvent::Registered(Ok(()))).0;
    let (_, a) = listening().step(ServeEvent::PathTooLong(e()));
    assert_eq!(serve_failure(a), "E");
    let (_, a) = listening().step(ServeEvent::BindFailed { path: "/s".to_owned(), error: e() });
    assert_eq!(serve_failure(a), "binding the session socket at /s: E");
    let spawning = || listening().step(ServeEvent::Listening).0;
    let (_, a) = spawning().step(ServeEvent::Spawned(Err(e())));
    assert_eq!(serve_failure(a), "starting the shell: E");
    let (s, _) = running().step(ServeEvent::Ran(Err(e())));
    let (_, a) = s.step(ServeEvent::Closed);
    assert_eq!(serve_failure(a), "(finish) E");
}

#[test]
fn an_abandoned_attempt_sends_nothing_and_leaves_the_door_open() {
    let mut door = Door::new(ATTACH_TIMEOUT);
    assert!(matches!(door.step(DoorEvent::Came(false)), DoorAction::Wait));
    assert!(matches!(door.step(DoorEvent::Came(true)), DoorAction::Attach));
    assert!(matches!(door.step(DoorEvent::AttachFailed), DoorAction::Wait));
    assert_eq!(door.stage, DoorStage::Waiting);
    assert!(matches!(door.step(DoorEvent::Came(true)), DoorAction::Attach));
}

#[test]
fn a_stalled_attach_gives_up_and_the_door_opens_again() {
    let mut door = Door::new(ATTACH_TIMEOUT);
    door.step(DoorEvent::Came(true));
    match door.step(DoorEvent::TimedOut) {
        DoorAction::Complain(s) => assert_eq!(
            s,
            "oxutrm: an attach attempt got no further than 90s and was given up on; \
             the session is still accepting"
        ),
        other => panic!("a stalled attach was not given up on: {other:?}"),
    }
    assert_eq!(door.stage, DoorStage::Waiting);
}

#[test]
fn a_failed_attempt_does_not_write_its_generation_to_the_registry() {
    for event in [DoorEvent::AttachFailed, DoorEvent::TimedOut] {
        let mut door = Door::new(1);
        door.step(DoorEvent::Came(true));
        assert!(!matches!(door.step(event), DoorAction::RecordAndHand));
    }
    let mut door = Door::new(1);
    door.step(DoorEvent::Came(true));
    assert!(matches!(door.step(DoorEvent::Attached), DoorAction::RecordAndHand));
    assert!(matches!(door.step(DoorEvent::Came(true)), DoorAction::OutOfTurn));
    assert!(matches!(door.step(DoorEvent::Handed(true)), DoorAction::Wait));
}

#[test]
fn a_session_that_is_gone_closes_the_door() {
    let mut door = Door::new(1);
    door.step(DoorEvent::Came(true));
    door.step(DoorEvent::Attached);
    assert!(matches!(door.step(DoorEvent::Handed(false)), DoorAction::Stop));
    assert!(matches!(door.step(DoorEvent::Came(true)), DoorAction::OutOfTurn));
    assert_eq!(door.stage, DoorStage::Closed);
}

// ------------------------------------------------------------------ rebuilding

fn ssh_failed(stderr: &str) -> Failure {
    Failure {
        refused: None,
        ssh_stderr: Some(stderr.to_owned()),
        shown: format!("ssh: {stderr}"),
    }
}

/// An attempt whose ssh has been started.
fn opened() -> Attempt {
    let (mut a, action) =
        Attempt::start::<u8>("bastion.example.net".to_owned(), "abc123".to_owned());
    assert!(matches!(action, AttemptAction::Open));
    assert!(matches!(
        a.step::<u8>(AttemptEvent::Opened(Ok(()))),
        AttemptAction::ReadOffer
    ));
    a
}

#[test]
fn a_host_that_says_the_session_is_gone_is_definite() {
    let gone = Signal::Failed { reason: "no such session on this host".to_owned() };
    let mut a = opened();
    match a.step::<u8>(AttemptEvent::Offered(Ok((gone, "F".to_owned())))) {
        AttemptAction::End(AttemptOutcome::Definite(reason)) => {
            assert!(reason.contains("no such session"), "{reason}")
        }
        _ => panic!("expected Definite"),
    }
    assert_eq!(a.stage, AttemptStage::Over);
}

#[test]
fn an_ssh_that_dies_is_retried() {
    let outcome: AttemptOutcome<u8> = classify("box", ssh_failed("Network is unreachable"));
    match outcome {
        AttemptOutcome::Retry(why) => assert!(
            why.contains("Network is unreachable"),
            "the reason ssh gave was thrown away: {why}"
        ),
        other => panic!("expected Retry, got {other:?}"),
    }
}

#[test]
fn a_remote_that_rejects_the_option_is_definite() {
    for stderr in ["oxutrm host: unknown option \"--connect\"", "UNKNOWN Option"] {
        let outcome: AttemptOutcome<u8> = classify("bastion.example.net", ssh_failed(stderr));
        match outcome {
            AttemptOutcome::Definite(reason) => {
                assert!(
                    reason.contains("bastion.example.net"),
                    "must name the host to upgrade: {reason}"
                );
                assert!(
                    reason.ends_with(stderr),
                    "the far end's own words are the whole explanation: {reason}"
                );
            }
            other => panic!("expected Definite, got {other:?}"),
        }
    }
}

#[test]
fn an_attempt_asks_for_the_session_it_came_from() {
    let mut a = opened();
    let offer = Signal::Sessions { sessions: vec![] };
    match a.step::<u8>(AttemptEvent::Offered(Ok((offer, "S".to_owned())))) {
        AttemptAction::Send(Signal::Choose { choice }) => {
            assert_eq!(choice, Choice::Attach { id: "abc123".to_owned() })
        }
        _ => panic!("the offer was not answered"),
    }
    assert!(matches!(
        a.step::<u8>(AttemptEvent::Sent(Ok(()))),
        AttemptAction::Exchange
    ));
    assert!(matches!(
        a.step(AttemptEvent::Exchanged(Ok(9u8))),
        AttemptAction::End(AttemptOutcome::Landed(9))
    ));
    assert!(matches!(
        a.step(AttemptEvent::Exchanged(Ok(9u8))),
        AttemptAction::OutOfTurn
    ));
}

#[test]
fn what_ssh_wrote_is_judged_in_lower_case() {
    let judged = |lowered: &str| -> AttemptOutcome<u8> {
        classify_lowered("box", ssh_failed("Whatever"), lowered)
    };
    assert!(matches!(judged("unknown option"), AttemptOutcome::Definite(why)
        if why.ends_with("It said: Whatever")));
    assert!(matches!(judged("UNKNOWN OPTION"), AttemptOutcome::Retry(_)));
    assert!(matches!(judged(""), AttemptOutcome::Retry(_)));
}

#[test]
fn an_answer_outweighs_whatever_else_went_wrong() {
    let both = Failure {
        refused: Some("gone".to_owned()),
        ssh_stderr: Some("unknown option".to_owned()),
        shown: "x".to_owned(),
    };
    let outcome: AttemptOutcome<u8> = classify("box", both);
    assert!(matches!(outcome, AttemptOutcome::Definite(why) if why == "gone"));
}

#[test]
fn every_failure_of_an_attempt_is_classified() {
    let mut a = opened();
    let end = a.step::<u8>(AttemptEvent::Offered(Err(ssh_failed("eof"))));
    assert!(matches!(end, AttemptAction::End(AttemptOutcome::Retry(w)) if w == "ssh: eof"));
    let mut a = opened();
    let odd = Signal::CandidateUpdate { candidates: vec![] };
    let end = a.step::<u8>(AttemptEvent::Offered(Ok((odd, "ODD".to_owned()))));
    assert!(matches!(
        end,
        AttemptAction::End(AttemptOutcome::Retry(w))
            if w == "the host opened with ODD instead of its list of sessions"
    ));
    for stage in [AttemptStage::Ssh, AttemptStage::Choosing, AttemptStage::Exchange] {
        let mut a = Attempt {
            target: "box".to_owned(),
            session_id: "abc123".to_owned(),
            stage,
        };
        let f = ssh_failed("eof");
        let event: AttemptEvent<u8> = match stage {
            AttemptStage::Ssh => AttemptEvent::Opened(Err(f)),
            AttemptStage::Choosing => AttemptEvent::Sent(Err(f)),
            _ => AttemptEvent::Exchanged(Err(f)),
        };
        assert!(matches!(
            a.step(event),
            AttemptAction::End(AttemptOutcome::Retry(w)) if w == "ssh: eof"
        ));
    }
}

#[test]
fn a_rebuild_remembers_that_it_may_have_displaced_us() {
    let mut r = Rebuild::new("box".to_owned(), "abc123".to_owned());
    assert!(!r.is_running() && !r.may_have_displaced_us());
    let (attempt, action) = r.begin::<u8>();
    assert!(matches!(action, AttemptAction::Open));
    assert_eq!((attempt.target.as_str(), attempt.session_id.as_str()), ("box", "abc123"));
    assert!(r.is_running() && r.may_have_displaced_us());
    r.finished();
    assert!(!r.is_running());
    assert!(r.may_have_displaced_us(), "it outlives the attempt");
    r.swapped();
    assert!(!r.may_have_displaced_us());
    r.begin::<u8>();
    assert!(r.cancel(), "there was one to abort");
    assert!(!r.cancel());
    assert!(r.may_have_displaced_us());
}

#[test]
fn a_rebuild_never_stops_to_ask() {
    assert_eq!(batch_mode(), ("-o", "BatchMode=yes"));
}

// --------------------------------------------------------------------- looping

/// Drive a turn: which actions it asked for, and how it ended.
fn turn(l: &mut Loopback, typed: usize, events: Vec<TurnEvent>) -> (Vec<String>, TurnAction) {
    let mut asked = Vec::new();
    let mut action = l.tick(typed);
    for event in events {
        asked.push(format!("{action:?}"));
        action = l.step(event);
    }
    (asked, action)
}

fn quiet() -> Vec<TurnEvent> {
    vec![
        TurnEvent::InputFrame(false),
        TurnEvent::Polled(false),
        TurnEvent::ScreenFrame(None),
        TurnEvent::Exited(None),
    ]
}

#[test]
fn nothing_is_sent_when_nothing_happened() {
    let mut l = Loopback::new(size());
    for _ in 0..20 {
        let (_, end) = turn(&mut l, 0, quiet());
        assert!(matches!(end, TurnAction::End(t) if t == Tick::default()));
    }
    assert_eq!((l.frames_sent, l.bytes_sent), (0, 0));
    assert_eq!(l.stage, TurnStage::Rest);
}

#[test]
fn keystrokes_and_the_answer_make_one_turn() {
    let mut l = Loopback::new(size());
    let (asked, end) = turn(
        &mut l,
        5,
        vec![
            TurnEvent::Done,
            TurnEvent::InputFrame(true),
            TurnEvent::InputApplied { new: true, pending: 5 },
            TurnEvent::Done,
            TurnEvent::Done,
            TurnEvent::Polled(true),
            TurnEvent::Done,
            TurnEvent::ScreenFrame(Some(120)),
            TurnEvent::ScreenApplied(true),
            TurnEvent::Done,
            TurnEvent::Exited(None),
        ],
    );
    assert_eq!(
        asked,
        [
            "Append",
            "OfferInput",
            "ApplyInput",
            "WriteInput",
            "ConsumeInput(5)",
            "Poll",
            "Capture",
            "OfferScreen",
            "ApplyScreen",
            "Render",
            "AskExit",
        ]
    );
    assert!(matches!(
        end,
        TurnAction::End(Tick {
            screen_frame: true,
            input_frame: true,
            screen_bytes: 120,
            rendered: true,
            exited: None,
        })
    ));
    assert_eq!((l.frames_sent, l.bytes_sent), (1, 120));
}

#[test]
fn input_is_never_written_to_the_shell_twice() {
    let mut l = Loopback::new(size());
    for (new, pending) in [(false, 5), (true, 0), (false, 0)] {
        let (asked, _) = turn(
            &mut l,
            0,
            vec![
                TurnEvent::InputFrame(true),
                TurnEvent::InputApplied { new, pending },
                TurnEvent::Polled(false),
            ],
        );
        assert!(!asked.iter().any(|a| a.starts_with("WriteInput")), "{asked:?}");
        assert_eq!(l.tick.input_frame, new);
    }
}

#[test]
fn a_screen_frame_that_is_not_new_is_not_painted() {
    let mut l = Loopback::new(size());
    let (_, end) = turn(
        &mut l,
        0,
        vec![
            TurnEvent::InputFrame(false),
            TurnEvent::Polled(false),
            TurnEvent::ScreenFrame(Some(7)),
            TurnEvent::ScreenApplied(false),
            TurnEvent::Exited(None),
        ],
    );
    assert!(matches!(
        end,
        TurnAction::End(t) if t == (Tick { screen_bytes: 7, ..Tick::default() })
    ));
    assert_eq!(l.frames_sent, 1);
}

#[test]
fn the_loop_notices_when_the_child_exits() {
    let mut l = Loopback::new(size());
    let mut events = quiet();
    events.pop();
    events.push(TurnEvent::Exited(Some(7)));
    let (_, end) = turn(&mut l, 0, events);
    assert!(matches!(end, TurnAction::End(t) if t.exited == Some(7)));
}

#[test]
fn a_turn_that_fails_says_what_it_was_doing() {
    for (what, says) in [(Some("applying".to_owned()), "applying: E"), (None, "E")] {
        let mut l = Loopback::new(size());
        l.tick(0);
        match l.step(TurnEvent::Failed { what, error: "E".to_owned() }) {
            TurnAction::Fail(t) => assert_eq!(t.message(), says),
            other => panic!("the turn went on: {other:?}"),
        }
        assert_eq!(l.stage, TurnStage::Rest);
        assert!(matches!(l.step(TurnEvent::Done), TurnAction::OutOfTurn));
    }
}

#[test]
fn resizing_to_the_same_size_is_a_no_op() {
    let mut l = Loopback::new(size());
    assert!(!l.wants_resize(size()));
    assert_eq!(l.size, size());
    let bigger = TermSize { cols: 100, rows: 30 };
    assert!(l.wants_resize(bigger));
    l.resize(bigger);
    assert_eq!(l.size, bigger);
    assert!(!l.wants_resize(bigger));
}

#[test]
fn every_turn_reports_what_it_did() {
    let mut l = Loopback::new(size());
    for (frame, new) in [(None, false), (Some(40), true), (Some(7), false), (Some(9), true)] {
        let (frames, bytes) = (l.frames_sent, l.bytes_sent);
        let mut events = vec![
            TurnEvent::InputFrame(false),
            TurnEvent::Polled(false),
            TurnEvent::ScreenFrame(frame),
        ];
        if frame.is_some() {
            events.push(TurnEvent::ScreenApplied(new));
        }
        if new {
            events.push(TurnEvent::Done);
        }
        events.push(TurnEvent::Exited(None));
        let (_, end) = turn(&mut l, 0, events);
        let TurnAction::End(tick) = end else { panic!("the turn did not end: {end:?}") };
        assert_eq!(tick.rendered, tick.screen_frame);
        assert_eq!(tick.screen_frame, new);
        assert_eq!(l.frames_sent - frames, u64::from(frame.is_some()));
        assert_eq!(l.bytes_sent - bytes, tick.screen_bytes as u64);
    }
}

#[test]
fn every_byte_is_written_once_over_many_turns() {
    let mut l = Loopback::new(size());
    let (mut held, mut shell, mut given) = (Vec::new(), Vec::new(), Vec::new());
    for input in [&b"ab"[..], b"", b"c", b"", b"def"] {
        given.extend_from_slice(input);
        let mut action = l.tick(input.len());
        let sent = loop {
            let event = match action {
                TurnAction::Append => {
                    held.extend_from_slice(input);
                    TurnEvent::Done
                }
                TurnAction::OfferInput => TurnEvent::InputFrame(true),
                TurnAction::ApplyInput => {
                    TurnEvent::InputApplied { new: !input.is_empty(), pending: held.len() }
                }
                TurnAction::WriteInput => {
                    shell.extend_from_slice(&held);
                    TurnEvent::Done
                }
                TurnAction::ConsumeInput(n) => {
                    held.drain(..n);
                    TurnEvent::Done
                }
                TurnAction::Poll => TurnEvent::Polled(false),
                TurnAction::OfferScreen => TurnEvent::ScreenFrame(None),
                TurnAction::AskExit => TurnEvent::Exited(None),
                TurnAction::End(tick) => break tick.screen_bytes,
                other => panic!("nothing was to be shown: {other:?}"),
            };
            action = l.step(event);
        };
        assert_eq!(sent, 0);
        assert_eq!([&shell[..], &held[..]].concat(), given);
    }
    assert_eq!(shell, b"abcdef");
}
