//! The exchange of an attach, from both ends, and what each message means.

use oxutrm::accept::{accept_one, screen_incoming, AcceptEnd, Admission};
use oxutrm::addr::{IpAddr, SocketAddr};
use oxutrm::attach_exchange::{
    host_hello, HostAction, HostEvent, HostExchange, HostStage, SessionMeta,
};
use oxutrm::caps::caps_from;
use oxutrm::chooser::{Choice, SessionSummary};
use oxutrm::connect::{
    ClientAction, ClientEvent, ClientExchange, ClientStage, Connect, ConnectAction, ConnectEvent,
};
use oxutrm::ladder::{Candidate, CandidateKind, Nomination, Rung};
use oxutrm::screen::TermSize;
use oxutrm::serve::fresh_meta;
use oxutrm::signal::{
    client_facts, established_path, host_facts, inbound_candidates, outbound_candidate,
    path_description, sessions_offered, ClientSpki, HostSpki, Inbound, NatType, PathDescription,
    Psk, Signal, Trouble,
};

const PROTO: u32 = 3;

const SPKI: HostSpki = HostSpki { bytes: [7; 32] };

const PSK: Psk = Psk { bytes: [2; 32] };

const CLIENT: ClientSpki = ClientSpki { bytes: [9; 32] };

fn v4(a: u8, b: u8, c: u8, d: u8, port: u16) -> SocketAddr {
    SocketAddr {
        ip: IpAddr::V4(u32::from_be_bytes([a, b, c, d])),
        port,
        flow_info: 0,
        scope_id: 0,
    }
}

fn candidate(port: u16) -> Candidate {
    Candidate {
        addr: v4(192, 0, 2, 1, port),
        kind: CandidateKind::PeerReflexive,
        priority: 1,
    }
}

fn size() -> TermSize {
    TermSize { cols: 132, rows: 43 }
}

fn nomination(rung: Rung, probes: u32) -> Nomination<()> {
    Nomination {
        socket: (),
        local: v4(127, 0, 0, 1, 4000),
        remote: v4(198, 51, 100, 9, 7777),
        rung,
        probes,
    }
}

fn a_client_hello() -> Signal {
    Signal::ClientHello {
        proto: PROTO,
        cert_spki_sha256: CLIENT,
        candidates: vec![candidate(6001)],
        nat_type: NatType::AddressDependent,
        caps: caps_from("xterm-256color", "truecolor"),
        size: size(),
    }
}

fn a_host_hello() -> Signal {
    Signal::HostHello {
        proto: PROTO,
        session_id: "f00d".to_owned(),
        attach_id: 3,
        cert_spki_sha256: HostSpki { bytes: [1; 32] },
        psk: PSK,
        candidates: vec![Candidate {
            addr: v4(203, 0, 113, 4, 5000),
            kind: CandidateKind::ServerReflexive,
            priority: 7,
        }],
        nat_type: NatType::AddressDependent,
        bound_port: 5000,
        detachable: true,
    }
}

fn a_path() -> PathDescription {
    PathDescription {
        rung: Rung::StunPunch,
        local: v4(192, 0, 2, 1, 1),
        remote: v4(198, 51, 100, 1, 2),
        probes_sent: 4,
        nat_type: NatType::EndpointIndependent,
        rtt_ms: 11,
        mtu: 1452,
    }
}

fn failed(reason: &str) -> Signal {
    Signal::Failed { reason: reason.to_owned() }
}

fn ports(candidates: &[Candidate]) -> Vec<u16> {
    candidates.iter().map(|c| c.addr.port).collect()
}

fn trouble<T>(r: Result<T, Trouble>) -> Trouble {
    match r {
        Ok(_) => panic!("it was expected to fail"),
        Err(t) => t,
    }
}

// ------------------------------------------------------------------ messages

#[test]
fn the_offer_carries_this_attachs_own_generation_and_port() {
    let hello = host_hello(
        PROTO,
        "beef",
        1,
        SPKI,
        PSK,
        vec![candidate(3001)],
        NatType::NoNat,
        4433,
    );
    match hello {
        Signal::HostHello {
            proto,
            session_id,
            attach_id,
            bound_port,
            candidates,
            nat_type,
            cert_spki_sha256,
            psk,
            ..
        } => {
            assert_eq!(proto, PROTO);
            assert_eq!(session_id, "beef");
            assert_eq!(attach_id, 1, "a stale generation");
            assert_eq!(bound_port, 4433);
            assert_eq!(candidates.len(), 1);
            assert_eq!(nat_type, NatType::NoNat);
            assert_eq!(cert_spki_sha256, SPKI);
            assert!(psk == PSK);
        }
        _ => panic!("host_hello composed something else"),
    }
}

#[test]
fn the_offer_states_the_intent_to_detach_because_the_outcome_is_not_known_yet() {
    let hello = host_hello(PROTO, "beef", 1, SPKI, PSK, Vec::new(), NatType::Symmetric, 0);
    match hello {
        Signal::HostHello { detachable, .. } => assert!(
            detachable,
            "the host's offer must state its intent; the rung settles the outcome"
        ),
        _ => panic!("host_hello composed something else"),
    }
}

#[test]
fn the_offer_yields_the_key_material_and_the_peers_candidates() {
    let Ok(facts) = host_facts(a_host_hello(), "HostHello") else {
        panic!("a hello is an offer");
    };
    assert_eq!(facts.host_spki, HostSpki { bytes: [1; 32] });
    assert!(facts.psk == PSK);
    assert_eq!(facts.nat, NatType::AddressDependent);
    assert_eq!(facts.candidates.len(), 1);
    assert_eq!((facts.session_id.as_str(), facts.attach_id), ("f00d", 3));
}

#[test]
fn a_host_that_gives_up_is_reported_with_its_own_reason() {
    let error = trouble(host_facts(failed("no usable path to the host"), "Failed"));
    assert!(
        error.message().contains("no usable path to the host"),
        "the host's own reason was thrown away: {}",
        error.message()
    );
    assert_eq!(error.refused.as_deref(), Some("no usable path to the host"));
}

#[test]
fn a_message_that_is_not_an_offer_is_not_treated_as_one() {
    let error = trouble(host_facts(
        Signal::CandidateUpdate { candidates: vec![] },
        "CandidateUpdate { candidates: [] }",
    ));
    assert!(error.message().contains("CandidateUpdate"));
    assert_eq!(error.refused, None);
}

#[test]
fn the_path_comes_from_the_hosts_established() {
    let got = established_path(Signal::Established { path: a_path() }, "Established")
        .expect("an Established carries the path");
    assert_eq!(got.rung, a_path().rung);
    assert_eq!(got.mtu, 1452);
}

#[test]
fn a_host_that_gives_up_after_nomination_is_still_reported_with_its_reason() {
    let error = trouble(established_path(
        failed("no client completed a QUIC handshake"),
        "Failed",
    ));
    assert!(
        error.message().contains("no client completed a QUIC handshake"),
        "the host's own reason was thrown away: {}",
        error.message()
    );
}

#[test]
fn a_message_out_of_place_is_named() {
    assert_eq!(
        trouble(sessions_offered(a_client_hello(), "SHOWN")).message(),
        "the host opened with SHOWN instead of its list of sessions"
    );
    assert_eq!(
        trouble(host_facts(a_client_hello(), "SHOWN")).message(),
        "the host opened with SHOWN instead of its hello"
    );
    assert_eq!(
        trouble(established_path(a_client_hello(), "SHOWN")).message(),
        "the host sent SHOWN where the link should have been declared up"
    );
    assert_eq!(
        trouble(client_facts(a_host_hello(), "SHOWN")).message(),
        "the client answered the offer with SHOWN instead of its hello"
    );
    assert_eq!(
        trouble(sessions_offered(failed("full"), "SHOWN")).message(),
        "the host gave up: full"
    );
}

#[test]
fn a_client_that_gives_up_is_reported_with_its_own_reason() {
    let error = trouble(client_facts(failed("no usable network interface"), "Failed"));
    assert!(
        error.message().contains("no usable network interface"),
        "the client's own reason was thrown away: {}",
        error.message()
    );
}

#[test]
fn every_learned_candidate_reaches_the_peer_as_a_candidate_update() {
    let mut told = Vec::new();
    for c in [candidate(4001), candidate(4002)] {
        match outbound_candidate(c) {
            Signal::CandidateUpdate { candidates } => told.extend(ports(&candidates)),
            _ => panic!("the pump wrote something that is not an update"),
        }
    }
    assert_eq!(told, vec![4001, 4002]);
}

#[test]
fn a_candidate_that_arrives_during_the_race_reaches_the_ladder() {
    let mut fed = Vec::new();
    for s in [
        Signal::CandidateUpdate { candidates: vec![candidate(5001)] },
        Signal::CandidateUpdate { candidates: vec![candidate(5002)] },
        failed("stop"),
    ] {
        match inbound_candidates(s) {
            Inbound::Feed(candidates) => fed.extend(ports(&candidates)),
            Inbound::Message(_) => break,
        }
    }
    assert_eq!(fed, vec![5001, 5002]);
}

#[test]
fn the_signal_that_ends_the_race_is_handed_back_not_swallowed() {
    match inbound_candidates(failed("the peer gave up")) {
        Inbound::Message(Signal::Failed { reason }) => assert_eq!(reason, "the peer gave up"),
        _ => panic!("the pump handed back the wrong signal"),
    }
}

#[test]
fn the_mtu_comes_from_the_live_connection_and_not_from_a_constant() {
    let nom = nomination(Rung::StunPunch, 12);
    let path = path_description(&nom, NatType::EndpointIndependent, 5, 1337);
    assert_eq!(path.mtu, 1337);
}

#[test]
fn the_rtt_comes_from_the_live_connection() {
    let nom = nomination(Rung::StunPunch, 12);
    let path = path_description(&nom, NatType::EndpointIndependent, 123, 1337);
    assert_eq!(path.rtt_ms, 123);
    let slow = path_description(&nom, NatType::EndpointIndependent, u128::MAX, 1337);
    assert_eq!(slow.rtt_ms, u32::MAX, "very slow, and not very fast");
}

#[test]
fn the_ladders_own_findings_are_carried_through_unchanged() {
    let nom = nomination(Rung::Birthday, 4321);
    let path = path_description(&nom, NatType::Symmetric, 1, 1200);
    assert_eq!(path.rung, Rung::Birthday);
    assert_eq!(path.probes_sent, 4321);
    assert_eq!(path.nat_type, NatType::Symmetric);
    assert_eq!((path.local, path.remote), (nom.local, nom.remote));
}

// ------------------------------------------------------------- the host's end

fn meta(id: &str) -> SessionMeta {
    fresh_meta(id.to_owned(), 77, 0, Some("/bin/sh".to_owned()))
}

/// An attach up to where the offer has been composed.
fn offering() -> (HostExchange, Signal) {
    let (x, action) = HostExchange::start(PROTO, meta("seam"));
    assert!(matches!(action, HostAction::MakeCertificate));
    let (x, action) = x.step(HostEvent::Certificate(Ok(SPKI)));
    assert!(matches!(action, HostAction::BeginAttach { spki } if spki == SPKI));
    let (x, action) = x.step(HostEvent::Generation(Ok((1, PSK))));
    assert!(matches!(action, HostAction::Bind));
    let (x, action) = x.step(HostEvent::Bound { port: 4433, local: vec![candidate(1)] });
    assert!(matches!(action, HostAction::Discover));
    let (x, action) = x.step(HostEvent::Discovered {
        reflexive: vec![candidate(2)],
        nat_type: NatType::EndpointIndependent,
    });
    match action {
        HostAction::Send(hello) => (x, hello),
        _ => panic!("nothing was offered"),
    }
}

/// An attach up to where the ladder is running.
fn racing() -> HostExchange {
    let (x, _) = offering();
    let (x, action) = x.step(HostEvent::Sent(Ok(())));
    assert!(matches!(action, HostAction::Read));
    let (x, action) = x.step(HostEvent::Heard(Ok((a_client_hello(), "ClientHello".to_owned()))));
    match action {
        HostAction::Race { psk, nat_type, local, remote } => {
            assert!(psk == PSK);
            assert_eq!(nat_type, NatType::EndpointIndependent);
            assert_eq!(ports(&local), [1, 2]);
            assert_eq!(ports(&remote), [6001]);
        }
        _ => panic!("the ladder was not run"),
    }
    x
}

/// An attach up to where the client's connection is awaited.
fn accepting() -> HostExchange {
    let (x, action) = racing().step(HostEvent::Raced(Ok(nomination(Rung::StunPunch, 12))));
    assert!(matches!(action, HostAction::Drain));
    let (x, action) = x.step(HostEvent::Drained(Ok(())));
    assert!(matches!(action, HostAction::BringUp { client_spki } if client_spki == CLIENT));
    let (x, action) = x.step(HostEvent::EndpointUp(Ok(())));
    assert!(matches!(
        action,
        HostAction::Accept { nominated } if nominated == v4(198, 51, 100, 9, 7777)
    ));
    x
}

fn host_failure(action: HostAction) -> String {
    match action {
        HostAction::Fail(t) => t.message(),
        _ => panic!("the attach went on"),
    }
}

#[test]
fn the_host_speaks_first_so_a_client_that_waits_is_not_a_deadlock() {
    let (x, hello) = offering();
    assert!(matches!(hello, Signal::HostHello { attach_id: 1, bound_port: 4433, .. }));
    assert!(matches!(x.stage, HostStage::Offer { .. }), "nothing is read yet");
    let (_, action) = x.step(HostEvent::Sent(Ok(())));
    assert!(matches!(action, HostAction::Read));
}

#[test]
fn the_exchange_never_settles_detachability() {
    let (x, _) = offering();
    let (x, action) = x.step(HostEvent::Sent(Err("broken pipe".to_owned())));
    assert_eq!(
        host_failure(action),
        "offering the session to the client: broken pipe"
    );
    assert!(!x.meta.detachable, "that belongs to the caller");
    assert_eq!(x.meta.attach_id, 1, "the generation is still started");
}

#[test]
fn a_whole_attach_as_the_host_sees_it() {
    let (x, action) = accepting().step(HostEvent::Accepted(Ok((23, 1337))));
    let path = match action {
        HostAction::Send(Signal::Established { path }) => path,
        _ => panic!("the client was not told"),
    };
    assert_eq!((path.rtt_ms, path.mtu, path.probes_sent), (23, 1337, 12));
    let (x, action) = x.step(HostEvent::Sent(Ok(())));
    assert!(matches!(
        action,
        HostAction::Done { path: p, client_size } if p == path && client_size == size()
    ));
    assert_eq!(x.meta.size, size());
    assert_eq!((x.meta.attach_id, x.meta.pid), (1, 77));
    assert!(!x.meta.detachable);
    assert!(matches!(x.stage, HostStage::Over));
    let (_, action) = x.step(HostEvent::Sent(Ok(())));
    assert!(matches!(action, HostAction::OutOfTurn));
}

#[test]
fn a_ladder_that_found_nothing_is_told_to_the_client_first() {
    let (x, action) = racing().step(HostEvent::Raced(Err("every rung".to_owned())));
    assert!(matches!(action, HostAction::Drain));
    let (x, action) = x.step(HostEvent::Drained(Ok(())));
    assert!(matches!(
        action,
        HostAction::Send(Signal::Failed { reason }) if reason == "every rung"
    ));
    let (_, action) = x.step(HostEvent::Sent(Err("gone".to_owned())));
    assert_eq!(
        host_failure(action),
        "no rung of the ladder produced a path: every rung"
    );
}

#[test]
fn every_way_an_attach_fails_on_the_host() {
    let e = || "E".to_owned();
    let start = || HostExchange::start(PROTO, meta("seam")).0;
    let (_, a) = start().step(HostEvent::Certificate(Err(e())));
    assert_eq!(host_failure(a), "generating this attach's certificate: E");
    let (x, _) = start().step(HostEvent::Certificate(Ok(SPKI)));
    let (x, a) = x.step(HostEvent::Generation(Err(e())));
    assert_eq!(host_failure(a), "starting an attach generation: E");
    assert_eq!(x.meta.attach_id, 0);
    for (event, says) in [
        (HostEvent::BindFailed(e()), "binding a UDP socket: E"),
        (HostEvent::AdoptFailed(e()), "handing the socket to the runtime: E"),
    ] {
        let (x, _) = start().step(HostEvent::Certificate(Ok(SPKI)));
        let (x, _) = x.step(HostEvent::Generation(Ok((1, PSK))));
        assert_eq!(host_failure(x.step(event).1), says);
    }
    for (heard, says) in [
        (Err(e()), "reading the client's hello: E"),
        (
            Ok((failed("R"), e())),
            "the client gave up before the ladder ran: R",
        ),
        (
            Ok((a_host_hello(), e())),
            "the client answered the offer with E instead of its hello",
        ),
    ] {
        let (x, _) = offering();
        let (x, _) = x.step(HostEvent::Sent(Ok(())));
        assert_eq!(host_failure(x.step(HostEvent::Heard(heard)).1), says);
    }
    for (event, says) in [
        (HostEvent::PumpLost(e()), "the outbound candidate pump: E"),
        (HostEvent::Drained(Err(e())), "sending our candidates to the client: E"),
    ] {
        let (x, _) = racing().step(HostEvent::Raced(Ok(nomination(Rung::StunPunch, 1))));
        assert_eq!(host_failure(x.step(event).1), says);
    }
    let (x, _) = racing().step(HostEvent::Raced(Ok(nomination(Rung::StunPunch, 1))));
    let (x, _) = x.step(HostEvent::Drained(Ok(())));
    let (_, a) = x.step(HostEvent::EndpointUp(Err(e())));
    assert_eq!(
        host_failure(a),
        "bringing up the QUIC endpoint on the nominated socket: E"
    );
    let (_, a) = accepting().step(HostEvent::Accepted(Err(e())));
    assert_eq!(host_failure(a), "E");
    let (x, _) = accepting().step(HostEvent::Accepted(Ok((1, 2))));
    let (_, a) = x.step(HostEvent::Sent(Err(e())));
    assert_eq!(host_failure(a), "telling the client the path is up: E");
}

// ----------------------------------------------------------- the client's end

/// An attach up to where the host's offer is being read.
fn waiting() -> ClientExchange {
    let (x, action) = ClientExchange::start(PROTO, size(), caps_from("dumb", ""));
    assert!(matches!(action, ClientAction::Bind));
    let (x, action) = x.step(ClientEvent::Bound(vec![candidate(1)]));
    assert!(matches!(action, ClientAction::Read));
    x
}

/// An attach up to where the certificate is being made.
fn certifying() -> ClientExchange {
    let (x, action) = waiting().step(ClientEvent::Heard(Ok((a_host_hello(), "H".to_owned()))));
    assert!(matches!(action, ClientAction::Discover));
    let (x, action) = x.step(ClientEvent::Discovered {
        reflexive: vec![candidate(2)],
        nat_type: NatType::Symmetric,
    });
    assert!(matches!(action, ClientAction::MakeCertificate));
    x
}

/// An attach up to where the answer has been composed.
fn answering() -> (ClientExchange, Signal) {
    match certifying().step(ClientEvent::Certificate(Ok(CLIENT))) {
        (x, ClientAction::Send(hello)) => (x, hello),
        _ => panic!("the offer was not answered"),
    }
}

/// An attach up to where the ladder is running.
fn climbing() -> ClientExchange {
    let (x, _) = answering();
    let (x, action) = x.step(ClientEvent::Sent(Ok(())));
    match action {
        ClientAction::Race { psk, nat_type, local, remote } => {
            assert!(psk == PSK);
            assert_eq!(nat_type, NatType::Symmetric);
            assert_eq!(ports(&local), [1, 2]);
            assert_eq!(ports(&remote), [5000]);
        }
        _ => panic!("the ladder was not run"),
    }
    x
}

/// An attach up to where the host's verdict is awaited.
fn connected() -> ClientExchange {
    let (x, action) = climbing().step(ClientEvent::Raced {
        outcome: Ok(nomination(Rung::StunPunch, 3)),
        sent: Ok(()),
    });
    assert!(matches!(
        action,
        ClientAction::Connect { remote, host_spki }
            if remote == v4(198, 51, 100, 9, 7777) && host_spki == (HostSpki { bytes: [1; 32] })
    ));
    let (x, action) = x.step(ClientEvent::Connected(Ok(())));
    assert!(matches!(action, ClientAction::Read));
    x
}

fn client_failure(action: ClientAction) -> Trouble {
    match action {
        ClientAction::Fail(t) => t,
        _ => panic!("the attach went on"),
    }
}

#[test]
fn a_client_and_a_host_complete_an_exchange_over_a_pipe() {
    // The host's offer goes to the client, the client's answer to the host,
    // and the host's verdict back again.
    let (host, offer) = offering();
    let (client, _) = waiting().step(ClientEvent::Heard(Ok((offer, "offer".to_owned()))));
    let (client, _) = client.step(ClientEvent::Discovered {
        reflexive: vec![],
        nat_type: NatType::NoNat,
    });
    let (client, action) = client.step(ClientEvent::Certificate(Ok(CLIENT)));
    let ClientAction::Send(answer) = action else {
        panic!("the offer was not answered");
    };
    let (client, _) = client.step(ClientEvent::Sent(Ok(())));
    let (host, _) = host.step(HostEvent::Sent(Ok(())));
    let (host, _) = host.step(HostEvent::Heard(Ok((answer, "answer".to_owned()))));
    let (host, _) = host.step(HostEvent::Raced(Ok(nomination(Rung::StunPunch, 5))));
    let (host, _) = host.step(HostEvent::Drained(Ok(())));
    let (host, _) = host.step(HostEvent::EndpointUp(Ok(())));
    let (client, _) = client.step(ClientEvent::Raced {
        outcome: Ok(nomination(Rung::StunPunch, 6)),
        sent: Ok(()),
    });
    let (client, _) = client.step(ClientEvent::Connected(Ok(())));
    let (host, action) = host.step(HostEvent::Accepted(Ok((9, 1400))));
    let HostAction::Send(verdict) = action else {
        panic!("the client was not told");
    };
    let (_, action) = client.step(ClientEvent::Heard(Ok((verdict, "verdict".to_owned()))));
    match action {
        ClientAction::Done { path, session_id, attach_id } => {
            assert_eq!(session_id, "seam", "the client must keep the session id");
            assert_eq!(attach_id, 1, "and see the generation that was started");
            assert_eq!((path.rtt_ms, path.mtu), (9, 1400));
        }
        _ => panic!("the attach did not complete"),
    }
    let (_, action) = host.step(HostEvent::Sent(Ok(())));
    assert!(matches!(
        action,
        HostAction::Done { client_size, .. } if client_size == size()
    ));
}

#[test]
fn the_clients_answer_says_what_it_is() {
    let (_, hello) = answering();
    match hello {
        Signal::ClientHello { proto, cert_spki_sha256, candidates, nat_type, caps, size: z } => {
            assert_eq!(proto, PROTO);
            assert_eq!(cert_spki_sha256, CLIENT);
            assert_eq!(ports(&candidates), [1, 2]);
            assert_eq!(nat_type, NatType::Symmetric);
            assert_eq!(caps, caps_from("dumb", ""));
            assert_eq!(z, size());
        }
        _ => panic!("the client answered with something else"),
    }
}

#[test]
fn every_way_an_attach_fails_on_the_client() {
    let e = || "E".to_owned();
    let start = || ClientExchange::start(PROTO, size(), caps_from("dumb", "")).0;
    for (event, says) in [
        (ClientEvent::BindFailed(e()), "binding a UDP socket: E"),
        (ClientEvent::AdoptFailed(e()), "handing the socket to the runtime: E"),
    ] {
        assert_eq!(client_failure(start().step(event).1).message(), says);
    }
    let (_, a) = waiting().step(ClientEvent::Heard(Err(e())));
    assert_eq!(client_failure(a).message(), "reading the host's offer: E");
    let (_, a) = certifying().step(ClientEvent::Certificate(Err(e())));
    assert_eq!(client_failure(a).message(), "generating this attach's certificate: E");
    let (_, a) = answering().0.step(ClientEvent::Sent(Err(e())));
    assert_eq!(client_failure(a).message(), "answering the host's offer: E");
    for (outcome, sent, says) in [
        (
            Err("R".to_owned()),
            Err(e()),
            "sending our candidates to the host: E",
        ),
        (
            Err("R".to_owned()),
            Ok(()),
            "no rung of the ladder reached the host: R",
        ),
    ] {
        let (_, a) = climbing().step(ClientEvent::Raced { outcome, sent });
        assert_eq!(client_failure(a).message(), says);
    }
    let (_, a) = climbing().step(ClientEvent::Heard(Err(e())));
    assert_eq!(client_failure(a).message(), "reading from the host: E");
    let (x, _) = climbing().step(ClientEvent::Raced {
        outcome: Ok(nomination(Rung::StunPunch, 3)),
        sent: Ok(()),
    });
    let (_, a) = x.step(ClientEvent::Connected(Err(e())));
    assert_eq!(
        client_failure(a).message(),
        "bringing up QUIC over the nominated path: E"
    );
    let (_, a) = connected().step(ClientEvent::Heard(Err(e())));
    let t = client_failure(a);
    assert_eq!(t.what, "waiting for the host's verdict");
    assert_eq!(t.cause.as_deref(), Some("E"));
}

#[test]
fn a_host_that_gives_up_keeps_its_words_wherever_it_does() {
    for x in [waiting(), climbing(), connected()] {
        let (x, a) = x.step(ClientEvent::Heard(Ok((failed("full"), "F".to_owned()))));
        let t = client_failure(a);
        assert_eq!(t.refused.as_deref(), Some("full"));
        assert_eq!(t.message(), "the host gave up: full");
        assert!(matches!(x.stage, ClientStage::Over));
    }
}

#[test]
fn a_path_declared_before_one_was_nominated_is_out_of_turn() {
    let early = Signal::Established { path: a_path() };
    let (x, a) = climbing().step(ClientEvent::Heard(Ok((early, "E".to_owned()))));
    assert!(matches!(a, ClientAction::OutOfTurn));
    assert!(matches!(x.stage, ClientStage::Race { .. }));
}

// ----------------------------------------------------------- a whole connect

fn offered(id: &str, detachable: bool) -> SessionSummary {
    SessionSummary {
        session_id: id.to_owned(),
        created_unix: 1_757_200_000,
        shell: "/bin/sh".to_owned(),
        size: TermSize { cols: 80, rows: 24 },
        detachable,
        attach_id: 1,
    }
}

/// A connect that has read a list of sessions.
fn told(attach: Option<&str>, new: bool, sessions: Vec<SessionSummary>) -> (Connect, ConnectAction) {
    let (c, action) = Connect::start("box".to_owned(), attach.map(str::to_owned), new);
    assert!(matches!(action, ConnectAction::Open));
    let (c, action) = c.step(ConnectEvent::Opened(Ok(())));
    assert!(matches!(action, ConnectAction::ReadOffer));
    c.step(ConnectEvent::Offered(Ok((Signal::Sessions { sessions }, "S".to_owned()))))
}

/// A connect up to where the attach is complete and the terminal is still as
/// the user left it.
fn attached() -> Connect {
    let (c, _) = told(None, false, vec![]);
    let (c, action) = c.step(ConnectEvent::Sent(Ok(())));
    assert!(matches!(action, ConnectAction::Measure));
    let (c, action) = c.step(ConnectEvent::Measured(Ok(size())));
    assert!(matches!(action, ConnectAction::Exchange { size: z } if z == size()));
    let (c, action) = c.step(ConnectEvent::Exchanged(Ok((a_path(), "f00d".to_owned()))));
    assert!(matches!(
        action,
        ConnectAction::EnterRaw { say } if say == "oxutrm: session f00d.\n"
    ));
    c
}

fn connect_failure(action: ConnectAction) -> String {
    match action {
        ConnectAction::Fail(t) => t.message(),
        ConnectAction::LeaveRaw(Err(t)) => format!("(raw) {}", t.message()),
        _ => panic!("the connect went on"),
    }
}

#[test]
fn the_client_reads_the_offer_decides_and_answers_it() {
    let (_, action) = told(None, false, vec![offered(&"a".repeat(32), true)]);
    match action {
        ConnectAction::Send(Signal::Choose { choice }) => {
            assert_eq!(choice, Choice::Attach { id: "a".repeat(32) })
        }
        _ => panic!("the one live, detachable session must be resumed without asking"),
    }
}

#[test]
fn a_connect_that_has_to_ask_asks_until_it_is_answered() {
    let (c, action) = told(None, false, vec![offered("aaaa", true), offered("bbbb", false)]);
    assert!(matches!(
        action,
        ConnectAction::Ask { say } if say.starts_with("sessions live on this host:\n")
    ));
    let (c, action) = c.step(ConnectEvent::Line(Ok(Some("2\n".to_owned()))));
    assert!(matches!(action, ConnectAction::Ask { say } if say.contains("not detachable")));
    let (_, action) = c.step(ConnectEvent::Line(Ok(Some("1\n".to_owned()))));
    assert!(matches!(
        action,
        ConnectAction::Send(Signal::Choose { choice: Choice::Attach { id } }) if id == "aaaa"
    ));
}

#[test]
fn a_connect_that_is_not_answered_ends_quietly() {
    let (c, _) = told(None, false, vec![offered("aaaa", true), offered("bbbb", true)]);
    let (c, action) = c.step(ConnectEvent::Line(Ok(None)));
    assert!(matches!(action, ConnectAction::Exit { code: 0, complaint: None }));
    let (_, action) = c.step(ConnectEvent::Line(Ok(None)));
    assert!(matches!(action, ConnectAction::OutOfTurn));
}

#[test]
fn a_refused_connect_ends_with_a_complaint() {
    let (_, action) = told(Some("abc"), false, vec![]);
    match action {
        ConnectAction::Exit { code, complaint } => {
            assert_eq!(code, 2);
            assert_eq!(
                complaint.as_deref(),
                Some("oxutrm: --attach needs at least four characters of a session id, got \"abc\"")
            );
        }
        _ => panic!("the connect went on"),
    }
}

#[test]
fn a_whole_connect() {
    let (c, action) = attached().step(ConnectEvent::RawOn(Ok(())));
    assert!(matches!(
        action,
        ConnectAction::Prepare { session_id } if session_id == "f00d"
    ));
    let (c, action) = c.step(ConnectEvent::Prepared(Ok(())));
    assert!(matches!(action, ConnectAction::Announce { path } if path == a_path()));
    let (c, action) = c.step(ConnectEvent::Announced(Ok(())));
    assert!(matches!(action, ConnectAction::Run));
    let (_, action) = c.step(ConnectEvent::Ran(Ok(7)));
    assert!(matches!(action, ConnectAction::LeaveRaw(Ok(7))));
}

#[test]
fn every_way_a_connect_fails() {
    let e = || "E".to_owned();
    let start = || Connect::start("box".to_owned(), None, false).0;
    let (_, a) = start().step(ConnectEvent::Opened(Err(e())));
    assert_eq!(connect_failure(a), "starting a session on box: E");
    for (heard, says) in [
        (Err(e()), "reading the host's list of live sessions: E"),
        (Ok((failed("R"), e())), "the host gave up: R"),
        (
            Ok((a_host_hello(), e())),
            "the host opened with E instead of its list of sessions",
        ),
    ] {
        let (c, _) = start().step(ConnectEvent::Opened(Ok(())));
        assert_eq!(connect_failure(c.step(ConnectEvent::Offered(heard)).1), says);
    }
    let (c, _) = told(None, false, vec![offered("aaaa", true), offered("bbbb", true)]);
    assert_eq!(connect_failure(c.step(ConnectEvent::Line(Err(e()))).1), "E");
    let (c, _) = told(None, true, vec![]);
    let (_, a) = c.step(ConnectEvent::Sent(Err(e())));
    assert_eq!(connect_failure(a), "telling the host which session we want: E");
    let (c, _) = told(None, true, vec![]);
    let (c, _) = c.step(ConnectEvent::Sent(Ok(())));
    let (_, a) = c.step(ConnectEvent::Measured(Err(e())));
    assert_eq!(connect_failure(a), "oxutrm needs a real terminal to connect from: E");
    let (_, a) = attached().step(ConnectEvent::RawOn(Err(e())));
    assert_eq!(connect_failure(a), "putting the terminal into raw mode: E");
    let (c, _) = attached().step(ConnectEvent::RawOn(Ok(())));
    let (_, a) = c.step(ConnectEvent::Prepared(Err(e())));
    assert_eq!(connect_failure(a), "(raw) preparing the client session: E");
    let (c, _) = attached().step(ConnectEvent::RawOn(Ok(())));
    let (c, _) = c.step(ConnectEvent::Prepared(Ok(())));
    let (_, a) = c.step(ConnectEvent::Announced(Err(e())));
    assert_eq!(connect_failure(a), "(raw) announcing the path: E");
    let (c, _) = attached().step(ConnectEvent::RawOn(Ok(())));
    let (c, _) = c.step(ConnectEvent::Prepared(Ok(())));
    let (c, _) = c.step(ConnectEvent::Announced(Ok(())));
    let (_, a) = c.step(ConnectEvent::Ran(Err(e())));
    assert_eq!(connect_failure(a), "(raw) E");
}

#[test]
fn an_attach_that_fails_ends_the_connect_with_its_own_words() {
    let (c, _) = told(None, true, vec![]);
    let (c, _) = c.step(ConnectEvent::Sent(Ok(())));
    let (c, _) = c.step(ConnectEvent::Measured(Ok(size())));
    let t = trouble(host_facts(failed("full"), "F"));
    let (_, a) = c.step(ConnectEvent::Exchanged(Err(t)));
    assert_eq!(connect_failure(a), "the host gave up: full");
}

// ------------------------------------------------------------------ the accept

#[test]
fn a_connection_from_an_address_ice_did_not_nominate_reaches_no_shell() {
    let nominated = v4(198, 51, 100, 9, 7777);
    for stranger in [v4(198, 51, 100, 9, 7778), v4(198, 51, 100, 10, 7777)] {
        for validated in [false, true] {
            assert_eq!(
                screen_incoming(stranger, validated, nominated),
                Admission::Ignore
            );
        }
    }
}

#[test]
fn the_nominated_address_is_the_one_that_gets_through() {
    let nominated = v4(198, 51, 100, 9, 7777);
    assert_eq!(screen_incoming(nominated, false, nominated), Admission::Retry);
    assert_eq!(screen_incoming(nominated, true, nominated), Admission::Handshake);
    let mapped = SocketAddr {
        ip: IpAddr::V6(0xffff_0000_0000 + u128::from(u32::from_be_bytes([198, 51, 100, 9]))),
        port: 7777,
        flow_info: 0,
        scope_id: 0,
    };
    assert_eq!(screen_incoming(mapped, true, nominated), Admission::Handshake);
    assert_eq!(screen_incoming(nominated, true, mapped), Admission::Handshake);
}

#[test]
fn accept_one_returns_exactly_one_connection() {
    let got = accept_one("permit", AcceptEnd::Connected(5), "peer");
    assert_eq!(got.ok(), Some(5));
}

#[test]
fn the_accept_gives_up_when_no_client_ever_arrives() {
    let end: AcceptEnd<u8> = AcceptEnd::TimedOut;
    let failed = accept_one("permit", end, "198.51.100.9:7777").expect_err("nobody came");
    assert_eq!(
        failed.error,
        "no client completed a QUIC handshake from 198.51.100.9:7777 within 30s"
    );
    assert_eq!(failed.cause, None);
}

#[test]
fn a_deadline_that_expires_hands_no_permit_back() {
    let end: AcceptEnd<u8> = AcceptEnd::TimedOut;
    assert_eq!(accept_one("permit", end, "peer").expect_err("nobody came").retry(), None);
    let end: AcceptEnd<u8> = AcceptEnd::EndpointClosed;
    let closed = accept_one("permit", end, "peer").expect_err("the endpoint is gone");
    assert_eq!(
        closed.error,
        "the QUIC endpoint closed before the client connected"
    );
    assert_eq!(closed.retry(), None);
}

#[test]
fn a_peer_that_fails_the_handshake_leaves_the_permit_unspent() {
    let end: AcceptEnd<u8> = AcceptEnd::PeerFailed("bad certificate".to_owned());
    let failed = accept_one("permit", end, "peer").expect_err("the handshake failed");
    assert_eq!(
        failed.error,
        "completing the QUIC handshake with the nominated peer"
    );
    assert_eq!(failed.cause.as_deref(), Some("bad certificate"));
    assert_eq!(failed.retry(), Some("permit"));
}

#[test]
fn what_is_shown_of_an_offer_says_nothing_of_its_key() {
    let facts = |psk: Psk| match host_facts(a_host_hello(), "S") {
        Ok(mut f) => {
            f.psk = psk;
            f
        }
        Err(_) => panic!("that is an offer"),
    };
    let shown = facts(PSK).shown();
    assert_eq!(shown, facts(Psk { bytes: [0x77; 32] }).shown());
    assert_eq!(
        shown,
        format!(
            "HostFacts {{ session_id: \"f00d\", attach_id: 3, host_spki: {}, candidates: \
             [Candidate {{ addr: 203.0.113.4:5000, kind: ServerReflexive, priority: 7 }}], \
             nat: AddressDependent, .. }}",
            "01".repeat(32)
        )
    );
    let mut many = facts(PSK);
    many.candidates = vec![candidate(1), candidate(2)];
    many.nat = NatType::NoNat;
    assert!(many.shown().contains("priority: 1 }, Candidate { addr: 192.0.2.1:2, "));
    assert!(many.shown().ends_with("], nat: None, .. }"));
    let v6 = SocketAddr {
        ip: IpAddr::V6(0x2001_0db8_0000_0000_0000_0000_0000_abcd),
        port: 9,
        flow_info: 0,
        scope_id: 0,
    };
    assert_eq!(v6.text(), "[2001:0db8:0000:0000:0000:0000:0000:abcd]:9");
}
