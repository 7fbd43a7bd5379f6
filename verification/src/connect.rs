//! The client's half: from ssh to a painted screen.
//!
//! Two machines. [`ClientExchange`] is one attach, as the client sees it, and
//! mirrors the host's; [`Connect`] is the whole of a connect around it. Each
//! says what to do next and is told how that went.

use vstd::prelude::*;

use crate::addr::SocketAddr;
use crate::attach_exchange::{copied, joined_candidates};
use crate::attach_exchange::{
    host_step, hosted, raced_to, the_path_is_the_one_that_was_nominated, HostAction, HostEvent,
    HostExchange, HostRound, HostStage,
};
use crate::caps::TerminalCaps;
use crate::chooser::{
    a_prefix_picks_the_one_it_fits, decide, decision, fits, menu, menu_of, pick, picked,
    the_picker_takes_what_was_named, views, Choice, ChoiceView, Decision, DecisionView, Picked,
    PickedView, SessionSummary,
};
use crate::ladder::{Candidate, Nomination};
use crate::screen::TermSize;
use crate::signal::{
    established_path, host_facts, sessions_offered, ClientSpki, HostFacts, HostSpki, NatType,
    PathDescription, Psk, Signal, Trouble,
};
use crate::text::{decimal, quoted};

verus! {

/// How far an attach has come, and what it knows.
pub enum ClientStage {
    /// The socket is being bound.
    Socket,
    /// The host's offer is being read.
    Offer { local: Vec<Candidate> },
    /// Our addresses are being discovered.
    Discovery { local: Vec<Candidate>, host: HostFacts },
    /// The certificate is being made.
    Certificate { local: Vec<Candidate>, nat_type: NatType, host: HostFacts },
    /// The answer to the offer is being sent.
    Answer { local: Vec<Candidate>, nat_type: NatType, host: HostFacts },
    /// The ladder is running.
    Race { session_id: String, attach_id: u64, host_spki: HostSpki },
    /// The connection is being brought up.
    Connect { session_id: String, attach_id: u64 },
    /// The host's verdict is awaited.
    Verdict { session_id: String, attach_id: u64 },
    Over,
}

/// What happened.
pub enum ClientEvent {
    /// The socket is bound, and these are its own addresses.
    Bound(Vec<Candidate>),
    BindFailed(String),
    AdoptFailed(String),
    /// A message arrived from the host, with it as text, or none could be
    /// read.
    Heard(Result<(Signal, String), String>),
    Discovered { reflexive: Vec<Candidate>, nat_type: NatType },
    Certificate(Result<ClientSpki, String>),
    Sent(Result<(), String>),
    /// The ladder found a path, or its report; and what it discovered has
    /// been sent to the host, or could not be.
    Raced { outcome: Result<Nomination<()>, String>, sent: Result<(), String> },
    Connected(Result<(), String>),
}

/// What to do next.
pub enum ClientAction {
    Bind,
    /// Read the host's next message.
    Read,
    Discover,
    MakeCertificate,
    Send(Signal),
    /// Run the ladder, as the side that nominates, and go on reading from the
    /// host meanwhile.
    Race { psk: Psk, nat_type: NatType, local: Vec<Candidate>, remote: Vec<Candidate> },
    /// Connect to this address, on the nominated socket, to a host with this
    /// fingerprint.
    Connect { remote: SocketAddr, host_spki: HostSpki },
    /// The attach is complete.
    Done { path: PathDescription, session_id: String, attach_id: u64 },
    Fail(Trouble),
    /// Nothing: that event belongs to another stage.
    OutOfTurn,
}

/// One attach, as the client sees it.
pub struct ClientExchange {
    pub proto: u32,
    pub size: TermSize,
    /// What this terminal can do, until the host has been told.
    pub caps: Option<TerminalCaps>,
    pub stage: ClientStage,
}

/// Whether an action is the failure of `what` because of `cause`.
pub open spec fn fails_at(action: ClientAction, what: Seq<char>, cause: Seq<char>) -> bool {
    action matches ClientAction::Fail(t) && t.failed_at(what, cause)
}

/// Whether a message is the client's answer to the offer.
pub open spec fn is_client_hello(
    s: Signal,
    proto: u32,
    spki: ClientSpki,
    candidates: Seq<Candidate>,
    nat_type: NatType,
    caps: TerminalCaps,
    size: TermSize,
) -> bool {
    &&& s matches Signal::ClientHello {
        proto: p,
        cert_spki_sha256: c,
        candidates: cs,
        nat_type: n,
        caps: k,
        size: z,
    }
    &&& p == proto
    &&& c == spki
    &&& cs@ == candidates
    &&& n == nat_type
    &&& k == caps
    &&& z == size
}

/// What an attach makes of a message that should have been the host's offer.
pub open spec fn offer_step(
    local: Vec<Candidate>,
    signal: Signal,
    shown: Seq<char>,
    stage: ClientStage,
    action: ClientAction,
) -> bool {
    match signal {
        Signal::HostHello {
            session_id,
            attach_id,
            cert_spki_sha256,
            psk,
            candidates,
            nat_type,
            ..
        } => {
            &&& stage == (ClientStage::Discovery {
                local,
                host: HostFacts {
                    session_id,
                    attach_id,
                    psk,
                    host_spki: cert_spki_sha256,
                    candidates,
                    nat: nat_type,
                },
            })
            &&& action is Discover
        },
        Signal::Failed { reason } => {
            &&& stage is Over
            &&& action matches ClientAction::Fail(t) && t.host_refused(reason@)
        },
        _ => {
            &&& stage is Over
            &&& action matches ClientAction::Fail(t) && t.says(
                "the host opened with "@ + shown + " instead of its hello"@,
            )
        },
    }
}

/// What an attach makes of a message that is no declaration of a path where
/// one was due.
pub open spec fn no_path_step(signal: Signal, shown: Seq<char>, action: ClientAction) -> bool {
    action matches ClientAction::Fail(t) && match signal {
        Signal::Failed { reason } => t.host_refused(reason@),
        _ => t.says("the host sent "@ + shown + " where the link should have been declared up"@),
    }
}

/// Whether `event` at `before` leads to `after` and `action`.
pub open spec fn client_step(
    before: ClientExchange,
    event: ClientEvent,
    after: ClientExchange,
    action: ClientAction,
) -> bool {
    &&& after.proto == before.proto
    &&& after.size == before.size
    &&& match (before.stage, event) {
        (ClientStage::Socket, ClientEvent::Bound(local)) => {
            &&& after.caps == before.caps
            &&& after.stage == (ClientStage::Offer { local })
            &&& action is Read
        },
        (ClientStage::Socket, ClientEvent::BindFailed(e)) => {
            &&& after.caps == before.caps
            &&& after.stage is Over
            &&& fails_at(action, "binding a UDP socket"@, e@)
        },
        (ClientStage::Socket, ClientEvent::AdoptFailed(e)) => {
            &&& after.caps == before.caps
            &&& after.stage is Over
            &&& fails_at(action, "handing the socket to the runtime"@, e@)
        },
        (ClientStage::Offer { local }, ClientEvent::Heard(Ok((signal, shown)))) => {
            &&& after.caps == before.caps
            &&& offer_step(local, signal, shown@, after.stage, action)
        },
        (ClientStage::Offer { .. }, ClientEvent::Heard(Err(e))) => {
            &&& after.caps == before.caps
            &&& after.stage is Over
            &&& fails_at(action, "reading the host's offer"@, e@)
        },
        (
            ClientStage::Discovery { local, host },
            ClientEvent::Discovered { reflexive, nat_type },
        ) => {
            &&& after.caps == before.caps
            &&& after.stage matches ClientStage::Certificate { local: l, nat_type: n, host: h }
            &&& l@ == local@ + reflexive@
            &&& n == nat_type
            &&& h == host
            &&& action is MakeCertificate
        },
        (
            ClientStage::Certificate { local, nat_type, host },
            ClientEvent::Certificate(Ok(spki)),
        ) => match before.caps {
            Some(caps) => {
                &&& after.caps is None
                &&& after.stage == (ClientStage::Answer { local, nat_type, host })
                &&& action matches ClientAction::Send(s) && is_client_hello(
                    s,
                    before.proto,
                    spki,
                    local@,
                    nat_type,
                    caps,
                    before.size,
                )
            },
            None => after == before && action is OutOfTurn,
        },
        (ClientStage::Certificate { .. }, ClientEvent::Certificate(Err(e))) => {
            &&& after.caps == before.caps
            &&& after.stage is Over
            &&& fails_at(action, "generating this attach's certificate"@, e@)
        },
        (ClientStage::Answer { local, nat_type, host }, ClientEvent::Sent(Ok(()))) => {
            &&& after.caps == before.caps
            &&& after.stage == (ClientStage::Race {
                session_id: host.session_id,
                attach_id: host.attach_id,
                host_spki: host.host_spki,
            })
            &&& action == (ClientAction::Race {
                psk: host.psk,
                nat_type,
                local,
                remote: host.candidates,
            })
        },
        (ClientStage::Answer { .. }, ClientEvent::Sent(Err(e))) => {
            &&& after.caps == before.caps
            &&& after.stage is Over
            &&& fails_at(action, "answering the host's offer"@, e@)
        },
        (ClientStage::Race { .. }, ClientEvent::Raced { sent: Err(e), .. }) => {
            &&& after.caps == before.caps
            &&& after.stage is Over
            &&& fails_at(action, "sending our candidates to the host"@, e@)
        },
        (ClientStage::Race { .. }, ClientEvent::Raced { outcome: Err(report), .. }) => {
            &&& after.caps == before.caps
            &&& after.stage is Over
            &&& fails_at(action, "no rung of the ladder reached the host"@, report@)
        },
        (
            ClientStage::Race { session_id, attach_id, host_spki },
            ClientEvent::Raced { outcome: Ok(path), .. },
        ) => {
            &&& after.caps == before.caps
            &&& after.stage == (ClientStage::Connect { session_id, attach_id })
            &&& action == (ClientAction::Connect { remote: path.remote, host_spki })
        },
        (ClientStage::Race { .. }, ClientEvent::Heard(Err(e))) => {
            &&& after.caps == before.caps
            &&& after.stage is Over
            &&& fails_at(action, "reading from the host"@, e@)
        },
        (ClientStage::Race { .. }, ClientEvent::Heard(Ok((signal, shown)))) => {
            if signal is Established {
                after == before && action is OutOfTurn
            } else {
                &&& after.caps == before.caps
                &&& after.stage is Over
                &&& no_path_step(signal, shown@, action)
            }
        },
        (ClientStage::Connect { session_id, attach_id }, ClientEvent::Connected(Ok(()))) => {
            &&& after.caps == before.caps
            &&& after.stage == (ClientStage::Verdict { session_id, attach_id })
            &&& action is Read
        },
        (ClientStage::Connect { .. }, ClientEvent::Connected(Err(e))) => {
            &&& after.caps == before.caps
            &&& after.stage is Over
            &&& fails_at(action, "bringing up QUIC over the nominated path"@, e@)
        },
        (
            ClientStage::Verdict { session_id, attach_id },
            ClientEvent::Heard(Ok((signal, shown))),
        ) => {
            &&& after.caps == before.caps
            &&& after.stage is Over
            &&& match signal {
                Signal::Established { path } => action == (ClientAction::Done {
                    path,
                    session_id,
                    attach_id,
                }),
                _ => no_path_step(signal, shown@, action),
            }
        },
        (ClientStage::Verdict { .. }, ClientEvent::Heard(Err(e))) => {
            &&& after.caps == before.caps
            &&& after.stage is Over
            &&& fails_at(action, "waiting for the host's verdict"@, e@)
        },
        _ => {
            &&& after == before
            &&& action is OutOfTurn
        },
    }
}

impl ClientExchange {
    /// Begin an attach from a terminal of the given size.
    pub fn start(proto: u32, size: TermSize, caps: TerminalCaps) -> (r: (
        ClientExchange,
        ClientAction,
    ))
        ensures
            r.0 == (ClientExchange { proto, size, caps: Some(caps), stage: ClientStage::Socket }),
            r.1 is Bind,
    {
        (
            ClientExchange { proto, size, caps: Some(caps), stage: ClientStage::Socket },
            ClientAction::Bind,
        )
    }

    /// The attach is over, because of `t`.
    fn over(proto: u32, size: TermSize, caps: Option<TerminalCaps>, t: Trouble) -> (r: (
        ClientExchange,
        ClientAction,
    ))
        ensures
            r.0 == (ClientExchange { proto, size, caps, stage: ClientStage::Over }),
            r.1 == ClientAction::Fail(t),
    {
        (
            ClientExchange { proto, size, caps, stage: ClientStage::Over },
            ClientAction::Fail(t),
        )
    }

    /// Take in what happened, and say what to do next.
    pub fn step(self, event: ClientEvent) -> (r: (ClientExchange, ClientAction))
        ensures
            client_step(self, event, r.0, r.1),
    {
        let ClientExchange { proto, size, caps, stage } = self;
        match (stage, event) {
            (ClientStage::Socket, ClientEvent::Bound(local)) => (
                ClientExchange { proto, size, caps, stage: ClientStage::Offer { local } },
                ClientAction::Read,
            ),
            (ClientStage::Socket, ClientEvent::BindFailed(e)) => {
                Self::over(proto, size, caps, Trouble::at("binding a UDP socket", e))
            },
            (ClientStage::Socket, ClientEvent::AdoptFailed(e)) => {
                Self::over(proto, size, caps, Trouble::at("handing the socket to the runtime", e))
            },
            (ClientStage::Offer { local }, ClientEvent::Heard(Ok((signal, shown)))) => {
                match host_facts(signal, shown.as_str()) {
                    Ok(host) => (
                        ClientExchange {
                            proto,
                            size,
                            caps,
                            stage: ClientStage::Discovery { local, host },
                        },
                        ClientAction::Discover,
                    ),
                    Err(t) => Self::over(proto, size, caps, t),
                }
            },
            (ClientStage::Offer { .. }, ClientEvent::Heard(Err(e))) => {
                Self::over(proto, size, caps, Trouble::at("reading the host's offer", e))
            },
            (
                ClientStage::Discovery { local, host },
                ClientEvent::Discovered { reflexive, nat_type },
            ) => {
                let all = joined_candidates(&local, &reflexive);
                (
                    ClientExchange {
                        proto,
                        size,
                        caps,
                        stage: ClientStage::Certificate { local: all, nat_type, host },
                    },
                    ClientAction::MakeCertificate,
                )
            },
            (
                ClientStage::Certificate { local, nat_type, host },
                ClientEvent::Certificate(Ok(spki)),
            ) => match caps {
                Some(caps) => {
                    let hello = Signal::ClientHello {
                        proto,
                        cert_spki_sha256: spki,
                        candidates: copied(&local),
                        nat_type,
                        caps,
                        size,
                    };
                    (
                        ClientExchange {
                            proto,
                            size,
                            caps: None,
                            stage: ClientStage::Answer { local, nat_type, host },
                        },
                        ClientAction::Send(hello),
                    )
                },
                None => (
                    ClientExchange {
                        proto,
                        size,
                        caps: None,
                        stage: ClientStage::Certificate { local, nat_type, host },
                    },
                    ClientAction::OutOfTurn,
                ),
            },
            (ClientStage::Certificate { .. }, ClientEvent::Certificate(Err(e))) => {
                Self::over(
                    proto,
                    size,
                    caps,
                    Trouble::at("generating this attach's certificate", e),
                )
            },
            (ClientStage::Answer { local, nat_type, host }, ClientEvent::Sent(Ok(()))) => {
                let HostFacts { session_id, attach_id, psk, host_spki, candidates, .. } = host;
                (
                    ClientExchange {
                        proto,
                        size,
                        caps,
                        stage: ClientStage::Race { session_id, attach_id, host_spki },
                    },
                    ClientAction::Race { psk, nat_type, local, remote: candidates },
                )
            },
            (ClientStage::Answer { .. }, ClientEvent::Sent(Err(e))) => {
                Self::over(proto, size, caps, Trouble::at("answering the host's offer", e))
            },
            (ClientStage::Race { .. }, ClientEvent::Raced { sent: Err(e), .. }) => {
                Self::over(proto, size, caps, Trouble::at("sending our candidates to the host", e))
            },
            (ClientStage::Race { .. }, ClientEvent::Raced { outcome: Err(report), .. }) => {
                Self::over(
                    proto,
                    size,
                    caps,
                    Trouble::at("no rung of the ladder reached the host", report),
                )
            },
            (
                ClientStage::Race { session_id, attach_id, host_spki },
                ClientEvent::Raced { outcome: Ok(path), .. },
            ) => (
                ClientExchange {
                    proto,
                    size,
                    caps,
                    stage: ClientStage::Connect { session_id, attach_id },
                },
                ClientAction::Connect { remote: path.remote, host_spki },
            ),
            (ClientStage::Race { .. }, ClientEvent::Heard(Err(e))) => {
                Self::over(proto, size, caps, Trouble::at("reading from the host", e))
            },
            (
                ClientStage::Race { session_id, attach_id, host_spki },
                ClientEvent::Heard(Ok((signal, shown))),
            ) => match established_path(signal, shown.as_str()) {
                // The host cannot declare a path before one was nominated.
                Ok(_) => (
                    ClientExchange {
                        proto,
                        size,
                        caps,
                        stage: ClientStage::Race { session_id, attach_id, host_spki },
                    },
                    ClientAction::OutOfTurn,
                ),
                Err(t) => Self::over(proto, size, caps, t),
            },
            (ClientStage::Connect { session_id, attach_id }, ClientEvent::Connected(Ok(()))) => (
                ClientExchange {
                    proto,
                    size,
                    caps,
                    stage: ClientStage::Verdict { session_id, attach_id },
                },
                ClientAction::Read,
            ),
            (ClientStage::Connect { .. }, ClientEvent::Connected(Err(e))) => {
                Self::over(
                    proto,
                    size,
                    caps,
                    Trouble::at("bringing up QUIC over the nominated path", e),
                )
            },
            (
                ClientStage::Verdict { session_id, attach_id },
                ClientEvent::Heard(Ok((signal, shown))),
            ) => match established_path(signal, shown.as_str()) {
                Ok(path) => (
                    ClientExchange { proto, size, caps, stage: ClientStage::Over },
                    ClientAction::Done { path, session_id, attach_id },
                ),
                Err(t) => Self::over(proto, size, caps, t),
            },
            (ClientStage::Verdict { .. }, ClientEvent::Heard(Err(e))) => {
                Self::over(proto, size, caps, Trouble::at("waiting for the host's verdict", e))
            },
            (stage, _) => (
                ClientExchange { proto, size, caps, stage },
                ClientAction::OutOfTurn,
            ),
        }
    }
}

/// The client answers only after it has read the host's offer: everything it
/// sends, it sends knowing the host's key and fingerprint.
pub proof fn the_client_answers_an_offer(
    before: ClientExchange,
    event: ClientEvent,
    after: ClientExchange,
    action: ClientAction,
)
    requires
        client_step(before, event, after, action),
        action is Send,
    ensures
        before.stage is Certificate,
        after.stage is Answer,
{
}

/// The session an attach ends in is the one the host named in its offer, under
/// the generation it named: no step in between changes either.
pub proof fn the_session_is_the_one_the_host_named(
    before: ClientExchange,
    event: ClientEvent,
    after: ClientExchange,
    action: ClientAction,
)
    requires
        client_step(before, event, after, action),
    ensures
        (before.stage matches ClientStage::Answer { host, .. } && after.stage is Race) ==> (
        after.stage matches ClientStage::Race { session_id, attach_id, .. } && session_id
            == before.stage->Answer_host.session_id && attach_id
            == before.stage->Answer_host.attach_id),
        before.stage is Race && after.stage is Connect ==> after.stage->Connect_session_id
            == before.stage->Race_session_id && after.stage->Connect_attach_id
            == before.stage->Race_attach_id,
        before.stage is Connect && after.stage is Verdict ==> after.stage->Verdict_session_id
            == before.stage->Connect_session_id && after.stage->Verdict_attach_id
            == before.stage->Connect_attach_id,
        action is Done ==> before.stage is Verdict && action->session_id
            == before.stage->Verdict_session_id && action->attach_id
            == before.stage->Verdict_attach_id,
{
}

/// A host that gives up is reported in its own words, wherever in the attach
/// it does so.
pub proof fn a_refusal_keeps_the_hosts_words(
    before: ClientExchange,
    event: ClientEvent,
    after: ClientExchange,
    action: ClientAction,
    reason: String,
    shown: String,
)
    requires
        client_step(before, event, after, action),
        event == ClientEvent::Heard(
            Ok::<(Signal, String), String>((Signal::Failed { reason }, shown)),
        ),
        before.stage is Offer || before.stage is Race || before.stage is Verdict,
    ensures
        action matches ClientAction::Fail(t) && t.host_refused(reason@),
        after.stage is Over,
{
}

/// Two ends that have exchanged their hellos race under one key, each towards
/// the addresses the other gave, pinning the certificate the other made, for
/// one session in one generation; and the host records the size the client
/// has.
///
/// The host composes its offer and goes on to wait for the answer; the client
/// hears the offer, discovers its own addresses, makes a certificate, answers
/// and goes on to race; the host hears the answer.
pub proof fn both_ends_race_for_the_same_session(
    composing: HostExchange,
    discovered: HostEvent,
    offering: HostExchange,
    offer: Signal,
    waiting: HostExchange,
    listening: ClientExchange,
    offer_shown: String,
    discovering: ClientExchange,
    reflexive: Vec<Candidate>,
    nat_type: NatType,
    certifying: ClientExchange,
    client_spki: ClientSpki,
    answering: ClientExchange,
    answer: Signal,
    client_racing: ClientExchange,
    client_action: ClientAction,
    answer_shown: String,
    host_racing: HostExchange,
    host_action: HostAction,
)
    requires
        composing.stage is Discovery,
        host_step(composing, discovered, offering, HostAction::Send(offer)),
        host_step(offering, HostEvent::Sent(Ok(())), waiting, HostAction::Read),
        listening.stage is Offer,
        client_step(
            listening,
            ClientEvent::Heard(Ok((offer, offer_shown))),
            discovering,
            ClientAction::Discover,
        ),
        client_step(
            discovering,
            ClientEvent::Discovered { reflexive, nat_type },
            certifying,
            ClientAction::MakeCertificate,
        ),
        client_step(
            certifying,
            ClientEvent::Certificate(Ok(client_spki)),
            answering,
            ClientAction::Send(answer),
        ),
        client_step(answering, ClientEvent::Sent(Ok(())), client_racing, client_action),
        host_step(
            waiting,
            HostEvent::Heard(Ok((answer, answer_shown))),
            host_racing,
            host_action,
        ),
    ensures
        host_action is Race,
        client_action is Race,
        host_action->Race_psk == client_action->Race_psk,
        host_action->Race_remote@ == client_action->Race_local@,
        client_action->Race_remote@ == host_action->Race_local@,
        client_racing.stage is Race,
        client_racing.stage->Race_host_spki == composing.stage->Discovery_spki,
        host_racing.stage is Race,
        host_racing.stage->Race_client_spki == client_spki,
        client_racing.stage->Race_session_id@ == host_racing.meta.session_id@,
        client_racing.stage->Race_attach_id == host_racing.meta.attach_id,
        host_racing.meta.size == listening.size,
{
}

/// Two ends of one attach describe its path in the same words: the client
/// reports what the host declared, which is what the host reports too.
pub proof fn both_ends_describe_one_path(
    accepting: HostExchange,
    accepted: HostEvent,
    announcing: HostExchange,
    declaration: Signal,
    host_over: HostExchange,
    host_action: HostAction,
    listening: ClientExchange,
    shown: String,
    client_over: ClientExchange,
    client_action: ClientAction,
)
    requires
        accepting.stage is Accept,
        host_step(accepting, accepted, announcing, HostAction::Send(declaration)),
        host_step(announcing, HostEvent::Sent(Ok(())), host_over, host_action),
        listening.stage is Verdict,
        client_step(
            listening,
            ClientEvent::Heard(Ok((declaration, shown))),
            client_over,
            client_action,
        ),
    ensures
        host_action is Done,
        client_action is Done,
        client_action->path == host_action->path,
        client_action->session_id == listening.stage->Verdict_session_id,
{
}

/// A client whose host found no way to it hears every rung's reason, in the
/// words of the host's own report.
pub proof fn a_report_reaches_the_client(
    draining: HostExchange,
    report: String,
    refusing: HostExchange,
    refusal: Signal,
    listening: ClientExchange,
    shown: String,
    client_over: ClientExchange,
    client_action: ClientAction,
)
    requires
        draining.stage matches HostStage::Drain { outcome, .. } && outcome == Err::<
            Nomination<()>,
            String,
        >(report),
        host_step(
            draining,
            HostEvent::Drained(Ok(())),
            refusing,
            HostAction::Send(refusal),
        ),
        listening.stage is Race || listening.stage is Verdict,
        client_step(
            listening,
            ClientEvent::Heard(Ok((refusal, shown))),
            client_over,
            client_action,
        ),
    ensures
        client_action matches ClientAction::Fail(t) && t.host_refused(report@),
{
}

/// How far a connect has come, and what it knows.
pub enum ConnectStage {
    /// ssh is being started.
    Ssh,
    /// The host's list of sessions is being read.
    Offer,
    /// The user is being asked which session to take.
    Asking { sessions: Vec<SessionSummary> },
    /// The host is being told which session we want.
    Choosing,
    /// The terminal is being measured.
    Measure,
    /// The attach is under way.
    Exchange { size: TermSize },
    /// The terminal is being put into raw mode.
    Raw { path: PathDescription, session_id: String },
    /// The client session is being prepared.
    Prepare { path: PathDescription },
    /// The path is being announced.
    Announce,
    Running,
    Over,
}

/// What happened.
pub enum ConnectEvent {
    Opened(Result<(), String>),
    /// A message arrived, with it as text, or none could be read.
    Offered(Result<(Signal, String), String>),
    /// The user typed a line, or the input ended.
    Line(Result<Option<String>, String>),
    Sent(Result<(), String>),
    Measured(Result<TermSize, String>),
    /// The attach is complete, in this session, or came to nothing.
    Exchanged(Result<(PathDescription, String), Trouble>),
    RawOn(Result<(), String>),
    Prepared(Result<(), String>),
    Announced(Result<(), String>),
    /// The session is over, with the shell's exit code.
    Ran(Result<i32, String>),
}

/// What to do next.
pub enum ConnectAction {
    Open,
    ReadOffer,
    /// Print this, then ask for a line.
    Ask { say: String },
    Send(Signal),
    Measure,
    /// Run an attach from a terminal of this size.
    Exchange { size: TermSize },
    /// Print this, then put the terminal into raw mode.
    EnterRaw { say: String },
    /// Prepare a client session that can rebuild its link to this session.
    Prepare { session_id: String },
    Announce { path: PathDescription },
    Run,
    /// Give the terminal back, then end with this.
    LeaveRaw(Result<i32, Trouble>),
    /// End with this code, after this complaint if there is one.
    Exit { code: i32, complaint: Option<String> },
    Fail(Trouble),
    /// Nothing: that event belongs to another stage.
    OutOfTurn,
}

/// One connect, from ssh to the end of the session.
pub struct Connect {
    pub target: String,
    pub attach: Option<String>,
    pub new: bool,
    pub stage: ConnectStage,
}

/// The view of an optional text.
pub open spec fn prefix_of(attach: Option<String>) -> Option<Seq<char>> {
    match attach {
        Some(a) => Some(a@),
        None => None,
    }
}

/// What a connect does about the sessions on offer.
pub open spec fn offered_step(
    sessions: Vec<SessionSummary>,
    attach: Option<Seq<char>>,
    new: bool,
    stage: ConnectStage,
    action: ConnectAction,
) -> bool {
    match decision(views(sessions@), attach, new) {
        DecisionView::Chosen(c) => {
            &&& stage is Choosing
            &&& action matches ConnectAction::Send(Signal::Choose { choice }) && choice@ == c
        },
        DecisionView::Refused(why) => {
            &&& stage is Over
            &&& action matches ConnectAction::Exit { code, complaint: Some(text) } && code == 2
                && text@ == "oxutrm: "@ + why
        },
        DecisionView::Ask => {
            &&& stage == (ConnectStage::Asking { sessions })
            &&& action matches ConnectAction::Ask { say } && say@ == menu_of(views(sessions@))
        },
    }
}

/// What a connect does about the user's answer.
pub open spec fn answered_step(
    sessions: Vec<SessionSummary>,
    line: Option<Seq<char>>,
    stage: ConnectStage,
    action: ConnectAction,
) -> bool {
    match picked(views(sessions@), line) {
        PickedView::Quit => {
            &&& stage is Over
            &&& action matches ConnectAction::Exit { code, complaint } && code == 0
                && complaint is None
        },
        PickedView::Chose(c) => {
            &&& stage is Choosing
            &&& action matches ConnectAction::Send(Signal::Choose { choice }) && choice@ == c
        },
        PickedView::Again(text) => {
            &&& stage == (ConnectStage::Asking { sessions })
            &&& action matches ConnectAction::Ask { say } && say@ == text
        },
    }
}

/// Whether a connect fails outright at `what`, because of `cause`.
pub open spec fn gives_up_at(action: ConnectAction, what: Seq<char>, cause: Seq<char>) -> bool {
    action matches ConnectAction::Fail(t) && t.failed_at(what, cause)
}

/// Whether a connect gives the terminal back and fails at `what`, because of
/// `cause`.
pub open spec fn leaves_at(action: ConnectAction, what: Seq<char>, cause: Seq<char>) -> bool {
    action matches ConnectAction::LeaveRaw(Err(t)) && t.failed_at(what, cause)
}

/// Whether `event` at `before` leads to `after` and `action`.
pub open spec fn connect_step(
    before: Connect,
    event: ConnectEvent,
    after: Connect,
    action: ConnectAction,
) -> bool {
    &&& after.target == before.target
    &&& after.attach == before.attach
    &&& after.new == before.new
    &&& match (before.stage, event) {
        (ConnectStage::Ssh, ConnectEvent::Opened(Ok(()))) => {
            after.stage is Offer && action is ReadOffer
        },
        (ConnectStage::Ssh, ConnectEvent::Opened(Err(e))) => {
            after.stage is Over && gives_up_at(
                action,
                "starting a session on "@ + before.target@,
                e@,
            )
        },
        (ConnectStage::Offer, ConnectEvent::Offered(Ok((signal, shown)))) => match signal {
            Signal::Sessions { sessions } => offered_step(
                sessions,
                prefix_of(before.attach),
                before.new,
                after.stage,
                action,
            ),
            Signal::Failed { reason } => {
                &&& after.stage is Over
                &&& action matches ConnectAction::Fail(t) && t.host_refused(reason@)
            },
            _ => {
                &&& after.stage is Over
                &&& action matches ConnectAction::Fail(t) && t.says(
                    "the host opened with "@ + shown@ + " instead of its list of sessions"@,
                )
            },
        },
        (ConnectStage::Offer, ConnectEvent::Offered(Err(e))) => {
            after.stage is Over && gives_up_at(
                action,
                "reading the host's list of live sessions"@,
                e@,
            )
        },
        (ConnectStage::Asking { sessions }, ConnectEvent::Line(Ok(line))) => {
            answered_step(sessions, prefix_of(line), after.stage, action)
        },
        (ConnectStage::Asking { .. }, ConnectEvent::Line(Err(e))) => {
            after.stage is Over && (action matches ConnectAction::Fail(t) && t.says(e@))
        },
        (ConnectStage::Choosing, ConnectEvent::Sent(Ok(()))) => {
            after.stage is Measure && action is Measure
        },
        (ConnectStage::Choosing, ConnectEvent::Sent(Err(e))) => {
            after.stage is Over && gives_up_at(
                action,
                "telling the host which session we want"@,
                e@,
            )
        },
        (ConnectStage::Measure, ConnectEvent::Measured(Ok(size))) => {
            after.stage == (ConnectStage::Exchange { size }) && action
                == (ConnectAction::Exchange { size })
        },
        (ConnectStage::Measure, ConnectEvent::Measured(Err(e))) => {
            after.stage is Over && gives_up_at(
                action,
                "oxutrm needs a real terminal to connect from"@,
                e@,
            )
        },
        (ConnectStage::Exchange { .. }, ConnectEvent::Exchanged(Ok((path, session_id)))) => {
            &&& after.stage == (ConnectStage::Raw { path, session_id })
            &&& action matches ConnectAction::EnterRaw { say } && say@ == "oxutrm: session "@
                + session_id@ + ".\n"@
        },
        (ConnectStage::Exchange { .. }, ConnectEvent::Exchanged(Err(t))) => {
            after.stage is Over && action == ConnectAction::Fail(t)
        },
        (ConnectStage::Raw { path, session_id }, ConnectEvent::RawOn(Ok(()))) => {
            after.stage == (ConnectStage::Prepare { path }) && action == (ConnectAction::Prepare {
                session_id,
            })
        },
        (ConnectStage::Raw { .. }, ConnectEvent::RawOn(Err(e))) => {
            after.stage is Over && gives_up_at(
                action,
                "putting the terminal into raw mode"@,
                e@,
            )
        },
        (ConnectStage::Prepare { path }, ConnectEvent::Prepared(Ok(()))) => {
            after.stage is Announce && action == (ConnectAction::Announce { path })
        },
        (ConnectStage::Prepare { .. }, ConnectEvent::Prepared(Err(e))) => {
            after.stage is Over && leaves_at(action, "preparing the client session"@, e@)
        },
        (ConnectStage::Announce, ConnectEvent::Announced(Ok(()))) => {
            after.stage is Running && action is Run
        },
        (ConnectStage::Announce, ConnectEvent::Announced(Err(e))) => {
            after.stage is Over && leaves_at(action, "announcing the path"@, e@)
        },
        (ConnectStage::Running, ConnectEvent::Ran(Ok(code))) => {
            after.stage is Over && action == ConnectAction::LeaveRaw(Ok(code))
        },
        (ConnectStage::Running, ConnectEvent::Ran(Err(e))) => {
            after.stage is Over && (action matches ConnectAction::LeaveRaw(Err(t)) && t.says(e@))
        },
        _ => after == before && action is OutOfTurn,
    }
}

impl Connect {
    /// Begin a connect to `target`.
    pub fn start(target: String, attach: Option<String>, new: bool) -> (r: (Connect, ConnectAction))
        ensures
            r.0 == (Connect { target, attach, new, stage: ConnectStage::Ssh }),
            r.1 is Open,
    {
        (Connect { target, attach, new, stage: ConnectStage::Ssh }, ConnectAction::Open)
    }

    /// What to do about the sessions on offer.
    fn offered(sessions: Vec<SessionSummary>, attach: &Option<String>, new: bool) -> (r: (
        ConnectStage,
        ConnectAction,
    ))
        ensures
            offered_step(sessions, prefix_of(*attach), new, r.0, r.1),
    {
        let prefix = match attach {
            Some(a) => Some(a.as_str()),
            None => None,
        };
        match decide(sessions.as_slice(), prefix, new) {
            Decision::Chosen(choice) => (
                ConnectStage::Choosing,
                ConnectAction::Send(Signal::Choose { choice }),
            ),
            Decision::Refused(why) => {
                let mut text = "oxutrm: ".to_owned();
                text.append(why.as_str());
                (ConnectStage::Over, ConnectAction::Exit { code: 2, complaint: Some(text) })
            },
            Decision::Ask => {
                let say = menu(sessions.as_slice());
                (ConnectStage::Asking { sessions }, ConnectAction::Ask { say })
            },
        }
    }

    /// What to do about the user's answer.
    fn answered(sessions: Vec<SessionSummary>, line: &Option<String>) -> (r: (
        ConnectStage,
        ConnectAction,
    ))
        ensures
            answered_step(sessions, prefix_of(*line), r.0, r.1),
    {
        let typed = match line {
            Some(l) => Some(l.as_str()),
            None => None,
        };
        match pick(sessions.as_slice(), typed) {
            Picked::Quit => (
                ConnectStage::Over,
                ConnectAction::Exit { code: 0, complaint: None },
            ),
            Picked::Chose(choice) => (
                ConnectStage::Choosing,
                ConnectAction::Send(Signal::Choose { choice }),
            ),
            Picked::Again(say) => (ConnectStage::Asking { sessions }, ConnectAction::Ask { say }),
        }
    }

    /// Take in what happened, and say what to do next.
    ///
    /// The terminal goes into raw mode late: after every prompt ssh could have
    /// shown, after the user was asked anything, and after the last thing that
    /// could fail with a message worth reading on an ordinary terminal.
    pub fn step(self, event: ConnectEvent) -> (r: (Connect, ConnectAction))
        ensures
            connect_step(self, event, r.0, r.1),
    {
        let Connect { target, attach, new, stage } = self;
        let (stage, action) = match (stage, event) {
            (ConnectStage::Ssh, ConnectEvent::Opened(Ok(()))) => (
                ConnectStage::Offer,
                ConnectAction::ReadOffer,
            ),
            (ConnectStage::Ssh, ConnectEvent::Opened(Err(e))) => {
                let mut what = "starting a session on ".to_owned();
                what.append(target.as_str());
                (ConnectStage::Over, ConnectAction::Fail(Trouble::at(what.as_str(), e)))
            },
            (ConnectStage::Offer, ConnectEvent::Offered(Ok((signal, shown)))) => {
                match sessions_offered(signal, shown.as_str()) {
                    Ok(sessions) => Self::offered(sessions, &attach, new),
                    Err(t) => (ConnectStage::Over, ConnectAction::Fail(t)),
                }
            },
            (ConnectStage::Offer, ConnectEvent::Offered(Err(e))) => (
                ConnectStage::Over,
                ConnectAction::Fail(Trouble::at("reading the host's list of live sessions", e)),
            ),
            (ConnectStage::Asking { sessions }, ConnectEvent::Line(Ok(line))) => {
                Self::answered(sessions, &line)
            },
            (ConnectStage::Asking { .. }, ConnectEvent::Line(Err(e))) => (
                ConnectStage::Over,
                ConnectAction::Fail(Trouble::say(e)),
            ),
            (ConnectStage::Choosing, ConnectEvent::Sent(Ok(()))) => (
                ConnectStage::Measure,
                ConnectAction::Measure,
            ),
            (ConnectStage::Choosing, ConnectEvent::Sent(Err(e))) => (
                ConnectStage::Over,
                ConnectAction::Fail(Trouble::at("telling the host which session we want", e)),
            ),
            (ConnectStage::Measure, ConnectEvent::Measured(Ok(size))) => (
                ConnectStage::Exchange { size },
                ConnectAction::Exchange { size },
            ),
            (ConnectStage::Measure, ConnectEvent::Measured(Err(e))) => (
                ConnectStage::Over,
                ConnectAction::Fail(
                    Trouble::at("oxutrm needs a real terminal to connect from", e),
                ),
            ),
            (ConnectStage::Exchange { .. }, ConnectEvent::Exchanged(Ok((path, session_id)))) => {
                let mut say = "oxutrm: session ".to_owned();
                say.append(session_id.as_str());
                say.append(".\n");
                (ConnectStage::Raw { path, session_id }, ConnectAction::EnterRaw { say })
            },
            (ConnectStage::Exchange { .. }, ConnectEvent::Exchanged(Err(t))) => (
                ConnectStage::Over,
                ConnectAction::Fail(t),
            ),
            (ConnectStage::Raw { path, session_id }, ConnectEvent::RawOn(Ok(()))) => (
                ConnectStage::Prepare { path },
                ConnectAction::Prepare { session_id },
            ),
            (ConnectStage::Raw { .. }, ConnectEvent::RawOn(Err(e))) => (
                ConnectStage::Over,
                ConnectAction::Fail(Trouble::at("putting the terminal into raw mode", e)),
            ),
            (ConnectStage::Prepare { path }, ConnectEvent::Prepared(Ok(()))) => (
                ConnectStage::Announce,
                ConnectAction::Announce { path },
            ),
            (ConnectStage::Prepare { .. }, ConnectEvent::Prepared(Err(e))) => (
                ConnectStage::Over,
                ConnectAction::LeaveRaw(Err(Trouble::at("preparing the client session", e))),
            ),
            (ConnectStage::Announce, ConnectEvent::Announced(Ok(()))) => (
                ConnectStage::Running,
                ConnectAction::Run,
            ),
            (ConnectStage::Announce, ConnectEvent::Announced(Err(e))) => (
                ConnectStage::Over,
                ConnectAction::LeaveRaw(Err(Trouble::at("announcing the path", e))),
            ),
            (ConnectStage::Running, ConnectEvent::Ran(Ok(code))) => (
                ConnectStage::Over,
                ConnectAction::LeaveRaw(Ok(code)),
            ),
            (ConnectStage::Running, ConnectEvent::Ran(Err(e))) => (
                ConnectStage::Over,
                ConnectAction::LeaveRaw(Err(Trouble::say(e))),
            ),
            (stage, _) => (stage, ConnectAction::OutOfTurn),
        };
        (Connect { target, attach, new, stage }, action)
    }
}

/// Whether the terminal is in raw mode at a stage.
pub open spec fn in_raw_mode(stage: ConnectStage) -> bool {
    stage is Prepare || stage is Announce || stage is Running
}

/// Nothing is asked, printed for the user or failed with while the terminal is
/// in raw mode, and it is given back on every way out of it.
pub proof fn raw_mode_is_entered_last_and_always_left(
    before: Connect,
    event: ConnectEvent,
    after: Connect,
    action: ConnectAction,
)
    requires
        connect_step(before, event, after, action),
    ensures
        in_raw_mode(before.stage) ==> !(action is Ask || action is Fail || action is Exit
            || action is EnterRaw),
        in_raw_mode(before.stage) && after.stage is Over ==> action is LeaveRaw,
        action is LeaveRaw ==> in_raw_mode(before.stage),
        !in_raw_mode(before.stage) && in_raw_mode(after.stage) ==> before.stage is Raw,
{
}

/// The path the client ends with is the one the host's race ended with: what
/// the host declares at any step of its attach, the client that hears it reports
/// unchanged, rung, addresses and checks.
pub proof fn the_client_ends_with_the_path_that_was_nominated(
    start: HostExchange,
    rounds: Seq<HostRound>,
    k: int,
    declared: PathDescription,
    listening: ClientExchange,
    shown: String,
    over: ClientExchange,
    action: ClientAction,
)
    requires
        start.stage is Certificate,
        forall|i: int| 0 <= i < rounds.len() ==> #[trigger] hosted(start, rounds, i),
        0 <= k < rounds.len(),
        rounds[k].action == HostAction::Send(Signal::Established { path: declared }),
        listening.stage is Verdict,
        client_step(
            listening,
            ClientEvent::Heard(Ok((Signal::Established { path: declared }, shown))),
            over,
            action,
        ),
    ensures
        action matches ClientAction::Done { path, session_id, attach_id } && {
            &&& path == declared
            &&& session_id == listening.stage->Verdict_session_id
            &&& attach_id == listening.stage->Verdict_attach_id
            &&& exists|r: int, n: Nomination<()>|
                0 <= r < k && #[trigger] raced_to(start, rounds, r, n) && path.rung == n.rung
                    && path.local == n.local && path.remote == n.remote && path.probes_sent
                    == n.probes
        },
{
    the_path_is_the_one_that_was_nominated(start, rounds, k);
}

/// A client answers an offer with its own certificate, addresses, NAT, terminal
/// and size, and races with the host's key towards the host's addresses; where
/// the race leads it connects, to that address and to the certificate the host
/// pinned, and it ends in the session and generation the host named, on the path
/// the host declared.
pub proof fn a_client_follows_the_offer(
    s: Seq<ClientExchange>,
    a: Seq<ClientAction>,
    local: Vec<Candidate>,
    offer: Signal,
    offer_shown: String,
    reflexive: Vec<Candidate>,
    nat_type: NatType,
    spki: ClientSpki,
    n: Nomination<()>,
    path: PathDescription,
    path_shown: String,
)
    requires
        s.len() == 9,
        a.len() == 8,
        s[0].stage is Socket,
        s[0].caps is Some,
        offer is HostHello,
        client_step(s[0], ClientEvent::Bound(local), s[1], a[0]),
        client_step(s[1], ClientEvent::Heard(Ok((offer, offer_shown))), s[2], a[1]),
        client_step(s[2], ClientEvent::Discovered { reflexive, nat_type }, s[3], a[2]),
        client_step(s[3], ClientEvent::Certificate(Ok(spki)), s[4], a[3]),
        client_step(s[4], ClientEvent::Sent(Ok(())), s[5], a[4]),
        client_step(s[5], ClientEvent::Raced { outcome: Ok(n), sent: Ok(()) }, s[6], a[5]),
        client_step(s[6], ClientEvent::Connected(Ok(())), s[7], a[6]),
        client_step(
            s[7],
            ClientEvent::Heard(Ok((Signal::Established { path }, path_shown))),
            s[8],
            a[7],
        ),
    ensures
        a[0] is Read,
        a[1] is Discover,
        a[2] is MakeCertificate,
        a[3] is Send && a[3]->Send_0 is ClientHello,
        a[3]->Send_0->ClientHello_proto == s[0].proto,
        a[3]->Send_0->ClientHello_cert_spki_sha256 == spki,
        a[3]->Send_0->ClientHello_candidates@ == local@ + reflexive@,
        a[3]->Send_0->ClientHello_nat_type == nat_type,
        a[3]->Send_0->ClientHello_caps == s[0].caps->0,
        a[3]->Send_0->ClientHello_size == s[0].size,
        a[4] is Race,
        a[4]->Race_psk == offer->HostHello_psk,
        a[4]->Race_nat_type == nat_type,
        a[4]->Race_local@ == local@ + reflexive@,
        a[4]->Race_remote == offer->HostHello_candidates,
        a[5] == (ClientAction::Connect {
            remote: n.remote,
            host_spki: offer->HostHello_cert_spki_sha256,
        }),
        a[6] is Read,
        a[7] == (ClientAction::Done {
            path,
            session_id: offer->HostHello_session_id,
            attach_id: offer->HostHello_attach_id,
        }),
        s[8].stage is Over,
{
}

/// Whatever fails ends the client's attach, in its own words, with what went
/// wrong behind them.
pub proof fn a_failed_client_says_what_failed(
    before: ClientExchange,
    event: ClientEvent,
    after: ClientExchange,
    action: ClientAction,
    e: String,
)
    requires
        client_step(before, event, after, action),
    ensures
        ({
            let failed = |what: Seq<char>|
                after.stage is Over && (action matches ClientAction::Fail(t) && t.what@ == what && (
                t.cause matches Some(c) && c@ == e@) && t.refused is None);
            let unread = ClientEvent::Heard(Err::<(Signal, String), String>(e));
            &&& before.stage is Socket && event == ClientEvent::BindFailed(e) ==> failed(
                "binding a UDP socket"@,
            )
            &&& before.stage is Socket && event == ClientEvent::AdoptFailed(e) ==> failed(
                "handing the socket to the runtime"@,
            )
            &&& before.stage is Offer && event == unread ==> failed("reading the host's offer"@)
            &&& before.stage is Certificate && event == ClientEvent::Certificate(
                Err::<ClientSpki, String>(e),
            ) ==> failed("generating this attach's certificate"@)
            &&& before.stage is Answer && event == ClientEvent::Sent(Err::<(), String>(e))
                ==> failed("answering the host's offer"@)
            &&& before.stage is Race ==> (event matches ClientEvent::Raced { sent, .. } ==> (sent
                == Err::<(), String>(e) ==> failed("sending our candidates to the host"@)))
            &&& before.stage is Race ==> (event matches ClientEvent::Raced { sent, outcome } ==> (
            sent is Ok && outcome == Err::<Nomination<()>, String>(e) ==> failed(
                "no rung of the ladder reached the host"@,
            )))
            &&& before.stage is Race && event == unread ==> failed("reading from the host"@)
            &&& before.stage is Connect && event == ClientEvent::Connected(Err::<(), String>(e))
                ==> failed("bringing up QUIC over the nominated path"@)
            &&& before.stage is Verdict && event == unread ==> failed(
                "waiting for the host's verdict"@,
            )
        }),
        before.stage is Over ==> after == before && action is OutOfTurn,
        action is OutOfTurn ==> after == before,
{
}

/// A host that says something else where its offer or the path was due is
/// quoted, and one that gives up is quoted in its own words; either way the
/// attach is over.
pub proof fn an_unexpected_message_ends_the_attach(
    before: ClientExchange,
    signal: Signal,
    shown: String,
    after: ClientExchange,
    action: ClientAction,
)
    requires
        client_step(before, ClientEvent::Heard(Ok((signal, shown))), after, action),
    ensures
        before.stage is Offer ==> (action is Discover <==> signal is HostHello),
        before.stage is Verdict ==> (action is Done <==> signal is Established),
        before.stage is Offer && !(signal is HostHello || signal is Failed) ==> after.stage is Over
            && (action matches ClientAction::Fail(t) && t.what@ == "the host opened with "@
            + shown@ + " instead of its hello"@ && t.cause is None && t.refused is None),
        (before.stage is Verdict || before.stage is Race) && !(signal is Established
            || signal is Failed) ==> after.stage is Over && (action matches ClientAction::Fail(t)
            && t.what@ == "the host sent "@ + shown@
            + " where the link should have been declared up"@ && t.cause is None
            && t.refused is None),
        before.stage is Offer || before.stage is Verdict || before.stage is Race ==> (
        signal matches Signal::Failed { reason } ==> after.stage is Over && (
        action matches ClientAction::Fail(t) && t.what@ == "the host gave up: "@ + reason@
            && t.cause is None && (t.refused matches Some(r) && r@ == reason@))),
{
}

/// A connect asks its user exactly when nothing was said on the command line and
/// more than one session is live; it then shows the list and waits. Told to
/// start a new session it does, whatever is live.
pub proof fn a_connect_asks_exactly_when_there_is_a_choice(
    before: Connect,
    sessions: Vec<SessionSummary>,
    shown: String,
    after: Connect,
    action: ConnectAction,
)
    requires
        before.stage is Offer,
        connect_step(
            before,
            ConnectEvent::Offered(Ok((Signal::Sessions { sessions }, shown))),
            after,
            action,
        ),
    ensures
        action is Ask <==> !before.new && before.attach is None && sessions@.len() >= 2,
        action matches ConnectAction::Ask { say } ==> after.stage == (ConnectStage::Asking {
            sessions,
        }) && say@ == menu_of(views(sessions@)),
        before.new ==> action == ConnectAction::Send(Signal::Choose { choice: Choice::New }),
        !before.new && before.attach is None && sessions@.len() == 0 ==> action
            == ConnectAction::Send(Signal::Choose { choice: Choice::New }),
        !before.new && before.attach is None && sessions@.len() == 1 && !sessions@[0].detachable
            ==> action == ConnectAction::Send(Signal::Choose { choice: Choice::New }),
        !before.new && before.attach is None && sessions@.len() == 1 && sessions@[0].detachable
            ==> (action matches ConnectAction::Send(Signal::Choose { choice }) && (
        choice matches Choice::Attach { id } && id@ == sessions@[0].session_id@)),
        action is Send ==> after.stage is Choosing,
        action is Exit ==> after.stage is Over && (
        action matches ConnectAction::Exit { code, complaint } && code == 2
            && complaint is Some),
        !before.new && before.attach is Some && before.attach->0@.len() < 4 ==> (
        action matches ConnectAction::Exit { complaint, .. } && complaint->0@ == "oxutrm: "@ + (
        "--attach needs at least four characters of a session id, got "@ + quoted(
            before.attach->0@,
        ))),
        action is Ask || action is Send || action is Exit,
{
}

/// The session the user picks is the one the host is told: its place in the list
/// is its number, counted from one. `n` asks for a new one, and `q` or the end
/// of input leaves with nothing chosen and without complaint. Anything else is
/// asked again about the same list.
pub proof fn a_connect_sends_what_was_picked(
    before: Connect,
    sessions: Vec<SessionSummary>,
    line: Option<String>,
    after: Connect,
    action: ConnectAction,
    n: usize,
)
    requires
        before.stage == (ConnectStage::Asking { sessions }),
        connect_step(before, ConnectEvent::Line(Ok(line)), after, action),
    ensures
        line is None ==> after.stage is Over && action == (ConnectAction::Exit {
            code: 0,
            complaint: None,
        }),
        line matches Some(l) ==> {
            &&& l@ == decimal(n as nat) && 1 <= n <= sessions@.len() && sessions@[n
                - 1].detachable ==> after.stage is Choosing && (
            action matches ConnectAction::Send(Signal::Choose { choice }) && (
            choice matches Choice::Attach { id } && id@ == sessions@[n - 1].session_id@))
            &&& l@ == decimal(n as nat) && 1 <= n <= sessions@.len() && !sessions@[n
                - 1].detachable ==> after.stage == (ConnectStage::Asking { sessions }) && (
            action matches ConnectAction::Ask { say } && say@ == "session "@ + sessions@[n
                - 1].session_id@
                + " is not detachable: it tunnels its data through the ssh connection that created it, so it cannot outlive it and cannot be reattached. Start a new session."@
                + "\n"@)
            &&& l@ == decimal(n as nat) && (n == 0 || n > sessions@.len()) ==> after.stage == (
            ConnectStage::Asking { sessions }) && (action matches ConnectAction::Ask { say } && say@
                == "not understood: "@ + quoted(l@) + ". Try again.\n"@)
            &&& l@ == seq!['n'] ==> after.stage is Choosing && action == ConnectAction::Send(
                Signal::Choose { choice: Choice::New },
            )
            &&& l@ == seq!['q'] ==> after.stage is Over && action == (ConnectAction::Exit {
                code: 0,
                complaint: None,
            })
        },
{
    let none = Seq::<char>::empty();
    the_picker_takes_what_was_named(sessions@, n, none, none);
    assert(none + decimal(n as nat) + none =~= decimal(n as nat));
    assert(none + seq!['n'] + none =~= seq!['n']);
    assert(none + seq!['q'] + none =~= seq!['q']);
}

/// A connect that goes well runs its attach from a terminal of the size that was
/// measured, announces the path and prepares for the session that attach ended
/// with, and ends with the shell's own exit code, after the terminal was given
/// back.
pub proof fn a_connect_carries_its_attach_through(
    s: Seq<Connect>,
    a: Seq<ConnectAction>,
    size: TermSize,
    path: PathDescription,
    session_id: String,
    code: i32,
)
    requires
        s.len() == 8,
        a.len() == 7,
        s[0].stage is Choosing,
        connect_step(s[0], ConnectEvent::Sent(Ok(())), s[1], a[0]),
        connect_step(s[1], ConnectEvent::Measured(Ok(size)), s[2], a[1]),
        connect_step(s[2], ConnectEvent::Exchanged(Ok((path, session_id))), s[3], a[2]),
        connect_step(s[3], ConnectEvent::RawOn(Ok(())), s[4], a[3]),
        connect_step(s[4], ConnectEvent::Prepared(Ok(())), s[5], a[4]),
        connect_step(s[5], ConnectEvent::Announced(Ok(())), s[6], a[5]),
        connect_step(s[6], ConnectEvent::Ran(Ok(code)), s[7], a[6]),
    ensures
        a[0] is Measure,
        a[1] == (ConnectAction::Exchange { size }),
        a[2] matches ConnectAction::EnterRaw { say } && say@ == "oxutrm: session "@ + session_id@
            + ".\n"@,
        a[3] == (ConnectAction::Prepare { session_id }),
        a[4] == (ConnectAction::Announce { path }),
        a[5] is Run,
        a[6] == ConnectAction::LeaveRaw(Ok(code)),
        s[7].stage is Over,
        s[7].target == s[0].target,
        s[7].attach == s[0].attach,
        s[7].new == s[0].new,
{
}

/// Whatever fails ends the connect, in its own words: before raw mode as a plain
/// failure, and in it only after the terminal was given back. What an attach
/// came to nothing with is passed on as it is.
pub proof fn a_failed_connect_says_what_failed(
    before: Connect,
    event: ConnectEvent,
    after: Connect,
    action: ConnectAction,
    e: String,
    t: Trouble,
)
    requires
        connect_step(before, event, after, action),
    ensures
        ({
            let says = |x: Trouble, what: Seq<char>|
                x.what@ == what && (x.cause matches Some(c) && c@ == e@) && x.refused is None;
            let failed = |what: Seq<char>|
                after.stage is Over && (action matches ConnectAction::Fail(x) && says(x, what));
            let left = |what: Seq<char>|
                after.stage is Over && (action matches ConnectAction::LeaveRaw(Err(x)) && says(
                    x,
                    what,
                ));
            let no = Err::<(), String>(e);
            &&& before.stage is Ssh && event == ConnectEvent::Opened(Ok(())) ==> after.stage
                is Offer && action is ReadOffer
            &&& before.stage is Ssh && event == ConnectEvent::Opened(no) ==> failed(
                "starting a session on "@ + before.target@,
            )
            &&& before.stage is Offer && event == ConnectEvent::Offered(
                Err::<(Signal, String), String>(e),
            ) ==> failed("reading the host's list of live sessions"@)
            &&& before.stage is Choosing && event == ConnectEvent::Sent(no) ==> failed(
                "telling the host which session we want"@,
            )
            &&& before.stage is Measure && event == ConnectEvent::Measured(
                Err::<TermSize, String>(e),
            ) ==> failed("oxutrm needs a real terminal to connect from"@)
            &&& before.stage is Raw && event == ConnectEvent::RawOn(no) ==> failed(
                "putting the terminal into raw mode"@,
            )
            &&& before.stage is Prepare && event == ConnectEvent::Prepared(no) ==> left(
                "preparing the client session"@,
            )
            &&& before.stage is Announce && event == ConnectEvent::Announced(no) ==> left(
                "announcing the path"@,
            )
            &&& before.stage is Exchange && event == ConnectEvent::Exchanged(
                Err::<(PathDescription, String), Trouble>(t),
            ) ==> after.stage is Over && action == ConnectAction::Fail(t)
            &&& before.stage is Asking && event == ConnectEvent::Line(
                Err::<Option<String>, String>(e),
            ) ==> after.stage is Over && (action matches ConnectAction::Fail(x) && x.what@ == e@
                && x.cause is None && x.refused is None)
            &&& before.stage is Running && event == ConnectEvent::Ran(Err::<i32, String>(e))
                ==> after.stage is Over && (action matches ConnectAction::LeaveRaw(Err(x))
                && x.what@ == e@ && x.cause is None && x.refused is None)
        }),
        before.stage is Offer ==> (event matches ConnectEvent::Offered(Ok(heard)) ==> (
        heard.0 matches Signal::Failed { reason } ==> after.stage is Over && (
        action matches ConnectAction::Fail(x) && x.what@ == "the host gave up: "@ + reason@ && (
        x.refused matches Some(r) && r@ == reason@)))),
        before.stage is Offer ==> (event matches ConnectEvent::Offered(Ok(heard)) ==> (!(
        heard.0 is Failed || heard.0 is Sessions) ==> after.stage is Over && (
        action matches ConnectAction::Fail(x) && x.what@ == "the host opened with "@ + heard.1@
            + " instead of its list of sessions"@ && x.refused is None))),
        before.stage is Over ==> after == before && action is OutOfTurn,
        action is OutOfTurn ==> after == before,
{
}

/// A connect told which session to attach to asks the host for the one whose id
/// begins with what was given, by its whole id. If that one cannot be attached
/// to, or if several begin so, or none does, it says so and leaves with 2; it
/// neither asks nor starts a new session.
pub proof fn a_connect_attaches_to_what_was_named(
    before: Connect,
    sessions: Vec<SessionSummary>,
    shown: String,
    after: Connect,
    action: ConnectAction,
    prefix: String,
    i: int,
    j: int,
)
    requires
        before.stage is Offer,
        !before.new,
        before.attach == Some(prefix),
        prefix@.len() >= 4,
        0 <= i < sessions@.len(),
        0 <= j < sessions@.len(),
        connect_step(
            before,
            ConnectEvent::Offered(Ok((Signal::Sessions { sessions }, shown))),
            after,
            action,
        ),
    ensures
        ({
            &&& fits(sessions@, prefix@, i) && (forall|k: int|
                0 <= k < sessions@.len() && k != i ==> !(#[trigger] fits(sessions@, prefix@, k)))
                ==> {
                &&& sessions@[i].detachable ==> after.stage is Choosing && (
                action matches ConnectAction::Send(Signal::Choose { choice }) && (
                choice matches Choice::Attach { id } && id@ == sessions@[i].session_id@))
                &&& !sessions@[i].detachable ==> action is Exit
            }
            &&& i != j && fits(sessions@, prefix@, i) && fits(sessions@, prefix@, j)
                ==> action is Exit
            &&& (forall|k: int|
                0 <= k < sessions@.len() ==> !(#[trigger] fits(sessions@, prefix@, k)))
                ==> action is Exit
            &&& action is Exit || action is Send
        }),
{
    a_prefix_picks_the_one_it_fits(sessions@, prefix@, i, j);
}

/// An event that belongs to another stage is left alone: each stage of a client's
/// attach answers its own kind of event and nothing else.
pub proof fn a_client_leaves_other_events_alone(
    before: ClientExchange,
    event: ClientEvent,
    after: ClientExchange,
    action: ClientAction,
)
    requires
        client_step(before, event, after, action),
    ensures
        ({
            let awaited = match before.stage {
                ClientStage::Socket => event is Bound || event is BindFailed
                    || event is AdoptFailed,
                ClientStage::Offer { .. } => event is Heard,
                ClientStage::Discovery { .. } => event is Discovered,
                ClientStage::Certificate { .. } => event is Certificate && (before.caps is Some
                    || event->Certificate_0 is Err),
                ClientStage::Answer { .. } => event is Sent,
                ClientStage::Race { .. } => event is Raced || (event matches ClientEvent::Heard(h)
                    && !(h matches Ok(heard) && heard.0 is Established)),
                ClientStage::Connect { .. } => event is Connected,
                ClientStage::Verdict { .. } => event is Heard,
                ClientStage::Over => false,
            };
            &&& action is OutOfTurn <==> !awaited
            &&& !awaited ==> after == before
        }),
        after.proto == before.proto,
        after.size == before.size,
        !(action is Send) ==> after.caps == before.caps,
        action is Send ==> after.caps is None,
{
}

/// An event that belongs to another stage is left alone: each stage of a connect
/// answers its own kind of event and nothing else.
pub proof fn a_connect_leaves_other_events_alone(
    before: Connect,
    event: ConnectEvent,
    after: Connect,
    action: ConnectAction,
)
    requires
        connect_step(before, event, after, action),
    ensures
        ({
            let awaited = match before.stage {
                ConnectStage::Ssh => event is Opened,
                ConnectStage::Offer => event is Offered,
                ConnectStage::Asking { .. } => event is Line,
                ConnectStage::Choosing => event is Sent,
                ConnectStage::Measure => event is Measured,
                ConnectStage::Exchange { .. } => event is Exchanged,
                ConnectStage::Raw { .. } => event is RawOn,
                ConnectStage::Prepare { .. } => event is Prepared,
                ConnectStage::Announce => event is Announced,
                ConnectStage::Running => event is Ran,
                ConnectStage::Over => false,
            };
            &&& action is OutOfTurn <==> !awaited
            &&& !awaited ==> after == before
        }),
        after.target == before.target,
        after.attach == before.attach,
        after.new == before.new,
{
}

} // verus!
