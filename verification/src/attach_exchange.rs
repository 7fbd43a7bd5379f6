//! The host's half of an attach: a fresh certificate, the ladder, the hello
//! exchange and the handshake, whatever pipe the signalling runs on.
//!
//! The exchange says what to do next and is told how that went. It stops the
//! moment the client has been told the path is up: whether the session can be
//! detached, and what the registry says of it, is settled elsewhere.

use vstd::prelude::*;

use crate::addr::SocketAddr;
use crate::ladder::{Candidate, Nomination};
use crate::screen::TermSize;
use crate::signal::{
    client_facts, path_description, ClientFacts, ClientSpki, HostSpki, NatType, PathDescription,
    Psk, Signal, Trouble,
};

verus! {

/// What is recorded of a session.
#[derive(Debug, PartialEq, Eq)]
pub struct SessionMeta {
    pub session_id: String,
    /// Which attach generation is current.
    pub attach_id: u64,
    pub pid: u32,
    pub created_unix: u64,
    pub shell: String,
    pub size: TermSize,
    pub detachable: bool,
}

/// A copy of a list of candidates.
pub(crate) fn copied(v: &Vec<Candidate>) -> (r: Vec<Candidate>)
    ensures
        r@ == v@,
{
    let mut r: Vec<Candidate> = Vec::new();
    let mut i: usize = 0;
    while i < v.len()
        invariant
            i <= v@.len(),
            r@ == v@.take(i as int),
        decreases v@.len() - i,
    {
        proof {
            assert(v@.take(i + 1) =~= v@.take(i as int).push(v@[i as int]));
        }
        r.push(v[i]);
        i += 1;
    }
    proof {
        assert(v@.take(v@.len() as int) =~= v@);
    }
    r
}

/// The candidates of `a`, then those of `b`.
pub(crate) fn joined_candidates(a: &Vec<Candidate>, b: &Vec<Candidate>) -> (r: Vec<Candidate>)
    ensures
        r@ == a@ + b@,
{
    let mut r = copied(a);
    let mut more = copied(b);
    r.append(&mut more);
    r
}

/// Whether a message is the host's offer of a session.
///
/// It offers a detachable session: that is the host's intent, and nobody knows
/// yet which rung will be nominated. The outcome is settled later, from the
/// rung.
pub open spec fn is_host_hello(
    s: Signal,
    proto: u32,
    session_id: Seq<char>,
    attach_id: u64,
    spki: HostSpki,
    psk: Psk,
    candidates: Seq<Candidate>,
    nat_type: NatType,
    bound_port: u16,
) -> bool {
    &&& s matches Signal::HostHello {
        proto: p,
        session_id: id,
        attach_id: a,
        cert_spki_sha256: c,
        psk: k,
        candidates: cs,
        nat_type: n,
        bound_port: b,
        detachable: d,
    }
    &&& p == proto
    &&& id@ == session_id
    &&& a == attach_id
    &&& c == spki
    &&& k == psk
    &&& cs@ == candidates
    &&& n == nat_type
    &&& b == bound_port
    &&& d
}

/// The offer, composed before the ladder has run.
pub fn host_hello(
    proto: u32,
    session_id: &str,
    attach_id: u64,
    spki: HostSpki,
    psk: Psk,
    candidates: Vec<Candidate>,
    nat_type: NatType,
    bound_port: u16,
) -> (s: Signal)
    ensures
        is_host_hello(
            s,
            proto,
            session_id@,
            attach_id,
            spki,
            psk,
            candidates@,
            nat_type,
            bound_port,
        ),
{
    Signal::HostHello {
        proto,
        session_id: session_id.to_owned(),
        attach_id,
        cert_spki_sha256: spki,
        psk,
        candidates,
        nat_type,
        bound_port,
        detachable: true,
    }
}

/// How far an attach has come, and what it knows.
pub enum HostStage {
    /// The certificate is being made.
    Certificate,
    /// The attach generation is being started.
    Generation { spki: HostSpki },
    /// The socket is being bound.
    Socket { spki: HostSpki, psk: Psk },
    /// Our addresses are being discovered.
    Discovery { spki: HostSpki, psk: Psk, port: u16, local: Vec<Candidate> },
    /// The offer is being sent.
    Offer { psk: Psk, local: Vec<Candidate>, nat_type: NatType },
    /// The client's answer is being read.
    Answer { psk: Psk, local: Vec<Candidate>, nat_type: NatType },
    /// The ladder is running.
    Race { nat_type: NatType, client_spki: ClientSpki, size: TermSize },
    /// What the ladder discovered is still on its way to the client. Nothing
    /// else may be written until it is all there.
    Drain {
        nat_type: NatType,
        client_spki: ClientSpki,
        size: TermSize,
        outcome: Result<Nomination<()>, String>,
    },
    /// The client is being told that there is no path.
    Refusal { report: String },
    /// The endpoint is being brought up.
    Endpoint { nat_type: NatType, size: TermSize, path: Nomination<()> },
    /// The client's connection is being accepted.
    Accept { nat_type: NatType, size: TermSize, path: Nomination<()> },
    /// The client is being told that the path is up.
    Announce { size: TermSize, path: PathDescription },
    Over,
}

/// What happened.
pub enum HostEvent {
    Certificate(Result<HostSpki, String>),
    /// The generation that was started, and the key for it.
    Generation(Result<(u64, Psk), String>),
    /// The socket is bound to this port, and these are its own addresses.
    Bound { port: u16, local: Vec<Candidate> },
    BindFailed(String),
    AdoptFailed(String),
    Discovered { reflexive: Vec<Candidate>, nat_type: NatType },
    /// The message went out, or did not.
    Sent(Result<(), String>),
    /// A message arrived, with it as text, or none could be read.
    Heard(Result<(Signal, String), String>),
    /// The ladder found a path, or its report.
    Raced(Result<Nomination<()>, String>),
    /// All that was discovered has been sent, or could not be.
    Drained(Result<(), String>),
    /// What was sending it is gone.
    PumpLost(String),
    EndpointUp(Result<(), String>),
    /// A client connected, over a path with this round trip in milliseconds
    /// and this MTU.
    Accepted(Result<(u128, u16), String>),
}

/// What to do next.
pub enum HostAction {
    MakeCertificate,
    /// Start an attach generation for a certificate with this fingerprint.
    BeginAttach { spki: HostSpki },
    Bind,
    Discover,
    Send(Signal),
    Read,
    /// Run the ladder, as the side that is told what was nominated.
    Race { psk: Psk, nat_type: NatType, local: Vec<Candidate>, remote: Vec<Candidate> },
    /// Let what was discovered reach the client, then stop reading from it.
    Drain,
    /// Bring up an endpoint that accepts this client and no other.
    BringUp { client_spki: ClientSpki },
    Accept { nominated: SocketAddr },
    /// The attach is complete.
    Done { path: PathDescription, client_size: TermSize },
    Fail(Trouble),
    /// Nothing: that event belongs to another stage.
    OutOfTurn,
}

/// One attach, as the host sees it.
pub struct HostExchange {
    pub proto: u32,
    pub meta: SessionMeta,
    pub stage: HostStage,
}

/// Whether an action is the failure of `what` because of `cause`.
pub open spec fn fails_at(action: HostAction, what: Seq<char>, cause: Seq<char>) -> bool {
    action matches HostAction::Fail(t) && t.failed_at(what, cause)
}

/// Whether `event` at `before` leads to `after` and `action`.
pub open spec fn host_step(
    before: HostExchange,
    event: HostEvent,
    after: HostExchange,
    action: HostAction,
) -> bool {
    &&& after.proto == before.proto
    &&& match (before.stage, event) {
        (HostStage::Certificate, HostEvent::Certificate(Ok(spki))) => {
            &&& after.meta == before.meta
            &&& after.stage == (HostStage::Generation { spki })
            &&& action == (HostAction::BeginAttach { spki })
        },
        (HostStage::Certificate, HostEvent::Certificate(Err(e))) => {
            &&& after.meta == before.meta
            &&& after.stage is Over
            &&& fails_at(action, "generating this attach's certificate"@, e@)
        },
        (HostStage::Generation { spki }, HostEvent::Generation(Ok((attach_id, psk)))) => {
            &&& after.meta == (SessionMeta { attach_id, ..before.meta })
            &&& after.stage == (HostStage::Socket { spki, psk })
            &&& action is Bind
        },
        (HostStage::Generation { .. }, HostEvent::Generation(Err(e))) => {
            &&& after.meta == before.meta
            &&& after.stage is Over
            &&& fails_at(action, "starting an attach generation"@, e@)
        },
        (HostStage::Socket { spki, psk }, HostEvent::Bound { port, local }) => {
            &&& after.meta == before.meta
            &&& after.stage == (HostStage::Discovery { spki, psk, port, local })
            &&& action is Discover
        },
        (HostStage::Socket { .. }, HostEvent::BindFailed(e)) => {
            &&& after.meta == before.meta
            &&& after.stage is Over
            &&& fails_at(action, "binding a UDP socket"@, e@)
        },
        (HostStage::Socket { .. }, HostEvent::AdoptFailed(e)) => {
            &&& after.meta == before.meta
            &&& after.stage is Over
            &&& fails_at(action, "handing the socket to the runtime"@, e@)
        },
        (
            HostStage::Discovery { spki, psk, port, local },
            HostEvent::Discovered { reflexive, nat_type },
        ) => {
            &&& after.meta == before.meta
            &&& after.stage matches HostStage::Offer { psk: k, local: l, nat_type: n }
            &&& k == psk
            &&& l@ == local@ + reflexive@
            &&& n == nat_type
            &&& action matches HostAction::Send(s) && is_host_hello(
                s,
                before.proto,
                before.meta.session_id@,
                before.meta.attach_id,
                spki,
                psk,
                local@ + reflexive@,
                nat_type,
                port,
            )
        },
        (HostStage::Offer { psk, local, nat_type }, HostEvent::Sent(Ok(()))) => {
            &&& after.meta == before.meta
            &&& after.stage == (HostStage::Answer { psk, local, nat_type })
            &&& action is Read
        },
        (HostStage::Offer { .. }, HostEvent::Sent(Err(e))) => {
            &&& after.meta == before.meta
            &&& after.stage is Over
            &&& fails_at(action, "offering the session to the client"@, e@)
        },
        (HostStage::Answer { psk, local, nat_type }, HostEvent::Heard(Ok((signal, shown)))) => {
            match signal {
                Signal::ClientHello { cert_spki_sha256, candidates, size, .. } => {
                    &&& after.meta == (SessionMeta { size, ..before.meta })
                    &&& after.stage == (HostStage::Race {
                        nat_type,
                        client_spki: cert_spki_sha256,
                        size,
                    })
                    &&& action == (HostAction::Race { psk, nat_type, local, remote: candidates })
                },
                Signal::Failed { reason } => {
                    &&& after.meta == before.meta
                    &&& after.stage is Over
                    &&& action matches HostAction::Fail(t) && t.says(
                        "the client gave up before the ladder ran: "@ + reason@,
                    )
                },
                _ => {
                    &&& after.meta == before.meta
                    &&& after.stage is Over
                    &&& action matches HostAction::Fail(t) && t.says(
                        "the client answered the offer with "@ + shown@ + " instead of its hello"@,
                    )
                },
            }
        },
        (HostStage::Answer { .. }, HostEvent::Heard(Err(e))) => {
            &&& after.meta == before.meta
            &&& after.stage is Over
            &&& fails_at(action, "reading the client's hello"@, e@)
        },
        (HostStage::Race { nat_type, client_spki, size }, HostEvent::Raced(outcome)) => {
            &&& after.meta == before.meta
            &&& after.stage == (HostStage::Drain { nat_type, client_spki, size, outcome })
            &&& action is Drain
        },
        (HostStage::Drain { .. }, HostEvent::PumpLost(e)) => {
            &&& after.meta == before.meta
            &&& after.stage is Over
            &&& fails_at(action, "the outbound candidate pump"@, e@)
        },
        (HostStage::Drain { .. }, HostEvent::Drained(Err(e))) => {
            &&& after.meta == before.meta
            &&& after.stage is Over
            &&& fails_at(action, "sending our candidates to the client"@, e@)
        },
        (
            HostStage::Drain { nat_type, client_spki, size, outcome },
            HostEvent::Drained(Ok(())),
        ) => {
            &&& after.meta == before.meta
            &&& match outcome {
                Ok(path) => {
                    &&& after.stage == (HostStage::Endpoint { nat_type, size, path })
                    &&& action == (HostAction::BringUp { client_spki })
                },
                Err(report) => {
                    &&& after.stage == (HostStage::Refusal { report })
                    &&& action matches HostAction::Send(Signal::Failed { reason }) && reason@
                        == report@
                },
            }
        },
        (HostStage::Refusal { report }, HostEvent::Sent(_)) => {
            &&& after.meta == before.meta
            &&& after.stage is Over
            &&& fails_at(action, "no rung of the ladder produced a path"@, report@)
        },
        (HostStage::Endpoint { nat_type, size, path }, HostEvent::EndpointUp(Ok(()))) => {
            &&& after.meta == before.meta
            &&& after.stage == (HostStage::Accept { nat_type, size, path })
            &&& action == (HostAction::Accept { nominated: path.remote })
        },
        (HostStage::Endpoint { .. }, HostEvent::EndpointUp(Err(e))) => {
            &&& after.meta == before.meta
            &&& after.stage is Over
            &&& fails_at(action, "bringing up the QUIC endpoint on the nominated socket"@, e@)
        },
        (HostStage::Accept { nat_type, size, path }, HostEvent::Accepted(Ok((rtt_ms, mtu)))) => {
            let description = PathDescription {
                rung: path.rung,
                local: path.local,
                remote: path.remote,
                probes_sent: path.probes,
                nat_type,
                rtt_ms: if rtt_ms <= u32::MAX {
                    rtt_ms as u32
                } else {
                    u32::MAX
                },
                mtu,
            };
            &&& after.meta == before.meta
            &&& after.stage == (HostStage::Announce { size, path: description })
            &&& action == HostAction::Send(Signal::Established { path: description })
        },
        (HostStage::Accept { .. }, HostEvent::Accepted(Err(e))) => {
            &&& after.meta == before.meta
            &&& after.stage is Over
            &&& action matches HostAction::Fail(t) && t.says(e@)
        },
        (HostStage::Announce { size, path }, HostEvent::Sent(Ok(()))) => {
            &&& after.meta == before.meta
            &&& after.stage is Over
            &&& action == (HostAction::Done { path, client_size: size })
        },
        (HostStage::Announce { .. }, HostEvent::Sent(Err(e))) => {
            &&& after.meta == before.meta
            &&& after.stage is Over
            &&& fails_at(action, "telling the client the path is up"@, e@)
        },
        _ => {
            &&& after == before
            &&& action is OutOfTurn
        },
    }
}

impl HostExchange {
    /// Begin an attach to the session `meta` describes.
    pub fn start(proto: u32, meta: SessionMeta) -> (r: (HostExchange, HostAction))
        ensures
            r.0 == (HostExchange { proto, meta, stage: HostStage::Certificate }),
            r.1 is MakeCertificate,
    {
        (HostExchange { proto, meta, stage: HostStage::Certificate }, HostAction::MakeCertificate)
    }

    /// The attach is over, because `what` failed.
    fn failed(proto: u32, meta: SessionMeta, what: &str, cause: String) -> (r: (
        HostExchange,
        HostAction,
    ))
        ensures
            r.0 == (HostExchange { proto, meta, stage: HostStage::Over }),
            fails_at(r.1, what@, cause@),
    {
        (
            HostExchange { proto, meta, stage: HostStage::Over },
            HostAction::Fail(Trouble::at(what, cause)),
        )
    }

    /// Take in what happened, and say what to do next.
    pub fn step(self, event: HostEvent) -> (r: (HostExchange, HostAction))
        ensures
            host_step(self, event, r.0, r.1),
    {
        let HostExchange { proto, mut meta, stage } = self;
        match (stage, event) {
            (HostStage::Certificate, HostEvent::Certificate(Ok(spki))) => (
                HostExchange { proto, meta, stage: HostStage::Generation { spki } },
                HostAction::BeginAttach { spki },
            ),
            (HostStage::Certificate, HostEvent::Certificate(Err(e))) => {
                Self::failed(proto, meta, "generating this attach's certificate", e)
            },
            (HostStage::Generation { spki }, HostEvent::Generation(Ok((attach_id, psk)))) => {
                meta.attach_id = attach_id;
                (
                    HostExchange { proto, meta, stage: HostStage::Socket { spki, psk } },
                    HostAction::Bind,
                )
            },
            (HostStage::Generation { .. }, HostEvent::Generation(Err(e))) => {
                Self::failed(proto, meta, "starting an attach generation", e)
            },
            (HostStage::Socket { spki, psk }, HostEvent::Bound { port, local }) => (
                HostExchange {
                    proto,
                    meta,
                    stage: HostStage::Discovery { spki, psk, port, local },
                },
                HostAction::Discover,
            ),
            (HostStage::Socket { .. }, HostEvent::BindFailed(e)) => {
                Self::failed(proto, meta, "binding a UDP socket", e)
            },
            (HostStage::Socket { .. }, HostEvent::AdoptFailed(e)) => {
                Self::failed(proto, meta, "handing the socket to the runtime", e)
            },
            (
                HostStage::Discovery { spki, psk, port, local },
                HostEvent::Discovered { reflexive, nat_type },
            ) => {
                let all = joined_candidates(&local, &reflexive);
                let hello = host_hello(
                    proto,
                    meta.session_id.as_str(),
                    meta.attach_id,
                    spki,
                    psk,
                    copied(&all),
                    nat_type,
                    port,
                );
                (
                    HostExchange {
                        proto,
                        meta,
                        stage: HostStage::Offer { psk, local: all, nat_type },
                    },
                    HostAction::Send(hello),
                )
            },
            (HostStage::Offer { psk, local, nat_type }, HostEvent::Sent(Ok(()))) => (
                HostExchange { proto, meta, stage: HostStage::Answer { psk, local, nat_type } },
                HostAction::Read,
            ),
            (HostStage::Offer { .. }, HostEvent::Sent(Err(e))) => {
                Self::failed(proto, meta, "offering the session to the client", e)
            },
            (HostStage::Answer { psk, local, nat_type }, HostEvent::Heard(Ok((signal, shown)))) => {
                match client_facts(signal, shown.as_str()) {
                    Ok(client) => {
                        let ClientFacts { cert_spki_sha256, candidates, size, .. } = client;
                        meta.size = size;
                        (
                            HostExchange {
                                proto,
                                meta,
                                stage: HostStage::Race {
                                    nat_type,
                                    client_spki: cert_spki_sha256,
                                    size,
                                },
                            },
                            HostAction::Race { psk, nat_type, local, remote: candidates },
                        )
                    },
                    Err(t) => (
                        HostExchange { proto, meta, stage: HostStage::Over },
                        HostAction::Fail(t),
                    ),
                }
            },
            (HostStage::Answer { .. }, HostEvent::Heard(Err(e))) => {
                Self::failed(proto, meta, "reading the client's hello", e)
            },
            (HostStage::Race { nat_type, client_spki, size }, HostEvent::Raced(outcome)) => (
                HostExchange {
                    proto,
                    meta,
                    stage: HostStage::Drain { nat_type, client_spki, size, outcome },
                },
                HostAction::Drain,
            ),
            (HostStage::Drain { .. }, HostEvent::PumpLost(e)) => {
                Self::failed(proto, meta, "the outbound candidate pump", e)
            },
            (HostStage::Drain { .. }, HostEvent::Drained(Err(e))) => {
                Self::failed(proto, meta, "sending our candidates to the client", e)
            },
            (
                HostStage::Drain { nat_type, client_spki, size, outcome },
                HostEvent::Drained(Ok(())),
            ) => match outcome {
                Ok(path) => (
                    HostExchange { proto, meta, stage: HostStage::Endpoint { nat_type, size, path } },
                    HostAction::BringUp { client_spki },
                ),
                Err(report) => {
                    let reason = report.clone();
                    (
                        HostExchange { proto, meta, stage: HostStage::Refusal { report } },
                        HostAction::Send(Signal::Failed { reason }),
                    )
                },
            },
            (HostStage::Refusal { report }, HostEvent::Sent(_)) => {
                Self::failed(proto, meta, "no rung of the ladder produced a path", report)
            },
            (HostStage::Endpoint { nat_type, size, path }, HostEvent::EndpointUp(Ok(()))) => {
                let nominated = path.remote;
                (
                    HostExchange { proto, meta, stage: HostStage::Accept { nat_type, size, path } },
                    HostAction::Accept { nominated },
                )
            },
            (HostStage::Endpoint { .. }, HostEvent::EndpointUp(Err(e))) => {
                Self::failed(
                    proto,
                    meta,
                    "bringing up the QUIC endpoint on the nominated socket",
                    e,
                )
            },
            (
                HostStage::Accept { nat_type, size, path },
                HostEvent::Accepted(Ok((rtt_ms, mtu))),
            ) => {
                let description = path_description(&path, nat_type, rtt_ms, mtu);
                (
                    HostExchange {
                        proto,
                        meta,
                        stage: HostStage::Announce { size, path: description },
                    },
                    HostAction::Send(Signal::Established { path: description }),
                )
            },
            (HostStage::Accept { .. }, HostEvent::Accepted(Err(e))) => (
                HostExchange { proto, meta, stage: HostStage::Over },
                HostAction::Fail(Trouble::say(e)),
            ),
            (HostStage::Announce { size, path }, HostEvent::Sent(Ok(()))) => (
                HostExchange { proto, meta, stage: HostStage::Over },
                HostAction::Done { path, client_size: size },
            ),
            (HostStage::Announce { .. }, HostEvent::Sent(Err(e))) => {
                Self::failed(proto, meta, "telling the client the path is up", e)
            },
            (stage, _) => (HostExchange { proto, meta, stage }, HostAction::OutOfTurn),
        }
    }
}

/// The host speaks first: it reads the client's hello only after its own has
/// gone out. A host that read first would wait for a message the client cannot
/// yet write.
pub proof fn the_host_speaks_first(
    before: HostExchange,
    event: HostEvent,
    after: HostExchange,
    action: HostAction,
)
    requires
        host_step(before, event, after, action),
        action is Read,
    ensures
        before.stage is Offer,
        event matches HostEvent::Sent(r) && r is Ok,
{
}

/// The client is told that the path is up only once its connection has been
/// accepted, and an attach is complete only once the client has been told.
pub proof fn established_comes_after_the_accept(
    before: HostExchange,
    event: HostEvent,
    after: HostExchange,
    action: HostAction,
)
    requires
        host_step(before, event, after, action),
    ensures
        action matches HostAction::Send(Signal::Established { path }) ==> before.stage is Accept
            && (event matches HostEvent::Accepted(r) && r is Ok) && (
        after.stage matches HostStage::Announce { path: p, .. } && p == path),
        action is Done ==> before.stage is Announce,
{
}

/// Whatever the ladder comes to, nothing is written and nothing is brought up
/// before what it discovered has reached the client.
pub proof fn the_outbound_candidates_are_finished_first(
    before: HostExchange,
    event: HostEvent,
    after: HostExchange,
    action: HostAction,
)
    requires
        host_step(before, event, after, action),
        before.stage is Race || before.stage is Drain,
        action is Send || action is BringUp,
    ensures
        before.stage is Drain,
        event matches HostEvent::Drained(r) && r is Ok,
{
}

/// A ladder that found nothing is answered with every rung's reason, in words
/// that go to the client, before the attach fails.
pub proof fn a_total_failure_is_told_to_the_client(
    before: HostExchange,
    event: HostEvent,
    after: HostExchange,
    action: HostAction,
    report: String,
)
    requires
        host_step(before, event, after, action),
        before.stage matches HostStage::Drain { outcome, .. } && outcome
            == Err::<Nomination<()>, String>(report),
        event matches HostEvent::Drained(r) && r is Ok,
    ensures
        action matches HostAction::Send(Signal::Failed { reason }) && reason@ == report@,
{
}

/// An attach changes what is recorded of a session in two places and no other:
/// its generation when one is started, and its size when the client has given
/// it. Whether it can be detached is not settled here.
pub proof fn an_attach_changes_only_the_generation_and_the_size(
    before: HostExchange,
    event: HostEvent,
    after: HostExchange,
    action: HostAction,
)
    requires
        host_step(before, event, after, action),
    ensures
        after.meta.session_id == before.meta.session_id,
        after.meta.pid == before.meta.pid,
        after.meta.created_unix == before.meta.created_unix,
        after.meta.shell == before.meta.shell,
        after.meta.detachable == before.meta.detachable,
        after.meta.attach_id != before.meta.attach_id ==> before.stage is Generation,
        after.meta.size != before.meta.size ==> before.stage is Answer,
{
}

/// One step of an attach: what happened, and what that led to.
pub struct HostRound {
    pub event: HostEvent,
    pub after: HostExchange,
    pub action: HostAction,
}

/// The attach before step number `i`.
pub open spec fn host_at(start: HostExchange, rounds: Seq<HostRound>, i: int) -> HostExchange {
    if i <= 0 {
        start
    } else {
        rounds[i - 1].after
    }
}

/// Whether step number `i` of an attach is one.
pub open spec fn hosted(start: HostExchange, rounds: Seq<HostRound>, i: int) -> bool {
    host_step(host_at(start, rounds, i), rounds[i].event, rounds[i].after, rounds[i].action)
}

/// Whether step number `r` is the one in which the race ended, with `n`.
pub open spec fn raced_to(
    start: HostExchange,
    rounds: Seq<HostRound>,
    r: int,
    n: Nomination<()>,
) -> bool {
    &&& host_at(start, rounds, r).stage is Race
    &&& rounds[r].event == HostEvent::Raced(Ok::<Nomination<()>, String>(n))
}

/// What an attach knows of its path is what the race ended with.
spec fn knows_the_winner(start: HostExchange, rounds: Seq<HostRound>, i: int) -> bool {
    match host_at(start, rounds, i).stage {
        HostStage::Drain { outcome: Ok(n), .. } => exists|r: int|
            0 <= r < i && #[trigger] raced_to(start, rounds, r, n),
        HostStage::Endpoint { path, .. } => exists|r: int|
            0 <= r < i && #[trigger] raced_to(start, rounds, r, path),
        HostStage::Accept { path, .. } => exists|r: int|
            0 <= r < i && #[trigger] raced_to(start, rounds, r, path),
        HostStage::Announce { path, .. } => exists|r: int, n: Nomination<()>|
            0 <= r < i && #[trigger] raced_to(start, rounds, r, n) && path.rung == n.rung
                && path.local == n.local && path.remote == n.remote && path.probes_sent
                == n.probes,
        _ => true,
    }
}

/// An attach knows what its race ended with at every step.
proof fn the_winner_is_remembered(start: HostExchange, rounds: Seq<HostRound>, i: int)
    requires
        start.stage is Certificate,
        forall|k: int| 0 <= k < rounds.len() ==> #[trigger] hosted(start, rounds, k),
        0 <= i <= rounds.len(),
    ensures
        knows_the_winner(start, rounds, i),
    decreases i,
{
    if i > 0 {
        the_winner_is_remembered(start, rounds, i - 1);
        assert(hosted(start, rounds, i - 1));
        let before = host_at(start, rounds, i - 1);
        if let HostEvent::Raced(Ok(n)) = rounds[i - 1].event {
            if before.stage is Race {
                assert(raced_to(start, rounds, i - 1, n));
            }
        }
        match before.stage {
            HostStage::Drain { outcome: Ok(n), .. } => {
                let r = choose|r: int|
                    0 <= r < i - 1 && #[trigger] raced_to(start, rounds, r, n);
                assert(raced_to(start, rounds, r, n));
            },
            HostStage::Endpoint { path, .. } => {
                let r = choose|r: int|
                    0 <= r < i - 1 && #[trigger] raced_to(start, rounds, r, path);
                assert(raced_to(start, rounds, r, path));
            },
            HostStage::Accept { path, .. } => {
                let r = choose|r: int|
                    0 <= r < i - 1 && #[trigger] raced_to(start, rounds, r, path);
                assert(raced_to(start, rounds, r, path));
            },
            HostStage::Announce { path, .. } => {
                let (r, n) = choose|r: int, n: Nomination<()>|
                    0 <= r < i - 1 && #[trigger] raced_to(start, rounds, r, n) && path.rung
                        == n.rung && path.local == n.local && path.remote == n.remote
                        && path.probes_sent == n.probes;
                assert(raced_to(start, rounds, r, n));
            },
            _ => {},
        }
    }
}

/// The path an attach declares and ends with is the one its race ended with,
/// whichever rung that was on: its rung, both its addresses and the number of
/// checks it took are the nomination's own. And it is from that peer, and no
/// other, that the connection is accepted.
pub proof fn the_path_is_the_one_that_was_nominated(
    start: HostExchange,
    rounds: Seq<HostRound>,
    k: int,
)
    requires
        start.stage is Certificate,
        forall|i: int| 0 <= i < rounds.len() ==> #[trigger] hosted(start, rounds, i),
        0 <= k < rounds.len(),
    ensures
        rounds[k].action matches HostAction::Done { path, .. } ==> exists|
            r: int,
            n: Nomination<()>,
        |
            0 <= r < k && #[trigger] raced_to(start, rounds, r, n) && path.rung == n.rung
                && path.local == n.local && path.remote == n.remote && path.probes_sent
                == n.probes,
        rounds[k].action matches HostAction::Send(Signal::Established { path }) ==> exists|
            r: int,
            n: Nomination<()>,
        |
            0 <= r < k && #[trigger] raced_to(start, rounds, r, n) && path.rung == n.rung
                && path.local == n.local && path.remote == n.remote && path.probes_sent
                == n.probes,
        rounds[k].action matches HostAction::Accept { nominated } ==> exists|
            r: int,
            n: Nomination<()>,
        |
            0 <= r < k && #[trigger] raced_to(start, rounds, r, n) && nominated == n.remote,
{
    the_winner_is_remembered(start, rounds, k);
    assert(hosted(start, rounds, k));
}

/// An attach composes its offer of what it was given and of nothing else: the
/// certificate it made, the generation and the key it was given, the port it is
/// bound to, its own addresses and then those it discovered. It then races with
/// that key and those addresses towards the addresses the client answered with,
/// and records the generation and the client's size.
pub proof fn an_attach_offers_what_it_was_given(
    s: Seq<HostExchange>,
    a: Seq<HostAction>,
    spki: HostSpki,
    attach_id: u64,
    psk: Psk,
    port: u16,
    local: Vec<Candidate>,
    reflexive: Vec<Candidate>,
    nat_type: NatType,
    answer: Signal,
    shown: String,
)
    requires
        s.len() == 7,
        a.len() == 6,
        s[0].stage is Certificate,
        answer is ClientHello,
        host_step(s[0], HostEvent::Certificate(Ok(spki)), s[1], a[0]),
        host_step(s[1], HostEvent::Generation(Ok((attach_id, psk))), s[2], a[1]),
        host_step(s[2], HostEvent::Bound { port, local }, s[3], a[2]),
        host_step(s[3], HostEvent::Discovered { reflexive, nat_type }, s[4], a[3]),
        host_step(s[4], HostEvent::Sent(Ok(())), s[5], a[4]),
        host_step(s[5], HostEvent::Heard(Ok((answer, shown))), s[6], a[5]),
    ensures
        a[0] == (HostAction::BeginAttach { spki }),
        a[1] is Bind,
        a[2] is Discover,
        a[3] is Send && a[3]->Send_0 is HostHello,
        a[3]->Send_0->HostHello_proto == s[0].proto,
        a[3]->Send_0->HostHello_session_id@ == s[0].meta.session_id@,
        a[3]->Send_0->HostHello_attach_id == attach_id,
        a[3]->Send_0->HostHello_cert_spki_sha256 == spki,
        a[3]->Send_0->HostHello_psk == psk,
        a[3]->Send_0->HostHello_candidates@ == local@ + reflexive@,
        a[3]->Send_0->HostHello_nat_type == nat_type,
        a[3]->Send_0->HostHello_bound_port == port,
        a[3]->Send_0->HostHello_detachable,
        a[4] is Read,
        a[5] is Race,
        a[5]->Race_psk == psk,
        a[5]->Race_nat_type == nat_type,
        a[5]->Race_local@ == local@ + reflexive@,
        a[5]->Race_remote == answer->ClientHello_candidates,
        s[6].meta.attach_id == attach_id,
        s[6].meta.size == answer->ClientHello_size,
        s[6].meta.session_id == s[0].meta.session_id,
        s[6].meta.detachable == s[0].meta.detachable,
        s[6].proto == s[0].proto,
{
}

/// An attach whose race found a path lets what it discovered out first, brings
/// up an endpoint for the client that answered and no other, accepts it from the
/// nominated peer, and then declares and ends with one description: the
/// nomination's rung, addresses and checks, the host's own NAT, the live
/// connection's round trip in milliseconds, or the longest there is, and its
/// MTU. It ends with the size the client gave.
pub proof fn an_attach_ends_with_the_path_that_won(
    s: Seq<HostExchange>,
    a: Seq<HostAction>,
    local: Vec<Candidate>,
    psk: Psk,
    nat_type: NatType,
    answer: Signal,
    shown: String,
    n: Nomination<()>,
    rtt_ms: u128,
    mtu: u16,
)
    requires
        s.len() == 7,
        a.len() == 6,
        s[0].stage == (HostStage::Answer { psk, local, nat_type }),
        answer is ClientHello,
        host_step(s[0], HostEvent::Heard(Ok((answer, shown))), s[1], a[0]),
        host_step(s[1], HostEvent::Raced(Ok(n)), s[2], a[1]),
        host_step(s[2], HostEvent::Drained(Ok(())), s[3], a[2]),
        host_step(s[3], HostEvent::EndpointUp(Ok(())), s[4], a[3]),
        host_step(s[4], HostEvent::Accepted(Ok((rtt_ms, mtu))), s[5], a[4]),
        host_step(s[5], HostEvent::Sent(Ok(())), s[6], a[5]),
    ensures
        a[1] is Drain,
        a[2] == (HostAction::BringUp { client_spki: answer->ClientHello_cert_spki_sha256 }),
        a[3] == (HostAction::Accept { nominated: n.remote }),
        a[4] matches HostAction::Send(Signal::Established { path }) && {
            &&& path.rung == n.rung
            &&& path.local == n.local
            &&& path.remote == n.remote
            &&& path.probes_sent == n.probes
            &&& path.nat_type == nat_type
            &&& rtt_ms <= 0xffff_ffff ==> path.rtt_ms == rtt_ms
            &&& rtt_ms > 0xffff_ffff ==> path.rtt_ms == 0xffff_ffff
            &&& path.mtu == mtu
        },
        a[5] matches HostAction::Done { path, client_size } && {
            &&& a[4] == HostAction::Send(Signal::Established { path })
            &&& client_size == answer->ClientHello_size
        },
        s[6].stage is Over,
        s[6].meta == s[1].meta,
{
}

/// Whatever fails ends the attach, in its own words, with what went wrong behind
/// them.
pub proof fn a_failed_attach_says_what_failed(
    before: HostExchange,
    event: HostEvent,
    after: HostExchange,
    action: HostAction,
    e: String,
)
    requires
        host_step(before, event, after, action),
    ensures
        ({
            let failed = |what: Seq<char>|
                after.stage is Over && (action matches HostAction::Fail(t) && t.what@ == what && (
                t.cause matches Some(c) && c@ == e@) && t.refused is None);
            &&& before.stage is Certificate && event == HostEvent::Certificate(
                Err::<HostSpki, String>(e),
            ) ==> failed("generating this attach's certificate"@)
            &&& before.stage is Generation && event == HostEvent::Generation(
                Err::<(u64, Psk), String>(e),
            ) ==> failed("starting an attach generation"@)
            &&& before.stage is Socket && event == HostEvent::BindFailed(e) ==> failed(
                "binding a UDP socket"@,
            )
            &&& before.stage is Socket && event == HostEvent::AdoptFailed(e) ==> failed(
                "handing the socket to the runtime"@,
            )
            &&& before.stage is Offer && event == HostEvent::Sent(Err::<(), String>(e)) ==> failed(
                "offering the session to the client"@,
            )
            &&& before.stage is Answer && event == HostEvent::Heard(
                Err::<(Signal, String), String>(e),
            ) ==> failed("reading the client's hello"@)
            &&& before.stage is Drain && event == HostEvent::PumpLost(e) ==> failed(
                "the outbound candidate pump"@,
            )
            &&& before.stage is Drain && event == HostEvent::Drained(Err::<(), String>(e))
                ==> failed("sending our candidates to the client"@)
            &&& before.stage == (HostStage::Refusal { report: e }) && event is Sent ==> failed(
                "no rung of the ladder produced a path"@,
            )
            &&& before.stage is Endpoint && event == HostEvent::EndpointUp(Err::<(), String>(e))
                ==> failed("bringing up the QUIC endpoint on the nominated socket"@)
            &&& before.stage is Announce && event == HostEvent::Sent(Err::<(), String>(e))
                ==> failed("telling the client the path is up"@)
            &&& before.stage is Accept && event == HostEvent::Accepted(
                Err::<(u128, u16), String>(e),
            ) ==> after.stage is Over && (action matches HostAction::Fail(t) && t.what@ == e@
                && t.cause is None && t.refused is None)
        }),
        before.stage is Over ==> after == before && action is OutOfTurn,
        action is OutOfTurn ==> after == before,
{
}

/// A client that gives up in place of an answer, or says anything else there, is
/// not raced with: the attach ends with what it said.
pub proof fn only_a_hello_is_an_answer(
    before: HostExchange,
    signal: Signal,
    shown: String,
    after: HostExchange,
    action: HostAction,
)
    requires
        before.stage is Answer,
        host_step(before, HostEvent::Heard(Ok((signal, shown))), after, action),
    ensures
        action is Race <==> signal is ClientHello,
        signal matches Signal::Failed { reason } ==> {
            &&& action matches HostAction::Fail(t)
            &&& t.what@ == "the client gave up before the ladder ran: "@ + reason@
            &&& t.cause is None
        },
        !(signal is ClientHello || signal is Failed) ==> {
            &&& action matches HostAction::Fail(t)
            &&& t.what@ == "the client answered the offer with "@ + shown@
                + " instead of its hello"@
            &&& t.cause is None
        },
        !(signal is ClientHello) ==> after.stage is Over && after.meta == before.meta,
{
}

/// An event that belongs to another stage is left alone: each stage answers its
/// own kind of event and nothing else.
pub proof fn an_event_of_another_stage_is_left_alone(
    before: HostExchange,
    event: HostEvent,
    after: HostExchange,
    action: HostAction,
)
    requires
        host_step(before, event, after, action),
    ensures
        ({
            let awaited = match before.stage {
                HostStage::Certificate => event is Certificate,
                HostStage::Generation { .. } => event is Generation,
                HostStage::Socket { .. } => event is Bound || event is BindFailed
                    || event is AdoptFailed,
                HostStage::Discovery { .. } => event is Discovered,
                HostStage::Offer { .. } => event is Sent,
                HostStage::Answer { .. } => event is Heard,
                HostStage::Race { .. } => event is Raced,
                HostStage::Drain { .. } => event is Drained || event is PumpLost,
                HostStage::Refusal { .. } => event is Sent,
                HostStage::Endpoint { .. } => event is EndpointUp,
                HostStage::Accept { .. } => event is Accepted,
                HostStage::Announce { .. } => event is Sent,
                HostStage::Over => false,
            };
            &&& action is OutOfTurn <==> !awaited
            &&& !awaited ==> after == before
        }),
{
}

/// A race that found no path ends the attach with its report, unchanged: first to
/// the client, and then, whether the client could be told or not, as the reason
/// the attach failed.
pub proof fn a_lost_race_is_reported_unchanged(
    s: Seq<HostExchange>,
    a: Seq<HostAction>,
    report: String,
    told: Result<(), String>,
)
    requires
        s.len() == 4,
        a.len() == 3,
        s[0].stage is Race,
        host_step(s[0], HostEvent::Raced(Err(report)), s[1], a[0]),
        host_step(s[1], HostEvent::Drained(Ok(())), s[2], a[1]),
        host_step(s[2], HostEvent::Sent(told), s[3], a[2]),
    ensures
        a[0] is Drain,
        a[1] matches HostAction::Send(Signal::Failed { reason }) && reason@ == report@,
        a[2] matches HostAction::Fail(t) && t.what@ == "no rung of the ladder produced a path"@ && (
        t.cause matches Some(c) && c@ == report@) && t.refused is None,
        s[3].stage is Over,
        s[3].meta == s[0].meta,
{
}

} // verus!
