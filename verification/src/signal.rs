//! What the two ends say to each other before there is a path between them,
//! and what each message means where it arrives.

use vstd::prelude::*;

use crate::addr::{addr_text, SocketAddr};
use crate::caps::TerminalCaps;
use crate::chooser::{Choice, SessionSummary};
use crate::ladder::{Candidate, CandidateKind, Nomination, Rung};
use crate::screen::TermSize;
use crate::text::{decimal, hex, hex_is_positional, holding_is_being_around, occurs, quoted};
use crate::text::{hex_text, number, quote};

verus! {

/// What was concluded about a NAT.
#[derive(Clone, Copy, PartialEq, Eq, Debug, Structural)]
pub enum NatType {
    /// There is none.
    NoNat,
    EndpointIndependent,
    AddressDependent,
    Symmetric,
}

/// The key every check of one attach is authenticated with. It cannot be
/// printed.
#[derive(Clone, Copy, PartialEq, Eq)]
pub struct Psk {
    pub bytes: [u8; 32],
}

/// The fingerprint of the host's certificate, which the client pins.
#[derive(Clone, Copy, PartialEq, Eq, Debug)]
pub struct HostSpki {
    pub bytes: [u8; 32],
}

/// The fingerprint of the client's certificate, which the host pins.
#[derive(Clone, Copy, PartialEq, Eq, Debug)]
pub struct ClientSpki {
    pub bytes: [u8; 32],
}

/// The path in use, for the status line.
#[derive(Clone, Copy, PartialEq, Eq, Debug, Structural)]
pub struct PathDescription {
    pub rung: Rung,
    pub local: SocketAddr,
    pub remote: SocketAddr,
    pub probes_sent: u32,
    pub nat_type: NatType,
    pub rtt_ms: u32,
    pub mtu: u16,
}

/// A message of the exchange. It holds key material, so it cannot be printed.
pub enum Signal {
    /// The host's list of live sessions.
    Sessions { sessions: Vec<SessionSummary> },
    /// The client's choice among them.
    Choose { choice: Choice },
    /// The host's offer of a session.
    HostHello {
        proto: u32,
        session_id: String,
        attach_id: u64,
        cert_spki_sha256: HostSpki,
        psk: Psk,
        candidates: Vec<Candidate>,
        nat_type: NatType,
        bound_port: u16,
        detachable: bool,
    },
    /// The client's answer to the offer.
    ClientHello {
        proto: u32,
        cert_spki_sha256: ClientSpki,
        candidates: Vec<Candidate>,
        nat_type: NatType,
        caps: TerminalCaps,
        size: TermSize,
    },
    /// More candidates, discovered since the hello.
    CandidateUpdate { candidates: Vec<Candidate> },
    /// The path is up.
    Established { path: PathDescription },
    /// The sender has given up.
    Failed { reason: String },
}

/// Why an exchange ended short of a path.
#[derive(Debug, PartialEq, Eq)]
pub struct Trouble {
    /// What was being done, or all there is to say.
    pub what: String,
    /// What went wrong underneath.
    pub cause: Option<String>,
    /// The far end's own words, where it was the far end that gave up.
    pub refused: Option<String>,
}

/// A text with a cause behind it.
pub open spec fn with_cause(what: Seq<char>, cause: Option<Seq<char>>) -> Seq<char> {
    match cause {
        Some(c) => what + ": "@ + c,
        None => what,
    }
}

/// The view of an optional text.
pub open spec fn opt_text(s: Option<String>) -> Option<Seq<char>> {
    match s {
        Some(t) => Some(t@),
        None => None,
    }
}

impl Trouble {
    /// Whether this is all there is to say, and nobody refused anything.
    pub open spec fn says(&self, what: Seq<char>) -> bool {
        self.what@ == what && self.cause is None && self.refused is None
    }

    /// Whether `what` failed because of `cause`.
    pub open spec fn failed_at(&self, what: Seq<char>, cause: Seq<char>) -> bool {
        self.what@ == what && opt_text(self.cause) == Some(cause) && self.refused is None
    }

    /// Whether the host gave up for `reason`.
    pub open spec fn host_refused(&self, reason: Seq<char>) -> bool {
        self.what@ == "the host gave up: "@ + reason && self.cause is None && opt_text(self.refused)
            == Some(reason)
    }

    /// All there is to say.
    pub(crate) fn say(what: String) -> (t: Trouble)
        ensures
            t.says(what@),
    {
        Trouble { what, cause: None, refused: None }
    }

    /// Something that was being done failed.
    pub(crate) fn at(what: &str, cause: String) -> (t: Trouble)
        ensures
            t.failed_at(what@, cause@),
    {
        Trouble { what: what.to_owned(), cause: Some(cause), refused: None }
    }

    /// The host gave up, in its own words.
    pub(crate) fn from_host(reason: String) -> (t: Trouble)
        ensures
            t.host_refused(reason@),
    {
        let mut what = "the host gave up: ".to_owned();
        what.append(reason.as_str());
        Trouble { what, cause: None, refused: Some(reason) }
    }

    /// The whole of it on one line.
    pub fn message(&self) -> (s: String)
        ensures
            s@ == with_cause(self.what@, opt_text(self.cause)),
    {
        let mut s = self.what.clone();
        match &self.cause {
            Some(c) => {
                s.append(": ");
                s.append(c.as_str());
            },
            None => {},
        }
        s
    }
}

/// `before`, `middle` and `after` in a row.
fn around(before: &str, middle: &str, after: &str) -> (s: String)
    ensures
        s@ == before@ + middle@ + after@,
{
    let mut s = before.to_owned();
    s.append(middle);
    s.append(after);
    s
}

/// What a message means as the host's list of live sessions. `shown` is the
/// message as text, for when it means nothing there.
pub fn sessions_offered(signal: Signal, shown: &str) -> (r: Result<Vec<SessionSummary>, Trouble>)
    ensures
        match signal {
            Signal::Sessions { sessions } => r == Ok::<Vec<SessionSummary>, Trouble>(sessions),
            Signal::Failed { reason } => r matches Err(t) && t.host_refused(reason@),
            _ => r matches Err(t) && t.says(
                "the host opened with "@ + shown@ + " instead of its list of sessions"@,
            ),
        },
{
    match signal {
        Signal::Sessions { sessions } => Ok(sessions),
        Signal::Failed { reason } => Err(Trouble::from_host(reason)),
        _ => Err(
            Trouble::say(
                around("the host opened with ", shown, " instead of its list of sessions"),
            ),
        ),
    }
}

/// What the host offered, once its hello arrived. It holds key material, so
/// what may be shown of it is named, by [`HostFacts::shown`].
pub struct HostFacts {
    pub session_id: String,
    /// Which attach generation this is.
    pub attach_id: u64,
    pub psk: Psk,
    /// The fingerprint the client pins.
    pub host_spki: HostSpki,
    pub candidates: Vec<Candidate>,
    pub nat: NatType,
}

/// A fingerprint in hexadecimal.
pub open spec fn bytes_text(bytes: Seq<u8>) -> Seq<char>
    decreases bytes.len(),
{
    if bytes.len() == 0 {
        Seq::empty()
    } else {
        bytes_text(bytes.drop_last()) + hex(bytes.last() as nat, 2)
    }
}

/// What a candidate's address is.
pub open spec fn kind_name(kind: CandidateKind) -> Seq<char> {
    match kind {
        CandidateKind::Host => "Host"@,
        CandidateKind::ServerReflexive => "ServerReflexive"@,
        CandidateKind::PeerReflexive => "PeerReflexive"@,
        CandidateKind::PortMapped => "PortMapped"@,
    }
}

/// One candidate as text.
pub open spec fn candidate_text(c: Candidate) -> Seq<char> {
    "Candidate { addr: "@ + addr_text(c.addr) + ", kind: "@ + kind_name(c.kind) + ", priority: "@
        + decimal(c.priority as nat) + " }"@
}

/// Candidates as text, with commas in between.
pub open spec fn candidates_text(cs: Seq<Candidate>) -> Seq<char>
    decreases cs.len(),
{
    if cs.len() == 0 {
        Seq::empty()
    } else if cs.len() == 1 {
        candidate_text(cs[0])
    } else {
        candidates_text(cs.drop_last()) + ", "@ + candidate_text(cs.last())
    }
}

/// The name of a kind of NAT.
pub open spec fn nat_name(nat_type: NatType) -> Seq<char> {
    match nat_type {
        NatType::NoNat => "None"@,
        NatType::EndpointIndependent => "EndpointIndependent"@,
        NatType::AddressDependent => "AddressDependent"@,
        NatType::Symmetric => "Symmetric"@,
    }
}

/// What may be shown of an offer: all of it but the key.
pub open spec fn facts_text(f: HostFacts) -> Seq<char> {
    "HostFacts { session_id: "@ + quoted(f.session_id@) + ", attach_id: "@ + decimal(
        f.attach_id as nat,
    ) + ", host_spki: "@ + bytes_text(f.host_spki.bytes@) + ", candidates: ["@ + candidates_text(
        f.candidates@,
    ) + "], nat: "@ + nat_name(f.nat) + ", .. }"@
}

/// A fingerprint in hexadecimal.
fn in_hex(bytes: &[u8; 32]) -> (s: String)
    ensures
        s@ == bytes_text(bytes@),
{
    let mut s = String::new();
    let mut i: usize = 0;
    while i < 32
        invariant
            i <= 32,
            s@ == bytes_text(bytes@.take(i as int)),
        decreases 32 - i,
    {
        proof {
            assert(bytes@.take(i + 1).drop_last() =~= bytes@.take(i as int));
        }
        s.append(hex_text(bytes[i] as u32, 2).as_str());
        i += 1;
    }
    proof {
        assert(bytes@.take(32) =~= bytes@);
    }
    s
}

/// One candidate as text.
fn shown_candidate(c: &Candidate) -> (s: String)
    ensures
        s@ == candidate_text(*c),
{
    let mut s = "Candidate { addr: ".to_owned();
    s.append(c.addr.text().as_str());
    s.append(", kind: ");
    s.append(
        match c.kind {
            CandidateKind::Host => "Host",
            CandidateKind::ServerReflexive => "ServerReflexive",
            CandidateKind::PeerReflexive => "PeerReflexive",
            CandidateKind::PortMapped => "PortMapped",
        },
    );
    s.append(", priority: ");
    s.append(number(c.priority as u64).as_str());
    s.append(" }");
    s
}

/// Candidates as text, with commas in between.
fn shown_candidates(cs: &Vec<Candidate>) -> (s: String)
    ensures
        s@ == candidates_text(cs@),
{
    let mut s = String::new();
    let mut i: usize = 0;
    while i < cs.len()
        invariant
            i <= cs@.len(),
            s@ == candidates_text(cs@.take(i as int)),
        decreases cs@.len() - i,
    {
        proof {
            assert(cs@.take(i + 1).drop_last() =~= cs@.take(i as int));
            assert(Seq::<char>::empty() + candidate_text(cs@[i as int]) =~= candidate_text(
                cs@[i as int],
            ));
        }
        if i > 0 {
            s.append(", ");
        }
        s.append(shown_candidate(&cs[i]).as_str());
        i += 1;
    }
    proof {
        assert(cs@.take(cs@.len() as int) =~= cs@);
    }
    s
}

impl HostFacts {
    /// What may be shown of an offer. The key is not in it: naming the fields
    /// that are is the version that cannot drift.
    pub fn shown(&self) -> (s: String)
        ensures
            s@ == facts_text(*self),
    {
        let mut s = "HostFacts { session_id: ".to_owned();
        s.append(quote(self.session_id.as_str()).as_str());
        s.append(", attach_id: ");
        s.append(number(self.attach_id).as_str());
        s.append(", host_spki: ");
        s.append(in_hex(&self.host_spki.bytes).as_str());
        s.append(", candidates: [");
        s.append(shown_candidates(&self.candidates).as_str());
        s.append("], nat: ");
        s.append(
            match self.nat {
                NatType::NoNat => "None",
                NatType::EndpointIndependent => "EndpointIndependent",
                NatType::AddressDependent => "AddressDependent",
                NatType::Symmetric => "Symmetric",
            },
        );
        s.append(", .. }");
        s
    }
}

/// What is shown of an offer says nothing of its key: two that differ in it
/// alone read the same.
pub proof fn the_key_is_never_shown(a: HostFacts, b: HostFacts)
    requires
        a.session_id@ == b.session_id@,
        a.attach_id == b.attach_id,
        a.host_spki == b.host_spki,
        a.candidates@ == b.candidates@,
        a.nat == b.nat,
    ensures
        facts_text(a) == facts_text(b),
{
}

/// Whether `r` is what a message means as the host's offer.
pub open spec fn offers(signal: Signal, shown: Seq<char>, r: Result<HostFacts, Trouble>) -> bool {
    match signal {
        Signal::HostHello {
            session_id,
            attach_id,
            cert_spki_sha256,
            psk,
            candidates,
            nat_type,
            ..
        } => r == Ok::<HostFacts, Trouble>(
            HostFacts {
                session_id,
                attach_id,
                psk,
                host_spki: cert_spki_sha256,
                candidates,
                nat: nat_type,
            },
        ),
        Signal::Failed { reason } => r matches Err(t) && t.host_refused(reason@),
        _ => r matches Err(t) && t.says(
            "the host opened with "@ + shown + " instead of its hello"@,
        ),
    }
}

/// What a message means as the host's offer.
pub fn host_facts(signal: Signal, shown: &str) -> (r: Result<HostFacts, Trouble>)
    ensures
        match signal {
            Signal::HostHello {
                session_id,
                attach_id,
                cert_spki_sha256,
                psk,
                candidates,
                nat_type,
                ..
            } => r == Ok::<HostFacts, Trouble>(
                HostFacts {
                    session_id,
                    attach_id,
                    psk,
                    host_spki: cert_spki_sha256,
                    candidates,
                    nat: nat_type,
                },
            ),
            Signal::Failed { reason } => r matches Err(t) && t.host_refused(reason@),
            _ => r matches Err(t) && t.says(
                "the host opened with "@ + shown@ + " instead of its hello"@,
            ),
        },
        offers(signal, shown@, r),
{
    match signal {
        Signal::HostHello {
            session_id,
            attach_id,
            cert_spki_sha256,
            psk,
            candidates,
            nat_type,
            ..
        } => Ok(
            HostFacts {
                session_id,
                attach_id,
                psk,
                host_spki: cert_spki_sha256,
                candidates,
                nat: nat_type,
            },
        ),
        Signal::Failed { reason } => Err(Trouble::from_host(reason)),
        _ => Err(Trouble::say(around("the host opened with ", shown, " instead of its hello"))),
    }
}

/// What a message means as the host's last one, which declares the path up.
/// The path is the host's description: two ends deriving a status line
/// separately is two status lines that can disagree.
pub fn established_path(signal: Signal, shown: &str) -> (r: Result<PathDescription, Trouble>)
    ensures
        match signal {
            Signal::Established { path } => r == Ok::<PathDescription, Trouble>(path),
            Signal::Failed { reason } => r matches Err(t) && t.host_refused(reason@),
            _ => r matches Err(t) && t.says(
                "the host sent "@ + shown@ + " where the link should have been declared up"@,
            ),
        },
{
    match signal {
        Signal::Established { path } => Ok(path),
        Signal::Failed { reason } => Err(Trouble::from_host(reason)),
        _ => Err(
            Trouble::say(
                around("the host sent ", shown, " where the link should have been declared up"),
            ),
        ),
    }
}

/// What the client told us about itself, once its hello arrived.
#[derive(Debug)]
pub struct ClientFacts {
    pub cert_spki_sha256: ClientSpki,
    pub candidates: Vec<Candidate>,
    /// The client's own NAT verdict. It does not select the ladder's plan,
    /// which is about what this end can do.
    pub nat_type: NatType,
    /// What the client's terminal can render. It never picks `TERM`.
    pub caps: TerminalCaps,
    pub size: TermSize,
}

/// Whether `r` is what a message means as the client's answer to the offer.
pub open spec fn answers(signal: Signal, shown: Seq<char>, r: Result<ClientFacts, Trouble>) -> bool {
    match signal {
        Signal::ClientHello { cert_spki_sha256, candidates, nat_type, caps, size, .. } => r
            == Ok::<ClientFacts, Trouble>(
            ClientFacts { cert_spki_sha256, candidates, nat_type, caps, size },
        ),
        Signal::Failed { reason } => r matches Err(t) && t.says(
            "the client gave up before the ladder ran: "@ + reason@,
        ),
        _ => r matches Err(t) && t.says(
            "the client answered the offer with "@ + shown + " instead of its hello"@,
        ),
    }
}

/// What a message means as the client's answer to the offer.
pub fn client_facts(signal: Signal, shown: &str) -> (r: Result<ClientFacts, Trouble>)
    ensures
        match signal {
            Signal::ClientHello { cert_spki_sha256, candidates, nat_type, caps, size, .. } => r
                == Ok::<ClientFacts, Trouble>(
                ClientFacts { cert_spki_sha256, candidates, nat_type, caps, size },
            ),
            Signal::Failed { reason } => r matches Err(t) && t.says(
                "the client gave up before the ladder ran: "@ + reason@,
            ),
            _ => r matches Err(t) && t.says(
                "the client answered the offer with "@ + shown@ + " instead of its hello"@,
            ),
        },
        answers(signal, shown@, r),
{
    match signal {
        Signal::ClientHello { cert_spki_sha256, candidates, nat_type, caps, size, .. } => Ok(
            ClientFacts { cert_spki_sha256, candidates, nat_type, caps, size },
        ),
        Signal::Failed { reason } => {
            let mut what = "the client gave up before the ladder ran: ".to_owned();
            what.append(reason.as_str());
            Err(Trouble::say(what))
        },
        _ => Err(
            Trouble::say(
                around("the client answered the offer with ", shown, " instead of its hello"),
            ),
        ),
    }
}

/// What one message means while candidates are being exchanged.
pub enum Inbound {
    /// Candidates to feed to the ladder.
    Feed(Vec<Candidate>),
    /// The message the caller was waiting for.
    Message(Signal),
}

/// What one message means while candidates are being exchanged.
pub open spec fn meant(signal: Signal) -> Inbound {
    match signal {
        Signal::CandidateUpdate { candidates } => Inbound::Feed(candidates),
        other => Inbound::Message(other),
    }
}

/// Whether a message tells the peer about one candidate.
pub open spec fn tells_of(s: Signal, candidate: Candidate) -> bool {
    s matches Signal::CandidateUpdate { candidates } && candidates@ == seq![candidate]
}

/// What one message means while candidates are being exchanged: the first one
/// that is no update is the one the caller was waiting for, and swallowing it
/// would lose the end of the handshake.
pub fn inbound_candidates(signal: Signal) -> (r: Inbound)
    ensures
        r == (match signal {
            Signal::CandidateUpdate { candidates } => Inbound::Feed(candidates),
            other => Inbound::Message(other),
        }),
        r == meant(signal),
{
    match signal {
        Signal::CandidateUpdate { candidates } => Inbound::Feed(candidates),
        other => Inbound::Message(other),
    }
}

/// The message that tells the peer about one discovered candidate.
pub fn outbound_candidate(candidate: Candidate) -> (s: Signal)
    ensures
        s matches Signal::CandidateUpdate { candidates } && candidates@ == seq![candidate],
        tells_of(s, candidate),
{
    let mut candidates: Vec<Candidate> = Vec::new();
    candidates.push(candidate);
    Signal::CandidateUpdate { candidates }
}

/// Describe the nominated path, with the two numbers that only the live
/// connection has: its round trip in milliseconds, and its MTU.
///
/// A round trip too long for the field is reported as the longest there is: a
/// link that slow should be reported as very slow, not as very fast.
pub fn path_description<S>(
    nomination: &Nomination<S>,
    nat_type: NatType,
    rtt_ms: u128,
    mtu: u16,
) -> (p: PathDescription)
    ensures
        p == (PathDescription {
            rung: nomination.rung,
            local: nomination.local,
            remote: nomination.remote,
            probes_sent: nomination.probes,
            nat_type,
            rtt_ms: if rtt_ms <= u32::MAX {
                rtt_ms as u32
            } else {
                u32::MAX
            },
            mtu,
        }),
{
    PathDescription {
        rung: nomination.rung,
        local: nomination.local,
        remote: nomination.remote,
        probes_sent: nomination.probes,
        nat_type,
        rtt_ms: if rtt_ms <= u32::MAX as u128 {
            rtt_ms as u32
        } else {
            u32::MAX
        },
        mtu,
    }
}

/// While candidates are being exchanged, an update is fed as it came and anything
/// else is handed on as it came; and what is told of a candidate is fed as that
/// candidate and nothing more.
pub proof fn candidates_come_through_unchanged(signal: Signal, candidate: Candidate, told: Signal)
    requires
        tells_of(told, candidate),
    ensures
        signal matches Signal::CandidateUpdate { candidates } ==> meant(signal) == Inbound::Feed(
            candidates,
        ),
        !(signal is CandidateUpdate) ==> meant(signal) == Inbound::Message(signal),
        meant(told) matches Inbound::Feed(fed) && fed@ == seq![candidate],
{
}

/// The one line that is said of a failure is what was being done, and behind a
/// colon what went wrong, if something did.
pub proof fn a_failure_reads_as_what_and_why(t: Trouble)
    ensures
        t.cause is None ==> with_cause(t.what@, opt_text(t.cause)) == t.what@,
        t.cause matches Some(c) ==> with_cause(t.what@, opt_text(t.cause)) == t.what@ + ": "@ + c@,
{
}

/// A text in the middle of another stands in it.
proof fn stands_in(a: Seq<char>, middle: Seq<char>, b: Seq<char>, all: Seq<char>)
    requires
        all == a + middle + b,
    ensures
        occurs(all, middle),
{
    holding_is_being_around(all, middle);
}

/// A list of candidates shows each of them.
proof fn listed_among(cs: Seq<Candidate>, i: int)
    requires
        0 <= i < cs.len(),
    ensures
        exists|a: Seq<char>, b: Seq<char>|
            candidates_text(cs) == #[trigger] (a + candidate_text(cs[i]) + b),
    decreases cs.len(),
{
    let none = Seq::<char>::empty();
    let one = candidate_text(cs[i]);
    if cs.len() == 1 {
        assert(candidates_text(cs) =~= none + one + none);
    } else if i == cs.len() - 1 {
        assert(candidates_text(cs) =~= (candidates_text(cs.drop_last()) + ", "@) + one + none);
    } else {
        let head = cs.drop_last();
        listed_among(head, i);
        assert(head[i] == cs[i]);
        let (a, b) = choose|a: Seq<char>, b: Seq<char>|
            candidates_text(head) == #[trigger] (a + one + b);
        assert(candidates_text(cs) =~= a + one + (b + ", "@ + candidate_text(cs.last())));
    }
}

/// What is shown of an offer is its session, its generation, its fingerprint,
/// every candidate with its address, kind and priority, and the NAT it found.
pub proof fn an_offer_shows_all_but_its_key(f: HostFacts, i: int)
    requires
        0 <= i < f.candidates@.len(),
    ensures
        ({
            let shown = facts_text(f);
            let c = f.candidates@[i];
            let kind = match c.kind {
                CandidateKind::Host => "Host"@,
                CandidateKind::ServerReflexive => "ServerReflexive"@,
                CandidateKind::PeerReflexive => "PeerReflexive"@,
                CandidateKind::PortMapped => "PortMapped"@,
            };
            let found = match f.nat {
                NatType::NoNat => "None"@,
                NatType::EndpointIndependent => "EndpointIndependent"@,
                NatType::AddressDependent => "AddressDependent"@,
                NatType::Symmetric => "Symmetric"@,
            };
            &&& occurs(shown, "HostFacts { session_id: "@ + quoted(f.session_id@))
            &&& occurs(shown, ", attach_id: "@ + decimal(f.attach_id as nat))
            &&& occurs(shown, ", host_spki: "@ + bytes_text(f.host_spki.bytes@))
            &&& occurs(
                shown,
                "Candidate { addr: "@ + addr_text(c.addr) + ", kind: "@ + kind + ", priority: "@
                    + decimal(c.priority as nat) + " }"@,
            )
            &&& occurs(shown, "], nat: "@ + found)
        }),
{
    let shown = facts_text(f);
    let none = Seq::<char>::empty();
    let p1 = "HostFacts { session_id: "@ + quoted(f.session_id@);
    let p2 = ", attach_id: "@ + decimal(f.attach_id as nat);
    let p3 = ", host_spki: "@ + bytes_text(f.host_spki.bytes@);
    let p4 = ", candidates: ["@ + candidates_text(f.candidates@);
    let p5 = "], nat: "@ + nat_name(f.nat);
    let p6 = ", .. }"@;
    assert(shown =~= none + p1 + (p2 + p3 + p4 + p5 + p6));
    stands_in(none, p1, p2 + p3 + p4 + p5 + p6, shown);
    assert(shown =~= p1 + p2 + (p3 + p4 + p5 + p6));
    stands_in(p1, p2, p3 + p4 + p5 + p6, shown);
    assert(shown =~= (p1 + p2) + p3 + (p4 + p5 + p6));
    stands_in(p1 + p2, p3, p4 + p5 + p6, shown);
    assert(shown =~= (p1 + p2 + p3 + p4) + p5 + p6);
    stands_in(p1 + p2 + p3 + p4, p5, p6, shown);
    listed_among(f.candidates@, i);
    let one = candidate_text(f.candidates@[i]);
    let (a, b) = choose|a: Seq<char>, b: Seq<char>|
        candidates_text(f.candidates@) == #[trigger] (a + one + b);
    let front = p1 + p2 + p3 + ", candidates: ["@ + a;
    assert(shown =~= front + one + (b + p5 + p6));
    stands_in(front, one, b + p5 + p6, shown);
}

/// A fingerprint is shown byte by byte, two hexadecimal digits each.
pub proof fn a_fingerprint_is_two_digits_a_byte(bytes: Seq<u8>, i: int)
    requires
        0 <= i < bytes.len(),
    ensures
        bytes_text(bytes).len() == 2 * bytes.len(),
        bytes_text(bytes).subrange(2 * i, 2 * i + 2) == hex(bytes[i] as nat, 2),
    decreases bytes.len(),
{
    let head = bytes.drop_last();
    hex_is_positional(bytes.last() as nat, 2);
    if head.len() > 0 {
        a_fingerprint_is_two_digits_a_byte(head, if i < head.len() {
            i
        } else {
            0
        });
    } else {
        assert(bytes_text(head) =~= Seq::<char>::empty());
    }
    if i < head.len() {
        assert(bytes_text(bytes).subrange(2 * i, 2 * i + 2) =~= bytes_text(head).subrange(
            2 * i,
            2 * i + 2,
        ));
    } else {
        assert(bytes_text(bytes).subrange(2 * i, 2 * i + 2) =~= hex(bytes[i] as nat, 2));
    }
}

/// A hello is read field by field: each end takes from the other's what the other
/// put there, and a refusal or anything else in its place is no hello.
pub proof fn a_hello_is_read_field_by_field(
    signal: Signal,
    shown: Seq<char>,
    host: Result<HostFacts, Trouble>,
    client: Result<ClientFacts, Trouble>,
)
    requires
        offers(signal, shown, host),
        answers(signal, shown, client),
    ensures
        host is Ok <==> signal is HostHello,
        client is Ok <==> signal is ClientHello,
        signal is HostHello ==> {
            &&& host->Ok_0.session_id == signal->HostHello_session_id
            &&& host->Ok_0.attach_id == signal->HostHello_attach_id
            &&& host->Ok_0.psk == signal->HostHello_psk
            &&& host->Ok_0.host_spki == signal->HostHello_cert_spki_sha256
            &&& host->Ok_0.candidates == signal->HostHello_candidates
            &&& host->Ok_0.nat == signal->HostHello_nat_type
        },
        signal is ClientHello ==> {
            &&& client->Ok_0.cert_spki_sha256 == signal->ClientHello_cert_spki_sha256
            &&& client->Ok_0.candidates == signal->ClientHello_candidates
            &&& client->Ok_0.nat_type == signal->ClientHello_nat_type
            &&& client->Ok_0.caps == signal->ClientHello_caps
            &&& client->Ok_0.size == signal->ClientHello_size
        },
        signal matches Signal::Failed { reason } ==> {
            &&& host->Err_0.what@ == "the host gave up: "@ + reason@
            &&& host->Err_0.refused is Some && host->Err_0.refused->0@ == reason@
            &&& client->Err_0.what@ == "the client gave up before the ladder ran: "@ + reason@
            &&& client->Err_0.refused is None
        },
{
}

} // verus!
