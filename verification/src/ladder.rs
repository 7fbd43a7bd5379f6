//! The connection ladder: which rungs are tried, in what order, and what
//! became of each.
//!
//! Rungs 0 to 2 are not three attempts. They are three classes of candidate on
//! one socket, raced together; rung 3 punches with sockets of its own; rung 4
//! is not built. Nothing here touches a socket: a run says what to do next and
//! is told how that ended.

use vstd::prelude::*;

use crate::addr::{IpAddr, SocketAddr};
use crate::text::{align_left, number};
use crate::text::{begins, decimal, holding_is_being_around, left_aligned, occurs};

verus! {

/// A rung of the ladder.
#[derive(Clone, Copy, PartialEq, Eq, Debug, Structural)]
pub enum Rung {
    Ipv6Direct,
    PortMapped,
    StunPunch,
    Birthday,
    SshTunnel,
}

/// How a candidate address was come by.
#[derive(Clone, Copy, PartialEq, Eq, Debug, Structural)]
pub enum CandidateKind {
    Host,
    ServerReflexive,
    PeerReflexive,
    PortMapped,
}

/// An address a peer might be reached at.
#[derive(Clone, Copy, PartialEq, Eq, Debug, Structural)]
pub struct Candidate {
    pub addr: SocketAddr,
    pub kind: CandidateKind,
    pub priority: u32,
}

/// Which rungs are worth trying: those skipped in advance and why, those raced
/// together, and those tried one after another when the race gave nothing.
#[derive(Clone, PartialEq, Eq, Debug)]
pub struct LadderPlan {
    pub skipped: Vec<(Rung, String)>,
    pub raced: Vec<Rung>,
    pub sequential: Vec<Rung>,
}

/// Which rungs are worth trying.
pub struct PlanView {
    pub skipped: Seq<(Rung, Seq<char>)>,
    pub raced: Seq<Rung>,
    pub sequential: Seq<Rung>,
}

impl View for LadderPlan {
    type V = PlanView;

    open spec fn view(&self) -> PlanView {
        PlanView {
            skipped: self.skipped@.map_values(|e: (Rung, String)| (e.0, e.1@)),
            raced: self.raced@,
            sequential: self.sequential@,
        }
    }
}

/// The path the ladder settled on, and the socket it belongs to.
///
/// The path's MTU is not known yet: it is discovered after a handshake, which
/// is strictly after this.
#[derive(Debug)]
pub struct Nomination<S> {
    /// The socket the connection must adopt: the one the race ran on, or the
    /// one the blast punched with.
    pub socket: S,
    pub local: SocketAddr,
    pub remote: SocketAddr,
    pub rung: Rung,
    /// Every check this attach sent, across all rungs.
    pub probes: u32,
}

/// What became of one rung.
#[derive(Clone, Debug, PartialEq, Eq)]
pub enum Verdict {
    /// Decided against before anything was sent, with the reason.
    Skipped(String),
    /// Attempted, and it did not produce a path.
    Failed(String),
    /// Not needed: an earlier rung won before this one was reached.
    NotReached,
    /// This is the rung that won.
    Won,
}

/// What became of one rung.
pub enum VerdictView {
    Skipped(Seq<char>),
    Failed(Seq<char>),
    NotReached,
    Won,
}

impl View for Verdict {
    type V = VerdictView;

    open spec fn view(&self) -> VerdictView {
        match self {
            Verdict::Skipped(why) => VerdictView::Skipped(why@),
            Verdict::Failed(why) => VerdictView::Failed(why@),
            Verdict::NotReached => VerdictView::NotReached,
            Verdict::Won => VerdictView::Won,
        }
    }
}

/// The word for a verdict. No two of them are the same word.
pub open spec fn verdict_word(v: VerdictView) -> Seq<char> {
    match v {
        VerdictView::Skipped(_) => "skipped"@,
        VerdictView::Failed(_) => "failed"@,
        VerdictView::NotReached => "not reached"@,
        VerdictView::Won => "connected"@,
    }
}

/// What there is to say about a verdict.
pub open spec fn verdict_detail(v: VerdictView) -> Seq<char> {
    match v {
        VerdictView::Skipped(why) => why,
        VerdictView::Failed(why) => why,
        VerdictView::NotReached => "an earlier rung won"@,
        VerdictView::Won => "this is the path in use"@,
    }
}

impl Verdict {
    /// The word for this verdict.
    pub fn word(&self) -> (w: &'static str)
        ensures
            w@ == verdict_word(self@),
    {
        match self {
            Verdict::Skipped(_) => "skipped",
            Verdict::Failed(_) => "failed",
            Verdict::NotReached => "not reached",
            Verdict::Won => "connected",
        }
    }

    /// What there is to say about it.
    pub fn detail(&self) -> (d: &str)
        ensures
            d@ == verdict_detail(self@),
    {
        match self {
            Verdict::Skipped(why) => why.as_str(),
            Verdict::Failed(why) => why.as_str(),
            Verdict::NotReached => "an earlier rung won",
            Verdict::Won => "this is the path in use",
        }
    }
}

/// The rung with a given number.
pub open spec fn rung_at(n: int) -> Rung {
    if n == 0 {
        Rung::Ipv6Direct
    } else if n == 1 {
        Rung::PortMapped
    } else if n == 2 {
        Rung::StunPunch
    } else if n == 3 {
        Rung::Birthday
    } else {
        Rung::SshTunnel
    }
}

/// The number of a rung. The ladder is numbered from zero.
pub open spec fn number_of(rung: Rung) -> int {
    match rung {
        Rung::Ipv6Direct => 0,
        Rung::PortMapped => 1,
        Rung::StunPunch => 2,
        Rung::Birthday => 3,
        Rung::SshTunnel => 4,
    }
}

/// The name of a rung.
pub open spec fn name_of(rung: Rung) -> Seq<char> {
    match rung {
        Rung::Ipv6Direct => "IPv6 direct"@,
        Rung::PortMapped => "router port mapping"@,
        Rung::StunPunch => "STUN punch"@,
        Rung::Birthday => "birthday blast"@,
        Rung::SshTunnel => "SSH tunnel"@,
    }
}

/// Which number the user sees.
pub fn rung_number(rung: Rung) -> (n: u8)
    ensures
        n == number_of(rung),
{
    match rung {
        Rung::Ipv6Direct => 0,
        Rung::PortMapped => 1,
        Rung::StunPunch => 2,
        Rung::Birthday => 3,
        Rung::SshTunnel => 4,
    }
}

pub fn rung_name(rung: Rung) -> (name: &'static str)
    ensures
        name@ == name_of(rung),
{
    match rung {
        Rung::Ipv6Direct => "IPv6 direct",
        Rung::PortMapped => "router port mapping",
        Rung::StunPunch => "STUN punch",
        Rung::Birthday => "birthday blast",
        Rung::SshTunnel => "SSH tunnel",
    }
}

/// Every rung of one ladder run, in order, with what became of it.
#[derive(Clone, Debug, PartialEq, Eq)]
pub struct LadderReport {
    entries: Vec<(Rung, Verdict)>,
}

impl View for LadderReport {
    type V = Seq<VerdictView>;

    closed spec fn view(&self) -> Seq<VerdictView> {
        self.entries@.map_values(|e: (Rung, Verdict)| e.1@)
    }
}

/// A report in which no rung has been reached.
pub open spec fn untouched() -> Seq<VerdictView> {
    Seq::new(5, |i: int| VerdictView::NotReached)
}

/// One line of a report.
pub open spec fn report_line(n: int, v: VerdictView) -> Seq<char> {
    "  rung "@ + decimal(n as nat) + "  "@ + left_aligned(name_of(rung_at(n)), 20) + "  "@
        + left_aligned(verdict_word(v), 11) + "  "@ + verdict_detail(v) + "\n"@
}

/// The lines of a report.
pub open spec fn report_lines(r: Seq<VerdictView>) -> Seq<char>
    decreases r.len(),
{
    if r.len() == 0 {
        "no usable path to the host. Every rung, in order:\n"@
    } else {
        report_lines(r.drop_last()) + report_line(r.len() - 1, r.last())
    }
}

/// A report as text.
pub open spec fn report_text(r: Seq<VerdictView>) -> Seq<char> {
    report_lines(r)
        + "A rung marked `skipped` was never put on the wire; one marked `failed` was tried and did not answer."@
}

impl LadderReport {
    /// All five rungs are there, in order.
    pub closed spec fn wf(&self) -> bool {
        &&& self.entries@.len() == 5
        &&& forall|i: int| 0 <= i < 5 ==> (#[trigger] self.entries@[i]).0 == rung_at(i)
    }

    /// A report has an entry for each of the five rungs.
    pub proof fn has_five(&self)
        requires
            self.wf(),
        ensures
            self@.len() == 5,
    {
    }

    /// No rung reached yet.
    pub fn new() -> (r: LadderReport)
        ensures
            r.wf(),
            r@ == untouched(),
    {
        let mut entries: Vec<(Rung, Verdict)> = Vec::new();
        entries.push((Rung::Ipv6Direct, Verdict::NotReached));
        entries.push((Rung::PortMapped, Verdict::NotReached));
        entries.push((Rung::StunPunch, Verdict::NotReached));
        entries.push((Rung::Birthday, Verdict::NotReached));
        entries.push((Rung::SshTunnel, Verdict::NotReached));
        let r = LadderReport { entries };
        assert(r@ =~= untouched());
        r
    }

    /// Record what became of a rung.
    pub fn set(&mut self, rung: Rung, verdict: Verdict)
        requires
            old(self).wf(),
        ensures
            final(self).wf(),
            final(self)@ == old(self)@.update(number_of(rung), verdict@),
    {
        let i: usize = rung_number(rung) as usize;
        self.entries.set(i, (rung, verdict));
        assert(self@ =~= old(self)@.update(number_of(rung), verdict@));
    }

    /// What became of one rung.
    pub fn verdict(&self, rung: Rung) -> (v: &Verdict)
        requires
            self.wf(),
        ensures
            v@ == self@[number_of(rung)],
    {
        let i: usize = rung_number(rung) as usize;
        &self.entries[i].1
    }

    /// Every rung and its verdict, in ladder order.
    pub fn entries(&self) -> (e: &Vec<(Rung, Verdict)>)
        requires
            self.wf(),
        ensures
            e@.len() == 5,
            forall|i: int|
                0 <= i < 5 ==> (#[trigger] e@[i]).0 == rung_at(i) && e@[i].1@ == self@[i],
    {
        &self.entries
    }

    /// The report as text: every rung by number and by name, with what became
    /// of it and why.
    pub fn to_text(&self) -> (s: String)
        requires
            self.wf(),
        ensures
            s@ == report_text(self@),
    {
        let mut s = "no usable path to the host. Every rung, in order:\n".to_owned();
        let mut i: usize = 0;
        while i < self.entries.len()
            invariant
                self.wf(),
                i <= 5,
                s@ == report_lines(self@.take(i as int)),
            decreases 5 - i,
        {
            proof {
                assert(self@.take(i + 1).drop_last() =~= self@.take(i as int));
                assert(self@.take(i + 1).last() == self.entries@[i as int].1@);
            }
            let (rung, verdict) = &self.entries[i];
            let mut line = "  rung ".to_owned();
            line.append(number(rung_number(*rung) as u64).as_str());
            line.append("  ");
            line.append(align_left(rung_name(*rung), 20).as_str());
            line.append("  ");
            line.append(align_left(verdict.word(), 11).as_str());
            line.append("  ");
            line.append(verdict.detail());
            line.append("\n");
            s.append(line.as_str());
            i += 1;
        }
        proof {
            assert(self@.take(5) =~= self@);
        }
        s.append(
            "A rung marked `skipped` was never put on the wire; one marked `failed` was tried and did not answer.",
        );
        s
    }
}

/// Which rung a candidate of the peer's belongs to.
pub open spec fn class_of(c: Candidate) -> Rung {
    match c.kind {
        CandidateKind::PortMapped => Rung::PortMapped,
        CandidateKind::Host => match c.addr.ip {
            IpAddr::V6(_) => Rung::Ipv6Direct,
            IpAddr::V4(_) => Rung::StunPunch,
        },
        _ => Rung::StunPunch,
    }
}

/// Which rung a candidate of the peer's belongs to.
pub fn rung_of(remote: &Candidate) -> (r: Rung)
    ensures
        r == class_of(*remote),
{
    match remote.kind {
        CandidateKind::PortMapped => Rung::PortMapped,
        CandidateKind::Host => match remote.addr.ip {
            IpAddr::V6(_) => Rung::Ipv6Direct,
            IpAddr::V4(_) => Rung::StunPunch,
        },
        CandidateKind::ServerReflexive | CandidateKind::PeerReflexive => Rung::StunPunch,
    }
}

/// Whether the peer offered a candidate on a rung.
pub open spec fn offered_on(remote: Seq<Candidate>, rung: Rung) -> bool {
    exists|i: int| 0 <= i < remote.len() && class_of(#[trigger] remote[i]) == rung
}

/// Whether the peer offered a candidate on a rung.
fn any_on(remote: &Vec<Candidate>, rung: Rung) -> (r: bool)
    ensures
        r == offered_on(remote@, rung),
{
    let mut i: usize = 0;
    while i < remote.len()
        invariant
            i <= remote@.len(),
            forall|k: int| 0 <= k < i ==> class_of(#[trigger] remote@[k]) != rung,
        decreases remote@.len() - i,
    {
        if rung_of(&remote[i]) == rung {
            return true;
        }
        i += 1;
    }
    false
}

/// Where the server-reflexive candidate with the highest priority stands, the
/// last of them if several share it.
pub open spec fn best_reflexive(remote: Seq<Candidate>) -> Option<int>
    decreases remote.len(),
{
    if remote.len() == 0 {
        None
    } else {
        let before = best_reflexive(remote.drop_last());
        let last = remote.last();
        if last.kind is ServerReflexive && (before is None || remote[before->0].priority
            <= last.priority) {
            Some(remote.len() - 1)
        } else {
            before
        }
    }
}

/// The best server-reflexive candidate is one, and none has a higher priority.
pub proof fn the_base_is_the_best_reflexive(remote: Seq<Candidate>)
    ensures
        match best_reflexive(remote) {
            Some(i) => {
                &&& 0 <= i < remote.len()
                &&& remote[i].kind is ServerReflexive
                &&& forall|k: int|
                    0 <= k < remote.len() && (#[trigger] remote[k]).kind is ServerReflexive
                        ==> remote[k].priority <= remote[i].priority && (k > i
                        ==> remote[k].priority < remote[i].priority)
            },
            None => forall|k: int|
                0 <= k < remote.len() ==> !((#[trigger] remote[k]).kind is ServerReflexive),
        },
    decreases remote.len(),
{
    if remote.len() > 0 {
        let head = remote.drop_last();
        the_base_is_the_best_reflexive(head);
        assert(forall|k: int| 0 <= k < head.len() ==> #[trigger] remote[k] == head[k]);
    }
}

/// The peer address the blast guesses around.
///
/// A server-reflexive candidate is the only useful base: it is a real external
/// mapping that somebody observed. A host candidate is an interface address
/// behind the NAT and names no mapping at all.
pub fn blast_base(remote: &Vec<Candidate>) -> (base: Option<SocketAddr>)
    ensures
        base == (match best_reflexive(remote@) {
            Some(i) => Some(remote@[i].addr),
            None => None,
        }),
{
    let mut best: Option<usize> = None;
    let mut i: usize = 0;
    proof {
        assert(remote@.take(0) =~= Seq::empty());
    }
    while i < remote.len()
        invariant
            i <= remote@.len(),
            best matches Some(b) ==> b < i,
            best_reflexive(remote@.take(i as int)) == (match best {
                Some(b) => Some(b as int),
                None => None,
            }),
        decreases remote@.len() - i,
    {
        proof {
            assert(remote@.take(i + 1).drop_last() =~= remote@.take(i as int));
            assert(remote@.take(i + 1).last() == remote@[i as int]);
        }
        match remote[i].kind {
            CandidateKind::ServerReflexive => {
                match best {
                    Some(b) => {
                        if remote[b].priority <= remote[i].priority {
                            best = Some(i);
                        }
                    },
                    None => {
                        best = Some(i);
                    },
                }
            },
            _ => {},
        }
        i += 1;
    }
    proof {
        assert(remote@.take(remote@.len() as int) =~= remote@);
    }
    match best {
        Some(b) => Some(remote[b].addr),
        None => None,
    }
}

/// The reason a plan gives for skipping a rung: the last one it gives.
pub open spec fn policy_skip(skipped: Seq<(Rung, Seq<char>)>, rung: Rung) -> Option<Seq<char>>
    decreases skipped.len(),
{
    if skipped.len() == 0 {
        None
    } else if skipped.last().0 == rung {
        Some(skipped.last().1)
    } else {
        policy_skip(skipped.drop_last(), rung)
    }
}

/// Why a raced rung is skipped when the peer, which offered `n` candidates,
/// offered none on it.
pub open spec fn no_candidate_text(n: nat, rung: Rung) -> Seq<char> {
    "the peer offered no candidate of this class ("@ + decimal(n) + " of theirs, none on rung "@
        + decimal(number_of(rung) as nat) + ")"@
}

/// What is known of a rung before anything is sent. A rung that would be raced
/// but has no candidate of its class was never attempted, so it is skipped.
pub open spec fn verdict_in_advance(
    skip: Option<Seq<char>>,
    raced: bool,
    remote: Seq<Candidate>,
    rung: Rung,
) -> VerdictView {
    match skip {
        Some(why) => VerdictView::Skipped(why),
        None => if raced && !offered_on(remote, rung) {
            VerdictView::Skipped(no_candidate_text(remote.len(), rung))
        } else {
            VerdictView::NotReached
        },
    }
}

/// The report before anything is sent.
pub open spec fn started(plan: PlanView, remote: Seq<Candidate>) -> Seq<VerdictView> {
    Seq::new(
        5,
        |i: int|
            verdict_in_advance(
                policy_skip(plan.skipped, rung_at(i)),
                plan.raced.contains(rung_at(i)),
                remote,
                rung_at(i),
            ),
    )
}

/// The rungs that are raced: those of the plan that were not skipped.
pub open spec fn racing(plan: PlanView, remote: Seq<Candidate>) -> Seq<Rung> {
    plan.raced.filter(|r: Rung| !(started(plan, remote)[number_of(r)] is Skipped))
}

/// The report after a race that nobody won. There is one reason for the whole
/// group, because there was one race.
pub open spec fn after_race(
    report: Seq<VerdictView>,
    raced: Seq<Rung>,
    why: Seq<char>,
) -> Seq<VerdictView> {
    Seq::new(
        report.len(),
        |i: int|
            if raced.contains(rung_at(i)) {
                VerdictView::Failed(why)
            } else {
                report[i]
            },
    )
}

/// The report once nothing is left to try. The ssh tunnel is skipped and not
/// failed: saying "failed" would claim an attempt that no code could have made.
pub open spec fn given_up(report: Seq<VerdictView>) -> Seq<VerdictView> {
    report.update(
        4,
        VerdictView::Skipped(
            "the ssh tunnel is not implemented in this build; the contract records the framing it must carry"@,
        ),
    )
}

/// What is to be done about the birthday blast.
pub enum BlastPlan {
    /// It is no part of the plan.
    No,
    /// It is skipped, for this reason.
    Skip(Seq<char>),
    /// It is tried, around this address.
    Try(SocketAddr),
}

/// What is to be done about the birthday blast.
pub open spec fn blast_plan(planned: bool, enabled: bool, remote: Seq<Candidate>) -> BlastPlan {
    if !planned {
        BlastPlan::No
    } else if !enabled {
        BlastPlan::Skip("the birthday blast is switched off in this configuration"@)
    } else {
        match best_reflexive(remote) {
            Some(i) => BlastPlan::Try(remote[i].addr),
            None => BlastPlan::Skip(
                "the peer offered no server-reflexive candidate, so there is no observed external port to guess around"@,
            ),
        }
    }
}

/// What a run of the ladder does next.
#[derive(Clone, Copy, PartialEq, Eq, Debug, Structural)]
pub enum NextRung {
    /// Race rungs 0 to 2, on the one socket.
    Race,
    /// Blast around this address.
    Blast { base: SocketAddr },
    /// Nothing is left. The report says what became of every rung.
    GiveUp,
}

/// Why the blast gave no path. The texts are those of the addresses, the
/// duration and the errors.
#[derive(Debug)]
pub enum BlastFailure {
    NoHole { base: String, budget: String },
    NotStarted(String),
    NotAdopted(String),
    NoLocalAddress(String),
}

/// What is said of a blast that gave no path.
pub open spec fn blast_failure_text(how: BlastFailure) -> Seq<char> {
    match how {
        BlastFailure::NoHole { base, budget } => "no hole found around "@ + base@ + " within "@
            + budget@,
        BlastFailure::NotStarted(e) => "the blast could not start: "@ + e@,
        BlastFailure::NotAdopted(e) =>
            "the blast punched a hole but its socket could not be adopted: "@ + e@,
        BlastFailure::NoLocalAddress(e) => "the blast's socket has no local address: "@ + e@,
    }
}

/// One run of the ladder.
#[derive(Debug)]
pub struct LadderRun {
    pub report: LadderReport,
    /// The rungs that are raced.
    pub raced: Vec<Rung>,
    /// The peer's candidates.
    pub remote: Vec<Candidate>,
    /// Whether the blast is part of the plan.
    pub blast_planned: bool,
    /// Whether the blast is switched on.
    pub blast_enabled: bool,
    /// How many checks have been sent.
    pub probes: u32,
}

/// Everything of a run but its report and its count.
pub open spec fn same_but_report(a: LadderRun, b: LadderRun) -> bool {
    &&& a.raced == b.raced
    &&& a.remote == b.remote
    &&& a.blast_planned == b.blast_planned
    &&& a.blast_enabled == b.blast_enabled
}

/// Whether `run` is a run of `plan` towards `remote` that has sent nothing.
pub open spec fn begins_run(
    plan: PlanView,
    remote: Seq<Candidate>,
    blast_enabled: bool,
    run: LadderRun,
) -> bool {
    &&& run.report@ == started(plan, remote)
    &&& run.raced@ == racing(plan, remote)
    &&& run.remote@ == remote
    &&& run.blast_planned == plan.sequential.contains(Rung::Birthday)
    &&& run.blast_enabled == blast_enabled
    &&& run.probes == 0
}

/// Whether asking a run for its first rung takes it from `before` to `after`.
pub open spec fn first_step(before: LadderRun, after: LadderRun, next: NextRung) -> bool {
    &&& same_but_report(before, after)
    &&& after.probes == before.probes
    &&& if before.raced@.len() > 0 {
        next == NextRung::Race && after.report == before.report
    } else {
        next == before.next_past_race() && after.report@ == before.report_past_race(before.report@)
    }
}

/// Whether a race that nobody won takes a run from `before` to `after`.
pub open spec fn lost_race_step(
    before: LadderRun,
    why: Seq<char>,
    sent: u32,
    after: LadderRun,
    next: NextRung,
) -> bool {
    &&& same_but_report(before, after)
    &&& after.probes == sent
    &&& next == before.next_past_race()
    &&& after.report@ == before.report_past_race(after_race(before.report@, before.raced@, why))
}

/// Whether a race that was won takes a run from `before` to `after`.
pub open spec fn won_race_step<S>(
    before: LadderRun,
    socket: S,
    local: SocketAddr,
    remote: SocketAddr,
    rung: Rung,
    sent: u32,
    after: LadderRun,
    n: Nomination<S>,
) -> bool {
    &&& same_but_report(before, after)
    &&& after.probes == sent
    &&& after.report@ == before.report@.update(number_of(rung), VerdictView::Won)
    &&& n == (Nomination { socket, local, remote, rung, probes: sent })
}

/// Whether a blast that punched through takes a run from `before` to `after`.
pub open spec fn won_blast_step<S>(
    before: LadderRun,
    socket: S,
    local: SocketAddr,
    remote: SocketAddr,
    sent: u32,
    after: LadderRun,
    n: Nomination<S>,
) -> bool {
    &&& same_but_report(before, after)
    &&& after.probes == n.probes
    &&& after.report@ == before.report@.update(3, VerdictView::Won)
    &&& n.socket == socket
    &&& n.local == local
    &&& n.remote == remote
    &&& n.rung == Rung::Birthday
    &&& n.probes == (if before.probes + sent <= u32::MAX {
        (before.probes + sent) as u32
    } else {
        u32::MAX
    })
}

/// Whether a blast that gave no path takes a run from `before` to `after`.
pub open spec fn lost_blast_step(before: LadderRun, how: BlastFailure, after: LadderRun) -> bool {
    &&& same_but_report(before, after)
    &&& after.probes == before.probes
    &&& after.report@ == given_up(
        before.report@.update(3, VerdictView::Failed(blast_failure_text(how))),
    )
}

impl LadderRun {
    /// What the run does next when its report is `report` and the race is
    /// behind it.
    pub open spec fn next_past_race(&self) -> NextRung {
        match blast_plan(self.blast_planned, self.blast_enabled, self.remote@) {
            BlastPlan::Try(base) => NextRung::Blast { base },
            _ => NextRung::GiveUp,
        }
    }

    /// The report `report` becomes when the race is left behind.
    pub open spec fn report_past_race(&self, report: Seq<VerdictView>) -> Seq<VerdictView> {
        match blast_plan(self.blast_planned, self.blast_enabled, self.remote@) {
            BlastPlan::Try(_) => report,
            BlastPlan::Skip(why) => given_up(report.update(3, VerdictView::Skipped(why))),
            BlastPlan::No => given_up(report),
        }
    }

    /// Begin a run: what the plan skips, and what has no candidate of its
    /// class, is settled before a packet exists.
    pub fn start(plan: &LadderPlan, remote: Vec<Candidate>, blast_enabled: bool) -> (run: LadderRun)
        ensures
            run.report.wf(),
            run.report@ == started(plan@, remote@),
            run.raced@ == racing(plan@, remote@),
            run.remote == remote,
            run.blast_planned == plan.sequential@.contains(Rung::Birthday),
            run.blast_enabled == blast_enabled,
            run.probes == 0,
            begins_run(plan@, remote@, blast_enabled, run),
    {
        let ghost pv = plan@;
        let mut report = LadderReport::new();
        let mut i: usize = 0;
        proof {
            assert(pv.skipped.take(0) =~= Seq::empty());
        }
        while i < plan.skipped.len()
            invariant
                i <= plan.skipped@.len(),
                pv == plan@,
                report.wf(),
                report@.len() == 5,
                forall|k: int|
                    0 <= k < 5 ==> #[trigger] report@[k] == verdict_in_advance(
                        policy_skip(pv.skipped.take(i as int), rung_at(k)),
                        false,
                        remote@,
                        rung_at(k),
                    ),
            decreases plan.skipped@.len() - i,
        {
            let (rung, why) = &plan.skipped[i];
            proof {
                assert(pv.skipped.take(i + 1).drop_last() =~= pv.skipped.take(i as int));
                assert(pv.skipped.take(i + 1).last() == (*rung, why@));
            }
            report.set(*rung, Verdict::Skipped(why.clone()));
            i += 1;
        }
        proof {
            assert(pv.skipped.take(pv.skipped.len() as int) =~= pv.skipped);
        }

        let mut i: usize = 0;
        while i < plan.raced.len()
            invariant
                i <= plan.raced@.len(),
                pv == plan@,
                report.wf(),
                report@.len() == 5,
                forall|k: int|
                    0 <= k < 5 ==> #[trigger] report@[k] == verdict_in_advance(
                        policy_skip(pv.skipped, rung_at(k)),
                        pv.raced.take(i as int).contains(rung_at(k)),
                        remote@,
                        rung_at(k),
                    ),
            decreases plan.raced@.len() - i,
        {
            let rung = plan.raced[i];
            let ghost before = pv.raced.take(i as int);
            let ghost now = pv.raced.take(i + 1);
            proof {
                assert(now =~= before.push(rung));
                assert forall|k: int| 0 <= k < 5 implies now.contains(#[trigger] rung_at(k)) == (
                before.contains(rung_at(k)) || rung_at(k) == rung) by {
                    if before.contains(rung_at(k)) {
                        let j = before.index_of(rung_at(k));
                        assert(now[j] == rung_at(k));
                    }
                    if rung_at(k) == rung {
                        assert(now[i as int] == rung);
                    }
                    if now.contains(rung_at(k)) && rung_at(k) != rung {
                        let j = now.index_of(rung_at(k));
                        assert(before[j] == rung_at(k));
                    }
                }
            }
            let skipped = match report.verdict(rung) {
                Verdict::Skipped(_) => true,
                _ => false,
            };
            if !skipped && !any_on(&remote, rung) {
                let mut why = "the peer offered no candidate of this class (".to_owned();
                why.append(number(remote.len() as u64).as_str());
                why.append(" of theirs, none on rung ");
                why.append(number(rung_number(rung) as u64).as_str());
                why.append(")");
                report.set(rung, Verdict::Skipped(why));
            }
            i += 1;
        }
        proof {
            assert(pv.raced.take(pv.raced.len() as int) =~= pv.raced);
            assert(report@ =~= started(pv, remote@));
        }

        let mut raced: Vec<Rung> = Vec::new();
        let mut i: usize = 0;
        let ghost keep = |r: Rung| !(started(pv, remote@)[number_of(r)] is Skipped);
        proof {
            reveal(Seq::filter);
            assert(pv.raced.take(0).filter(keep) =~= Seq::empty());
        }
        while i < plan.raced.len()
            invariant
                i <= plan.raced@.len(),
                pv == plan@,
                report.wf(),
                report@ == started(pv, remote@),
                keep == (|r: Rung| !(started(pv, remote@)[number_of(r)] is Skipped)),
                raced@ == pv.raced.take(i as int).filter(keep),
            decreases plan.raced@.len() - i,
        {
            let rung = plan.raced[i];
            proof {
                reveal(Seq::filter);
                assert(pv.raced.take(i + 1).drop_last() =~= pv.raced.take(i as int));
                assert(pv.raced.take(i + 1).last() == rung);
            }
            match report.verdict(rung) {
                Verdict::Skipped(_) => {},
                _ => {
                    raced.push(rung);
                },
            }
            i += 1;
        }
        proof {
            assert(pv.raced.take(pv.raced.len() as int) =~= pv.raced);
        }

        let mut blast_planned = false;
        let mut i: usize = 0;
        while i < plan.sequential.len()
            invariant
                i <= plan.sequential@.len(),
                blast_planned == plan.sequential@.take(i as int).contains(Rung::Birthday),
            decreases plan.sequential@.len() - i,
        {
            let ghost before = plan.sequential@.take(i as int);
            let ghost now = plan.sequential@.take(i + 1);
            proof {
                assert(now =~= before.push(plan.sequential@[i as int]));
                if before.contains(Rung::Birthday) {
                    let j = before.index_of(Rung::Birthday);
                    assert(now[j] == Rung::Birthday);
                }
                if now.contains(Rung::Birthday) {
                    let j = now.index_of(Rung::Birthday);
                    if j < i {
                        assert(before[j] == Rung::Birthday);
                    }
                }
                assert(now[i as int] == plan.sequential@[i as int]);
            }
            if plan.sequential[i] == Rung::Birthday {
                blast_planned = true;
            }
            i += 1;
        }
        proof {
            assert(plan.sequential@.take(plan.sequential@.len() as int) =~= plan.sequential@);
        }
        LadderRun { report, raced, remote, blast_planned, blast_enabled, probes: 0 }
    }

    /// The first thing to do. With nothing to race there is no race: one with
    /// no pairs would report a failure that is not the truth.
    pub fn first(&mut self) -> (next: NextRung)
        requires
            old(self).report.wf(),
        ensures
            final(self).report.wf(),
            same_but_report(*old(self), *final(self)),
            final(self).probes == old(self).probes,
            if old(self).raced@.len() > 0 {
                next == NextRung::Race && final(self).report == old(self).report
            } else {
                next == old(self).next_past_race() && final(self).report@ == old(
                    self,
                ).report_past_race(old(self).report@)
            },
            first_step(*old(self), *final(self), next),
    {
        if self.raced.len() > 0 {
            return NextRung::Race;
        }
        self.past_race()
    }

    /// The race is behind, or there was none: what to do about the blast.
    fn past_race(&mut self) -> (next: NextRung)
        requires
            old(self).report.wf(),
        ensures
            final(self).report.wf(),
            same_but_report(*old(self), *final(self)),
            final(self).probes == old(self).probes,
            next == old(self).next_past_race(),
            final(self).report@ == old(self).report_past_race(old(self).report@),
    {
        if self.blast_planned {
            if !self.blast_enabled {
                self.report.set(
                    Rung::Birthday,
                    Verdict::Skipped(
                        "the birthday blast is switched off in this configuration".to_owned(),
                    ),
                );
            } else {
                match blast_base(&self.remote) {
                    Some(base) => {
                        return NextRung::Blast { base };
                    },
                    None => {
                        self.report.set(
                            Rung::Birthday,
                            Verdict::Skipped(
                                "the peer offered no server-reflexive candidate, so there is no observed external port to guess around".to_owned(),
                            ),
                        );
                    },
                }
            }
        }
        self.give_up();
        NextRung::GiveUp
    }

    /// Nothing is left to try.
    fn give_up(&mut self)
        requires
            old(self).report.wf(),
        ensures
            final(self).report.wf(),
            same_but_report(*old(self), *final(self)),
            final(self).probes == old(self).probes,
            final(self).report@ == given_up(old(self).report@),
    {
        self.report.set(
            Rung::SshTunnel,
            Verdict::Skipped(
                "the ssh tunnel is not implemented in this build; the contract records the framing it must carry".to_owned(),
            ),
        );
    }

    /// Nobody won the race, in which `sent` checks were sent.
    pub fn race_failed(&mut self, why: &str, sent: u32) -> (next: NextRung)
        requires
            old(self).report.wf(),
        ensures
            final(self).report.wf(),
            same_but_report(*old(self), *final(self)),
            final(self).probes == sent,
            next == old(self).next_past_race(),
            final(self).report@ == old(self).report_past_race(
                after_race(old(self).report@, old(self).raced@, why@),
            ),
            lost_race_step(*old(self), why@, sent, *final(self), next),
    {
        let ghost before = self.report@;
        let ghost raced = self.raced@;
        self.probes = sent;
        let mut i: usize = 0;
        proof {
            self.report.has_five();
            assert(self.report@ =~= after_race(before, raced.take(0), why@));
        }
        while i < self.raced.len()
            invariant
                i <= self.raced@.len(),
                self.raced@ == raced,
                before.len() == 5,
                self.report.wf(),
                same_but_report(*old(self), *self),
                self.probes == sent,
                self.report@ == after_race(before, raced.take(i as int), why@),
            decreases self.raced@.len() - i,
        {
            let rung = self.raced[i];
            self.report.set(rung, Verdict::Failed(why.to_owned()));
            proof {
                let had = raced.take(i as int);
                let has = raced.take(i + 1);
                assert(has =~= had.push(rung));
                assert forall|k: int| 0 <= k < 5 implies has.contains(#[trigger] rung_at(k)) == (
                had.contains(rung_at(k)) || rung_at(k) == rung) by {
                    if had.contains(rung_at(k)) {
                        let j = had.index_of(rung_at(k));
                        assert(has[j] == rung_at(k));
                    }
                    if rung_at(k) == rung {
                        assert(has[i as int] == rung);
                    }
                    if has.contains(rung_at(k)) && rung_at(k) != rung {
                        let j = has.index_of(rung_at(k));
                        assert(had[j] == rung_at(k));
                    }
                }
                assert(self.report@ =~= after_race(before, has, why@));
            }
            i += 1;
        }
        proof {
            assert(raced.take(raced.len() as int) =~= raced);
        }
        self.past_race()
    }

    /// The race was won on `socket`, which is the one it ran on, after `sent`
    /// checks.
    pub fn race_won<S>(
        &mut self,
        socket: S,
        local: SocketAddr,
        remote: SocketAddr,
        rung: Rung,
        sent: u32,
    ) -> (n: Nomination<S>)
        requires
            old(self).report.wf(),
        ensures
            final(self).report.wf(),
            same_but_report(*old(self), *final(self)),
            final(self).probes == sent,
            final(self).report@ == old(self).report@.update(number_of(rung), VerdictView::Won),
            n == (Nomination { socket, local, remote, rung, probes: sent }),
            won_race_step(*old(self), socket, local, remote, rung, sent, *final(self), n),
    {
        self.probes = sent;
        self.report.set(rung, Verdict::Won);
        Nomination { socket, local, remote, rung, probes: sent }
    }

    /// The blast punched through with `socket`, after `sent` checks of its
    /// own. The mapping belongs to that socket and to no other.
    pub fn blast_won<S>(
        &mut self,
        socket: S,
        local: SocketAddr,
        remote: SocketAddr,
        sent: u32,
    ) -> (n: Nomination<S>)
        requires
            old(self).report.wf(),
        ensures
            final(self).report.wf(),
            same_but_report(*old(self), *final(self)),
            final(self).probes == n.probes,
            final(self).report@ == old(self).report@.update(3, VerdictView::Won),
            n.socket == socket,
            n.local == local,
            n.remote == remote,
            n.rung == Rung::Birthday,
            n.probes == (if old(self).probes + sent <= u32::MAX {
                (old(self).probes + sent) as u32
            } else {
                u32::MAX
            }),
            won_blast_step(*old(self), socket, local, remote, sent, *final(self), n),
    {
        self.probes = self.probes.saturating_add(sent);
        self.report.set(Rung::Birthday, Verdict::Won);
        Nomination { socket, local, remote, rung: Rung::Birthday, probes: self.probes }
    }

    /// The blast gave no path, and nothing is left to try.
    pub fn blast_failed(&mut self, how: BlastFailure)
        requires
            old(self).report.wf(),
        ensures
            final(self).report.wf(),
            same_but_report(*old(self), *final(self)),
            final(self).probes == old(self).probes,
            final(self).report@ == given_up(
                old(self).report@.update(3, VerdictView::Failed(blast_failure_text(how))),
            ),
            lost_blast_step(*old(self), how, *final(self)),
    {
        let why = match how {
            BlastFailure::NoHole { base, budget } => {
                let mut s = "no hole found around ".to_owned();
                s.append(base.as_str());
                s.append(" within ");
                s.append(budget.as_str());
                s
            },
            BlastFailure::NotStarted(e) => {
                let mut s = "the blast could not start: ".to_owned();
                s.append(e.as_str());
                s
            },
            BlastFailure::NotAdopted(e) => {
                let mut s =
                    "the blast punched a hole but its socket could not be adopted: ".to_owned();
                s.append(e.as_str());
                s
            },
            BlastFailure::NoLocalAddress(e) => {
                let mut s = "the blast's socket has no local address: ".to_owned();
                s.append(e.as_str());
                s
            },
        };
        self.report.set(Rung::Birthday, Verdict::Failed(why));
        self.give_up();
    }
}

/// What one event of the race asks for.
#[derive(Debug)]
pub enum RaceStep {
    /// Go on waiting.
    Wait,
    /// Check this candidate of the peer's too.
    AddRemote(Candidate),
    /// Tell the peer about this candidate of ours, if it still listens.
    Tell(Candidate),
    Won { local: SocketAddr, remote: SocketAddr, rung: Rung, probes: u32 },
    Lost { why: String, probes: u32 },
}

/// One event of the race.
#[derive(Debug)]
pub enum RaceEvent {
    /// A candidate of the peer's arrived.
    Update(Candidate),
    /// No more of the peer's candidates will arrive.
    UpdatesClosed,
    /// A candidate of our own was discovered.
    Discovered(Candidate),
    Nominated { local: SocketAddr, remote: SocketAddr, rung: Rung, probes: u32 },
    /// The race ended without a path, after `probes` checks.
    Failed { why: String, probes: u32 },
}

/// The race of rungs 0 to 2.
#[derive(Clone, Copy, PartialEq, Eq, Debug, Structural)]
pub struct Race {
    /// Whether candidates of the peer's can still arrive. Once they cannot,
    /// nobody waits for them: a closed channel is ready on every turn, and
    /// waiting on it would spin.
    pub updates_open: bool,
}

/// Whether `event` takes a race from `before` to `after` and asks for `step`.
pub open spec fn race_step(before: Race, event: RaceEvent, after: Race, step: RaceStep) -> bool {
    &&& after.updates_open == (before.updates_open && !(event is UpdatesClosed))
    &&& step == (match event {
        RaceEvent::Update(c) => RaceStep::AddRemote(c),
        RaceEvent::UpdatesClosed => RaceStep::Wait,
        RaceEvent::Discovered(c) => RaceStep::Tell(c),
        RaceEvent::Nominated { local, remote, rung, probes } => RaceStep::Won {
            local,
            remote,
            rung,
            probes,
        },
        RaceEvent::Failed { why, probes } => RaceStep::Lost { why, probes },
    })
}

impl Race {
    pub fn new() -> (race: Race)
        ensures
            race.updates_open,
    {
        Race { updates_open: true }
    }

    /// What one event asks for.
    pub fn step(&mut self, event: RaceEvent) -> (step: RaceStep)
        ensures
            final(self).updates_open == (old(self).updates_open && !(event is UpdatesClosed)),
            step == (match event {
                RaceEvent::Update(c) => RaceStep::AddRemote(c),
                RaceEvent::UpdatesClosed => RaceStep::Wait,
                RaceEvent::Discovered(c) => RaceStep::Tell(c),
                RaceEvent::Nominated { local, remote, rung, probes } => RaceStep::Won {
                    local,
                    remote,
                    rung,
                    probes,
                },
                RaceEvent::Failed { why, probes } => RaceStep::Lost { why, probes },
            }),
            race_step(*old(self), event, *final(self), step),
    {
        match event {
            RaceEvent::Update(c) => RaceStep::AddRemote(c),
            RaceEvent::UpdatesClosed => {
                self.updates_open = false;
                RaceStep::Wait
            },
            RaceEvent::Discovered(c) => RaceStep::Tell(c),
            RaceEvent::Nominated { local, remote, rung, probes } => RaceStep::Won {
                local,
                remote,
                rung,
                probes,
            },
            RaceEvent::Failed { why, probes } => RaceStep::Lost { why, probes },
        }
    }
}

/// Whether a plan says something of every rung but the last.
pub open spec fn covers(plan: PlanView) -> bool {
    &&& forall|i: int|
        0 <= i < 3 ==> policy_skip(plan.skipped, #[trigger] rung_at(i)) is Some
            || plan.raced.contains(rung_at(i))
    &&& policy_skip(plan.skipped, Rung::Birthday) is Some || plan.sequential.contains(
        Rung::Birthday,
    )
}

/// The report of a run that nobody won: the race, if there was one, failed for
/// `why`, and the blast, if it was planned, came to `blast`.
pub open spec fn lost_report(
    plan: PlanView,
    remote: Seq<Candidate>,
    why: Seq<char>,
    blast: VerdictView,
) -> Seq<VerdictView> {
    let raced = after_race(started(plan, remote), racing(plan, remote), why);
    given_up(
        if plan.sequential.contains(Rung::Birthday) {
            raced.update(3, blast)
        } else {
            raced
        },
    )
}

/// What a run reports when nobody won is its lost report, whether there was a
/// race or nothing to race, and whether the blast was skipped or failed.
pub proof fn a_lost_run_gives_the_lost_report(
    run: LadderRun,
    plan: PlanView,
    why: Seq<char>,
    how: Seq<char>,
)
    requires
        run.report@ == started(plan, run.remote@),
        run.raced@ == racing(plan, run.remote@),
        run.blast_planned == plan.sequential.contains(Rung::Birthday),
    ensures
        ({
            let raced = after_race(run.report@, run.raced@, why);
            let remote = run.remote@;
            match blast_plan(run.blast_planned, run.blast_enabled, remote) {
                BlastPlan::Try(_) => given_up(
                    run.report_past_race(raced).update(3, VerdictView::Failed(how)),
                ) == lost_report(plan, remote, why, VerdictView::Failed(how)),
                BlastPlan::Skip(skip) => run.report_past_race(raced) == lost_report(
                    plan,
                    remote,
                    why,
                    VerdictView::Skipped(skip),
                ),
                BlastPlan::No => run.report_past_race(raced) == lost_report(
                    plan,
                    remote,
                    why,
                    VerdictView::NotReached,
                ),
            }
        }),
        run.raced@.len() == 0 ==> after_race(run.report@, run.raced@, why) == run.report@,
{
    if run.raced@.len() == 0 {
        assert(after_race(run.report@, run.raced@, why) =~= run.report@);
    }
}

/// A total failure accounts for every rung: each was skipped or failed, with a
/// reason, and none reads as not reached.
pub proof fn a_total_failure_accounts_for_every_rung(
    plan: PlanView,
    remote: Seq<Candidate>,
    why: Seq<char>,
    blast: VerdictView,
    rung: Rung,
)
    requires
        covers(plan),
        blast is Skipped || blast is Failed,
    ensures
        lost_report(plan, remote, why, blast)[number_of(rung)] is Skipped || lost_report(
            plan,
            remote,
            why,
            blast,
        )[number_of(rung)] is Failed,
{
    let n = number_of(rung);
    assert(rung_at(n) == rung);
    if n < 3 && !(started(plan, remote)[n] is Skipped) {
        kept_is_kept(
            plan.raced,
            |r: Rung| !(started(plan, remote)[number_of(r)] is Skipped),
            rung,
        );
    }
}

/// What passes a filter is in what it gives.
proof fn kept_is_kept(s: Seq<Rung>, keep: spec_fn(Rung) -> bool, r: Rung)
    requires
        s.contains(r),
        keep(r),
    ensures
        s.filter(keep).contains(r),
    decreases s.len(),
{
    reveal(Seq::filter);
    let i = s.index_of(r);
    if i == s.len() - 1 {
        assert(s.filter(keep).last() == r);
    } else {
        let head = s.drop_last();
        assert(head[i] == r);
        kept_is_kept(head, keep, r);
        let j = head.filter(keep).index_of(r);
        assert(s.filter(keep)[j] == r);
    }
}

/// A rung skipped in advance is not raced, so it never reads as failed.
pub proof fn a_skipped_rung_is_not_raced(plan: PlanView, remote: Seq<Candidate>, rung: Rung)
    requires
        started(plan, remote)[number_of(rung)] is Skipped,
    ensures
        !racing(plan, remote).contains(rung),
        forall|why: Seq<char>|
            #![trigger after_race(started(plan, remote), racing(plan, remote), why)]
            after_race(started(plan, remote), racing(plan, remote), why)[number_of(rung)]
                == started(plan, remote)[number_of(rung)],
{
    let keep = |r: Rung| !(started(plan, remote)[number_of(r)] is Skipped);
    if plan.raced.filter(keep).contains(rung) {
        kept_passes(plan.raced, keep, rung);
    }
    assert(rung_at(number_of(rung)) == rung);
}

/// What a filter gives passed it.
proof fn kept_passes(s: Seq<Rung>, keep: spec_fn(Rung) -> bool, r: Rung)
    requires
        s.filter(keep).contains(r),
    ensures
        keep(r),
    decreases s.len(),
{
    reveal(Seq::filter);
    if s.len() > 0 {
        let head = s.drop_last();
        let j = s.filter(keep).index_of(r);
        if j < head.filter(keep).len() {
            assert(head.filter(keep)[j] == r);
            kept_passes(head, keep, r);
        }
    }
}

/// A rung the peer offered nothing on is skipped, whatever else is true of it.
pub proof fn a_rung_with_no_candidate_is_never_failed(
    plan: PlanView,
    remote: Seq<Candidate>,
    rung: Rung,
)
    requires
        plan.raced.contains(rung),
        !offered_on(remote, rung),
    ensures
        started(plan, remote)[number_of(rung)] is Skipped,
{
    assert(rung_at(number_of(rung)) == rung);
}

/// No two verdicts of different kinds share a word.
pub proof fn verdicts_read_differently(a: VerdictView, b: VerdictView)
    requires
        verdict_word(a) == verdict_word(b),
    ensures
        a is Skipped == b is Skipped,
        a is Failed == b is Failed,
        a is NotReached == b is NotReached,
        a is Won == b is Won,
{
    reveal_strlit("skipped");
    reveal_strlit("failed");
    reveal_strlit("not reached");
    reveal_strlit("connected");
    assert("skipped"@.len() == 7);
    assert("failed"@.len() == 6);
    assert("not reached"@.len() == 11);
    assert("connected"@.len() == 9);
}

/// The ladder's five rungs are numbered from zero in the order they are tried,
/// and go by these names.
pub proof fn the_rungs_are_numbered_and_named()
    ensures
        number_of(Rung::Ipv6Direct) == 0,
        number_of(Rung::PortMapped) == 1,
        number_of(Rung::StunPunch) == 2,
        number_of(Rung::Birthday) == 3,
        number_of(Rung::SshTunnel) == 4,
        forall|r: Rung| rung_at(#[trigger] number_of(r)) == r,
        name_of(Rung::Ipv6Direct) == "IPv6 direct"@,
        name_of(Rung::PortMapped) == "router port mapping"@,
        name_of(Rung::StunPunch) == "STUN punch"@,
        name_of(Rung::Birthday) == "birthday blast"@,
        name_of(Rung::SshTunnel) == "SSH tunnel"@,
{
}

/// A candidate's rung follows from how its address was come by, and for an
/// address of the peer's own from its family: one the router mapped is on rung
/// 1, an IPv6 address of its own is on rung 0, and everything else has to be
/// punched to.
pub proof fn a_candidate_is_on_the_rung_of_its_kind(c: Candidate)
    ensures
        class_of(c) == Rung::PortMapped <==> c.kind is PortMapped,
        class_of(c) == Rung::Ipv6Direct <==> c.kind is Host && c.addr.ip is V6,
        class_of(c) == Rung::StunPunch <==> c.kind is ServerReflexive || c.kind is PeerReflexive
            || (c.kind is Host && c.addr.ip is V4),
{
}

/// The reason a plan gives last for a rung is the one that counts.
proof fn the_last_reason_counts(skipped: Seq<(Rung, Seq<char>)>, rung: Rung, k: int)
    ensures
        0 <= k < skipped.len() && skipped[k].0 == rung && (forall|j: int|
            k < j < skipped.len() ==> (#[trigger] skipped[j]).0 != rung) ==> policy_skip(
            skipped,
            rung,
        ) == Some(skipped[k].1),
        (forall|j: int| 0 <= j < skipped.len() ==> (#[trigger] skipped[j]).0 != rung)
            ==> policy_skip(skipped, rung) is None,
        (exists|j: int| 0 <= j < skipped.len() && (#[trigger] skipped[j]).0 == rung)
            ==> policy_skip(skipped, rung) is Some,
    decreases skipped.len(),
{
    if skipped.len() > 0 {
        let head = skipped.drop_last();
        let n = skipped.len() - 1;
        the_last_reason_counts(head, rung, k);
        assert(skipped[n] == skipped.last());
        assert(forall|j: int| 0 <= j < n ==> #[trigger] head[j] == skipped[j]);
        if skipped[n].0 != rung {
            if exists|j: int| 0 <= j < skipped.len() && (#[trigger] skipped[j]).0 == rung {
                let j = choose|j: int|
                    0 <= j < skipped.len() && (#[trigger] skipped[j]).0 == rung;
                assert(head[j].0 == rung);
            }
        }
    }
}

/// A run settles before it sends anything what it need not try. A rung the plan
/// skips is skipped for the plan's own reason, and a rung that would be raced
/// but that the peer offered nothing on is skipped for that; every other rung is
/// open, and it is raced exactly if the plan races it.
pub proof fn a_run_begins_with_what_is_known(
    plan: LadderPlan,
    remote: Seq<Candidate>,
    enabled: bool,
    run: LadderRun,
    rung: Rung,
    k: int,
)
    requires
        begins_run(plan@, remote, enabled, run),
    ensures
        ({
            let entry = run.report@[number_of(rung)];
            let told = exists|j: int|
                0 <= j < plan.skipped@.len() && (#[trigger] plan.skipped@[j]).0 == rung;
            let raced = plan.raced@.contains(rung);
            let offered = exists|j: int|
                0 <= j < remote.len() && class_of(#[trigger] remote[j]) == rung;
            &&& run.report@.len() == 5
            &&& 0 <= k < plan.skipped@.len() && plan.skipped@[k].0 == rung && (forall|j: int|
                k < j < plan.skipped@.len() ==> (#[trigger] plan.skipped@[j]).0 != rung) ==> entry
                == VerdictView::Skipped(plan.skipped@[k].1@)
            &&& !told && raced && !offered ==> entry == VerdictView::Skipped(
                "the peer offered no candidate of this class ("@ + decimal(remote.len())
                    + " of theirs, none on rung "@ + decimal(number_of(rung) as nat) + ")"@,
            )
            &&& !told && (!raced || offered) ==> entry is NotReached
            &&& run.raced@.contains(rung) <==> raced && !told && offered
        }),
        run.blast_planned <==> plan.sequential@.contains(Rung::Birthday),
        run.blast_enabled == enabled,
        run.remote@ == remote,
        run.probes == 0,
{
    let n = number_of(rung);
    assert(rung_at(n) == rung);
    let skipped = plan@.skipped;
    assert(forall|j: int|
        0 <= j < skipped.len() ==> (#[trigger] skipped[j]) == (
            plan.skipped@[j].0,
            plan.skipped@[j].1@,
        ));
    the_last_reason_counts(skipped, rung, k);
    let told = exists|j: int|
        0 <= j < plan.skipped@.len() && (#[trigger] plan.skipped@[j]).0 == rung;
    if told {
        let j = choose|j: int|
            0 <= j < plan.skipped@.len() && (#[trigger] plan.skipped@[j]).0 == rung;
        assert(skipped[j].0 == rung);
    } else {
        assert forall|j: int| 0 <= j < skipped.len() implies (#[trigger] skipped[j]).0 != rung by {
            assert(plan.skipped@[j].0 != rung);
        }
    }
    let keep = |r: Rung| !(started(plan@, remote)[number_of(r)] is Skipped);
    if plan.raced@.contains(rung) && keep(rung) {
        kept_is_kept(plan@.raced, keep, rung);
    }
    if run.raced@.contains(rung) {
        kept_passes(plan@.raced, keep, rung);
        kept_was_there(plan@.raced, keep, rung);
    }
}

/// What a filter gives was there before.
proof fn kept_was_there(s: Seq<Rung>, keep: spec_fn(Rung) -> bool, r: Rung)
    requires
        s.filter(keep).contains(r),
    ensures
        s.contains(r),
    decreases s.len(),
{
    reveal(Seq::filter);
    if s.len() > 0 {
        let head = s.drop_last();
        let j = s.filter(keep).index_of(r);
        if j < head.filter(keep).len() {
            assert(head.filter(keep)[j] == r);
            kept_was_there(head, keep, r);
            let i = head.index_of(r);
            assert(s[i] == r);
        } else {
            assert(s[s.len() - 1] == r);
        }
    }
}

/// What comes after the race is the blast, exactly if it is planned, switched on
/// and the peer offered an address that somebody observed; it is aimed at the
/// observed address with the highest priority, the last of them if several share
/// it. Otherwise nothing is left.
pub proof fn the_blast_aims_at_an_observed_address(run: LadderRun)
    ensures
        ({
            let remote = run.remote@;
            let seen = exists|i: int|
                0 <= i < remote.len() && (#[trigger] remote[i]).kind is ServerReflexive;
            &&& run.next_past_race() is Blast <==> run.blast_planned && run.blast_enabled && seen
            &&& run.next_past_race() is GiveUp <==> !(run.blast_planned && run.blast_enabled
                && seen)
            &&& run.next_past_race() matches NextRung::Blast { base } ==> exists|i: int|
                0 <= i < remote.len() && (#[trigger] remote[i]).kind is ServerReflexive
                    && remote[i].addr == base && forall|k: int|
                    0 <= k < remote.len() && (#[trigger] remote[k]).kind is ServerReflexive
                        ==> remote[k].priority <= remote[i].priority && (k > i
                        ==> remote[k].priority < remote[i].priority)
        }),
{
    the_base_is_the_best_reflexive(run.remote@);
}

/// A run races first if there is anything to race, and otherwise goes on as if
/// the race were behind it.
pub proof fn a_run_races_first(before: LadderRun, after: LadderRun, next: NextRung)
    requires
        first_step(before, after, next),
    ensures
        next is Race <==> before.raced@.len() > 0,
        before.raced@.len() > 0 ==> after.report == before.report,
        before.raced@.len() == 0 ==> next == before.next_past_race(),
        before.raced@.len() == 0 && before.report@.len() == 5 ==> ({
            let seen = exists|i: int|
                0 <= i < before.remote@.len() && (
                #[trigger] before.remote@[i]).kind is ServerReflexive;
            let open = before.blast_planned && before.blast_enabled && seen;
            &&& after.report@[0] == before.report@[0]
            &&& after.report@[1] == before.report@[1]
            &&& after.report@[2] == before.report@[2]
            &&& !before.blast_planned || open ==> after.report@[3] == before.report@[3]
            &&& before.blast_planned && !before.blast_enabled ==> after.report@[3]
                == VerdictView::Skipped(
                "the birthday blast is switched off in this configuration"@,
            )
            &&& before.blast_planned && before.blast_enabled && !seen ==> after.report@[3]
                == VerdictView::Skipped(
                "the peer offered no server-reflexive candidate, so there is no observed external port to guess around"@,
            )
            &&& open ==> after.report@[4] == before.report@[4]
            &&& !open ==> after.report@[4] == VerdictView::Skipped(
                "the ssh tunnel is not implemented in this build; the contract records the framing it must carry"@,
            )
        }),
        after.probes == before.probes,
        after.raced == before.raced,
        after.remote == before.remote,
        after.blast_planned == before.blast_planned,
        after.blast_enabled == before.blast_enabled,
{
    the_base_is_the_best_reflexive(before.remote@);
}

/// A race that nobody won fails every rung that was in it, for its one reason,
/// and no other rung. What is then left untried is skipped for its own reason:
/// the blast if it is switched off or has nothing to aim at, and the ssh tunnel
/// once the blast is not tried. The checks that were sent are counted.
pub proof fn a_lost_race_fails_what_was_in_it(
    before: LadderRun,
    why: Seq<char>,
    sent: u32,
    after: LadderRun,
    next: NextRung,
    rung: Rung,
)
    requires
        lost_race_step(before, why, sent, after, next),
        before.report@.len() == 5,
    ensures
        ({
            let was = before.report@[number_of(rung)];
            let is = after.report@[number_of(rung)];
            let seen = exists|i: int|
                0 <= i < before.remote@.len() && (
                #[trigger] before.remote@[i]).kind is ServerReflexive;
            let race = rung == Rung::Ipv6Direct || rung == Rung::PortMapped || rung
                == Rung::StunPunch;
            let open = before.blast_planned && before.blast_enabled && seen;
            let failed = if before.raced@.contains(rung) {
                VerdictView::Failed(why)
            } else {
                was
            };
            &&& after.report@.len() == 5
            &&& race ==> is == failed
            &&& rung == Rung::Birthday && before.blast_planned && !before.blast_enabled ==> is
                == VerdictView::Skipped(
                "the birthday blast is switched off in this configuration"@,
            )
            &&& rung == Rung::Birthday && before.blast_planned && before.blast_enabled && !seen
                ==> is == VerdictView::Skipped(
                "the peer offered no server-reflexive candidate, so there is no observed external port to guess around"@,
            )
            &&& rung == Rung::Birthday && (!before.blast_planned || open) ==> is == failed
            &&& rung == Rung::SshTunnel && !open ==> is == VerdictView::Skipped(
                "the ssh tunnel is not implemented in this build; the contract records the framing it must carry"@,
            )
            &&& rung == Rung::SshTunnel && open ==> is == failed
            &&& next is Blast <==> open
            &&& next is GiveUp <==> !open
        }),
        after.probes == sent,
        after.raced == before.raced,
        after.remote == before.remote,
{
    assert(rung_at(number_of(rung)) == rung);
    the_blast_aims_at_an_observed_address(before);
    the_base_is_the_best_reflexive(before.remote@);
}

/// A race that was won names the socket, the addresses, the rung and the checks
/// it was won with, and no rung but that one is reported as the path in use.
pub proof fn a_won_race_names_its_path<S>(
    before: LadderRun,
    socket: S,
    local: SocketAddr,
    remote: SocketAddr,
    rung: Rung,
    sent: u32,
    after: LadderRun,
    n: Nomination<S>,
    other: Rung,
)
    requires
        won_race_step(before, socket, local, remote, rung, sent, after, n),
        before.report@.len() == 5,
    ensures
        n.socket == socket,
        n.local == local,
        n.remote == remote,
        n.rung == rung,
        n.probes == sent,
        after.probes == sent,
        after.report@[number_of(rung)] is Won,
        other != rung ==> after.report@[number_of(other)] == before.report@[number_of(other)],
{
}

/// A blast that punched through names its own socket and addresses on the
/// birthday rung, and counts every check of the attach: those of the race and
/// its own, as far as the count goes.
pub proof fn a_won_blast_names_its_path<S>(
    before: LadderRun,
    socket: S,
    local: SocketAddr,
    remote: SocketAddr,
    sent: u32,
    after: LadderRun,
    n: Nomination<S>,
    other: Rung,
)
    requires
        won_blast_step(before, socket, local, remote, sent, after, n),
        before.report@.len() == 5,
    ensures
        n.socket == socket,
        n.local == local,
        n.remote == remote,
        n.rung == Rung::Birthday,
        before.probes + sent <= 0xffff_ffff ==> n.probes == before.probes + sent,
        before.probes + sent > 0xffff_ffff ==> n.probes == 0xffff_ffff,
        after.probes == n.probes,
        after.report@[3] is Won,
        other != Rung::Birthday ==> after.report@[number_of(other)] == before.report@[number_of(
            other,
        )],
{
}

/// A blast that found no way is failed in its own words, and then nothing is
/// left: the ssh tunnel is skipped, and no other rung is touched.
pub proof fn a_lost_blast_says_how(before: LadderRun, how: BlastFailure, after: LadderRun, other: Rung)
    requires
        lost_blast_step(before, how, after),
        before.report@.len() == 5,
    ensures
        how matches BlastFailure::NoHole { base, budget } ==> after.report@[3]
            == VerdictView::Failed("no hole found around "@ + base@ + " within "@ + budget@),
        how matches BlastFailure::NotStarted(e) ==> after.report@[3] == VerdictView::Failed(
            "the blast could not start: "@ + e@,
        ),
        how matches BlastFailure::NotAdopted(e) ==> after.report@[3] == VerdictView::Failed(
            "the blast punched a hole but its socket could not be adopted: "@ + e@,
        ),
        how matches BlastFailure::NoLocalAddress(e) ==> after.report@[3] == VerdictView::Failed(
            "the blast's socket has no local address: "@ + e@,
        ),
        after.report@[4] == VerdictView::Skipped(
            "the ssh tunnel is not implemented in this build; the contract records the framing it must carry"@,
        ),
        other != Rung::Birthday && other != Rung::SshTunnel ==> after.report@[number_of(other)]
            == before.report@[number_of(other)],
        after.probes == before.probes,
{
}

/// A race passes on what it is told: a candidate of the peer's is checked, one
/// of our own is told to the peer, and what was nominated, or why nothing was,
/// comes out as it went in, checks counted. Once no more of the peer's will come
/// none is waited for again.
pub proof fn a_race_passes_on_what_it_is_told(
    before: Race,
    event: RaceEvent,
    after: Race,
    step: RaceStep,
)
    requires
        race_step(before, event, after, step),
    ensures
        event matches RaceEvent::Update(c) ==> step == RaceStep::AddRemote(c),
        event matches RaceEvent::Discovered(c) ==> step == RaceStep::Tell(c),
        event is UpdatesClosed ==> step is Wait && !after.updates_open,
        event matches RaceEvent::Nominated { local: l, remote: r, rung: g, probes: p } ==> {
            &&& step matches RaceStep::Won { local, remote, rung, probes }
            &&& local == l
            &&& remote == r
            &&& rung == g
            &&& probes == p
        },
        event matches RaceEvent::Failed { why: w, probes: p } ==> {
            &&& step matches RaceStep::Lost { why, probes }
            &&& why == w
            &&& probes == p
        },
        !(event is UpdatesClosed) ==> after.updates_open == before.updates_open,
{
}

/// A report says something of every rung, on a line of its own with its number,
/// its name, the word for what became of it and why.
pub proof fn a_report_says_something_of_every_rung(r: Seq<VerdictView>, i: int)
    requires
        0 <= i < r.len() <= 5,
    ensures
        ({
            let name = if i == 0 {
                "IPv6 direct"@
            } else if i == 1 {
                "router port mapping"@
            } else if i == 2 {
                "STUN punch"@
            } else if i == 3 {
                "birthday blast"@
            } else {
                "SSH tunnel"@
            };
            let word = match r[i] {
                VerdictView::Skipped(_) => "skipped"@,
                VerdictView::Failed(_) => "failed"@,
                VerdictView::NotReached => "not reached"@,
                VerdictView::Won => "connected"@,
            };
            let detail = match r[i] {
                VerdictView::Skipped(why) => why,
                VerdictView::Failed(why) => why,
                VerdictView::NotReached => "an earlier rung won"@,
                VerdictView::Won => "this is the path in use"@,
            };
            occurs(
                report_text(r),
                "  rung "@ + decimal(i as nat) + "  "@ + left_aligned(name, 20) + "  "@
                    + left_aligned(word, 11) + "  "@ + detail + "\n"@,
            )
        }),
{
    let line = report_line(i, r[i]);
    reported_in(r, i);
    let (a, b) = choose|a: Seq<char>, b: Seq<char>| report_lines(r) == #[trigger] (a + line + b);
    let last =
        "A rung marked `skipped` was never put on the wire; one marked `failed` was tried and did not answer."@;
    assert(report_text(r) =~= a + line + (b + last));
    holding_is_being_around(report_text(r), line);
}

/// The lines of a report hold the one of each rung in it.
proof fn reported_in(r: Seq<VerdictView>, i: int)
    requires
        0 <= i < r.len(),
    ensures
        exists|a: Seq<char>, b: Seq<char>|
            report_lines(r) == #[trigger] (a + report_line(i, r[i]) + b),
    decreases r.len(),
{
    let head = r.drop_last();
    let line = report_line(i, r[i]);
    if i == r.len() - 1 {
        let none = Seq::<char>::empty();
        assert(report_lines(r) =~= report_lines(head) + line + none);
    } else {
        reported_in(head, i);
        assert(head[i] == r[i]);
        let (a, b) = choose|a: Seq<char>, b: Seq<char>|
            report_lines(head) == #[trigger] (a + line + b);
        let more = b + report_line(r.len() - 1, r.last());
        assert(report_lines(r) =~= a + line + more);
    }
}

/// A report begins by saying what it is and ends by saying what its two words
/// mean.
pub proof fn a_report_explains_itself(r: Seq<VerdictView>)
    ensures
        begins(report_text(r), "no usable path to the host. Every rung, in order:\n"@),
        ({
            let last =
                "A rung marked `skipped` was never put on the wire; one marked `failed` was tried and did not answer."@;
            &&& last.len() <= report_text(r).len()
            &&& report_text(r).skip(report_text(r).len() - last.len()) == last
        }),
{
    let last =
        "A rung marked `skipped` was never put on the wire; one marked `failed` was tried and did not answer."@;
    let head = "no usable path to the host. Every rung, in order:\n"@;
    headed(r);
    assert(report_text(r).skip(report_text(r).len() - last.len()) =~= last);
    assert(report_text(r).subrange(0, head.len() as int) =~= report_lines(r).subrange(
        0,
        head.len() as int,
    ));
}

/// The lines of a report begin with what it is.
proof fn headed(r: Seq<VerdictView>)
    ensures
        begins(report_lines(r), "no usable path to the host. Every rung, in order:\n"@),
    decreases r.len(),
{
    let head = "no usable path to the host. Every rung, in order:\n"@;
    if r.len() == 0 {
        assert(head.subrange(0, head.len() as int) =~= head);
    } else {
        headed(r.drop_last());
        assert(report_lines(r).subrange(0, head.len() as int) =~= report_lines(
            r.drop_last(),
        ).subrange(0, head.len() as int));
    }
}

} // verus!
