//! The ladder: classification, the blast's base, the report, and a run.

use std::sync::Arc;

use oxutrm::addr::{IpAddr, SocketAddr};
use oxutrm::ladder::{
    blast_base, rung_name, rung_number, rung_of, BlastFailure, Candidate, CandidateKind,
    LadderPlan, LadderReport, LadderRun, NextRung, Nomination, Race, RaceEvent, RaceStep, Rung,
    Verdict,
};

const EVERY_RUNG: [Rung; 5] = [
    Rung::Ipv6Direct,
    Rung::PortMapped,
    Rung::StunPunch,
    Rung::Birthday,
    Rung::SshTunnel,
];

fn v4(a: u8, b: u8, c: u8, d: u8, port: u16) -> SocketAddr {
    SocketAddr {
        ip: IpAddr::V4(u32::from_be_bytes([a, b, c, d])),
        port,
        flow_info: 0,
        scope_id: 0,
    }
}

fn v6(bits: u128, port: u16) -> SocketAddr {
    SocketAddr { ip: IpAddr::V6(bits), port, flow_info: 0, scope_id: 0 }
}

fn candidate(addr: SocketAddr, kind: CandidateKind) -> Candidate {
    Candidate { addr, kind, priority: 100 }
}

/// Every rung but the last is worth trying.
fn open_plan() -> LadderPlan {
    LadderPlan {
        skipped: vec![],
        raced: vec![Rung::Ipv6Direct, Rung::PortMapped, Rung::StunPunch],
        sequential: vec![Rung::Birthday, Rung::SshTunnel],
    }
}

/// Punching is hopeless, so it is skipped before anything is sent.
fn symmetric_plan() -> LadderPlan {
    LadderPlan {
        skipped: vec![(Rung::StunPunch, "a symmetric NAT on this end".to_owned())],
        raced: vec![Rung::Ipv6Direct, Rung::PortMapped],
        sequential: vec![Rung::Birthday, Rung::SshTunnel],
    }
}

/// A run in which the race, if there is one, times out.
fn lost(plan: &LadderPlan, remote: Vec<Candidate>, blast: bool) -> LadderReport {
    let mut run = LadderRun::start(plan, remote, blast);
    let mut next = run.first();
    if next == NextRung::Race {
        next = run.race_failed("no pair answered", 12);
    }
    if let NextRung::Blast { .. } = next {
        run.blast_failed(BlastFailure::NoHole {
            base: "203.0.113.7:443".to_owned(),
            budget: "6s".to_owned(),
        });
    }
    run.report
}

fn reflexive_peer() -> Vec<Candidate> {
    vec![candidate(v4(127, 0, 0, 1, 9), CandidateKind::ServerReflexive)]
}

#[test]
fn a_total_failure_still_accounts_for_every_rung() {
    let report = lost(&open_plan(), reflexive_peer(), false);
    for rung in EVERY_RUNG {
        assert!(
            !matches!(report.verdict(rung), Verdict::NotReached),
            "rung {} has no reason recorded: {}",
            rung_number(rung),
            report.to_text()
        );
    }
}

#[test]
fn a_skipped_rung_reads_differently_from_a_failed_one() {
    let report = lost(
        &symmetric_plan(),
        vec![candidate(v6(1, 9), CandidateKind::Host)],
        false,
    );
    let punch = report.verdict(Rung::StunPunch).clone();
    assert!(
        matches!(&punch, Verdict::Skipped(why) if why.contains("symmetric")),
        "expected a policy skip naming the NAT, got {punch:?}"
    );
    let direct = report.verdict(Rung::Ipv6Direct).clone();
    assert!(
        matches!(&direct, Verdict::Failed(_)),
        "rung 0 had an IPv6 candidate and must read as attempted, got {direct:?}"
    );

    let rendered = report.to_text();
    let lines: Vec<&str> = rendered.lines().collect();
    let line_for = |n: u8| {
        *lines
            .iter()
            .find(|l| l.trim_start().starts_with(&format!("rung {n} ")))
            .unwrap_or_else(|| panic!("no line for rung {n} in {lines:?}"))
    };
    assert!(line_for(0).contains("failed"), "{}", line_for(0));
    assert!(!line_for(0).contains("skipped"), "{}", line_for(0));
    assert!(line_for(2).contains("skipped"), "{}", line_for(2));
    assert!(!line_for(2).contains("failed"), "{}", line_for(2));
}

#[test]
fn a_rung_with_no_candidate_of_its_class_is_skipped_not_failed() {
    let report = lost(&open_plan(), reflexive_peer(), false);
    assert_eq!(
        *report.verdict(Rung::Ipv6Direct),
        Verdict::Skipped(
            "the peer offered no candidate of this class (1 of theirs, none on rung 0)".to_owned()
        )
    );
    assert!(
        matches!(report.verdict(Rung::PortMapped), Verdict::Skipped(_)),
        "rung 1 had no port-mapped candidate to try"
    );
    assert!(
        matches!(report.verdict(Rung::StunPunch), Verdict::Failed(_)),
        "rung 2 had a candidate and was actually tried"
    );
}

#[test]
fn rung_four_is_reported_as_unbuilt_rather_than_failed() {
    let report = lost(&open_plan(), reflexive_peer(), false);
    let v = report.verdict(Rung::SshTunnel).clone();
    assert!(
        matches!(&v, Verdict::Skipped(why) if why.contains("not implemented")),
        "got {v:?}"
    );
}

#[test]
fn the_report_names_every_rung_by_number_and_by_name() {
    let rendered = LadderReport::new().to_text();
    for rung in EVERY_RUNG {
        assert!(
            rendered.contains(&format!("rung {}", rung_number(rung))),
            "{rendered}"
        );
        assert!(rendered.contains(rung_name(rung)), "{rendered}");
    }
}

#[test]
fn a_report_reads_as_follows() {
    let mut report = LadderReport::new();
    report.set(Rung::Ipv6Direct, Verdict::Skipped("no IPv6".to_owned()));
    report.set(Rung::PortMapped, Verdict::Failed("no answer".to_owned()));
    report.set(Rung::StunPunch, Verdict::Won);
    let text = report.to_text();
    let lines: Vec<&str> = text.lines().collect();
    assert_eq!(
        lines,
        [
            "no usable path to the host. Every rung, in order:",
            "  rung 0  IPv6 direct           skipped      no IPv6",
            "  rung 1  router port mapping   failed       no answer",
            "  rung 2  STUN punch            connected    this is the path in use",
            "  rung 3  birthday blast        not reached  an earlier rung won",
            "  rung 4  SSH tunnel            not reached  an earlier rung won",
            "A rung marked `skipped` was never put on the wire; one marked `failed` was tried and did not answer.",
        ]
    );
    assert_eq!(report.entries().len(), 5);
    assert_eq!(report.entries()[2], (Rung::StunPunch, Verdict::Won));
}

#[test]
fn a_race_win_returns_the_very_socket_it_was_given() {
    let mut run = LadderRun::start(&open_plan(), reflexive_peer(), false);
    assert_eq!(run.first(), NextRung::Race);
    let socket = Arc::new(7u8);
    let won = run.race_won(
        Arc::clone(&socket),
        v4(10, 0, 0, 1, 1),
        v4(127, 0, 0, 1, 9),
        Rung::StunPunch,
        31,
    );
    assert!(Arc::ptr_eq(&won.socket, &socket));
    assert_eq!((won.rung, won.probes), (Rung::StunPunch, 31));
    assert_eq!((won.local, won.remote), (v4(10, 0, 0, 1, 1), v4(127, 0, 0, 1, 9)));
    assert_eq!(*run.report.verdict(Rung::StunPunch), Verdict::Won);
    assert_eq!(*run.report.verdict(Rung::Birthday), Verdict::NotReached);
}

#[test]
fn a_blast_win_hands_back_the_socket_that_punched_the_hole() {
    let mut run = LadderRun::start(&open_plan(), reflexive_peer(), true);
    assert_eq!(run.first(), NextRung::Race);
    assert_eq!(
        run.race_failed("no pair answered", 40),
        NextRung::Blast { base: v4(127, 0, 0, 1, 9) }
    );
    let won = run.blast_won("punched", v4(10, 0, 0, 1, 1), v4(127, 0, 0, 1, 10), 60);
    assert_eq!(won.socket, "punched");
    assert_eq!(won.rung, Rung::Birthday);
    assert_eq!(won.probes, 100, "every check of the attach, the race's too");
    assert_eq!(*run.report.verdict(Rung::Birthday), Verdict::Won);
    assert_eq!(
        *run.report.verdict(Rung::StunPunch),
        Verdict::Failed("no pair answered".to_owned())
    );
}

#[test]
fn the_nomination_type_has_no_mtu_field() {
    // Every field by name, and no rest: a field for the MTU would not compile.
    let Nomination { socket, local, remote, rung, probes } = Nomination {
        socket: (),
        local: v4(10, 0, 0, 1, 1),
        remote: v4(10, 0, 0, 2, 2),
        rung: Rung::StunPunch,
        probes: 3,
    };
    assert_eq!(socket, ());
    assert_ne!(local, remote);
    assert_eq!((rung, probes), (Rung::StunPunch, 3));
}

#[test]
fn the_rung_classification_matches_the_one_ice_nominates_by() {
    let four = v4(203, 0, 113, 7, 443);
    let six = v6(0x2001_0db8_0000_0000_0000_0000_0000_0002, 443);
    assert_eq!(
        rung_of(&candidate(four, CandidateKind::PortMapped)),
        Rung::PortMapped
    );
    assert_eq!(
        rung_of(&candidate(six, CandidateKind::PortMapped)),
        Rung::PortMapped,
        "a port mapping is rung 1 in either address family"
    );
    assert_eq!(
        rung_of(&candidate(six, CandidateKind::Host)),
        Rung::Ipv6Direct,
        "an IPv6 host candidate is rung 0"
    );
    assert_eq!(
        rung_of(&candidate(four, CandidateKind::Host)),
        Rung::StunPunch,
        "an IPv4 host candidate is NOT rung 0"
    );
    assert_eq!(
        rung_of(&candidate(four, CandidateKind::ServerReflexive)),
        Rung::StunPunch
    );
    assert_eq!(
        rung_of(&candidate(four, CandidateKind::PeerReflexive)),
        Rung::StunPunch
    );
}

#[test]
fn the_blast_guesses_around_a_server_reflexive_address_only() {
    assert_eq!(
        blast_base(&vec![candidate(v4(192, 168, 1, 5, 443), CandidateKind::Host)]),
        None
    );
    assert_eq!(
        blast_base(&vec![
            candidate(v4(192, 168, 1, 5, 443), CandidateKind::Host),
            candidate(v4(203, 0, 113, 7, 51234), CandidateKind::ServerReflexive),
        ]),
        Some(v4(203, 0, 113, 7, 51234))
    );
}

#[test]
fn the_base_is_the_best_reflexive_and_the_last_of_equals() {
    let with = |port: u16, priority: u32| Candidate {
        addr: v4(203, 0, 113, 7, port),
        kind: CandidateKind::ServerReflexive,
        priority,
    };
    assert_eq!(
        blast_base(&vec![with(1, 5), with(2, 9), with(3, 7)]),
        Some(v4(203, 0, 113, 7, 2))
    );
    assert_eq!(
        blast_base(&vec![with(1, 9), with(2, 9), with(3, 7)]),
        Some(v4(203, 0, 113, 7, 2))
    );
}

#[test]
fn the_blast_is_skipped_with_a_reason_when_there_is_no_base_to_guess_around() {
    let report = lost(
        &symmetric_plan(),
        vec![candidate(v4(127, 0, 0, 1, 9), CandidateKind::Host)],
        true,
    );
    let v = report.verdict(Rung::Birthday).clone();
    assert!(
        matches!(&v, Verdict::Skipped(why) if why.contains("server-reflexive")),
        "got {v:?}"
    );
}

#[test]
fn a_blast_that_is_switched_off_says_so() {
    let report = lost(&open_plan(), reflexive_peer(), false);
    assert_eq!(
        *report.verdict(Rung::Birthday),
        Verdict::Skipped("the birthday blast is switched off in this configuration".to_owned())
    );
}

#[test]
fn a_blast_that_fails_says_how() {
    for (how, says) in [
        (
            BlastFailure::NoHole { base: "B".to_owned(), budget: "6s".to_owned() },
            "no hole found around B within 6s",
        ),
        (BlastFailure::NotStarted("E".to_owned()), "the blast could not start: E"),
        (
            BlastFailure::NotAdopted("E".to_owned()),
            "the blast punched a hole but its socket could not be adopted: E",
        ),
        (
            BlastFailure::NoLocalAddress("E".to_owned()),
            "the blast's socket has no local address: E",
        ),
    ] {
        let mut run = LadderRun::start(&open_plan(), reflexive_peer(), true);
        run.race_failed("no pair answered", 1);
        run.blast_failed(how);
        assert_eq!(
            *run.report.verdict(Rung::Birthday),
            Verdict::Failed(says.to_owned())
        );
        assert!(matches!(run.report.verdict(Rung::SshTunnel), Verdict::Skipped(_)));
    }
}

#[test]
fn with_nothing_to_race_there_is_no_race() {
    let mut run = LadderRun::start(&open_plan(), vec![], false);
    assert_eq!(run.first(), NextRung::GiveUp);
    for rung in EVERY_RUNG {
        assert!(matches!(run.report.verdict(rung), Verdict::Skipped(_)));
    }
}

#[test]
fn the_last_reason_a_plan_gives_is_the_one_reported() {
    let plan = LadderPlan {
        skipped: vec![
            (Rung::PortMapped, "first".to_owned()),
            (Rung::PortMapped, "second".to_owned()),
        ],
        raced: vec![Rung::PortMapped],
        sequential: vec![],
    };
    let mut run = LadderRun::start(&plan, vec![], true);
    assert_eq!(
        *run.report.verdict(Rung::PortMapped),
        Verdict::Skipped("second".to_owned())
    );
    assert_eq!(run.first(), NextRung::GiveUp, "no blast was planned");
    assert_eq!(*run.report.verdict(Rung::Birthday), Verdict::NotReached);
}

#[test]
fn a_candidate_arriving_mid_race_is_what_makes_the_race_winnable() {
    let mut race = Race::new();
    let late = candidate(v4(127, 0, 0, 1, 77), CandidateKind::Host);
    assert!(matches!(
        race.step(RaceEvent::Update(late)),
        RaceStep::AddRemote(c) if c == late
    ));
    assert!(matches!(
        race.step(RaceEvent::Nominated {
            local: v4(127, 0, 0, 1, 1),
            remote: late.addr,
            rung: Rung::StunPunch,
            probes: 2,
        }),
        RaceStep::Won { remote, probes: 2, .. } if remote == late.addr
    ));
}

#[test]
fn a_closed_update_channel_does_not_spin_the_race() {
    let mut race = Race::new();
    assert!(race.updates_open);
    assert!(matches!(race.step(RaceEvent::UpdatesClosed), RaceStep::Wait));
    assert!(!race.updates_open, "nobody waits on a closed channel");
    let ours = candidate(v4(127, 0, 0, 1, 78), CandidateKind::ServerReflexive);
    assert!(matches!(
        race.step(RaceEvent::Discovered(ours)),
        RaceStep::Tell(c) if c == ours
    ));
    assert!(!race.updates_open);
    assert!(matches!(
        race.step(RaceEvent::Failed { why: "timed out".to_owned(), probes: 9 }),
        RaceStep::Lost { why, probes: 9 } if why == "timed out"
    ));
}

#[test]
fn every_verdict_has_a_word_of_its_own() {
    let all = [
        Verdict::Skipped("a".to_owned()),
        Verdict::Failed("b".to_owned()),
        Verdict::NotReached,
        Verdict::Won,
    ];
    let words: Vec<&str> = all.iter().map(Verdict::word).collect();
    assert_eq!(words, ["skipped", "failed", "not reached", "connected"]);
    let details: Vec<&str> = all.iter().map(Verdict::detail).collect();
    assert_eq!(details, ["a", "b", "an earlier rung won", "this is the path in use"]);
}
