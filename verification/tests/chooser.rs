//! What a connect does about live sessions.

use oxutrm::chooser::{
    answer, decide, describe_live, menu, pick, Choice, Decision, Picked, SessionSummary,
    MIN_ATTACH_PREFIX, PROMPT,
};
use oxutrm::screen::TermSize;

fn summary(id: &str, detachable: bool) -> SessionSummary {
    SessionSummary {
        session_id: id.to_owned(),
        created_unix: 1_757_200_000,
        shell: "/bin/sh".to_owned(),
        size: TermSize { cols: 80, rows: 24 },
        detachable,
        attach_id: 1,
    }
}

/// Run the picker over `input`, line by line: what was chosen, and all that
/// was shown.
fn pick_from(offered: &[SessionSummary], input: &str) -> (Option<Choice>, String) {
    let mut shown = menu(offered);
    let mut lines = input.split_inclusive('\n');
    loop {
        shown.push_str(PROMPT);
        match pick(offered, lines.next()) {
            Picked::Quit => return (None, shown),
            Picked::Chose(choice) => return (Some(choice), shown),
            Picked::Again(say) => shown.push_str(&say),
        }
    }
}

#[test]
fn nothing_offered_means_a_new_session() {
    assert_eq!(decide(&[], None, false), Decision::Chosen(Choice::New));
}

#[test]
fn exactly_one_detachable_session_is_resumed_without_asking() {
    let offered = [summary(&"a".repeat(32), true)];
    assert_eq!(
        decide(&offered, None, false),
        Decision::Chosen(Choice::Attach { id: "a".repeat(32) })
    );
}

#[test]
fn exactly_one_session_that_cannot_be_attached_starts_a_new_one() {
    let offered = [summary(&"a".repeat(32), false)];
    assert_eq!(decide(&offered, None, false), Decision::Chosen(Choice::New));
}

#[test]
fn several_sessions_ask() {
    let offered = [summary(&"a".repeat(32), true), summary(&"b".repeat(32), true)];
    assert_eq!(decide(&offered, None, false), Decision::Ask);
}

#[test]
fn new_wins_over_everything() {
    let offered = [summary(&"a".repeat(32), true)];
    assert_eq!(decide(&offered, None, true), Decision::Chosen(Choice::New));
}

#[test]
fn a_prefix_selects_one_session() {
    let offered = [summary(&"abcd".repeat(8), true), summary(&"ef01".repeat(8), true)];
    assert_eq!(
        decide(&offered, Some("abcd"), false),
        Decision::Chosen(Choice::Attach { id: "abcd".repeat(8) })
    );
}

#[test]
fn an_ambiguous_prefix_is_refused_by_name() {
    let offered = [summary("abcd1111", true), summary("abcd2222", true)];
    match decide(&offered, Some("abcd"), false) {
        Decision::Refused(why) => {
            assert!(
                why.contains("abcd1111"),
                "the message must list the candidates: {why}"
            );
            assert!(
                why.contains("abcd2222"),
                "the message must list the candidates: {why}"
            );
        }
        other => panic!("an ambiguous prefix must be refused, got {other:?}"),
    }
}

#[test]
fn a_prefix_that_matches_nothing_says_what_is_live() {
    match decide(&[summary("abcd1111", true)], Some("9999"), false) {
        Decision::Refused(why) => {
            assert!(
                why.contains("9999"),
                "the message must name what was asked for: {why}"
            );
            assert!(why.contains("abcd1111"), "and what is actually live: {why}");
        }
        other => panic!("a missing id must be refused, got {other:?}"),
    }
}

#[test]
fn a_named_session_that_cannot_be_attached_is_refused_with_the_reason() {
    match decide(&[summary("abcd1111", false)], Some("abcd1111"), false) {
        Decision::Refused(why) => assert!(
            why.contains("ssh"),
            "the reason must say it dies with its ssh, not merely 'no': {why}"
        ),
        other => panic!("expected a refusal, got {other:?}"),
    }
}

#[test]
fn a_prefix_shorter_than_four_characters_is_refused() {
    match decide(&[summary("abcd1111", true)], Some("ab"), false) {
        Decision::Refused(why) => assert!(why.contains("four"), "{why}"),
        other => panic!("expected a refusal, got {other:?}"),
    }
}

#[test]
fn the_minimum_prefix_matches_its_spelled_out_word() {
    assert_eq!(MIN_ATTACH_PREFIX, 4, "the refusal says \"four\"");
}

#[test]
fn a_two_character_multibyte_prefix_is_still_refused_as_too_short() {
    match decide(&[summary("abcd1111", true)], Some("ää"), false) {
        Decision::Refused(why) => assert!(why.contains("four"), "{why}"),
        other => panic!("\"ää\" is two characters (four bytes), got {other:?}"),
    }
}

#[test]
fn the_picker_takes_a_number() {
    let offered = [summary(&"a".repeat(32), true), summary(&"b".repeat(32), true)];
    let (chosen, shown) = pick_from(&offered, "2\n");
    assert_eq!(chosen, Some(Choice::Attach { id: "b".repeat(32) }));
    assert!(
        shown.contains(&"a".repeat(32)),
        "the list must show the ids: {shown}"
    );
}

#[test]
fn the_picker_takes_n_for_new_and_q_for_quit() {
    let offered = [summary(&"a".repeat(32), true)];
    assert_eq!(pick_from(&offered, "n\n").0, Some(Choice::New));
    assert_eq!(pick_from(&offered, "q\n").0, None);
}

#[test]
fn the_picker_re_asks_after_nonsense_and_quits_at_eof() {
    let offered = [summary(&"a".repeat(32), true)];
    let (chosen, shown) = pick_from(&offered, "banana\n7\n1\n");
    assert_eq!(shown.matches("> ").count(), 3, "one prompt for each answer");
    assert_eq!(chosen, Some(Choice::Attach { id: "a".repeat(32) }));
    assert!(
        shown.contains("not understood"),
        "the picker must say something about the input it rejected: {shown}"
    );
    assert_eq!(pick_from(&offered, "").0, None);
}

#[test]
fn the_picker_refuses_a_session_that_cannot_be_attached_and_re_asks() {
    let offered = [summary(&"a".repeat(32), false), summary(&"b".repeat(32), true)];
    let (chosen, shown) = pick_from(&offered, "1\n2\n");
    assert_eq!(chosen, Some(Choice::Attach { id: "b".repeat(32) }));
    assert!(
        shown.contains("not detachable") && shown.contains("ssh"),
        "the picker must explain the refusal, not merely skip to the next answer: {shown}"
    );
}

#[test]
fn the_menu_is_numbered_and_aligned() {
    let mut wide = summary("b2", false);
    wide.size = TermSize { cols: 120, rows: 5 };
    wide.attach_id = 17;
    assert_eq!(
        menu(&[summary("a1", true), wide]),
        "sessions live on this host:\n \
         1) a1   80x24   attach 1  /bin/sh  detachable\n \
         2) b2  120x5    attach 17  /bin/sh  NOT detachable (dies with its ssh)\n\
         [1-2] resume, n new session, q quit\n"
    );
}

#[test]
fn every_refusal_in_full() {
    let offered = [summary("abcd1111", true), summary("abcd2222", false)];
    assert_eq!(
        decide(&offered, Some("ab\"c"), false),
        Decision::Refused(
            "no live session starts with \"ab\\\"c\". Live sessions: abcd1111, abcd2222.".to_owned()
        )
    );
    assert_eq!(
        decide(&offered, Some("abcd"), false),
        Decision::Refused(
            "\"abcd\" matches more than one live session: abcd1111, abcd2222. Give more characters."
                .to_owned()
        )
    );
    assert_eq!(
        decide(&[], Some("abcd"), false),
        Decision::Refused(
            "no live session starts with \"abcd\". There are no live sessions on this host."
                .to_owned()
        )
    );
    assert_eq!(
        decide(&offered, Some("abc"), false),
        Decision::Refused(
            "--attach needs at least four characters of a session id, got \"abc\"".to_owned()
        )
    );
    assert_eq!(describe_live(&offered), "Live sessions: abcd1111, abcd2222.");
}

#[test]
fn naming_a_session_and_picking_it_are_refused_in_the_same_words() {
    let offered = [summary("abcd1111", false), summary("ef012222", true)];
    let Decision::Refused(why) = decide(&offered, Some("abcd"), false) else {
        panic!("a session that dies with its ssh was attached to");
    };
    assert_eq!(pick(&offered, Some("1\n")), Picked::Again(format!("{why}\n")));
}

#[test]
fn an_answer_is_trimmed_and_may_carry_a_plus_sign() {
    let offered = [summary("abcd1111", true)];
    let chosen = Picked::Chose(Choice::Attach { id: "abcd1111".to_owned() });
    assert_eq!(pick(&offered, Some("  1\r\n")), chosen);
    assert_eq!(pick(&offered, Some("+1")), chosen);
    assert_eq!(pick(&offered, Some("\u{a0}\u{2003}001\t")), chosen);
    for nonsense in ["", "+", "-1", "0", "2", "1x", "99999999999999999999999"] {
        assert_eq!(
            pick(&offered, Some(nonsense)),
            Picked::Again(format!("not understood: {nonsense:?}. Try again.\n"))
        );
    }
}

#[test]
fn only_an_offered_session_that_can_be_attached_to_is_chosen() {
    let offered = [summary("abcd1111", true), summary("abce2222", false)];
    for attach in [None, Some("abcd"), Some("abce"), Some("abc"), Some("zzzz")] {
        for new in [false, true] {
            if let Decision::Chosen(Choice::Attach { id }) = decide(&offered, attach, new) {
                assert!(offered.iter().any(|s| s.detachable && s.session_id == id));
            }
        }
    }
}

#[test]
fn an_answer_is_what_is_left_of_a_line() {
    let offered = [summary(&"a".repeat(32), true), summary(&"b".repeat(32), false)];
    for text in ["1", "2", "3", "0", "q", "n", "what", ""] {
        let line = format!("\t {text}\u{a0}\r\n");
        assert_eq!(answer(&offered, text), pick(&offered, Some(&line)));
    }
    assert_eq!(answer(&offered, "1"), Picked::Chose(Choice::Attach { id: "a".repeat(32) }));
    assert_eq!(
        answer(&offered, "1\n"),
        Picked::Again("not understood: \"1\\n\". Try again.\n".to_owned())
    );
}
