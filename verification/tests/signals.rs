//! What the emulator reports as events.

use oxutrm::pty::ExitStatus;
use oxutrm::signals::{ClipboardType, Event, EventSink};

#[test]
fn the_last_title_wins() {
    let mut sink = EventSink::new();
    sink.send_event(Event::Title("first".to_owned()));
    sink.send_event(Event::Title("second".to_owned()));
    assert_eq!(sink.drain().title.as_deref(), Some("second"));
}

#[test]
fn a_title_reset_is_an_empty_title_not_a_missing_one() {
    let mut sink = EventSink::new();
    sink.send_event(Event::Title("something".to_owned()));
    sink.send_event(Event::ResetTitle);
    assert_eq!(
        sink.drain().title.as_deref(),
        Some(""),
        "None would mean 'unchanged', which is a different thing"
    );
}

#[test]
fn bells_are_counted_not_flagged() {
    let mut sink = EventSink::new();
    for _ in 0..3 {
        sink.send_event(Event::Bell);
    }
    assert_eq!(sink.drain().bells, 3);
}

#[test]
fn draining_empties_the_sink() {
    let mut sink = EventSink::new();
    sink.send_event(Event::Bell);
    assert_eq!(sink.drain().bells, 1);
    assert_eq!(sink.drain().bells, 0, "a second drain sees nothing");
}

#[test]
fn a_clipboard_store_arrives_decoded() {
    let mut sink = EventSink::new();
    sink.send_event(Event::ClipboardStore(
        ClipboardType::Clipboard,
        "plain".to_owned(),
    ));
    let got = sink.drain().clipboard;
    assert_eq!(got.len(), 1);
    assert_eq!(got[0].1, "plain", "the base64 is decoded before it gets here");
}

#[test]
fn a_child_exit_is_recorded() {
    let mut sink = EventSink::new();
    assert_eq!(sink.drain().child_exit, None);
    sink.send_event(Event::ChildExit(ExitStatus { code: Some(7), signal: None }));
    assert_eq!(sink.drain().child_exit, Some(7));
}

#[test]
fn events_we_do_not_answer_are_ignored_without_dying() {
    let mut sink = EventSink::new();
    for _ in 0..4 {
        sink.send_event(Event::Other);
    }
    let s = sink.drain();
    assert!(s.title.is_none());
    assert_eq!(s.bells, 0);
}

#[test]
fn a_title_is_remembered_until_it_is_taken() {
    let mut sink = EventSink::new();
    sink.send_event(Event::Title("vim".to_owned()));
    sink.send_event(Event::Wakeup);
    let s = sink.drain();
    assert_eq!(s.title.as_deref(), Some("vim"));
    assert!(s.wakeup);
    assert!(sink.drain().title.is_none());
}
