//! Which channel a frame takes.

use oxutrm::link::{
    datagram_outcome, final_outcome, pacing_interval, FinalEnd, FrameSink, FrameSource,
    SendOutcome, SendPlan, SourceAction, SourceEvent, MAX_FRAME,
};

const LIMIT: Option<usize> = Some(1200);

const BIG: usize = 65_600;

const SMALL: usize = 70;

#[test]
fn size_alone_picks_the_channel_when_datagrams_are_available() {
    let mut sink = FrameSink::new();
    assert_eq!(sink.send(1, Ok(SMALL), LIMIT, true), SendPlan::Datagram(SMALL));
    assert_eq!(sink.send(2, Ok(1200), LIMIT, true), SendPlan::Datagram(1200));
    assert_eq!(
        sink.send(3, Ok(1201), LIMIT, true),
        SendPlan::Stream { bytes: 1201, superseded: false }
    );
}

#[test]
fn a_finished_stream_stops_counting_as_in_flight() {
    let mut sink = FrameSink::new();
    assert!(matches!(
        sink.send(7, Ok(BIG), LIMIT, true),
        SendPlan::Stream { .. }
    ));
    // The same state again, once the writer is over.
    let again = sink.send(7, Ok(BIG), LIMIT, true);
    assert!(
        matches!(again, SendPlan::Stream { .. }),
        "a state whose only stream attempt has already finished can never be retried: {again:?}"
    );
}

#[test]
fn superseding_is_reported_only_when_a_live_stream_was_actually_reset() {
    let mut sink = FrameSink::new();
    assert_eq!(
        sink.send(1, Ok(BIG), LIMIT, true),
        SendPlan::Stream { bytes: BIG, superseded: false }
    );
    // State 1's stream is over. State 2 supersedes nothing.
    assert_eq!(
        sink.send(2, Ok(BIG), LIMIT, true),
        SendPlan::Stream { bytes: BIG, superseded: false }
    );
    // State 2's is not. State 3 supersedes it.
    assert_eq!(
        sink.send(3, Ok(BIG), LIMIT, false),
        SendPlan::Stream { bytes: BIG, superseded: true }
    );
}

#[test]
fn an_older_state_never_replaces_a_newer_one_in_flight() {
    let mut sink = FrameSink::new();
    sink.send(5, Ok(BIG), LIMIT, true);
    for state in [5, 4] {
        assert_eq!(
            sink.send(state, Ok(BIG), LIMIT, false),
            SendPlan::No {
                outcome: SendOutcome::Dropped("a newer state is already in flight".to_owned()),
                warn: false,
            }
        );
    }
    assert_eq!(sink.in_flight, Some(5));
}

#[test]
fn a_peer_with_datagrams_disabled_is_refused_rather_than_silently_streamed() {
    let mut sink = FrameSink::new();
    assert_eq!(
        sink.send(1, Ok(SMALL), None, true),
        SendPlan::No { outcome: SendOutcome::DatagramsDisabled, warn: true }
    );
    assert_eq!(
        sink.send(2, Ok(BIG), None, true),
        SendPlan::No { outcome: SendOutcome::DatagramsDisabled, warn: false },
        "the warning is given once"
    );
}

#[test]
fn a_frame_that_cannot_be_sent_is_dropped_with_a_reason() {
    let mut sink = FrameSink::new();
    assert_eq!(
        sink.send(1, Err("too deep".to_owned()), LIMIT, true),
        SendPlan::No {
            outcome: SendOutcome::Dropped("encoding a frame: too deep".to_owned()),
            warn: false,
        }
    );
    assert_eq!(
        sink.send(1, Ok(MAX_FRAME + 1), LIMIT, true),
        SendPlan::No {
            outcome: SendOutcome::Dropped("frame of 8388609 bytes is absurd".to_owned()),
            warn: false,
        }
    );
    assert_eq!(
        sink.send(1, Ok(MAX_FRAME), LIMIT, true),
        SendPlan::Stream { bytes: MAX_FRAME, superseded: false }
    );
}

#[test]
fn the_last_frame_goes_on_a_stream_whatever_its_size() {
    let mut sink = FrameSink::new();
    sink.send(1, Ok(BIG), LIMIT, true);
    assert_eq!(
        sink.send_final(Ok(SMALL), false),
        SendPlan::Stream { bytes: SMALL, superseded: true }
    );
    assert_eq!(sink.in_flight, None);
    assert_eq!(
        sink.send_final(Ok(SMALL), true),
        SendPlan::Stream { bytes: SMALL, superseded: false }
    );
    assert_eq!(
        sink.send_final(Err("e".to_owned()), true),
        SendPlan::No {
            outcome: SendOutcome::Dropped("encoding a frame: e".to_owned()),
            warn: false,
        }
    );
    assert!(matches!(
        sink.send_final(Ok(MAX_FRAME + 1), true),
        SendPlan::No { warn: false, .. }
    ));
}

#[test]
fn what_becomes_of_a_frame() {
    assert_eq!(datagram_outcome(9, Ok(())), SendOutcome::Datagram(9));
    assert_eq!(
        datagram_outcome(9, Err("lost".to_owned())),
        SendOutcome::Dropped("datagram: lost".to_owned())
    );
    assert_eq!(
        final_outcome(9, true, FinalEnd::Acknowledged),
        SendOutcome::Stream { bytes: 9, superseded: true }
    );
    for (end, says) in [
        (FinalEnd::NotOpened("e".to_owned()), "opening the final stream: e"),
        (FinalEnd::NotWritten("e".to_owned()), "writing the final frame: e"),
        (FinalEnd::NotFinished("e".to_owned()), "finishing the final stream: e"),
        (
            FinalEnd::NotAcknowledged("e".to_owned()),
            "the peer never acknowledged the final frame: e",
        ),
        (FinalEnd::TimedOut, "the peer never acknowledged the final frame"),
    ] {
        assert_eq!(
            final_outcome(9, false, end),
            SendOutcome::Dropped(says.to_owned())
        );
    }
}

#[test]
fn frames_are_paced_by_half_a_round_trip_within_bounds() {
    assert_eq!(pacing_interval(0), 8_000_000);
    assert_eq!(pacing_interval(15_999_999), 8_000_000);
    assert_eq!(pacing_interval(50_000_000), 25_000_000);
    assert_eq!(pacing_interval(200_000_001), 100_000_000);
    assert_eq!(pacing_interval(u128::MAX), 100_000_000);
}

#[test]
fn a_malformed_datagram_is_one_bad_datagram_and_not_a_bad_session() {
    let mut source = FrameSource::new();
    assert!(matches!(
        source.step::<u8>(SourceEvent::Datagram(None)),
        SourceAction::ReadDatagram
    ));
    assert!(matches!(source.step(SourceEvent::Datagram(Some(7))), SourceAction::Hand(7)));
    assert!(matches!(
        source.step::<u8>(SourceEvent::Handed(true)),
        SourceAction::ReadDatagram
    ));
    assert_eq!(source, FrameSource::new());
    assert!(matches!(source.step::<u8>(SourceEvent::Handed(false)), SourceAction::Stop));
    assert_eq!(source, FrameSource { datagrams: false, streams: true });
}

#[test]
fn a_stream_that_was_reset_vanishes_without_a_trace() {
    let mut source = FrameSource::new();
    assert!(matches!(
        source.step::<u8>(SourceEvent::Stream),
        SourceAction::ReadStream { limit: MAX_FRAME }
    ));
    assert!(matches!(
        source.step::<u8>(SourceEvent::StreamRead(None)),
        SourceAction::Nothing
    ));
    assert!(matches!(
        source.step(SourceEvent::StreamRead(Some(9))),
        SourceAction::HandAndForget(9)
    ));
    assert_eq!(source, FrameSource::new());
    assert!(matches!(source.step::<u8>(SourceEvent::StreamsGone), SourceAction::Stop));
    assert!(matches!(source.step::<u8>(SourceEvent::DatagramsGone), SourceAction::Stop));
    assert_eq!(source, FrameSource { datagrams: false, streams: false });
}

#[test]
fn at_most_one_stream_is_ever_being_written() {
    let mut sink = FrameSink::new();
    let fresh = SendPlan::Stream { bytes: BIG, superseded: false };
    assert_eq!(sink.send_on_stream(1, BIG, false), fresh);
    assert_eq!(sink.send_on_stream(1, BIG, true), fresh, "its own state again, once it is over");
    assert_eq!(
        sink.send_on_stream(2, BIG, false),
        SendPlan::Stream { bytes: BIG, superseded: true }
    );
    for older in [2, 1] {
        assert!(matches!(sink.send_on_stream(older, BIG, false), SendPlan::No { .. }));
        assert_eq!(sink.in_flight, Some(2), "the one being written goes on");
    }
}
