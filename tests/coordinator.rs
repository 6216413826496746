use ruka::error::Error;
use ruka::mux::{MuxPhase, MuxState};
use ruka::pipeline::{Action, Event, Phase, Pipeline};
use ruka::tags::TagMap;
use ruka::timebase::Rational;

fn tags() -> TagMap {
    let mut m = TagMap::new();
    m.insert("title".to_string(), "Foo".to_string());
    m.insert("artist".to_string(), "Bar".to_string());
    m
}

fn pipeline() -> Pipeline {
    Pipeline::new(1, Rational::new(1, 48000), Rational::new(1, 44100), tags()).unwrap()
}

fn packet(stream: usize, pts: i64) -> Event {
    Event::Packet { stream, pts: Some(pts), time_base: Rational::new(1, 1000) }
}

/// Feeds `events` and collects the answers.
fn feed(p: &mut Pipeline, events: &[Event]) -> Vec<Action> {
    events.iter().map(|e| p.step(*e).unwrap()).collect()
}

/// A job: one packet of another stream, one packet that decodes to one
/// frame, which the encoder holds until the end, and a filter that holds a
/// frame until it is flushed.
fn job_events() -> Vec<Event> {
    vec![
        Event::Done,          // metadata set
        Event::Done,          // header written
        packet(0, 5),         // another stream: skipped
        packet(1, 1000),      // one second
        Event::Done,          // sent to decoder
        Event::Frame,         // decoder gives a frame
        Event::Done,          // pushed into filter
        Event::NoFiltered,    // filter holds it
        Event::NoFrame,       // decoder wants more
        Event::EndOfInput,    // input exhausted
        Event::Done,          // decoder told
        Event::NoFrame,       // decoder empty
        Event::Done,          // filter flushed
        Event::Filtered,      // filter gives its frame
        Event::Done,          // sent to encoder
        Event::NoEncoded,     // encoder holds it
        Event::NoFiltered,    // filter empty
        Event::Done,          // encoder told
        Event::Encoded { pts: Some(48000) },
        Event::Done,          // written
        Event::Encoded { pts: Some(49152) },  // 45158.4 in the output time base
        Event::Done,          // written
        Event::NoEncoded,     // encoder empty
        Event::Done,          // trailer written
    ]
}

fn job_actions() -> Vec<Action> {
    vec![
        Action::WriteHeader,
        Action::ReadPacket,
        Action::ReadPacket,
        Action::SendPacket { pts: Some(48000) },
        Action::ReceiveFrame,
        Action::PushFrame,
        Action::PullFrame,
        Action::ReceiveFrame,
        Action::ReadPacket,
        Action::SendDecoderEof,
        Action::ReceiveFrame,
        Action::FlushFilter,
        Action::PullFrame,
        Action::SendFrame,
        Action::ReceivePacket,
        Action::PullFrame,
        Action::SendEncoderEof,
        Action::ReceivePacket,
        Action::WritePacket { pts: Some(44100), stream: 0 },
        Action::ReceivePacket,
        Action::WritePacket { pts: Some(45158), stream: 0 },
        Action::ReceivePacket,
        Action::WriteTrailer,
        Action::Finished,
    ]
}

#[test]
fn job_runs_every_drain_phase_in_order() {
    let mut p = pipeline();
    assert_eq!(p.pending(), Action::SetMetadata);
    assert_eq!(p.phase(), Phase::Starting);
    let actions = feed(&mut p, &job_events());
    assert_eq!(actions, job_actions());
    assert_eq!(p.phase(), Phase::Finalized);
    assert_eq!(p.mux().phase, MuxPhase::Closed);
}

#[test]
fn drain_phases_follow_one_another() {
    let mut p = pipeline();
    let mut phases = vec![p.phase()];
    for e in job_events() {
        p.step(e).unwrap();
        if *phases.last().unwrap() != p.phase() {
            phases.push(p.phase());
        }
    }
    assert_eq!(
        phases,
        vec![
            Phase::Starting,
            Phase::Streaming,
            Phase::DecoderDraining,
            Phase::FilterDraining,
            Phase::EncoderDraining,
            Phase::Finalized,
        ]
    );
}

#[test]
fn written_timestamps_never_decrease() {
    let mut p = pipeline();
    let actions = feed(&mut p, &job_events());
    let written: Vec<i64> = actions
        .iter()
        .filter_map(|a| match a {
            Action::WritePacket { pts: Some(t), .. } => Some(*t),
            _ => None,
        })
        .collect();
    assert_eq!(written, vec![44100, 45158]);
    assert!(written.windows(2).all(|w| w[0] <= w[1]));
}

#[test]
fn two_pipelines_same_input_same_actions() {
    let mut a = pipeline();
    let mut b = pipeline();
    let events = job_events();
    assert_eq!(feed(&mut a, &events), feed(&mut b, &events));
    assert_eq!(a.phase(), b.phase());
    assert_eq!(a.mux(), b.mux());
}

#[test]
fn metadata_passes_through_verbatim() {
    let p = pipeline();
    let entries = p.metadata().entries();
    assert_eq!(
        entries,
        &vec![
            ("title".to_string(), "Foo".to_string()),
            ("artist".to_string(), "Bar".to_string()),
        ]
    );
    assert_eq!(p.metadata().len(), 2);
}

#[test]
fn pipeline_rejects_bad_time_bases() {
    assert!(matches!(
        Pipeline::new(0, Rational::new(0, 1), Rational::new(1, 44100), TagMap::new()),
        Err(Error::DecodeRejected)
    ));
    assert!(matches!(
        Pipeline::new(0, Rational::new(1, 48000), Rational::new(1, 0), TagMap::new()),
        Err(Error::EncodeRejected)
    ));
}

#[test]
fn unexpected_event_is_refused_and_changes_nothing() {
    let mut p = pipeline();
    assert_eq!(p.step(Event::Frame), Err(Error::UnexpectedEvent));
    assert_eq!(p.pending(), Action::SetMetadata);
    assert_eq!(p.step(Event::Done), Ok(Action::WriteHeader));
}

#[test]
fn finished_pipeline_takes_no_more_events() {
    let mut p = pipeline();
    feed(&mut p, &job_events());
    assert_eq!(p.step(Event::Done), Err(Error::UnexpectedEvent));
}

#[test]
fn packet_with_bad_time_base_fails_demux() {
    let mut p = pipeline();
    feed(&mut p, &[Event::Done, Event::Done]);
    let bad = Event::Packet { stream: 1, pts: Some(3), time_base: Rational::new(1, 0) };
    assert_eq!(p.step(bad), Err(Error::DemuxFailed));
    let other = Event::Packet { stream: 4, pts: Some(3), time_base: Rational::new(1, 0) };
    assert_eq!(p.step(other), Ok(Action::ReadPacket));
}

#[test]
fn packet_timestamp_overflow_is_reported() {
    let mut p = Pipeline::new(0, Rational::new(1, 1000), Rational::new(1, 1000), TagMap::new())
        .unwrap();
    feed(&mut p, &[Event::Done, Event::Done]);
    let big = Event::Packet { stream: 0, pts: Some(i64::MAX), time_base: Rational::new(1, 1) };
    assert_eq!(p.step(big), Err(Error::TimestampOverflow));
    assert_eq!(p.pending(), Action::ReadPacket);
}

#[test]
fn encoded_timestamp_overflow_is_reported() {
    let mut p = Pipeline::new(0, Rational::new(1, 1), Rational::new(1, 1000), TagMap::new())
        .unwrap();
    feed(
        &mut p,
        &[
            Event::Done,
            Event::Done,
            Event::EndOfInput,
            Event::Done,
            Event::NoFrame,
            Event::Done,
            Event::NoFiltered,
            Event::Done,
        ],
    );
    assert_eq!(p.pending(), Action::ReceivePacket);
    assert_eq!(p.step(Event::Encoded { pts: Some(i64::MAX) }), Err(Error::TimestampOverflow));
    assert_eq!(p.step(Event::Encoded { pts: None }), Ok(Action::WritePacket { pts: None, stream: 0 }));
}

#[test]
fn packet_without_timestamp_keeps_none() {
    let mut p = pipeline();
    feed(&mut p, &[Event::Done, Event::Done]);
    let e = Event::Packet { stream: 1, pts: None, time_base: Rational::new(1, 1000) };
    assert_eq!(p.step(e), Ok(Action::SendPacket { pts: None }));
}

#[test]
fn empty_input_still_drains_and_finishes() {
    let mut p = pipeline();
    let actions = feed(
        &mut p,
        &[
            Event::Done,
            Event::Done,
            Event::EndOfInput,
            Event::Done,
            Event::NoFrame,
            Event::Done,
            Event::NoFiltered,
            Event::Done,
            Event::NoEncoded,
            Event::Done,
        ],
    );
    assert_eq!(actions.last(), Some(&Action::Finished));
    assert_eq!(p.stream(), 1);
}

#[test]
fn writer_protocol_refuses_misuse() {
    let mut m = MuxState::new();
    assert_eq!(m.write_packet(), Err(Error::WriterMisuse));
    assert_eq!(m.write_trailer(), Err(Error::WriterMisuse));
    assert_eq!(m.set_metadata(), Ok(()));
    assert_eq!(m.set_metadata(), Err(Error::WriterMisuse));
    assert_eq!(m.write_header(), Ok(()));
    assert_eq!(m.write_header(), Err(Error::WriterMisuse));
    assert_eq!(m.set_metadata(), Err(Error::WriterMisuse));
    assert_eq!(m.write_packet(), Ok(()));
    assert_eq!(m.write_trailer(), Ok(()));
    assert_eq!(m.write_packet(), Err(Error::WriterMisuse));
    assert_eq!(m.write_trailer(), Err(Error::WriterMisuse));
    assert_eq!(m.phase, MuxPhase::Closed);
}
