use videobridge::channel::{PipelineEvent, VideoMessage};
use videobridge::lifecycle::{
    advance, apply_drained, classify_bus_message, BusMessage, StreamerState,
};

#[test]
fn classify_eos_forwards_and_ends_watch() {
    let (ev, keep) = classify_bus_message(BusMessage::Eos);
    assert!(matches!(ev, Some(PipelineEvent::Eos)));
    assert!(!keep);
}

#[test]
fn classify_error_forwards_details_and_ends_watch() {
    let (ev, keep) = classify_bus_message(BusMessage::Error("decode failed".to_string()));
    assert!(matches!(ev, Some(PipelineEvent::Error(d)) if d == "decode failed"));
    assert!(!keep);
}

#[test]
fn classify_routine_messages_are_ignored() {
    let (ev, keep) = classify_bus_message(BusMessage::StateChanged);
    assert!(ev.is_none());
    assert!(keep);
    let (ev, keep) = classify_bus_message(BusMessage::Tag);
    assert!(ev.is_none());
    assert!(keep);
}

#[test]
fn classify_unrecognized_becomes_diagnostic() {
    let (ev, keep) = classify_bus_message(BusMessage::Other);
    assert!(matches!(ev, Some(PipelineEvent::Other)));
    assert!(keep);
}

#[test]
fn advance_reaches_terminal_states() {
    assert_eq!(
        advance(StreamerState::Playing, PipelineEvent::Eos),
        StreamerState::Eos
    );
    assert_eq!(
        advance(StreamerState::Playing, PipelineEvent::Error("x".to_string())),
        StreamerState::Error
    );
    assert_eq!(
        advance(StreamerState::Playing, PipelineEvent::Other),
        StreamerState::Playing
    );
}

#[test]
fn advance_terminal_states_absorb() {
    assert_eq!(
        advance(StreamerState::Eos, PipelineEvent::Error("late".to_string())),
        StreamerState::Eos
    );
    assert_eq!(
        advance(StreamerState::Error, PipelineEvent::Eos),
        StreamerState::Error
    );
}

#[test]
fn drain_applies_samples_before_terminal_only() {
    let msgs = vec![
        VideoMessage::NewSampleData(vec![0; 4], 1, 1),
        VideoMessage::NewSampleData(vec![1; 4], 1, 1),
        VideoMessage::PipelineMessage(PipelineEvent::Eos),
        VideoMessage::NewSampleData(vec![2; 4], 1, 1),
    ];
    let out = apply_drained(StreamerState::Playing, msgs);
    assert_eq!(out.state, StreamerState::Eos);
    assert_eq!(out.applied, 2);
    let latest = out.latest.expect("a sample was applied");
    assert_eq!(latest.data, vec![1; 4]);
}

#[test]
fn drain_from_terminal_state_applies_nothing() {
    let msgs = vec![
        VideoMessage::NewSampleData(vec![3; 4], 1, 1),
        VideoMessage::NewSample,
    ];
    let out = apply_drained(StreamerState::Eos, msgs);
    assert_eq!(out.state, StreamerState::Eos);
    assert_eq!(out.applied, 0);
    assert!(out.latest.is_none());
    assert!(!out.signaled);
}

#[test]
fn drain_signal_only_sets_flag() {
    let msgs = vec![VideoMessage::NewSample, VideoMessage::NewSample];
    let out = apply_drained(StreamerState::Playing, msgs);
    assert_eq!(out.state, StreamerState::Playing);
    assert_eq!(out.applied, 0);
    assert!(out.signaled);
    assert!(out.latest.is_none());
}

#[test]
fn drain_diagnostics_change_nothing() {
    let msgs = vec![VideoMessage::PipelineMessage(PipelineEvent::Other)];
    let out = apply_drained(StreamerState::Playing, msgs);
    assert_eq!(out.state, StreamerState::Playing);
    assert_eq!(out.applied, 0);
}

#[test]
fn drain_error_is_terminal() {
    let msgs = vec![
        VideoMessage::NewSampleData(vec![7; 4], 1, 1),
        VideoMessage::PipelineMessage(PipelineEvent::Error("bad stream".to_string())),
        VideoMessage::NewSampleData(vec![8; 4], 1, 1),
    ];
    let out = apply_drained(StreamerState::Playing, msgs);
    assert_eq!(out.state, StreamerState::Error);
    assert_eq!(out.applied, 1);
    assert_eq!(out.latest.expect("one sample applied").data, vec![7; 4]);
}
