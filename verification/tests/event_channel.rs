use videobridge::channel::{EventChannel, PipelineEvent, VideoMessage, DEFAULT_CHANNEL_CAPACITY};

#[test]
fn channel_default_capacity_is_ten() {
    assert_eq!(DEFAULT_CHANNEL_CAPACITY, 10);
    let mut ch = EventChannel::new();
    for _ in 0..10 {
        assert!(ch.try_send(VideoMessage::NewSample).is_ok());
    }
    assert!(ch.try_send(VideoMessage::NewSample).is_err());
}

#[test]
fn channel_preserves_fifo_order() {
    let mut ch = EventChannel::new();
    assert!(ch.try_send(VideoMessage::NewSampleData(vec![1], 1, 1)).is_ok());
    assert!(ch.try_send(VideoMessage::NewSample).is_ok());
    assert!(ch.try_send(VideoMessage::PipelineMessage(PipelineEvent::Eos)).is_ok());
    let msgs = ch.drain_available();
    assert_eq!(msgs.len(), 3);
    assert!(matches!(&msgs[0], VideoMessage::NewSampleData(d, 1, 1) if d == &vec![1]));
    assert!(matches!(msgs[1], VideoMessage::NewSample));
    assert!(matches!(
        msgs[2],
        VideoMessage::PipelineMessage(PipelineEvent::Eos)
    ));
    assert_eq!(ch.len(), 0);
}

#[test]
fn channel_drain_leaves_channel_usable() {
    let mut ch = EventChannel::with_capacity(2);
    assert!(ch.try_send(VideoMessage::NewSample).is_ok());
    let first = ch.drain_available();
    assert_eq!(first.len(), 1);
    assert!(ch.try_send(VideoMessage::NewSample).is_ok());
    let second = ch.drain_available();
    assert_eq!(second.len(), 1);
}

#[test]
fn channel_full_send_is_refused_without_loss() {
    // A producer facing a stalled consumer: the channel fills, further sends
    // are refused (the producer parks: backpressure, not a crash), and once
    // the consumer drains, the retry succeeds. Nothing is silently dropped.
    let mut ch = EventChannel::new();
    for i in 0..10u8 {
        assert!(ch.try_send(VideoMessage::NewSampleData(vec![i], 1, 1)).is_ok());
    }
    // Consumer stalled for a while: every attempt is refused, none crashes.
    for _ in 0..3 {
        // The refused event comes back to the producer for its retry.
        match ch.try_send(VideoMessage::NewSampleData(vec![99], 1, 1)) {
            Err(VideoMessage::NewSampleData(d, 1, 1)) => assert_eq!(d, vec![99]),
            other => panic!("expected the event back, got {other:?}"),
        }
        assert!(ch.is_full());
    }
    // Consumer resumes: everything sent is still there, in order.
    let msgs = ch.drain_available();
    assert_eq!(msgs.len(), 10);
    for (i, m) in msgs.iter().enumerate() {
        assert!(matches!(m, VideoMessage::NewSampleData(d, 1, 1) if d == &vec![i as u8]));
    }
    // The parked producer retries and is accepted.
    assert!(ch.try_send(VideoMessage::NewSampleData(vec![99], 1, 1)).is_ok());
    let tail = ch.drain_available();
    assert_eq!(tail.len(), 1);
    assert!(matches!(&tail[0], VideoMessage::NewSampleData(d, 1, 1) if d == &vec![99]));
}

#[test]
fn channel_with_capacity_bounds_sends() {
    let mut ch = EventChannel::with_capacity(1);
    assert!(!ch.is_full());
    assert!(ch.try_send(VideoMessage::NewSample).is_ok());
    assert!(ch.is_full());
    assert!(ch.try_send(VideoMessage::NewSample).is_err());
    assert_eq!(ch.len(), 1);
}
