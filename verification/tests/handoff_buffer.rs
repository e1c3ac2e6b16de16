use videobridge::handoff::{HandoffBuffer, TakeResult};

fn rgba(width: u32, height: u32, fill: u8) -> Vec<u8> {
    vec![fill; (width as usize) * (height as usize) * 4]
}

#[test]
fn handoff_take_returns_what_was_set() {
    let mut h = HandoffBuffer::new();
    assert!(h.set_image(rgba(2, 2, 1), 2, 2));
    match h.take() {
        TakeResult::Image(f) => {
            assert_eq!(f.width, 2);
            assert_eq!(f.height, 2);
            assert_eq!(f.data, rgba(2, 2, 1));
        }
        _ => panic!("expected an image"),
    }
}

#[test]
fn handoff_latest_wins_and_skipped_frame_is_gone() {
    let mut h = HandoffBuffer::new();
    assert!(h.set_image(rgba(1, 1, 1), 1, 1));
    assert!(h.set_image(rgba(1, 1, 2), 1, 1));
    match h.take() {
        TakeResult::Image(f) => assert_eq!(f.data, rgba(1, 1, 2)),
        _ => panic!("expected the most recent image"),
    }
    // The first image was dropped, not queued behind the second.
    assert!(matches!(h.take(), TakeResult::NotReady));
}

#[test]
fn handoff_empty_payload_is_refused() {
    let mut h = HandoffBuffer::new();
    assert!(!h.set_image(Vec::new(), 0, 0));
    assert!(!h.peek_dirty());
    assert!(matches!(h.take(), TakeResult::NotReady));
}

#[test]
fn handoff_mismatched_payload_is_refused() {
    let mut h = HandoffBuffer::new();
    assert!(!h.set_image(vec![0; 10], 2, 2));
    assert!(!h.peek_dirty());
}

#[test]
fn handoff_peek_dirty_tracks_pending() {
    let mut h = HandoffBuffer::new();
    assert!(!h.peek_dirty());
    assert!(h.set_image(rgba(1, 1, 3), 1, 1));
    assert!(h.peek_dirty());
    let _ = h.take();
    assert!(!h.peek_dirty());
}

#[test]
fn handoff_close_wakes_empty_waiter() {
    let mut h = HandoffBuffer::new();
    h.close();
    assert!(matches!(h.take(), TakeResult::NoMoreFrames));
}

#[test]
fn handoff_close_is_idempotent_and_silences_producer() {
    let mut h = HandoffBuffer::new();
    h.close();
    h.close();
    // An injected producer callback after teardown is a no-op.
    assert!(!h.set_image(rgba(1, 1, 4), 1, 1));
    assert!(!h.peek_dirty());
    assert!(matches!(h.take(), TakeResult::NoMoreFrames));
}

#[test]
fn handoff_pending_image_survives_close() {
    let mut h = HandoffBuffer::new();
    assert!(h.set_image(rgba(1, 1, 5), 1, 1));
    h.close();
    match h.take() {
        TakeResult::Image(f) => assert_eq!(f.data, rgba(1, 1, 5)),
        _ => panic!("expected the pending image before the closed wake"),
    }
    assert!(matches!(h.take(), TakeResult::NoMoreFrames));
}
