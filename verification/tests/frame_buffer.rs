use videobridge::frame::{Frame, FrameBuffer};

fn rgba(width: u32, height: u32, fill: u8) -> Vec<u8> {
    vec![fill; (width as usize) * (height as usize) * 4]
}

#[test]
fn frame_write_then_read_round_trip() {
    let mut buf = FrameBuffer::new();
    let bytes = rgba(2, 2, 7);
    buf.write(2, 2, &bytes);
    let mut target = Frame::empty();
    buf.read_into(&mut target);
    assert_eq!(target.width, 2);
    assert_eq!(target.height, 2);
    assert_eq!(target.data, bytes);
}

#[test]
fn frame_read_on_fresh_buffer_is_noop() {
    let buf = FrameBuffer::new();
    let mut target = Frame {
        width: 3,
        height: 1,
        data: vec![9; 12],
    };
    buf.read_into(&mut target);
    assert_eq!(target.width, 3);
    assert_eq!(target.height, 1);
    assert_eq!(target.data, vec![9; 12]);
}

#[test]
fn frame_shrinking_write_shows_only_new_payload() {
    let mut buf = FrameBuffer::new();
    buf.write(4, 1, &rgba(4, 1, 1));
    buf.write(1, 1, &rgba(1, 1, 2));
    let mut target = Frame::empty();
    buf.read_into(&mut target);
    assert_eq!(target.width, 1);
    assert_eq!(target.height, 1);
    assert_eq!(target.data, vec![2; 4]);
}

#[test]
fn frame_latest_write_wins() {
    let mut buf = FrameBuffer::new();
    buf.write(2, 1, &rgba(2, 1, 1));
    buf.write(2, 1, &rgba(2, 1, 5));
    let mut target = Frame::empty();
    buf.read_into(&mut target);
    assert_eq!(target.data, vec![5; 8]);
}

#[test]
fn frame_reset_clears_dimensions() {
    let mut buf = FrameBuffer::new();
    buf.write(2, 2, &rgba(2, 2, 3));
    buf.reset();
    let mut target = Frame::empty();
    buf.read_into(&mut target);
    assert_eq!(target.width, 0);
    assert_eq!(target.height, 0);
    assert!(target.data.is_empty());
}

#[test]
fn frame_default_is_empty() {
    let f = Frame::default();
    assert_eq!(f.width, 0);
    assert_eq!(f.height, 0);
    assert!(f.data.is_empty());
}

#[test]
fn frame_zero_dimension_write_reads_as_noop() {
    let mut buf = FrameBuffer::new();
    buf.write(0, 5, &Vec::new());
    let mut target = Frame {
        width: 1,
        height: 1,
        data: vec![8; 4],
    };
    buf.read_into(&mut target);
    assert_eq!(target.width, 1);
    assert_eq!(target.data, vec![8; 4]);
}
