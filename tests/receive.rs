use online_filter::frame::{encode_frame, sentinel_frame};
use online_filter::receiver::{RxAction, SampleBuffer};

#[test]
fn samples_kept_in_arrival_order() {
    let mut buf = SampleBuffer::new(4);
    for x in [3.0f32, -1.0, 0.25] {
        assert_eq!(buf.accept_frame(x.to_le_bytes()), RxAction::Continue);
    }
    let got: Vec<f32> = buf.snapshot().into_iter().map(f32::from_bits).collect();
    assert_eq!(got, vec![3.0, -1.0, 0.25]);
    assert_eq!(buf.len(), 3);
    assert!(!buf.is_closed());
}

#[test]
fn sentinel_ends_reception() {
    let mut buf = SampleBuffer::new(4);
    assert_eq!(buf.accept_frame(encode_frame(7)), RxAction::Continue);
    assert_eq!(buf.accept_frame(sentinel_frame()), RxAction::Stop);
    assert!(buf.is_closed());
    assert_eq!(buf.accept_frame(encode_frame(8)), RxAction::Stop);
    assert_eq!(buf.snapshot(), vec![7]);
}

#[test]
fn buffer_never_exceeds_capacity() {
    let mut buf = SampleBuffer::new(2);
    for x in 1..=5u32 {
        assert_eq!(buf.accept_frame(encode_frame(x)), RxAction::Continue);
        assert!(buf.len() <= 2);
    }
    assert_eq!(buf.snapshot(), vec![1, 2]);
    assert_eq!(buf.capacity(), 2);
    assert_eq!(buf.accept_frame(sentinel_frame()), RxAction::Stop);
}

#[test]
fn read_failure_ends_reception() {
    let mut buf = SampleBuffer::new(3);
    buf.accept_frame(encode_frame(9));
    buf.read_failed();
    assert!(buf.is_closed());
    assert_eq!(buf.snapshot(), vec![9]);
}

#[test]
fn new_buffer_is_empty() {
    let buf = SampleBuffer::new(10);
    assert_eq!(buf.len(), 0);
    assert!(buf.snapshot().is_empty());
}
