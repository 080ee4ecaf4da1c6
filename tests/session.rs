use online_filter::filter::{Action, Filter, Message, Phase};
use online_filter::frame::{encode_frame, sentinel_frame};
use online_filter::graph;
use online_filter::receiver::SampleBuffer;

fn connected(input: Vec<u32>) -> Filter {
    let mut f = Filter::new();
    assert_eq!(f.update(Message::ConnectionEstablished { input }), Action::SpawnWorkers);
    f
}

#[test]
fn handshake_failure_errors_without_workers() {
    let mut f = Filter::new();
    assert_eq!(f.current_phase(), Phase::Connecting);
    assert_eq!(f.update(Message::ConnectionFailed), Action::Nothing);
    assert_eq!(f.current_phase(), Phase::Errored);
    assert!(!f.ticking());
    assert!(f.output_buffer().is_none());
    assert_eq!(f.window(10), None);
    assert!(!f.accepts(&Message::ConnectionEstablished { input: vec![1, 2] }));
    assert!(!f.accepts(&Message::Refresh { receiver_finished: true }));
    assert!(!f.accepts(&Message::Graph(graph::Message::SwitchMode)));
    assert!(f.accepts(&Message::Finish));
    assert_eq!(f.update(Message::Finish), Action::Leave);
    assert_eq!(f.current_phase(), Phase::Errored);
    assert_eq!(f.update(Message::Finish), Action::Leave);
    assert_eq!(f.current_phase(), Phase::Errored);
}

#[test]
fn established_connection_spawns_workers() {
    let f = connected(vec![1, 2, 3]);
    assert_eq!(f.current_phase(), Phase::Streaming);
    assert!(f.ticking());
    assert!(!f.can_export());
    assert_eq!(f.window(0), None);
    assert_eq!(f.window(3), Some((0, 2)));
}

#[test]
fn refresh_joins_once_receiver_finished() {
    let mut f = connected(vec![1, 2, 3]);
    assert_eq!(f.update(Message::Refresh { receiver_finished: false }), Action::Nothing);
    assert!(f.ticking());
    assert_eq!(f.update(Message::Refresh { receiver_finished: true }), Action::JoinWorkers);
    assert_eq!(f.current_phase(), Phase::Drained);
    assert!(!f.ticking());
    assert_eq!(f.update(Message::Refresh { receiver_finished: true }), Action::Nothing);
}

#[test]
fn finish_after_reclaim_joins_nothing() {
    let mut f = connected(vec![1]);
    f.update(Message::Refresh { receiver_finished: true });
    assert_eq!(f.update(Message::Finish), Action::Leave);
    assert_eq!(f.update(Message::Finish), Action::Leave);
    assert_eq!(f.current_phase(), Phase::Closed);
}

#[test]
fn finish_while_streaming_cancels_and_joins() {
    let mut f = connected(vec![1, 2]);
    assert_eq!(f.update(Message::Finish), Action::CancelJoinAndLeave);
    assert_eq!(f.current_phase(), Phase::Closed);
    assert_eq!(f.update(Message::Finish), Action::Leave);
}

#[test]
fn connecting_takes_only_handshake_outcome() {
    let f = Filter::new();
    assert!(f.accepts(&Message::ConnectionFailed));
    assert!(f.accepts(&Message::ConnectionEstablished { input: vec![1] }));
    assert!(!f.accepts(&Message::Finish));
    assert!(!f.accepts(&Message::Refresh { receiver_finished: false }));
    assert_eq!(f.current_phase(), Phase::Connecting);
}

#[test]
fn connected_rejects_handshake_outcome() {
    let f = connected(vec![1, 2]);
    assert!(!f.accepts(&Message::ConnectionFailed));
    assert!(!f.accepts(&Message::ConnectionEstablished { input: vec![3] }));
    assert!(f.accepts(&Message::Refresh { receiver_finished: false }));
    assert!(f.accepts(&Message::Finish));
}

#[test]
fn export_only_after_reclaim() {
    let input: Vec<u32> = [0.5f32, 1.5, 2.5].iter().map(|x| x.to_bits()).collect();
    let mut f = connected(input.clone());
    let mut buf = SampleBuffer::new(3);
    buf.accept_frame(encode_frame(11));
    buf.accept_frame(encode_frame(12));
    assert!(f.export(&buf).is_none());
    buf.accept_frame(sentinel_frame());
    f.update(Message::Refresh { receiver_finished: true });
    assert!(f.can_export());
    let rec = f.export(&buf).expect("drained session exports");
    assert_eq!(rec.input, input);
    assert_eq!(rec.output, buf.snapshot());
    assert_eq!(rec.output, vec![11, 12]);
}

#[test]
fn viewer_messages_reach_graph() {
    let mut f = connected(vec![0; 1000]);
    assert_eq!(f.update(Message::Graph(graph::Message::SwitchMode)), Action::Nothing);
    f.update(Message::Graph(graph::Message::SizeUpdated(100)));
    f.update(Message::Graph(graph::Message::OffsetUpdated(50)));
    assert_eq!(f.window(1000), Some((50, 150)));
    f.update(Message::Graph(graph::Message::SwitchMode));
    assert_eq!(f.window(1000), Some((616, 999)));
}

#[test]
fn output_buffer_sized_to_input() {
    let f = connected(vec![4, 5, 6, 7]);
    let b = f.output_buffer().expect("connected");
    assert_eq!(b.capacity(), 4);
    assert_eq!(b.len(), 0);
    assert!(Filter::new().output_buffer().is_none());
}

#[test]
fn viewer_messages_need_connection() {
    let f = Filter::new();
    assert!(!f.accepts(&Message::Graph(graph::Message::SwitchMode)));
    assert_eq!(f.window(100), None);
}
