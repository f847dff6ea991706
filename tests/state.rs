use bitcoincore_zmq::{
    break_on_err, CheckedItem, DisconnectGuard, FrameAssembler, HandshakeWait, Message,
    MessageContent, MonitorMessage, NotificationError, SocketEvent, SocketMessage, DATA_MAX_LEN,
};
use core::ops::ControlFlow;

fn feed(wait: &mut HandshakeWait, events: &[SocketEvent]) -> Option<usize> {
    if wait.is_ready() {
        return Some(0);
    }
    for (i, e) in events.iter().enumerate() {
        if wait.on_event(e) {
            return Some(i + 1);
        }
    }
    None
}

#[test]
fn handshake_wait_without_endpoints_reads_nothing() {
    let mut wait = HandshakeWait::new(0);
    assert!(wait.is_ready());
    assert_eq!(feed(&mut wait, &[SocketEvent::Disconnected { fd: 1 }]), Some(0));
}

#[test]
fn handshake_wait_two_endpoints() {
    let mut wait = HandshakeWait::new(2);
    let events = [
        SocketEvent::ConnectDelayed,
        SocketEvent::HandshakeSucceeded,
        SocketEvent::Connected { fd: 3 },
        SocketEvent::HandshakeSucceeded,
        SocketEvent::HandshakeSucceeded,
    ];
    assert_eq!(feed(&mut wait, &events), Some(4));
}

#[test]
fn handshake_wait_counts_disconnections() {
    let mut wait = HandshakeWait::new(2);
    let events = [
        SocketEvent::HandshakeSucceeded,
        SocketEvent::Disconnected { fd: 3 },
        SocketEvent::HandshakeSucceeded,
        SocketEvent::Disconnected { fd: 4 },
        SocketEvent::Disconnected { fd: 5 },
        SocketEvent::HandshakeSucceeded,
        SocketEvent::HandshakeSucceeded,
    ];
    assert_eq!(feed(&mut wait, &events), None);
    assert_eq!(wait.pending(), 1);
    assert!(wait.on_event(&SocketEvent::HandshakeSucceeded));
}

#[test]
fn disconnect_guard_ends_after_one_error() {
    let mut guard = DisconnectGuard::new();
    let msg = Message {
        content: MessageContent::Txid(bitcoincore_zmq::Txid::from_byte_array([1; 32])),
        sequence: 0,
    };
    assert!(matches!(
        guard.on_item(Ok(SocketMessage::Message(msg.clone()))),
        CheckedItem::Yield(Ok(m)) if m == msg
    ));
    let connected = MonitorMessage {
        event: SocketEvent::HandshakeSucceeded,
        source_url: "tcp://a".to_string(),
    };
    assert!(matches!(guard.on_item(Ok(SocketMessage::Event(connected))), CheckedItem::Skip));
    assert!(matches!(
        guard.on_item(Err(NotificationError::InvalidSequenceLength(2))),
        CheckedItem::Yield(Err(NotificationError::InvalidSequenceLength(2)))
    ));
    let gone = MonitorMessage {
        event: SocketEvent::Disconnected { fd: 7 },
        source_url: "tcp://b".to_string(),
    };
    assert!(matches!(
        guard.on_item(Ok(SocketMessage::Event(gone))),
        CheckedItem::Yield(Err(NotificationError::Disconnected(url))) if url == "tcp://b"
    ));
    assert!(guard.is_terminated());
    assert!(matches!(guard.on_item(Ok(SocketMessage::Message(msg))), CheckedItem::End));
}

#[test]
fn assembler_decodes_three_frames() {
    let mut assembler = FrameAssembler::new();
    assert!(assembler.push_frame(b"hashtx", true).is_none());
    assert!(assembler.push_frame(&[9; 32], true).is_none());
    assert_eq!(assembler.frame_count(), 2);
    let msg = assembler.push_frame(&[1, 0, 0, 0], false).unwrap().unwrap();
    assert_eq!(
        msg,
        Message {
            content: MessageContent::Txid(bitcoincore_zmq::Txid::from_byte_array([9; 32])),
            sequence: 1,
        }
    );
    assert_eq!(assembler.frame_count(), 0);
}

#[test]
fn assembler_drains_extra_frames() {
    let mut assembler = FrameAssembler::new();
    for frame in [b"hashtx" as &[u8], &[9; 32], &[1, 0, 0, 0], b"x"] {
        assert!(assembler.push_frame(frame, true).is_none());
    }
    assert!(matches!(
        assembler.push_frame(b"y", false),
        Some(Err(NotificationError::InvalidMutlipartLength(5)))
    ));
    assert!(assembler.push_frame(b"hashblock", true).is_none());
    assert!(matches!(
        assembler.push_frame(&[0; 32], false),
        Some(Err(NotificationError::InvalidMutlipartLength(2)))
    ));
    assert!(matches!(
        assembler.push_frame(b"hashtx", false),
        Some(Err(NotificationError::InvalidMutlipartLength(1)))
    ));
    assert!(matches!(
        assembler.push_frame(b"only one", false),
        Some(Err(NotificationError::UnknownTopic(_)))
    ));
}

#[test]
fn assembler_reports_bad_frames_in_order() {
    let mut assembler = FrameAssembler::new();
    assembler.push_frame(b"nope", true);
    assembler.push_frame(&[], true);
    assert!(matches!(
        assembler.push_frame(&[1, 2], false),
        Some(Err(NotificationError::UnknownTopic(_)))
    ));
    assembler.push_frame(b"rawtx", true);
    assembler.push_frame(&[], true);
    assert!(matches!(
        assembler.push_frame(&[1, 2], false),
        Some(Err(NotificationError::InvalidSequenceLength(2)))
    ));
}

#[test]
fn assembler_rejects_oversized_data() {
    let mut assembler = FrameAssembler::new();
    let data = vec![0u8; DATA_MAX_LEN + 1];
    assembler.push_frame(b"rawblock", true);
    assembler.push_frame(&data, true);
    assert!(matches!(
        assembler.push_frame(&[0, 0, 0, 0], false),
        Some(Err(NotificationError::InvalidDataLength(n))) if n == DATA_MAX_LEN + 1
    ));
}

#[test]
fn assembler_oversized_data_comes_before_frame_count_and_sequence() {
    let data = vec![0u8; DATA_MAX_LEN + 1];
    let mut assembler = FrameAssembler::new();
    assembler.push_frame(b"rawblock", true);
    assert!(matches!(
        assembler.push_frame(&data, false),
        Some(Err(NotificationError::InvalidDataLength(n))) if n == DATA_MAX_LEN + 1
    ));
    for frame in [b"rawtx" as &[u8], &data, b"not 4 bytes", b"extra"] {
        assert!(assembler.push_frame(frame, true).is_none());
    }
    assert!(matches!(
        assembler.push_frame(b"more", false),
        Some(Err(NotificationError::InvalidDataLength(n))) if n == DATA_MAX_LEN + 1
    ));
    assembler.push_frame(b"bad topic", true);
    assert!(matches!(
        assembler.push_frame(&data, false),
        Some(Err(NotificationError::UnknownTopic(_)))
    ));
}

#[test]
fn assembler_sequence_length_comes_before_extra_frames() {
    let mut assembler = FrameAssembler::new();
    for frame in [b"hashtx" as &[u8], &[9; 32], &[1, 2, 3]] {
        assert!(assembler.push_frame(frame, true).is_none());
    }
    assert!(matches!(
        assembler.push_frame(b"x", false),
        Some(Err(NotificationError::InvalidSequenceLength(3)))
    ));
}

#[test]
fn data_bound_is_the_largest_block_weight() {
    assert_eq!(DATA_MAX_LEN as u64, bitcoin::Weight::MAX_BLOCK.to_wu());
}

#[test]
fn break_only_on_error() {
    assert_eq!(break_on_err(true), ControlFlow::Break(()));
    assert_eq!(break_on_err(false), ControlFlow::Continue(()));
}
