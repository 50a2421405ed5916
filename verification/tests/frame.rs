use nubila::error::NubilaError;
use nubila::frame::{
    close_frame, continues, frame_for_send, opcode_from_number, opcode_to_number, reader_step,
    ReadEvent, ReaderAction, WsOpCode, WsPayload,
};

#[test]
fn text_frame_carries_utf8_bytes() {
    let f = frame_for_send(WsPayload::Text("héllo".to_string())).unwrap();
    assert!(f.fin);
    assert_eq!(f.opcode, WsOpCode::Text);
    assert_eq!(f.payload, "héllo".as_bytes().to_vec());
}

#[test]
fn binary_frame_carries_data() {
    let f = frame_for_send(WsPayload::Binary(vec![0, 1, 255])).unwrap();
    assert!(f.fin);
    assert_eq!(f.opcode, WsOpCode::Binary);
    assert_eq!(f.payload, vec![0, 1, 255]);
}

#[test]
fn unsupported_payload_is_refused() {
    match frame_for_send(WsPayload::Unsupported("JsValue(Object)".to_string())) {
        Err(NubilaError::WsInvalidPayload(d)) => assert_eq!(d, "JsValue(Object)"),
        _ => panic!("expected WsInvalidPayload"),
    }
}

#[test]
fn close_frame_payload() {
    let f = close_frame(1000, "bye");
    assert!(f.fin);
    assert_eq!(f.opcode, WsOpCode::Close);
    assert_eq!(f.payload, vec![0x03, 0xe8, b'b', b'y', b'e']);
    let g = close_frame(4999, "");
    assert_eq!(g.payload, vec![0x13, 0x87]);
}

#[test]
fn close_code_reads_back() {
    let f = close_frame(3001, "r");
    assert_eq!(f.payload[0] as u16 * 256 + f.payload[1] as u16, 3001);
    assert_eq!(&f.payload[2..], b"r");
}

#[test]
fn opcode_numbers() {
    for (op, n) in [
        (WsOpCode::Continuation, 0u8),
        (WsOpCode::Text, 1),
        (WsOpCode::Binary, 2),
        (WsOpCode::Close, 8),
        (WsOpCode::Ping, 9),
        (WsOpCode::Pong, 10),
    ] {
        assert_eq!(opcode_to_number(op), n);
        assert_eq!(opcode_from_number(n), Some(op));
    }
    assert_eq!(opcode_from_number(3), None);
    assert_eq!(opcode_from_number(255), None);
}

#[test]
fn reader_delivers_text() {
    match reader_step(ReadEvent::Frame(WsOpCode::Text, "hi ✓".as_bytes().to_vec())) {
        ReaderAction::DeliverText(s) => assert_eq!(s, "hi ✓"),
        _ => panic!("expected text"),
    }
}

#[test]
fn reader_drops_invalid_text() {
    let a = reader_step(ReadEvent::Frame(WsOpCode::Text, vec![0xff, 0xfe]));
    assert!(matches!(a, ReaderAction::Skip));
    assert!(continues(&a));
}

#[test]
fn reader_delivers_binary() {
    match reader_step(ReadEvent::Frame(WsOpCode::Binary, vec![9, 8, 7])) {
        ReaderAction::DeliverBinary(b) => assert_eq!(b, vec![9, 8, 7]),
        _ => panic!("expected binary"),
    }
}

#[test]
fn reader_stops_on_close() {
    let a = reader_step(ReadEvent::Frame(WsOpCode::Close, vec![3, 232]));
    assert!(matches!(a, ReaderAction::Finish));
    assert!(!continues(&a));
}

#[test]
fn reader_stops_on_failure() {
    let a = reader_step(ReadEvent::Failed);
    assert!(matches!(a, ReaderAction::FailAndFinish));
    assert!(!continues(&a));
}

#[test]
fn reader_passes_over_control_frames() {
    for op in [WsOpCode::Ping, WsOpCode::Pong, WsOpCode::Continuation] {
        let a = reader_step(ReadEvent::Frame(op, vec![1, 2]));
        assert!(matches!(a, ReaderAction::Skip));
        assert!(continues(&a));
    }
}

#[test]
fn sent_text_round_trips_through_reader() {
    let text = "round ✓ trip";
    let f = frame_for_send(WsPayload::Text(text.to_string())).unwrap();
    match reader_step(ReadEvent::Frame(f.opcode, f.payload)) {
        ReaderAction::DeliverText(s) => assert_eq!(s, text),
        _ => panic!("expected text"),
    }
}

#[test]
fn sent_binary_round_trips_through_reader() {
    let data = vec![0u8, 0xff, 0x80, 7];
    let f = frame_for_send(WsPayload::Binary(data.clone())).unwrap();
    match reader_step(ReadEvent::Frame(f.opcode, f.payload)) {
        ReaderAction::DeliverBinary(b) => assert_eq!(b, data),
        _ => panic!("expected binary"),
    }
}
