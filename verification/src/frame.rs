//! WebSocket frames: the frames the client sends, and what its reader does
//! with each frame it receives.
use vstd::prelude::*;
use vstd::utf8::*;

use crate::error::NubilaError;
use crate::text::utf8_text;

verus! {

/// The kinds of WebSocket frame (RFC 6455, section 5.2).
#[derive(PartialEq, Eq, Structural, Debug, Clone, Copy)]
pub enum WsOpCode {
    Continuation,
    Text,
    Binary,
    Close,
    Ping,
    Pong,
}

/// The number that stands for each kind of frame on the wire.
pub open spec fn opcode_number(op: WsOpCode) -> u8 {
    match op {
        WsOpCode::Continuation => 0,
        WsOpCode::Text => 1,
        WsOpCode::Binary => 2,
        WsOpCode::Close => 8,
        WsOpCode::Ping => 9,
        WsOpCode::Pong => 10,
    }
}

/// The kind of frame a number stands for, if any.
pub open spec fn opcode_of_number(n: u8) -> Option<WsOpCode> {
    if n == 0 {
        Some(WsOpCode::Continuation)
    } else if n == 1 {
        Some(WsOpCode::Text)
    } else if n == 2 {
        Some(WsOpCode::Binary)
    } else if n == 8 {
        Some(WsOpCode::Close)
    } else if n == 9 {
        Some(WsOpCode::Ping)
    } else if n == 10 {
        Some(WsOpCode::Pong)
    } else {
        None
    }
}

/// Reads the kind of frame from its number on the wire.
pub fn opcode_from_number(n: u8) -> (r: Option<WsOpCode>)
    ensures
        r == opcode_of_number(n),
{
    if n == 0 {
        Some(WsOpCode::Continuation)
    } else if n == 1 {
        Some(WsOpCode::Text)
    } else if n == 2 {
        Some(WsOpCode::Binary)
    } else if n == 8 {
        Some(WsOpCode::Close)
    } else if n == 9 {
        Some(WsOpCode::Ping)
    } else if n == 10 {
        Some(WsOpCode::Pong)
    } else {
        None
    }
}

/// The number on the wire of a kind of frame.
pub fn opcode_to_number(op: WsOpCode) -> (n: u8)
    ensures
        n == opcode_number(op),
{
    match op {
        WsOpCode::Continuation => 0,
        WsOpCode::Text => 1,
        WsOpCode::Binary => 2,
        WsOpCode::Close => 8,
        WsOpCode::Ping => 9,
        WsOpCode::Pong => 10,
    }
}

/// Reading a kind of frame back from its number gives the same kind.
pub proof fn law_opcode_number_roundtrip(op: WsOpCode)
    ensures
        opcode_of_number(opcode_number(op)) == Some(op),
{
}

/// A frame that the client writes: whether it ends a message, its kind
/// and its payload (the writer masks it, as a client must).
pub struct OutFrame {
    pub fin: bool,
    pub opcode: WsOpCode,
    pub payload: Vec<u8>,
}

// ---------------------------------------------------------------------------
// Frames built by fastwebsockets
// ---------------------------------------------------------------------------

/// `fastwebsockets::Frame::text`: per its source, a final frame of kind
/// Text (number 1) whose payload is the given bytes, unchanged. The result
/// gives `fin`, the kind's number and the payload.
#[verifier::external_body]
fn ws_text_frame(payload: Vec<u8>) -> (r: (bool, u8, Vec<u8>))
    ensures
        r.0,
        r.1 == 1,
        r.2@ == payload@,
{
    let f = fastwebsockets::Frame::text(fastwebsockets::Payload::Owned(payload));
    (f.fin, f.opcode as u8, f.payload.into())
}

/// `fastwebsockets::Frame::binary`: per its source, a final frame of kind
/// Binary (number 2) whose payload is the given bytes, unchanged.
#[verifier::external_body]
fn ws_binary_frame(payload: Vec<u8>) -> (r: (bool, u8, Vec<u8>))
    ensures
        r.0,
        r.1 == 2,
        r.2@ == payload@,
{
    let f = fastwebsockets::Frame::binary(fastwebsockets::Payload::Owned(payload));
    (f.fin, f.opcode as u8, f.payload.into())
}

/// The payload of a close frame: the code in two bytes, most significant
/// first, then the reason.
pub open spec fn close_payload(code: u16, reason: Seq<u8>) -> Seq<u8> {
    seq![(code / 256) as u8, (code % 256) as u8] + reason
}

/// `fastwebsockets::Frame::close`: per its source, a final frame of kind
/// Close (number 8) whose payload is `code.to_be_bytes()` followed by the
/// reason.
#[verifier::external_body]
fn ws_close_frame(code: u16, reason: &[u8]) -> (r: (bool, u8, Vec<u8>))
    ensures
        r.0,
        r.1 == 8,
        r.2@ == close_payload(code, reason@),
{
    let f = fastwebsockets::Frame::close(code, reason);
    (f.fin, f.opcode as u8, f.payload.into())
}

fn out_frame(parts: (bool, u8, Vec<u8>), op: WsOpCode) -> (f: OutFrame)
    requires
        parts.1 == opcode_number(op),
    ensures
        f.fin == parts.0,
        f.opcode == op,
        f.payload@ == parts.2@,
{
    let (fin, number, payload) = parts;
    let opcode = match opcode_from_number(number) {
        Some(o) => o,
        None => op,
    };
    OutFrame { fin, opcode, payload }
}

// ---------------------------------------------------------------------------
// Sending
// ---------------------------------------------------------------------------

/// A message handed to `send`: text, binary data, or something else, given
/// by its description.
pub enum WsPayload {
    Text(String),
    Binary(Vec<u8>),
    Unsupported(String),
}

/// The payload of the frame that carries a text message: its UTF-8 bytes.
pub open spec fn text_payload(text: Seq<char>) -> Seq<u8> {
    encode_utf8(text)
}

/// The frame that `send` writes: a final Text frame with the text's UTF-8
/// bytes, a final Binary frame with the data, and for anything else the
/// error `WsInvalidPayload` with its description.
pub fn frame_for_send(payload: WsPayload) -> (res: Result<OutFrame, NubilaError>)
    ensures
        payload matches WsPayload::Text(s) ==> (res matches Ok(f) && f.fin && f.opcode
            == WsOpCode::Text && f.payload@ == text_payload(s@) && f.payload@ == encode_utf8(s@)),
        payload matches WsPayload::Binary(b) ==> (res matches Ok(f) && f.fin && f.opcode
            == WsOpCode::Binary && f.payload@ == b@),
        payload matches WsPayload::Unsupported(d) ==> (res matches Err(
            NubilaError::WsInvalidPayload(e),
        ) && e@ == d@),
{
    match payload {
        WsPayload::Text(s) => {
            let bytes = s.as_str().as_bytes_vec();
            Ok(out_frame(ws_text_frame(bytes), WsOpCode::Text))
        },
        WsPayload::Binary(b) => Ok(out_frame(ws_binary_frame(b), WsOpCode::Binary)),
        WsPayload::Unsupported(d) => Err(NubilaError::WsInvalidPayload(d)),
    }
}

/// The frame that `close` writes: a final Close frame whose payload is the
/// code, most significant byte first, then the UTF-8 bytes of the reason.
pub fn close_frame(code: u16, reason: &str) -> (f: OutFrame)
    ensures
        f.fin,
        f.opcode == WsOpCode::Close,
        f.payload@ == close_payload(code, text_payload(reason@)),
        f.payload@.len() == encode_utf8(reason@).len() + 2,
        f.payload@[0] as int * 256 + f.payload@[1] as int == code as int,
        f.payload@.skip(2) == encode_utf8(reason@),
{
    let f = out_frame(ws_close_frame(code, reason.as_bytes()), WsOpCode::Close);
    proof {
        law_close_payload_readback(code, encode_utf8(reason@));
    }
    f
}

/// The close code can be read back from the first two bytes of a close
/// payload, and the reason from the rest.
pub proof fn law_close_payload_readback(code: u16, reason: Seq<u8>)
    ensures
        close_payload(code, reason).len() == reason.len() + 2,
        close_payload(code, reason)[0] as int * 256 + close_payload(code, reason)[1] as int
            == code as int,
        close_payload(code, reason).skip(2) == reason,
{
    assert(close_payload(code, reason).skip(2) =~= reason);
}

// ---------------------------------------------------------------------------
// Receiving
// ---------------------------------------------------------------------------

/// What the reader gets from the connection: a complete frame (fragments
/// already joined), or a failure to read one.
pub enum ReadEvent {
    Frame(WsOpCode, Vec<u8>),
    Failed,
}

/// What the reader does with an event: hand a text or binary message to
/// `onmessage`, go on without a callback, stop reading, or report the failure
/// to `onerror` and stop. Once reading stops, `onclose` is called.
pub enum ReaderAction {
    DeliverText(String),
    DeliverBinary(Vec<u8>),
    Skip,
    Finish,
    FailAndFinish,
}

/// The model of a `ReaderAction`.
pub enum ReaderEffect {
    Text(Seq<char>),
    Binary(Seq<u8>),
    Skip,
    Finish,
    FailAndFinish,
}

impl View for ReaderAction {
    type V = ReaderEffect;

    open spec fn view(&self) -> ReaderEffect {
        match self {
            ReaderAction::DeliverText(s) => ReaderEffect::Text(s@),
            ReaderAction::DeliverBinary(b) => ReaderEffect::Binary(b@),
            ReaderAction::Skip => ReaderEffect::Skip,
            ReaderAction::Finish => ReaderEffect::Finish,
            ReaderAction::FailAndFinish => ReaderEffect::FailAndFinish,
        }
    }
}

/// What the reader does with a frame: a Text frame whose payload is UTF-8
/// is delivered as that text, and dropped otherwise; a Binary frame is
/// delivered as its bytes; a Close frame stops reading; Ping, Pong and
/// Continuation frames (answered by the connection itself) are passed over.
pub open spec fn frame_effect(op: WsOpCode, payload: Seq<u8>) -> ReaderEffect {
    match op {
        WsOpCode::Text => if valid_utf8(payload) {
            ReaderEffect::Text(decode_utf8(payload))
        } else {
            ReaderEffect::Skip
        },
        WsOpCode::Binary => ReaderEffect::Binary(payload),
        WsOpCode::Close => ReaderEffect::Finish,
        _ => ReaderEffect::Skip,
    }
}

/// Whether the reader goes on after an effect.
pub open spec fn keeps_reading(e: ReaderEffect) -> bool {
    match e {
        ReaderEffect::Finish | ReaderEffect::FailAndFinish => false,
        _ => true,
    }
}

/// One step of the reader: what it does with the next event.
pub fn reader_step(event: ReadEvent) -> (a: ReaderAction)
    ensures
        event matches ReadEvent::Frame(op, payload) ==> a@ == frame_effect(op, payload@),
        event is Failed ==> a@ == ReaderEffect::FailAndFinish,
{
    match event {
        ReadEvent::Frame(op, payload) => match op {
            WsOpCode::Text => match utf8_text(payload.as_slice()) {
                Some(text) => ReaderAction::DeliverText(text),
                None => ReaderAction::Skip,
            },
            WsOpCode::Binary => ReaderAction::DeliverBinary(payload),
            WsOpCode::Close => ReaderAction::Finish,
            _ => ReaderAction::Skip,
        },
        ReadEvent::Failed => ReaderAction::FailAndFinish,
    }
}

/// Whether the reader goes on after an action.
pub fn continues(a: &ReaderAction) -> (r: bool)
    ensures
        r == keeps_reading(a@),
{
    match a {
        ReaderAction::Finish | ReaderAction::FailAndFinish => false,
        _ => true,
    }
}

/// A text message that the client sends reaches a reader of the same
/// library unchanged, and so does binary data.
pub proof fn law_message_roundtrip(text: Seq<char>, data: Seq<u8>)
    ensures
        frame_effect(WsOpCode::Text, text_payload(text)) == ReaderEffect::Text(text),
        frame_effect(WsOpCode::Binary, data) == ReaderEffect::Binary(data),
{
    encode_utf8_valid_utf8(text);
    encode_utf8_decode_utf8(text);
}

/// The reader stops on a Close frame or a failure, and on nothing else.
pub proof fn law_reader_stops_only_on_close(op: WsOpCode, payload: Seq<u8>)
    ensures
        keeps_reading(frame_effect(op, payload)) <==> op != WsOpCode::Close,
        !keeps_reading(ReaderEffect::FailAndFinish),
{
}

/// The payload of the frame sent for a text is well-formed UTF-8 that
/// decodes back to exactly that text, byte for byte its UTF-8 encoding.
pub proof fn law_text_payload_is_utf8_of_text(text: Seq<char>)
    ensures
        text_payload(text) == encode_utf8(text),
        valid_utf8(text_payload(text)),
        decode_utf8(text_payload(text)) == text,
{
    encode_utf8_valid_utf8(text);
    encode_utf8_decode_utf8(text);
}

/// The reason of a close frame decodes back to exactly the reason given,
/// after the two bytes of the code.
pub proof fn law_close_reason_readback(code: u16, reason: Seq<char>)
    ensures
        valid_utf8(close_payload(code, text_payload(reason)).skip(2)),
        decode_utf8(close_payload(code, text_payload(reason)).skip(2)) == reason,
{
    law_close_payload_readback(code, text_payload(reason));
    law_text_payload_is_utf8_of_text(reason);
}

/// A Close frame always ends reading cleanly, whatever its payload, and no
/// frame is ever taken for a read failure: only a failed read reports one.
pub proof fn law_close_is_not_a_failure(op: WsOpCode, payload: Seq<u8>)
    ensures
        frame_effect(WsOpCode::Close, payload) == ReaderEffect::Finish,
        frame_effect(op, payload) != ReaderEffect::FailAndFinish,
        frame_effect(op, payload) == ReaderEffect::Finish <==> op == WsOpCode::Close,
{
}

/// Only Text and Binary frames reach `onmessage`, with the decoded text and
/// the unchanged bytes respectively.
pub proof fn law_only_data_frames_deliver(op: WsOpCode, payload: Seq<u8>)
    ensures
        frame_effect(op, payload) matches ReaderEffect::Binary(b) ==> op == WsOpCode::Binary && b
            == payload,
        frame_effect(op, payload) matches ReaderEffect::Text(t) ==> op == WsOpCode::Text
            && encode_utf8(t) == payload,
        op == WsOpCode::Text && valid_utf8(payload) ==> frame_effect(op, payload) is Text,
{
    if op == WsOpCode::Text && valid_utf8(payload) {
        decode_utf8_encode_utf8(payload);
    }
}

} // verus!
