//! The wire codec: five control messages, each a fixed ASCII token that fills
//! one datagram. Anything else decodes to [`Message::Unknown`].

use vstd::prelude::*;
use vstd::slice::*;
use vstd::string::*;
use vstd::utf8::*;

verus! {

/// Token a client sends to open a session.
pub const HAND_SHAKE: &'static str = "MINETEST_HAND_SHAKE";

/// Token the server answers a handshake with.
pub const HAND_SHAKE_CONFIRMED: &'static str = "MINETEST_HAND_SHAKE_CONFIRMED";

/// Token of the keepalive probe.
pub const PING_REQUEST: &'static str = "MINETEST_PING_REQUEST";

/// Token of the keepalive answer.
pub const PING_CONFIRMATION: &'static str = "MINETEST_PING_CONFIRMATION";

/// Token a client sends to ask the server to shut down.
pub const SHUT_DOWN_REQUEST: &'static str = "MINETEST_SHUT_DOWN_REQUEST";

/// A control message as it travels between client and server.
#[derive(Debug, Clone, PartialEq, Eq)]
pub enum Message {
    Handshake,
    HandshakeAck,
    PingRequest,
    PingAck,
    ShutdownRequest,
    /// A payload that is none of the five tokens, kept as received.
    Unknown(Vec<u8>),
}

/// The mathematical value of a [`Message`].
pub enum MessageView {
    Handshake,
    HandshakeAck,
    PingRequest,
    PingAck,
    ShutdownRequest,
    Unknown(Seq<u8>),
}

impl View for Message {
    type V = MessageView;

    open spec fn view(&self) -> MessageView {
        match self {
            Message::Handshake => MessageView::Handshake,
            Message::HandshakeAck => MessageView::HandshakeAck,
            Message::PingRequest => MessageView::PingRequest,
            Message::PingAck => MessageView::PingAck,
            Message::ShutdownRequest => MessageView::ShutdownRequest,
            Message::Unknown(bytes) => MessageView::Unknown(bytes@),
        }
    }
}

impl DeepView for Message {
    type V = MessageView;

    open spec fn deep_view(&self) -> MessageView {
        self@
    }
}

/// Whether `bytes` is one of the five tokens.
pub open spec fn is_token(bytes: Seq<u8>) -> bool {
    ||| bytes == HAND_SHAKE.spec_bytes()
    ||| bytes == HAND_SHAKE_CONFIRMED.spec_bytes()
    ||| bytes == PING_REQUEST.spec_bytes()
    ||| bytes == PING_CONFIRMATION.spec_bytes()
    ||| bytes == SHUT_DOWN_REQUEST.spec_bytes()
}

/// The message a payload stands for: exact, case-sensitive match against the
/// tokens, and `Unknown` with the payload for everything else.
pub open spec fn decode_bytes(bytes: Seq<u8>) -> MessageView {
    if bytes == HAND_SHAKE.spec_bytes() {
        MessageView::Handshake
    } else if bytes == HAND_SHAKE_CONFIRMED.spec_bytes() {
        MessageView::HandshakeAck
    } else if bytes == PING_REQUEST.spec_bytes() {
        MessageView::PingRequest
    } else if bytes == PING_CONFIRMATION.spec_bytes() {
        MessageView::PingAck
    } else if bytes == SHUT_DOWN_REQUEST.spec_bytes() {
        MessageView::ShutdownRequest
    } else {
        MessageView::Unknown(bytes)
    }
}

/// The payload that carries a message.
pub open spec fn encode_message(message: MessageView) -> Seq<u8> {
    match message {
        MessageView::Handshake => HAND_SHAKE.spec_bytes(),
        MessageView::HandshakeAck => HAND_SHAKE_CONFIRMED.spec_bytes(),
        MessageView::PingRequest => PING_REQUEST.spec_bytes(),
        MessageView::PingAck => PING_CONFIRMATION.spec_bytes(),
        MessageView::ShutdownRequest => SHUT_DOWN_REQUEST.spec_bytes(),
        MessageView::Unknown(bytes) => bytes,
    }
}

/// Byte-wise equality of two slices.
fn same_bytes(left: &[u8], right: &[u8]) -> (same: bool)
    ensures
        same == (left@ == right@),
{
    if left.len() != right.len() {
        return false;
    }
    let mut i: usize = 0;
    while i < left.len()
        invariant
            left@.len() == right@.len(),
            i <= left@.len(),
            forall|j: int| 0 <= j < i ==> left@[j] == right@[j],
        decreases left@.len() - i,
    {
        if left[i] != right[i] {
            return false;
        }
        i += 1;
    }
    assert(left@ =~= right@);
    true
}

/// Turns a message into the payload to send.
pub fn encode(message: &Message) -> (bytes: Vec<u8>)
    ensures
        bytes@ == encode_message(message@),
{
    match message {
        Message::Handshake => HAND_SHAKE.as_bytes_vec(),
        Message::HandshakeAck => HAND_SHAKE_CONFIRMED.as_bytes_vec(),
        Message::PingRequest => PING_REQUEST.as_bytes_vec(),
        Message::PingAck => PING_CONFIRMATION.as_bytes_vec(),
        Message::ShutdownRequest => SHUT_DOWN_REQUEST.as_bytes_vec(),
        Message::Unknown(bytes) => bytes.clone(),
    }
}

/// Reads a received payload. Never fails: whatever is not a token comes back
/// as `Unknown`, with a copy of the payload.
pub fn decode(bytes: &[u8]) -> (message: Message)
    ensures
        message@ == decode_bytes(bytes@),
{
    if same_bytes(bytes, HAND_SHAKE.as_bytes()) {
        Message::Handshake
    } else if same_bytes(bytes, HAND_SHAKE_CONFIRMED.as_bytes()) {
        Message::HandshakeAck
    } else if same_bytes(bytes, PING_REQUEST.as_bytes()) {
        Message::PingRequest
    } else if same_bytes(bytes, PING_CONFIRMATION.as_bytes()) {
        Message::PingAck
    } else if same_bytes(bytes, SHUT_DOWN_REQUEST.as_bytes()) {
        Message::ShutdownRequest
    } else {
        Message::Unknown(slice_to_vec(bytes))
    }
}

/// The five tokens are pairwise different payloads.
pub proof fn tokens_are_distinct()
    ensures
        HAND_SHAKE.spec_bytes() != HAND_SHAKE_CONFIRMED.spec_bytes(),
        HAND_SHAKE.spec_bytes() != PING_REQUEST.spec_bytes(),
        HAND_SHAKE.spec_bytes() != PING_CONFIRMATION.spec_bytes(),
        HAND_SHAKE.spec_bytes() != SHUT_DOWN_REQUEST.spec_bytes(),
        HAND_SHAKE_CONFIRMED.spec_bytes() != PING_REQUEST.spec_bytes(),
        HAND_SHAKE_CONFIRMED.spec_bytes() != PING_CONFIRMATION.spec_bytes(),
        HAND_SHAKE_CONFIRMED.spec_bytes() != SHUT_DOWN_REQUEST.spec_bytes(),
        PING_REQUEST.spec_bytes() != PING_CONFIRMATION.spec_bytes(),
        PING_REQUEST.spec_bytes() != SHUT_DOWN_REQUEST.spec_bytes(),
        PING_CONFIRMATION.spec_bytes() != SHUT_DOWN_REQUEST.spec_bytes(),
{
    broadcast use encode_utf8_decode_utf8;

    reveal_strlit("MINETEST_HAND_SHAKE");
    reveal_strlit("MINETEST_HAND_SHAKE_CONFIRMED");
    reveal_strlit("MINETEST_PING_REQUEST");
    reveal_strlit("MINETEST_PING_CONFIRMATION");
    reveal_strlit("MINETEST_SHUT_DOWN_REQUEST");
    assert(HAND_SHAKE@.len() == 19);
    assert(HAND_SHAKE_CONFIRMED@.len() == 29);
    assert(PING_REQUEST@.len() == 21);
    assert(PING_CONFIRMATION@.len() == 26);
    assert(SHUT_DOWN_REQUEST@.len() == 26);
    assert(PING_CONFIRMATION@[9] == 'P');
    assert(SHUT_DOWN_REQUEST@[9] == 'S');
    assert(decode_utf8(HAND_SHAKE.spec_bytes()) == HAND_SHAKE@);
    assert(decode_utf8(HAND_SHAKE_CONFIRMED.spec_bytes()) == HAND_SHAKE_CONFIRMED@);
    assert(decode_utf8(PING_REQUEST.spec_bytes()) == PING_REQUEST@);
    assert(decode_utf8(PING_CONFIRMATION.spec_bytes()) == PING_CONFIRMATION@);
    assert(decode_utf8(SHUT_DOWN_REQUEST.spec_bytes()) == SHUT_DOWN_REQUEST@);
}

/// A payload that is not valid UTF-8 is never taken for a token: it decodes
/// to `Unknown`, with the payload as it came.
pub proof fn invalid_utf8_decodes_to_unknown(bytes: Seq<u8>)
    requires
        !valid_utf8(bytes),
    ensures
        decode_bytes(bytes) == MessageView::Unknown(bytes),
{
    broadcast use encode_utf8_valid_utf8;

    assert(valid_utf8(HAND_SHAKE.spec_bytes()));
    assert(valid_utf8(HAND_SHAKE_CONFIRMED.spec_bytes()));
    assert(valid_utf8(PING_REQUEST.spec_bytes()));
    assert(valid_utf8(PING_CONFIRMATION.spec_bytes()));
    assert(valid_utf8(SHUT_DOWN_REQUEST.spec_bytes()));
}

/// Decoding gives `Unknown` exactly for the payloads that are no token.
pub proof fn unknown_iff_no_token(bytes: Seq<u8>)
    ensures
        decode_bytes(bytes) is Unknown <==> !is_token(bytes),
        !is_token(bytes) ==> decode_bytes(bytes) == MessageView::Unknown(bytes),
{
}

/// Encoding what was decoded gives the payload back, whatever it was.
pub proof fn encode_after_decode(bytes: Seq<u8>)
    ensures
        encode_message(decode_bytes(bytes)) == bytes,
{
}

/// Decoding what was encoded gives the message back. The one exception is an
/// `Unknown` that holds a token, which no call of `decode` produces.
pub proof fn decode_after_encode(message: MessageView)
    requires
        message matches MessageView::Unknown(bytes) ==> !is_token(bytes),
    ensures
        decode_bytes(encode_message(message)) == message,
{
    tokens_are_distinct();
}

} // verus!
