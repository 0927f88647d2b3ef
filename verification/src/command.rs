//! The framer: the 8-byte header, channel open and close payloads, and the
//! frames that carry them.

pub mod base;
pub mod command_request;
pub mod command_response;

use crate::bytes::extend;
use crate::command::base::envelope;
use crate::command::command_request::{message_with, message_with_two, CommandRequest};
use crate::json::object;
use vstd::prelude::*;
use vstd::utf8::encode_utf8;

verus! {

/// Payload signature of a frame that opens a channel.
pub const OPEN: [u8; 8] = [0xcd, 0xab, 0x01, 0x00, 0x07, 0x00, 0x00, 0x00];

/// Payload signature of a frame that closes a channel.
pub const CLOSE: [u8; 8] = [0xef, 0x01, 0x03, 0x00, 0x02, 0x00, 0x00, 0x00];

/// The payload length that the two length bytes of a header stand for:
/// an unsigned 16-bit number, low byte first.
pub open spec fn decode_length(b2: u8, b3: u8) -> nat {
    (b2 as nat) + 256 * (b3 as nat)
}

/// Low byte of the length field for a payload of `len` bytes.
pub open spec fn length_low(len: nat) -> u8 {
    (len % 256) as u8
}

/// High byte of the length field for a payload of `len` bytes. Lengths of
/// 65 536 and more do not fit the field; only their low 16 bits are kept.
pub open spec fn length_high(len: nat) -> u8 {
    ((len / 256) % 256) as u8
}

/// The 8-byte header for a payload of `len` bytes on the channel `(c0, c1)`.
pub open spec fn header_bytes(len: nat, c0: u8, c1: u8) -> Seq<u8> {
    seq![0x00u8, 0x06u8, length_low(len), length_high(len), c0, c1, 0x00u8, 0x00u8]
}

/// A complete frame: header, then payload.
pub open spec fn frame(payload: Seq<u8>, c0: u8, c1: u8) -> Seq<u8> {
    header_bytes(payload.len(), c0, c1) + payload
}

/// What follows the control id in an open payload. A channel that is opened
/// with an extra carries a six-byte descriptor whose third byte is the
/// extra's length plus one (kept to one byte), then the extra; every open
/// payload ends in a zero byte.
pub open spec fn open_tail(extra: Option<Seq<u8>>) -> Seq<u8> {
    match extra {
        Some(bytes) => seq![0u8, 0u8, ((bytes.len() + 1) % 256) as u8, 0u8, 0u8, 0u8] + bytes
            + seq![0u8],
        None => seq![0u8],
    }
}

/// Payload of the frame that opens the channel `name` under `control`.
pub open spec fn open_payload(name: Seq<u8>, control: Seq<u8>, extra: Option<Seq<u8>>) -> Seq<u8> {
    OPEN@ + name + control + open_tail(extra)
}

/// The frame that opens a channel. Its header carries a zero control field:
/// the control id travels in the payload.
pub open spec fn open_frame(name: Seq<u8>, control: Seq<u8>, extra: Option<Seq<u8>>) -> Seq<u8> {
    frame(open_payload(name, control, extra), 0, 0)
}

/// Payload of the frame that closes the channel under `control`.
pub open spec fn close_payload(control: Seq<u8>) -> Seq<u8> {
    CLOSE@ + control
}

/// The frame that closes a channel, again with a zero control field.
pub open spec fn close_frame(control: Seq<u8>) -> Seq<u8> {
    frame(close_payload(control), 0, 0)
}

/// The bytes of an optional slice, as a sequence.
pub open spec fn extra_bytes(extra: Option<&[u8]>) -> Option<Seq<u8>> {
    match extra {
        Some(bytes) => Some(bytes@),
        None => None,
    }
}

/// The message id of the request for the face recognition parameters; the
/// device echoes it back.
pub const FRCG_MESSAGE_ID: u8 = 121;

/// A request, by the operation that it asks for.
pub enum CommandKind {
    /// Authorize with a user token.
    UAUT(String),
    /// Get the configuration; the argument selects the address books,
    /// `"none"` or `"all"`.
    UCFG(String),
    /// Remove all users; the argument names the requester.
    RemoveAllUsers(String),
    /// Activate the user with the given e-mail address.
    ActivateUser(String),
    /// Get the server information.
    INFO,
    /// Get the face recognition parameters.
    FRCG,
}

/// The JSON text of the request `kind`.
pub open spec fn request_json(kind: CommandKind) -> Seq<u8> {
    match kind {
        CommandKind::UAUT(token) => message_with(
            envelope("access"@, "request"@, 1),
            "user-token"@,
            token@,
        ),
        CommandKind::UCFG(addressbooks) => message_with(
            envelope("get-configuration"@, "request"@, 1),
            "addressbooks"@,
            addressbooks@,
        ),
        CommandKind::RemoveAllUsers(requester) => message_with(
            envelope("remove-all-users"@, "request"@, 1),
            "requester"@,
            requester@,
        ),
        CommandKind::ActivateUser(email) => message_with_two(
            envelope("activate-user"@, "request"@, 1),
            "email"@,
            email@,
            "description"@,
            "viper-client"@,
        ),
        CommandKind::INFO => object(envelope("server-info"@, "request"@, 1)),
        CommandKind::FRCG => object(envelope("rcg-get-params"@, "request"@, FRCG_MESSAGE_ID)),
    }
}

/// Builds frames.
pub struct Command {}

impl Command {
    /// The frame that carries the request `kind` on the channel whose
    /// control id is the first two bytes of `control`.
    pub fn for_kind(kind: CommandKind, control: &[u8]) -> (res: Vec<u8>)
        requires
            control@.len() >= 2,
        ensures
            res@ == frame(request_json(kind), control@[0], control@[1]),
    {
        let json = match kind {
            CommandKind::UAUT(token) => CommandRequest::authorize(token).to_json(),
            CommandKind::UCFG(addressbooks) => CommandRequest::configuration(
                addressbooks,
            ).to_json(),
            CommandKind::RemoveAllUsers(requester) => CommandRequest::remove_all_users(
                requester,
            ).to_json(),
            CommandKind::ActivateUser(email) => CommandRequest::activate_user(email).to_json(),
            CommandKind::INFO => CommandRequest::default("server-info").to_json(),
            CommandKind::FRCG => {
                let mut base = CommandRequest::default("rcg-get-params");
                base.message_id = FRCG_MESSAGE_ID;
                base.to_json()
            },
        };
        Command::make(json.as_slice(), control)
    }

    /// Reads the length field of a header.
    pub fn buffer_length(b2: u8, b3: u8) -> (len: usize)
        ensures
            len == decode_length(b2, b3),
    {
        b2 as usize + 256 * (b3 as usize)
    }

    /// The frame that opens the channel `command` under `control`,
    /// optionally with an extra payload.
    pub fn channel(command: &String, control: &[u8], extra: Option<&[u8]>) -> (res: Vec<u8>)
        ensures
            res@ == open_frame(encode_utf8(command@), control@, extra_bytes(extra)),
    {
        let mut total: Vec<u8> = Vec::new();
        extend(&mut total, OPEN.as_slice());
        extend(&mut total, command.as_str().as_bytes());
        extend(&mut total, control);
        match extra {
            Some(bytes) => {
                let len: u8 = ((bytes.len() % 256 + 1) % 256) as u8;
                let start: [u8; 6] = [0, 0, len, 0, 0, 0];
                extend(&mut total, start.as_slice());
                extend(&mut total, bytes);
                total.push(0);
            },
            None => {
                total.push(0);
            },
        }
        let header = Command::header(total.as_slice());
        let mut res: Vec<u8> = Vec::new();
        extend(&mut res, header.as_slice());
        extend(&mut res, total.as_slice());
        res
    }

    /// The frame that closes the channel under `channel`.
    pub fn close(channel: &[u8]) -> (res: Vec<u8>)
        ensures
            res@ == close_frame(channel@),
    {
        let mut total: Vec<u8> = Vec::new();
        extend(&mut total, CLOSE.as_slice());
        extend(&mut total, channel);
        let header = Command::header(total.as_slice());
        let mut res: Vec<u8> = Vec::new();
        extend(&mut res, header.as_slice());
        extend(&mut res, total.as_slice());
        res
    }

    /// Frames the payload `b_com` for the channel whose control id is the
    /// first two bytes of `control`.
    pub fn make(b_com: &[u8], control: &[u8]) -> (res: Vec<u8>)
        requires
            control@.len() >= 2,
        ensures
            res@ == frame(b_com@, control@[0], control@[1]),
    {
        let header = Command::header_for(b_com.len(), control[0], control[1]);
        let mut res: Vec<u8> = Vec::new();
        extend(&mut res, header.as_slice());
        extend(&mut res, b_com);
        res
    }

    /// The header for `total`, with a zero control field.
    pub fn header(total: &[u8]) -> (h: [u8; 8])
        ensures
            h@ == header_bytes(total@.len(), 0, 0),
    {
        Command::header_for(total.len(), 0, 0)
    }

    /// The header for a payload of `len` bytes on the channel `(c0, c1)`.
    fn header_for(len: usize, c0: u8, c1: u8) -> (h: [u8; 8])
        ensures
            h@ == header_bytes(len as nat, c0, c1),
    {
        let h: [u8; 8] = [
            0x00,
            0x06,
            (len % 256) as u8,
            ((len / 256) % 256) as u8,
            c0,
            c1,
            0x00,
            0x00,
        ];
        h
    }
}

/// A length of at most 0xFFFF, split into its low and high byte with mask
/// and shift, is read back unchanged by `decode_length`; the two bytes are
/// the ones that a header carries for that length.
pub proof fn lemma_length_round_trip(len: u16)
    ensures
        decode_length((len & 0xFF) as u8, ((len >> 8) & 0xFF) as u8) == len,
        length_low(len as nat) == (len & 0xFF) as u8,
        length_high(len as nat) == ((len >> 8) & 0xFF) as u8,
{
    assert((len & 0xFF) == len % 256) by (bit_vector);
    assert(((len >> 8) & 0xFF) == len / 256) by (bit_vector);
}

/// The length that two header bytes stand for is the low byte joined with
/// the high byte shifted left by eight bits.
pub proof fn lemma_decode_length_bits(b2: u8, b3: u8)
    ensures
        decode_length(b2, b3) == (b2 as u16) | ((b3 as u16) << 8),
        decode_length(b2, b3) <= 0xFFFF,
{
    assert((b2 as u16) | ((b3 as u16) << 8) == (b2 as u16) + 256 * (b3 as u16)) by (bit_vector);
}

/// The length field of a frame counts the bytes that follow the header,
/// for every payload that fits the field.
pub proof fn lemma_frame_length(payload: Seq<u8>, c0: u8, c1: u8)
    requires
        payload.len() <= 0xFFFF,
    ensures
        frame(payload, c0, c1).len() == payload.len() + 8,
        decode_length(frame(payload, c0, c1)[2], frame(payload, c0, c1)[3]) == frame(
            payload,
            c0,
            c1,
        ).len() - 8,
{
}

/// Every frame starts with the bytes 0x00 0x06, carries its control id in
/// bytes 4 and 5, has zero in bytes 6 and 7, and holds its payload from
/// byte 8 on.
pub proof fn lemma_frame_header(payload: Seq<u8>, c0: u8, c1: u8)
    ensures
        frame(payload, c0, c1)[0] == 0x00,
        frame(payload, c0, c1)[1] == 0x06,
        frame(payload, c0, c1)[4] == c0,
        frame(payload, c0, c1)[5] == c1,
        frame(payload, c0, c1)[6] == 0x00,
        frame(payload, c0, c1)[7] == 0x00,
        frame(payload, c0, c1).subrange(8, 8 + payload.len() as int) == payload,
{
}

/// In a frame that opens a channel, bytes 8 to 16 are the open preamble,
/// the channel name follows from byte 16 (a four-byte name fills bytes 16
/// to 20), the control id follows the name, and the tail ends the frame.
/// The control field of the header is zero.
pub proof fn lemma_open_frame_layout(name: Seq<u8>, control: Seq<u8>, extra: Option<Seq<u8>>)
    ensures
        ({
            let f = open_frame(name, control, extra);
            let n = 16 + name.len() as int;
            let c = n + control.len() as int;
            &&& f.subrange(8, 16) == OPEN@
            &&& f.subrange(16, n) == name
            &&& f.subrange(n, c) == control
            &&& f.subrange(c, f.len() as int) == open_tail(extra)
            &&& f[4] == 0
            &&& f[5] == 0
        }),
{
}

/// Every request has a payload of at least eight bytes, however short its
/// strings are quoted: the braces, the commas, the colons and one digit of
/// the envelope make eight.
pub proof fn lemma_request_payload_min(kind: CommandKind)
    ensures
        request_json(kind).len() >= 8,
{
}

/// The payloads that open and close a channel are longer than their
/// eight-byte preambles.
pub proof fn lemma_channel_payload_min(name: Seq<u8>, control: Seq<u8>, extra: Option<Seq<u8>>)
    ensures
        open_payload(name, control, extra).len() >= 9 + name.len() + control.len(),
        close_payload(control).len() == 8 + control.len(),
{
}

/// In a frame that closes a channel, bytes 8 to 16 are the close preamble
/// and the control id of the channel follows from byte 16 (a two-byte id
/// fills bytes 16 to 18); nothing comes after it. The control field of the
/// header is zero.
pub proof fn lemma_close_frame_layout(control: Seq<u8>)
    ensures
        ({
            let f = close_frame(control);
            &&& f.len() == 16 + control.len()
            &&& f.subrange(8, 16) == CLOSE@
            &&& f.subrange(16, 16 + control.len() as int) == control
            &&& f[4] == 0
            &&& f[5] == 0
        }),
{
}

} // verus!
