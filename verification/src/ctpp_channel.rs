//! The CTPP channel: the handshake, the two acknowledgements that advance
//! the sequence counter, and the frame that links actuators.

use crate::bytes::{extend, overlay};
use crate::command::{close_frame, frame, open_frame, Command, OPEN};
use crate::helper::{drawn, Helper};
use vstd::prelude::*;
use vstd::utf8::encode_utf8;

verus! {

/// Head of the handshake. Every byte that a field replaces is 0xFF.
pub const HS_TEMPLATE: [u8; 28] = [
    0xc0, 0x18, 0xFF, 0xFF, 0xFF, 0xFF, 0x00, 0x11,
    0x00, 0x40, 0xFF, 0xFF, 0xFF, 0xFF, 0xFF, 0xFF,
    0xFF, 0xFF, 0xFF, 0xFF, 0xFF, 0x00, 0x10, 0x0e,
    0x00, 0x00, 0x00, 0x00,
];

/// Head of the frame that links actuators.
pub const OPEN_DOOR_TEMPLATE: [u8; 48] = [
    0xc0, 0x18, 0xFF, 0xFF, 0xFF, 0xFF, 0x00, 0x28,
    0x00, 0x01, 0xFF, 0xFF, 0xFF, 0xFF, 0xFF, 0xFF,
    0xFF, 0xFF, 0xFF, 0x00, 0xFF, 0xFF, 0xFF, 0xFF,
    0xFF, 0xFF, 0xFF, 0xFF, 0x00, 0x00, 0x01, 0x20,
    0xFF, 0xFF, 0xFF, 0xFF, 0xFF, 0xFF, 0xFF, 0xFF,
    0xFF, 0xFF, 0xFF, 0xFF, 0xFF, 0x00, 0x49, 0x49,
];

/// Head of an acknowledgement.
pub const ACK_TEMPLATE: [u8; 8] = [0xFF, 0x18, 0xFF, 0xFF, 0xFF, 0xFF, 0x00, 0x00];

/// What ends every CTPP body: four bytes of padding, a nine-byte address,
/// a zero, an eight-byte address, two zeros.
pub const TAIL_TEMPLATE: [u8; 24] = [
    0xFF, 0xFF, 0xFF, 0xFF, 0xFF, 0xFF, 0xFF, 0xFF,
    0xFF, 0xFF, 0xFF, 0xFF, 0xFF, 0x00, 0xFF, 0xFF,
    0xFF, 0xFF, 0xFF, 0xFF, 0xFF, 0xFF, 0x00, 0x00,
];

/// The padding that separates the head of a CTPP body from its addresses.
pub const PADDING: [u8; 4] = [0xff, 0xff, 0xff, 0xff];

/// The name of the channel, `CTPP` in ASCII.
pub const NAME: [u8; 4] = [0x43, 0x54, 0x50, 0x50];

/// The prefix of an acknowledgement that starts a new exchange and
/// advances the sequence counter.
pub const ACK_ADVANCE: u8 = 0x00;

/// The first byte of a frame by which the device confirms.
pub const CONFIRM_PREFIX: u8 = 0x60;

/// What the device adds to the first bitmask byte that it echoes.
pub const ECHO_OFFSET: u8 = 0x80;

/// Body of the handshake: the bitmask at offset 2, two random bytes at
/// offset 10, `a1` at offsets 12 and 32, `a2` at offset 42.
pub open spec fn hs_body(bitmask: Seq<u8>, nonce: Seq<u8>, a1: Seq<u8>, a2: Seq<u8>) -> Seq<u8> {
    let t0 = HS_TEMPLATE@ + TAIL_TEMPLATE@;
    let t1 = overlay(t0, 2, bitmask);
    let t2 = overlay(t1, 10, nonce);
    let t3 = overlay(t2, 12, a1);
    let t4 = overlay(t3, 32, a1);
    overlay(t4, 42, a2)
}

/// Body of an acknowledgement: the prefix at offset 0, the bitmask at
/// offset 2, `a1` at offset 12, `a2` at offset 22.
pub open spec fn ack_body(bitmask: Seq<u8>, prefix: u8, a1: Seq<u8>, a2: Seq<u8>) -> Seq<u8> {
    let t0 = ACK_TEMPLATE@ + TAIL_TEMPLATE@;
    let t1 = overlay(t0, 0, seq![prefix]);
    let t2 = overlay(t1, 2, bitmask);
    let t3 = overlay(t2, 12, a1);
    overlay(t3, 22, a2)
}

/// Body of the frame that links actuators: the bitmask at offset 2, `a1`
/// at offsets 10, 36 and 52, `a2` at offsets 20 and 62, four random bytes
/// at offset 32.
pub open spec fn link_body(bitmask: Seq<u8>, fresh: Seq<u8>, a1: Seq<u8>, a2: Seq<u8>) -> Seq<u8> {
    let t0 = OPEN_DOOR_TEMPLATE@ + TAIL_TEMPLATE@;
    let t1 = overlay(t0, 2, bitmask);
    let t2 = overlay(t1, 10, a1);
    let t3 = overlay(t2, 20, a2);
    let t4 = overlay(t3, 32, fresh);
    let t5 = overlay(t4, 36, a1);
    let t6 = overlay(t5, 52, a1);
    overlay(t6, 62, a2)
}

/// The bitmask after an acknowledgement with `prefix`: the prefix
/// `ACK_ADVANCE` adds one to the last byte, any other leaves the bitmask
/// as it is.
pub open spec fn acked(bitmask: [u8; 4], prefix: u8) -> [u8; 4] {
    if prefix == ACK_ADVANCE {
        ticked(bitmask)
    } else {
        bitmask
    }
}

/// The bitmask with one added to its last byte.
pub open spec fn ticked(bitmask: [u8; 4]) -> [u8; 4] {
    [bitmask[0], bitmask[1], bitmask[2], (bitmask[3] + 1) as u8]
}

/// Whether the payload `r` confirms the exchange that `bitmask` stands
/// for: it starts with `CONFIRM_PREFIX` and echoes the bitmask, the first
/// byte raised by `ECHO_OFFSET` and the third by one, in the byte order
/// 0, 1, 3, 2 from offset 2 on.
pub open spec fn confirms(bitmask: Seq<u8>, r: Seq<u8>) -> bool {
    &&& r.len() >= 6
    &&& r[0] == CONFIRM_PREFIX
    &&& bitmask[0] + ECHO_OFFSET == r[2]
    &&& bitmask[1] == r[3]
    &&& bitmask[3] == r[4]
    &&& bitmask[2] == r[5] - 1
}

/// A CTPP body in its joined form: a head, the padding, the first address,
/// a zero, the second address, two zeros.
pub open spec fn templated(prefix: Seq<u8>, a1: Seq<u8>, a2: Seq<u8>) -> Seq<u8> {
    prefix + PADDING@ + a1 + seq![0u8] + a2 + seq![0u8, 0u8]
}

/// Longest first address, in bytes, that fits every CTPP body.
pub const FIRST_ADDRESS_MAX: usize = 20;

/// Longest second address, in bytes, that fits every CTPP body.
pub const SECOND_ADDRESS_MAX: usize = 10;

/// Both addresses fit the bodies that carry them.
pub open spec fn addresses_fit(a1: Seq<u8>, a2: Seq<u8>) -> bool {
    a1.len() <= FIRST_ADDRESS_MAX && a2.len() <= SECOND_ADDRESS_MAX
}

/// What a `CTPPChannel` holds.
pub struct CtppState {
    pub control: [u8; 2],
    pub bitmask: [u8; 4],
}

impl CtppState {
    /// The frame that opens the channel for the address `sub`.
    pub open spec fn open(self, sub: Seq<u8>) -> Seq<u8> {
        open_frame(NAME@, self.control@, Some(sub))
    }

    /// The frame that closes the channel.
    pub open spec fn close(self) -> Seq<u8> {
        close_frame(self.control@)
    }

    /// The handshake with `nonce` at offset 10 of its body.
    pub open spec fn handshake(self, nonce: Seq<u8>, a1: Seq<u8>, a2: Seq<u8>) -> Seq<u8> {
        frame(hs_body(self.bitmask@, nonce, a1, a2), self.control[0], self.control[1])
    }

    /// The acknowledgement with `prefix`, built on this state's bitmask.
    pub open spec fn acknowledgement(self, prefix: u8, a1: Seq<u8>, a2: Seq<u8>) -> Seq<u8> {
        frame(ack_body(self.bitmask@, prefix, a1, a2), self.control[0], self.control[1])
    }

    /// The frame that links actuators, built on this state's bitmask, with
    /// `fresh` at offset 32 of its body.
    pub open spec fn link(self, fresh: Seq<u8>, a1: Seq<u8>, a2: Seq<u8>) -> Seq<u8> {
        frame(link_body(self.bitmask@, fresh, a1, a2), self.control[0], self.control[1])
    }

    /// This state after an acknowledgement with `prefix`.
    pub open spec fn acked(self, prefix: u8) -> CtppState {
        CtppState { control: self.control, bitmask: acked(self.bitmask, prefix) }
    }

    /// This state with another bitmask.
    pub open spec fn with_bitmask(self, bitmask: [u8; 4]) -> CtppState {
        CtppState { control: self.control, bitmask }
    }
}

#[derive(Debug)]
pub struct CTPPChannel {
    control: [u8; 2],
    bitmask: [u8; 4],
}

impl View for CTPPChannel {
    type V = CtppState;

    closed spec fn view(&self) -> CtppState {
        CtppState { control: self.control, bitmask: self.bitmask }
    }
}

/// The channel name as text and as bytes.
proof fn lemma_name_bytes()
    ensures
        encode_utf8("CTPP"@) == NAME@,
{
    reveal_strlit("CTPP");
    vstd::utf8::is_ascii_chars_encode_utf8("CTPP"@);
}

impl CTPPChannel {
    /// A channel under `control` with a freshly drawn bitmask.
    pub fn new(control: &[u8; 2]) -> (channel: CTPPChannel)
        ensures
            channel@.control == *control,
            drawn(channel@.bitmask@),
    {
        CTPPChannel { control: *control, bitmask: Helper::four() }
    }

    /// A channel under `control` with the given bitmask.
    pub fn with_bitmask(control: &[u8; 2], bitmask: [u8; 4]) -> (channel: CTPPChannel)
        ensures
            channel@.control == *control,
            channel@.bitmask == bitmask,
    {
        CTPPChannel { control: *control, bitmask }
    }

    /// The control id of the channel.
    pub fn control(&self) -> (control: [u8; 2])
        ensures
            control == self@.control,
    {
        self.control
    }

    /// The current bitmask.
    pub fn bitmask(&self) -> (bitmask: [u8; 4])
        ensures
            bitmask == self@.bitmask,
    {
        self.bitmask
    }

    /// Whether both addresses fit the bodies that carry them.
    pub fn fits(a1: &[u8], a2: &[u8]) -> (ok: bool)
        ensures
            ok == addresses_fit(a1@, a2@),
    {
        a1.len() <= FIRST_ADDRESS_MAX && a2.len() <= SECOND_ADDRESS_MAX
    }

    /// The frame that opens the channel for the address `sub`.
    pub fn open(&self, sub: &String) -> (res: Vec<u8>)
        ensures
            res@ == self@.open(encode_utf8(sub@)),
    {
        self.open_frame(sub.as_str().as_bytes())
    }

    /// The frame that opens the channel for the address bytes `sub`.
    pub fn open_frame(&self, sub: &[u8]) -> (res: Vec<u8>)
        ensures
            res@ == self@.open(sub@),
    {
        proof {
            lemma_name_bytes();
        }
        let name = "CTPP".to_owned();
        Command::channel(&name, self.control.as_slice(), Some(sub))
    }

    /// The frame that closes the channel.
    pub fn close(&self) -> (res: Vec<u8>)
        ensures
            res@ == self@.close(),
    {
        Command::close(self.control.as_slice())
    }

    /// The handshake that follows the opening of the channel, with two
    /// freshly drawn bytes at offset 10 of its body.
    pub fn connect_hs(&self, a1: &String, a2: &String) -> (res: Vec<u8>)
        requires
            addresses_fit(encode_utf8(a1@), encode_utf8(a2@)),
        ensures
            exists|nonce: Seq<u8>|
                #![trigger drawn(nonce)]
                nonce.len() == 2 && drawn(nonce) && res@ == self@.handshake(
                    nonce,
                    encode_utf8(a1@),
                    encode_utf8(a2@),
                ),
    {
        let nonce = Helper::two();
        self.handshake_frame(&nonce, a1.as_str().as_bytes(), a2.as_str().as_bytes())
    }

    /// The handshake with the given two bytes at offset 10 of its body.
    pub fn handshake_frame(&self, nonce: &[u8; 2], a1: &[u8], a2: &[u8]) -> (res: Vec<u8>)
        requires
            addresses_fit(a1@, a2@),
        ensures
            res@ == self@.handshake(nonce@, a1@, a2@),
    {
        let mut req: Vec<u8> = Vec::new();
        extend(&mut req, HS_TEMPLATE.as_slice());
        extend(&mut req, TAIL_TEMPLATE.as_slice());
        CTPPChannel::set_bytes(&mut req, self.bitmask.as_slice(), 2);
        CTPPChannel::set_bytes(&mut req, nonce.as_slice(), 10);
        CTPPChannel::set_bytes(&mut req, a1, 12);
        CTPPChannel::set_bytes(&mut req, a1, 32);
        CTPPChannel::set_bytes(&mut req, a2, 42);
        Command::make(req.as_slice(), self.control.as_slice())
    }

    /// Whether the payload `r` confirms the handshake.
    pub fn confirm_handshake(&self, r: &[u8]) -> (ok: bool)
        ensures
            ok == confirms(self@.bitmask@, r@),
    {
        r.len() >= 6 && r[0] == CONFIRM_PREFIX && r[2] >= ECHO_OFFSET && self.bitmask[0] == r[2]
            - ECHO_OFFSET && self.bitmask[1] == r[3] && r[5] >= 1 && self.bitmask[2] == r[5] - 1
            && self.bitmask[3] == r[4]
    }

    /// Whether the payload `r` confirms the exchange that the last
    /// `link_actuators` began: the same test as for the handshake, on the
    /// bitmask that was drawn then.
    pub fn confirm(&self, r: &[u8]) -> (ok: bool)
        ensures
            ok == confirms(self@.bitmask@, r@),
    {
        self.confirm_handshake(r)
    }

    /// An acknowledgement. With the prefix `ACK_ADVANCE` the last byte of
    /// the bitmask is advanced by one before the frame is built; with any
    /// other prefix the bitmask stays, so that the two acknowledgements of
    /// one exchange carry the same bitmask.
    pub fn ack(&mut self, prefix: u8, a1: &String, a2: &String) -> (res: Vec<u8>)
        requires
            addresses_fit(encode_utf8(a1@), encode_utf8(a2@)),
            prefix == ACK_ADVANCE ==> old(self)@.bitmask[3] < 0xFF,
        ensures
            final(self)@ == old(self)@.acked(prefix),
            res@ == final(self)@.acknowledgement(prefix, encode_utf8(a1@), encode_utf8(a2@)),
    {
        self.ack_frame(prefix, a1.as_str().as_bytes(), a2.as_str().as_bytes())
    }

    /// An acknowledgement for addresses given as bytes.
    pub fn ack_frame(&mut self, prefix: u8, a1: &[u8], a2: &[u8]) -> (res: Vec<u8>)
        requires
            addresses_fit(a1@, a2@),
            prefix == ACK_ADVANCE ==> old(self)@.bitmask[3] < 0xFF,
        ensures
            final(self)@ == old(self)@.acked(prefix),
            res@ == final(self)@.acknowledgement(prefix, a1@, a2@),
    {
        let mut req: Vec<u8> = Vec::new();
        extend(&mut req, ACK_TEMPLATE.as_slice());
        extend(&mut req, TAIL_TEMPLATE.as_slice());
        if prefix == ACK_ADVANCE {
            self.tick_mask();
        }
        let first: [u8; 1] = [prefix];
        CTPPChannel::set_bytes(&mut req, first.as_slice(), 0);
        CTPPChannel::set_bytes(&mut req, self.bitmask.as_slice(), 2);
        CTPPChannel::set_bytes(&mut req, a1, 12);
        CTPPChannel::set_bytes(&mut req, a2, 22);
        Command::make(req.as_slice(), self.control.as_slice())
    }

    /// The frame that links actuators. It begins a new exchange: the
    /// bitmask is drawn anew, and four more fresh bytes stand at offset 32
    /// of the body.
    pub fn link_actuators(&mut self, a1: &String, a2: &String) -> (res: Vec<u8>)
        requires
            addresses_fit(encode_utf8(a1@), encode_utf8(a2@)),
        ensures
            final(self)@.control == old(self)@.control,
            drawn(final(self)@.bitmask@),
            exists|fresh: Seq<u8>|
                #![trigger drawn(fresh)]
                fresh.len() == 4 && drawn(fresh) && res@ == final(self)@.link(
                    fresh,
                    encode_utf8(a1@),
                    encode_utf8(a2@),
                ),
    {
        let bitmask = Helper::four();
        let fresh = Helper::four();
        self.link_frame(bitmask, &fresh, a1.as_str().as_bytes(), a2.as_str().as_bytes())
    }

    /// The frame that links actuators, with the given new bitmask and the
    /// given four bytes at offset 32 of the body.
    pub fn link_frame(&mut self, bitmask: [u8; 4], fresh: &[u8; 4], a1: &[u8], a2: &[u8]) -> (res:
        Vec<u8>)
        requires
            addresses_fit(a1@, a2@),
        ensures
            final(self)@ == old(self)@.with_bitmask(bitmask),
            res@ == final(self)@.link(fresh@, a1@, a2@),
    {
        let mut req: Vec<u8> = Vec::new();
        extend(&mut req, OPEN_DOOR_TEMPLATE.as_slice());
        extend(&mut req, TAIL_TEMPLATE.as_slice());
        self.bitmask = bitmask;
        CTPPChannel::set_bytes(&mut req, self.bitmask.as_slice(), 2);
        CTPPChannel::set_bytes(&mut req, a1, 10);
        CTPPChannel::set_bytes(&mut req, a2, 20);
        CTPPChannel::set_bytes(&mut req, fresh.as_slice(), 32);
        CTPPChannel::set_bytes(&mut req, a1, 36);
        CTPPChannel::set_bytes(&mut req, a1, 52);
        CTPPChannel::set_bytes(&mut req, a2, 62);
        Command::make(req.as_slice(), self.control.as_slice())
    }

    /// Advances the sequence counter, the last byte of the bitmask.
    pub fn tick_mask(&mut self)
        requires
            old(self)@.bitmask[3] < 0xFF,
        ensures
            final(self)@ == old(self)@.acked(ACK_ADVANCE),
    {
        let b = self.bitmask;
        self.bitmask = [b[0], b[1], b[2], b[3] + 1];
    }

    /// Frames a CTPP body from its head and its two addresses.
    pub fn template(&self, prefix: &[u8], actuator: &String, other_actuator: &String) -> (res:
        Vec<u8>)
        ensures
            res@ == frame(
                templated(prefix@, encode_utf8(actuator@), encode_utf8(other_actuator@)),
                self@.control[0],
                self@.control[1],
            ),
    {
        let mut req: Vec<u8> = Vec::new();
        extend(&mut req, prefix);
        extend(&mut req, PADDING.as_slice());
        extend(&mut req, actuator.as_str().as_bytes());
        req.push(0);
        extend(&mut req, other_actuator.as_str().as_bytes());
        req.push(0);
        req.push(0);
        Command::make(req.as_slice(), self.control.as_slice())
    }

    /// Writes `bytes` over `template` from `offset` on.
    pub fn set_bytes(template: &mut Vec<u8>, bytes: &[u8], offset: usize)
        requires
            offset + bytes@.len() <= old(template)@.len(),
        ensures
            final(template)@ == overlay(old(template)@, offset as int, bytes@),
    {
        let size: usize = template.len();
        let mut i: usize = 0;
        while i < bytes.len()
            invariant
                i <= bytes@.len(),
                offset + bytes@.len() <= size,
                template@.len() == size,
                size == old(template)@.len(),
                template@ == overlay(old(template)@, offset as int, bytes@.subrange(0, i as int)),
            decreases bytes@.len() - i,
        {
            template.set(i + offset, bytes[i]);
            i = i + 1;
        }
    }
}

/// The bodies have fixed lengths, whatever is written into them: 52 bytes
/// for the handshake, 32 for an acknowledgement, 72 for the frame that
/// links actuators. Their frames are eight bytes longer.
pub proof fn lemma_body_lengths(
    state: CtppState,
    prefix: u8,
    random: Seq<u8>,
    a1: Seq<u8>,
    a2: Seq<u8>,
)
    ensures
        hs_body(state.bitmask@, random, a1, a2).len() == 52,
        ack_body(state.bitmask@, prefix, a1, a2).len() == 32,
        link_body(state.bitmask@, random, a1, a2).len() == 72,
        state.handshake(random, a1, a2).len() == 60,
        state.acknowledgement(prefix, a1, a2).len() == 40,
        state.link(random, a1, a2).len() == 80,
{
}

/// The frame that opens the CTPP channel for an address of `n` bytes,
/// `n` below 235: its length byte is `21 + n`; the open preamble stands in
/// bytes 8 to 16, the name `CTPP` in bytes 16 to 20, the control id in
/// bytes 20 to 22, a six-byte descriptor with `n + 1` as its third byte in
/// bytes 22 to 28, the address from byte 28 on, and a zero behind it.
pub proof fn lemma_open_layout(state: CtppState, sub: Seq<u8>)
    requires
        sub.len() < 235,
    ensures
        ({
            let f = state.open(sub);
            let n = sub.len() as int;
            &&& f.len() == 29 + n
            &&& f[2] == 21 + n
            &&& f[3] == 0
            &&& f.subrange(8, 16) == OPEN@
            &&& f.subrange(16, 20) == NAME@
            &&& f.subrange(20, 22) == state.control@
            &&& f.subrange(22, 28) == seq![0u8, 0u8, (n + 1) as u8, 0u8, 0u8, 0u8]
            &&& f.subrange(28, 28 + n) == sub
            &&& f[28 + n] == 0
        }),
{
}

/// After an acknowledgement that advances the counter, an acknowledgement
/// with another prefix leaves the bitmask as it is, and both frames carry
/// that bitmask in their bytes 10 to 14.
pub proof fn lemma_ack_ratchet(state: CtppState, prefix: u8, a1: Seq<u8>, a2: Seq<u8>)
    requires
        prefix != ACK_ADVANCE,
    ensures
        ({
            let first = state.acked(ACK_ADVANCE);
            let second = first.acked(prefix);
            &&& second == first
            &&& first.acknowledgement(ACK_ADVANCE, a1, a2).subrange(10, 14) == first.bitmask@
            &&& second.acknowledgement(prefix, a1, a2).subrange(10, 14) == first.bitmask@
        }),
{
}

/// With a nine-byte first address and an eight-byte second address the
/// body of the handshake is the joined form of its head: the bytes
/// 0xC0 0x18, the bitmask, four fixed bytes, the two drawn bytes, the first
/// address and seven fixed bytes.
pub proof fn lemma_hs_layout(bitmask: [u8; 4], nonce: [u8; 2], a1: Seq<u8>, a2: Seq<u8>)
    requires
        a1.len() == 9,
        a2.len() == 8,
    ensures
        hs_body(bitmask@, nonce@, a1, a2) == templated(
            seq![0xc0u8, 0x18u8] + bitmask@ + seq![0x00u8, 0x11u8, 0x00u8, 0x40u8] + nonce@ + a1
                + seq![0x00u8, 0x10u8, 0x0eu8, 0x00u8, 0x00u8, 0x00u8, 0x00u8],
            a1,
            a2,
        ),
{
}

/// With a nine-byte first address and an eight-byte second address the
/// body of an acknowledgement is the joined form of its head: the prefix,
/// the byte 0x18, the bitmask and two zeros.
pub proof fn lemma_ack_layout(bitmask: [u8; 4], prefix: u8, a1: Seq<u8>, a2: Seq<u8>)
    requires
        a1.len() == 9,
        a2.len() == 8,
    ensures
        ack_body(bitmask@, prefix, a1, a2) == templated(
            seq![prefix, 0x18u8] + bitmask@ + seq![0x00u8, 0x00u8],
            a1,
            a2,
        ),
{
}

/// With a nine-byte first address and an eight-byte second address the
/// body of the frame that links actuators is the joined form of its head:
/// the bytes 0xC0 0x18, the bitmask, four fixed bytes, the first address,
/// a zero, the second address, four fixed bytes, the four fresh bytes, the
/// first address again and three fixed bytes.
pub proof fn lemma_link_layout(bitmask: [u8; 4], fresh: [u8; 4], a1: Seq<u8>, a2: Seq<u8>)
    requires
        a1.len() == 9,
        a2.len() == 8,
    ensures
        link_body(bitmask@, fresh@, a1, a2) == templated(
            seq![0xc0u8, 0x18u8] + bitmask@ + seq![0x00u8, 0x28u8, 0x00u8, 0x01u8] + a1
                + seq![0x00u8] + a2 + seq![0x00u8, 0x00u8, 0x01u8, 0x20u8] + fresh@ + a1
                + seq![0x00u8, 0x49u8, 0x49u8],
            a1,
            a2,
        ),
{
}

} // verus!
