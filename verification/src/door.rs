//! Opening a door: the CTPP sequence as a state machine. The machine
//! decides what is sent and what a received frame means; whoever owns the
//! transport performs each action and reports back what happened.

use crate::bytes::extend;
use crate::command_response::VipResponse;
use crate::ctpp_channel::{addresses_fit, confirms, CTPPChannel, CtppState, ACK_ADVANCE};
use crate::error::ProtocolError;
use crate::helper::{drawn, Helper};
use crate::json::{decimal, write_decimal};
use vstd::prelude::*;
use vstd::utf8::encode_utf8;

verus! {

/// How many frames may be read and passed over, after the first, while the
/// confirmation of the handshake is awaited, unless a sequence is told
/// otherwise.
pub const HANDSHAKE_RETRIES: u8 = 2;

/// The prefix of the acknowledgement that follows the advancing one.
pub const ACK_FOLLOW: u8 = 0x20;

/// Where a door-opening sequence stands.
#[derive(Clone, Copy, Debug, PartialEq, Eq, Structural)]
pub enum DoorPhase {
    /// Nothing has been sent.
    Opened,
    /// The frame that opens the channel is out; its answer is awaited.
    SubOpen,
    /// The handshake is out; its confirmation is awaited, and `retries`
    /// more frames may be passed over.
    HsPending { retries: u8 },
    /// The handshake is confirmed and the first acknowledgement is out.
    HsConfirmed,
    /// Both acknowledgements are out.
    LinkReady,
    /// The frame that links the actuators is out; its confirmation is
    /// awaited.
    WaitAck2,
    /// The door is open; the frame that closes the channel is out.
    Done,
    /// The channel is closed.
    Closed,
    /// The sequence broke off.
    Failed,
}

/// What the transport reports.
#[derive(Debug)]
pub enum DoorEvent {
    /// The sequence may begin.
    Begin,
    /// The frame that was to be written is written.
    Written,
    /// A frame arrived; this is its payload.
    Frame(Vec<u8>),
}

/// `DoorEvent` as a mathematical value.
pub enum EventView {
    Begin,
    Written,
    Frame(Seq<u8>),
}

impl View for DoorEvent {
    type V = EventView;

    open spec fn view(&self) -> EventView {
        match self {
            DoorEvent::Begin => EventView::Begin,
            DoorEvent::Written => EventView::Written,
            DoorEvent::Frame(payload) => EventView::Frame(payload@),
        }
    }
}

/// What the transport is asked to do next.
#[derive(Debug)]
pub enum DoorAction {
    /// Write the frame, read one frame, report it.
    Execute(Vec<u8>),
    /// Write the frame, report `Written`.
    Write(Vec<u8>),
    /// Read one frame, report it.
    Read,
    /// The sequence is complete.
    Finish,
    /// The sequence broke off.
    Fail(ProtocolError),
}

/// `DoorAction` as a mathematical value.
pub enum ActionView {
    Execute(Seq<u8>),
    Write(Seq<u8>),
    Read,
    Finish,
    Fail(ProtocolError),
}

impl View for DoorAction {
    type V = ActionView;

    open spec fn view(&self) -> ActionView {
        match self {
            DoorAction::Execute(frame) => ActionView::Execute(frame@),
            DoorAction::Write(frame) => ActionView::Write(frame@),
            DoorAction::Read => ActionView::Read,
            DoorAction::Finish => ActionView::Finish,
            DoorAction::Fail(error) => ActionView::Fail(*error),
        }
    }
}

/// The random bytes that one step may use.
#[derive(Clone, Copy, Debug)]
pub struct Entropy {
    /// Two bytes for the handshake.
    pub nonce: [u8; 2],
    /// The bitmask of the exchange that the linking of actuators begins.
    pub mask: [u8; 4],
    /// Four bytes for the frame that links the actuators.
    pub fresh: [u8; 4],
}

impl Entropy {
    /// Every byte lies in the range from which random bytes are drawn.
    pub open spec fn valid(self) -> bool {
        drawn(self.nonce@) && drawn(self.mask@) && drawn(self.fresh@)
    }

    /// Freshly drawn bytes.
    pub fn draw() -> (entropy: Entropy)
        ensures
            entropy.valid(),
    {
        Entropy { nonce: Helper::two(), mask: Helper::four(), fresh: Helper::four() }
    }
}

/// The three addresses of a door-opening sequence.
pub struct Addresses {
    /// Address of the apartment.
    pub apt: Seq<u8>,
    /// Address of the apartment with its subaddress.
    pub sub: Seq<u8>,
    /// Address of the actuator that opens the door.
    pub act: Seq<u8>,
}

impl Addresses {
    /// The addresses fit the frames that carry them.
    pub open spec fn fit(self) -> bool {
        addresses_fit(self.sub, self.apt) && addresses_fit(self.act, self.sub)
    }
}

/// A door-opening sequence as a mathematical value.
pub struct DoorState {
    pub ctpp: CtppState,
    /// Address of the apartment.
    pub apt: Seq<u8>,
    /// Address of the apartment with its subaddress.
    pub sub: Seq<u8>,
    /// Address of the actuator that opens the door.
    pub act: Seq<u8>,
    /// How many frames may be passed over while the confirmation of the
    /// handshake is awaited.
    pub budget: u8,
    pub phase: DoorPhase,
}

impl DoorState {
    /// The state of a sequence that has not begun.
    pub open spec fn fresh(ctpp: CtppState, addresses: Addresses) -> DoorState {
        DoorState {
            ctpp,
            apt: addresses.apt,
            sub: addresses.sub,
            act: addresses.act,
            budget: HANDSHAKE_RETRIES,
            phase: DoorPhase::Opened,
        }
    }

    /// This state in another phase.
    pub open spec fn at(self, phase: DoorPhase) -> DoorState {
        DoorState { phase, ..self }
    }

    /// This state with another channel state, in another phase.
    pub open spec fn with(self, ctpp: CtppState, phase: DoorPhase) -> DoorState {
        DoorState { ctpp, phase, ..self }
    }

    /// The addresses fit the frames that carry them, and while the
    /// handshake is not confirmed the sequence counter can still advance.
    pub open spec fn well_formed(self) -> bool {
        &&& addresses_fit(self.sub, self.apt)
        &&& addresses_fit(self.act, self.sub)
        &&& (self.phase is Opened || self.phase is SubOpen || self.phase is HsPending)
            ==> self.ctpp.bitmask[3] < 0xFF
    }
}

/// One step of the sequence: the state and the action that follow from a
/// state and an event. `entropy` supplies the random bytes of the frames
/// that need any.
pub open spec fn transition(s: DoorState, e: EventView, entropy: Entropy) -> (
    DoorState,
    ActionView,
) {
    match (s.phase, e) {
        (DoorPhase::Opened, EventView::Begin) => (
            s.at(DoorPhase::SubOpen),
            ActionView::Execute(s.ctpp.open(s.sub)),
        ),
        (DoorPhase::SubOpen, EventView::Frame(_)) => (
            s.at(DoorPhase::HsPending { retries: s.budget }),
            ActionView::Execute(s.ctpp.handshake(entropy.nonce@, s.sub, s.apt)),
        ),
        (DoorPhase::HsPending { retries }, EventView::Frame(payload)) => {
            if confirms(s.ctpp.bitmask@, payload) {
                let ctpp = s.ctpp.acked(ACK_ADVANCE);
                (
                    s.with(ctpp, DoorPhase::HsConfirmed),
                    ActionView::Write(ctpp.acknowledgement(ACK_ADVANCE, s.sub, s.apt)),
                )
            } else if retries > 0 {
                (s.at(DoorPhase::HsPending { retries: (retries - 1) as u8 }), ActionView::Read)
            } else {
                (s.at(DoorPhase::Failed), ActionView::Fail(ProtocolError::HandshakeUnconfirmed))
            }
        },
        (DoorPhase::HsConfirmed, EventView::Written) => (
            s.at(DoorPhase::LinkReady),
            ActionView::Write(s.ctpp.acknowledgement(ACK_FOLLOW, s.sub, s.apt)),
        ),
        (DoorPhase::LinkReady, EventView::Written) => {
            let ctpp = s.ctpp.with_bitmask(entropy.mask);
            (
                s.with(ctpp, DoorPhase::WaitAck2),
                ActionView::Execute(ctpp.link(entropy.fresh@, s.act, s.sub)),
            )
        },
        (DoorPhase::WaitAck2, EventView::Frame(payload)) => {
            if confirms(s.ctpp.bitmask@, payload) {
                (s.at(DoorPhase::Done), ActionView::Execute(s.ctpp.close()))
            } else {
                (s.at(DoorPhase::Failed), ActionView::Fail(ProtocolError::LinkUnconfirmed))
            }
        },
        (DoorPhase::Done, EventView::Frame(_)) => (s.at(DoorPhase::Closed), ActionView::Finish),
        (DoorPhase::Closed, _) => (s, ActionView::Fail(ProtocolError::OutOfSequence)),
        _ => (s.at(DoorPhase::Failed), ActionView::Fail(ProtocolError::OutOfSequence)),
    }
}

/// The address of an apartment with its subaddress: the decimal digits of
/// the subaddress follow the address.
pub open spec fn sub_address(apt: Seq<u8>, subaddress: u16) -> Seq<u8> {
    apt + decimal(subaddress as nat)
}

/// The addresses that a configuration gives for opening the door: the
/// apartment's own, the same with the subaddress behind it, and that of the
/// first entry of the door address book. There are none where that book is
/// empty or an address does not fit the frames.
pub open spec fn door_addresses(vip: VipResponse) -> Option<Addresses> {
    let book = vip.user_parameters.opendoor_address_book@;
    let apt = encode_utf8(vip.apt_address@);
    let found = Addresses {
        apt,
        sub: sub_address(apt, vip.apt_subaddress),
        act: encode_utf8(book[0].apt_address@),
    };
    if book.len() > 0 && found.fit() {
        Some(found)
    } else {
        None
    }
}

/// A channel in the state of `ctpp`.
fn same_channel(ctpp: &CTPPChannel) -> (channel: CTPPChannel)
    ensures
        channel@ == ctpp@,
{
    CTPPChannel::with_bitmask(&ctpp.control(), ctpp.bitmask())
}

/// One door-opening sequence in progress.
pub struct DoorSession {
    ctpp: CTPPChannel,
    apt: Vec<u8>,
    sub: Vec<u8>,
    act: Vec<u8>,
    budget: u8,
    phase: DoorPhase,
}

impl View for DoorSession {
    type V = DoorState;

    closed spec fn view(&self) -> DoorState {
        DoorState {
            ctpp: self.ctpp@,
            apt: self.apt@,
            sub: self.sub@,
            act: self.act@,
            budget: self.budget,
            phase: self.phase,
        }
    }
}

impl DoorSession {
    #[verifier::type_invariant]
    spec fn inv(self) -> bool {
        self@.well_formed()
    }

    /// A sequence on `ctpp` that has not begun, if the addresses fit the
    /// frames and the sequence counter of `ctpp` can still advance.
    pub fn new(ctpp: CTPPChannel, apt: Vec<u8>, sub: Vec<u8>, act: Vec<u8>) -> (session: Option<
        DoorSession,
    >)
        ensures
            session is Some <==> DoorState::fresh(
                ctpp@,
                Addresses { apt: apt@, sub: sub@, act: act@ },
            ).well_formed(),
            session matches Some(s) ==> s@ == DoorState::fresh(
                ctpp@,
                Addresses { apt: apt@, sub: sub@, act: act@ },
            ),
    {
        if CTPPChannel::fits(sub.as_slice(), apt.as_slice()) && CTPPChannel::fits(
            act.as_slice(),
            sub.as_slice(),
        ) && ctpp.bitmask()[3] < 0xFF {
            Some(
                DoorSession {
                    ctpp,
                    apt,
                    sub,
                    act,
                    budget: HANDSHAKE_RETRIES,
                    phase: DoorPhase::Opened,
                },
            )
        } else {
            None
        }
    }

    /// The addresses that `vip` gives for opening the door, as
    /// `(apt, sub, act)`.
    pub fn addresses(vip: &VipResponse) -> (found: Option<(Vec<u8>, Vec<u8>, Vec<u8>)>)
        ensures
            found is Some <==> door_addresses(*vip) is Some,
            found matches Some(a) ==> (Addresses { apt: a.0@, sub: a.1@, act: a.2@ })
                == door_addresses(*vip).unwrap(),
    {
        if vip.user_parameters.opendoor_address_book.len() == 0 {
            return None;
        }
        let mut apt: Vec<u8> = Vec::new();
        extend(&mut apt, vip.apt_address.as_str().as_bytes());
        let mut sub: Vec<u8> = Vec::new();
        extend(&mut sub, apt.as_slice());
        write_decimal(&mut sub, vip.apt_subaddress);
        let mut act: Vec<u8> = Vec::new();
        extend(
            &mut act,
            vip.user_parameters.opendoor_address_book[0].apt_address.as_str().as_bytes(),
        );
        if CTPPChannel::fits(sub.as_slice(), apt.as_slice()) && CTPPChannel::fits(
            act.as_slice(),
            sub.as_slice(),
        ) {
            Some((apt, sub, act))
        } else {
            None
        }
    }

    /// The same sequence with another retry budget for the handshake. It
    /// takes effect when the handshake is sent.
    pub fn retries(self, budget: u8) -> (session: DoorSession)
        ensures
            session@ == (DoorState { budget, ..self@ }),
    {
        proof {
            use_type_invariant(&self);
        }
        DoorSession {
            ctpp: self.ctpp,
            apt: self.apt,
            sub: self.sub,
            act: self.act,
            budget,
            phase: self.phase,
        }
    }

    /// Where the sequence stands.
    pub fn phase(&self) -> (phase: DoorPhase)
        ensures
            phase == self@.phase,
            self@.well_formed(),
    {
        proof {
            use_type_invariant(self);
        }
        self.phase
    }

    /// One step with freshly drawn random bytes.
    pub fn step(&mut self, event: &DoorEvent) -> (action: DoorAction)
        ensures
            exists|entropy: Entropy|
                #![trigger entropy.valid()]
                entropy.valid() && (final(self)@, action@) == transition(
                    old(self)@,
                    event@,
                    entropy,
                ),
    {
        let entropy = Entropy::draw();
        self.step_with(event, &entropy)
    }

    /// One step with the given random bytes.
    pub fn step_with(&mut self, event: &DoorEvent, entropy: &Entropy) -> (action: DoorAction)
        ensures
            (final(self)@, action@) == transition(old(self)@, event@, *entropy),
    {
        proof {
            use_type_invariant(&*self);
        }
        match (self.phase, event) {
            (DoorPhase::Opened, DoorEvent::Begin) => {
                let frame = self.ctpp.open_frame(self.sub.as_slice());
                self.phase = DoorPhase::SubOpen;
                DoorAction::Execute(frame)
            },
            (DoorPhase::SubOpen, DoorEvent::Frame(_)) => {
                let frame = self.ctpp.handshake_frame(
                    &entropy.nonce,
                    self.sub.as_slice(),
                    self.apt.as_slice(),
                );
                self.phase = DoorPhase::HsPending { retries: self.budget };
                DoorAction::Execute(frame)
            },
            (DoorPhase::HsPending { retries }, DoorEvent::Frame(payload)) => {
                if self.ctpp.confirm_handshake(payload.as_slice()) {
                    let mut ctpp = same_channel(&self.ctpp);
                    let frame = ctpp.ack_frame(
                        ACK_ADVANCE,
                        self.sub.as_slice(),
                        self.apt.as_slice(),
                    );
                    self.phase = DoorPhase::HsConfirmed;
                    self.ctpp = ctpp;
                    DoorAction::Write(frame)
                } else if retries > 0 {
                    self.phase = DoorPhase::HsPending { retries: retries - 1 };
                    DoorAction::Read
                } else {
                    self.phase = DoorPhase::Failed;
                    DoorAction::Fail(ProtocolError::HandshakeUnconfirmed)
                }
            },
            (DoorPhase::HsConfirmed, DoorEvent::Written) => {
                let mut ctpp = same_channel(&self.ctpp);
                let frame = ctpp.ack_frame(ACK_FOLLOW, self.sub.as_slice(), self.apt.as_slice());
                self.phase = DoorPhase::LinkReady;
                self.ctpp = ctpp;
                DoorAction::Write(frame)
            },
            (DoorPhase::LinkReady, DoorEvent::Written) => {
                let mut ctpp = same_channel(&self.ctpp);
                let frame = ctpp.link_frame(
                    entropy.mask,
                    &entropy.fresh,
                    self.act.as_slice(),
                    self.sub.as_slice(),
                );
                self.phase = DoorPhase::WaitAck2;
                self.ctpp = ctpp;
                DoorAction::Execute(frame)
            },
            (DoorPhase::WaitAck2, DoorEvent::Frame(payload)) => {
                if self.ctpp.confirm(payload.as_slice()) {
                    let frame = self.ctpp.close();
                    self.phase = DoorPhase::Done;
                    DoorAction::Execute(frame)
                } else {
                    self.phase = DoorPhase::Failed;
                    DoorAction::Fail(ProtocolError::LinkUnconfirmed)
                }
            },
            (DoorPhase::Done, DoorEvent::Frame(_)) => {
                self.phase = DoorPhase::Closed;
                DoorAction::Finish
            },
            (DoorPhase::Closed, _) => DoorAction::Fail(ProtocolError::OutOfSequence),
            _ => {
                self.phase = DoorPhase::Failed;
                DoorAction::Fail(ProtocolError::OutOfSequence)
            },
        }
    }
}

/// The state after the frames `frames` arrived one after the other.
pub open spec fn after_frames(s: DoorState, frames: Seq<Seq<u8>>, entropy: Entropy) -> DoorState
    decreases frames.len(),
{
    if frames.len() == 0 {
        s
    } else {
        transition(
            after_frames(s, frames.drop_last(), entropy),
            EventView::Frame(frames.last()),
            entropy,
        ).0
    }
}

/// The handshake has a budget. While its confirmation is awaited with
/// `retries` frames left to pass over, frames that do not confirm it use the
/// budget up one by one, each answered by a new read; the frame that
/// arrives when nothing is left breaks the sequence off.
pub proof fn lemma_retry_budget(
    s: DoorState,
    retries: u8,
    frames: Seq<Seq<u8>>,
    entropy: Entropy,
)
    requires
        s.phase == (DoorPhase::HsPending { retries }),
        frames.len() <= retries + 1,
        forall|i: int| 0 <= i < frames.len() ==> !confirms(s.ctpp.bitmask@, #[trigger] frames[i]),
    ensures
        frames.len() <= retries ==> after_frames(s, frames, entropy) == s.at(
            DoorPhase::HsPending { retries: (retries - frames.len()) as u8 },
        ),
        frames.len() > 0 && frames.len() <= retries ==> transition(
            after_frames(s, frames.drop_last(), entropy),
            EventView::Frame(frames.last()),
            entropy,
        ).1 == ActionView::Read,
        frames.len() == retries + 1 ==> after_frames(s, frames, entropy) == s.at(
            DoorPhase::Failed,
        ) && transition(
            after_frames(s, frames.drop_last(), entropy),
            EventView::Frame(frames.last()),
            entropy,
        ).1 == ActionView::Fail(ProtocolError::HandshakeUnconfirmed),
    decreases frames.len(),
{
    if frames.len() > 0 {
        lemma_retry_budget(s, retries, frames.drop_last(), entropy);
    }
}

/// A sequence in which every awaited frame confirms runs through all its
/// phases: the channel is opened, the handshake sent and confirmed, both
/// acknowledgements written on one advanced bitmask, the actuators linked
/// under a new bitmask and confirmed, the channel closed.
pub proof fn lemma_confirmed_run(
    s: DoorState,
    answer: Seq<u8>,
    echo: Seq<u8>,
    second_echo: Seq<u8>,
    last: Seq<u8>,
    entropy: Entropy,
)
    requires
        s.phase == DoorPhase::Opened,
        confirms(s.ctpp.bitmask@, echo),
        confirms(entropy.mask@, second_echo),
    ensures
        ({
            let step1 = transition(s, EventView::Begin, entropy);
            let step2 = transition(step1.0, EventView::Frame(answer), entropy);
            let step3 = transition(step2.0, EventView::Frame(echo), entropy);
            let step4 = transition(step3.0, EventView::Written, entropy);
            let step5 = transition(step4.0, EventView::Written, entropy);
            let step6 = transition(step5.0, EventView::Frame(second_echo), entropy);
            let step7 = transition(step6.0, EventView::Frame(last), entropy);
            let advanced = s.ctpp.acked(ACK_ADVANCE);
            let renewed = s.ctpp.with_bitmask(entropy.mask);
            &&& step1.1 == ActionView::Execute(s.ctpp.open(s.sub))
            &&& step2.1 == ActionView::Execute(s.ctpp.handshake(entropy.nonce@, s.sub, s.apt))
            &&& step3.1 == ActionView::Write(advanced.acknowledgement(ACK_ADVANCE, s.sub, s.apt))
            &&& step4.1 == ActionView::Write(advanced.acknowledgement(ACK_FOLLOW, s.sub, s.apt))
            &&& step5.1 == ActionView::Execute(renewed.link(entropy.fresh@, s.act, s.sub))
            &&& step6.1 == ActionView::Execute(s.ctpp.close())
            &&& step7.1 == ActionView::Finish
            &&& step7.0 == s.with(renewed, DoorPhase::Closed)
        }),
{
}

/// Every step keeps a well-formed state well-formed and leaves the
/// addresses and the control id as they were.
pub proof fn lemma_transition_keeps(s: DoorState, e: EventView, entropy: Entropy)
    requires
        s.well_formed(),
    ensures
        transition(s, e, entropy).0.well_formed(),
        transition(s, e, entropy).0.apt == s.apt,
        transition(s, e, entropy).0.sub == s.sub,
        transition(s, e, entropy).0.act == s.act,
        transition(s, e, entropy).0.budget == s.budget,
        transition(s, e, entropy).0.ctpp.control == s.ctpp.control,
{
}

} // verus!
