//! The protocol side of a client: the control id that it hands out and the
//! frames of each operation.

use crate::channel::Channel;
use crate::command::{close_frame, frame, open_frame, request_json, CommandKind};
use crate::command_response::VipResponse;
use crate::ctpp_channel::CTPPChannel;
use crate::door::{door_addresses, DoorSession, DoorState};
use crate::helper::{drawn, Helper, END, START};
use vstd::prelude::*;
use vstd::utf8::encode_utf8;

verus! {

/// The first control byte that follows `c0`: one more, and `START` again
/// where that would be `END`.
pub open spec fn next_control(c0: u8) -> u8 {
    if c0 + 1 == END {
        START
    } else {
        (c0 + 1) as u8
    }
}

/// The control id that follows `control`: only the first byte moves.
pub open spec fn next_id(control: [u8; 2]) -> [u8; 2] {
    [next_control(control[0]), control[1]]
}

/// The first control byte after `n` ticks from `c0`.
pub open spec fn control_after(c0: u8, n: nat) -> u8
    decreases n,
{
    if n == 0 {
        c0
    } else {
        next_control(control_after(c0, (n - 1) as nat))
    }
}

/// The frames of one operation: what opens the channel, what asks, what
/// closes the channel. They are sent in this order, each answered by one
/// frame.
pub struct Exchange {
    pub open: Vec<u8>,
    pub command: Vec<u8>,
    pub close: Vec<u8>,
}

impl Exchange {
    /// These are the frames of the request `kind` on the channel `name`
    /// under `control`.
    pub open spec fn carries(self, control: [u8; 2], name: Seq<char>, kind: CommandKind) -> bool {
        &&& self.open@ == open_frame(encode_utf8(name), control@, None)
        &&& self.command@ == frame(request_json(kind), control[0], control[1])
        &&& self.close@ == close_frame(control@)
    }
}

/// The protocol side of a client. It owns the current control id and
/// moves it one ahead for every channel that it hands out, so that no two
/// channels of one connection share an id.
pub struct ViperClient {
    control: [u8; 2],
}

impl View for ViperClient {
    type V = [u8; 2];

    closed spec fn view(&self) -> [u8; 2] {
        self.control
    }
}

impl ViperClient {
    #[verifier::type_invariant]
    spec fn well_formed(self) -> bool {
        drawn(self.control@)
    }

    /// A client with a freshly drawn control id.
    pub fn new() -> (client: ViperClient)
        ensures
            drawn(client@@),
    {
        ViperClient { control: Helper::control() }
    }

    /// A client whose current control id is `control`, if both bytes lie
    /// in `[START, END)`.
    pub fn with_control(control: [u8; 2]) -> (client: Option<ViperClient>)
        ensures
            client is Some <==> drawn(control@),
            client matches Some(c) ==> c@ == control,
    {
        if START <= control[0] && control[0] < END && START <= control[1] && control[1] < END {
            Some(ViperClient { control })
        } else {
            None
        }
    }

    /// The current control id; its bytes lie in `[START, END)`.
    pub fn control(&self) -> (control: [u8; 2])
        ensures
            control == self@,
            drawn(control@),
    {
        proof {
            use_type_invariant(self);
        }
        self.control
    }

    /// Moves the control id one ahead: the first byte goes up by one and
    /// starts over at `START` before it would reach `END`.
    pub fn tick(&mut self)
        ensures
            final(self)@ == next_id(old(self)@),
    {
        proof {
            use_type_invariant(&*self);
        }
        let c = self.control;
        let first: u8 = if c[0] + 1 == END {
            START
        } else {
            c[0] + 1
        };
        self.control = [first, c[1]];
    }

    /// The frames of the request `kind` on a new channel `command`.
    pub fn exchange(&mut self, command: &'static str, kind: CommandKind) -> (exchange: Exchange)
        ensures
            final(self)@ == next_id(old(self)@),
            exchange.carries(final(self)@, command@, kind),
    {
        let channel = self.channel(command);
        Exchange { open: channel.open(), command: channel.com(kind), close: channel.close() }
    }

    /// The frames that register the user `email` with the device; the
    /// answer to the command carries the user's token.
    pub fn sign_up(&mut self, email: &String) -> (exchange: Exchange)
        ensures
            final(self)@ == next_id(old(self)@),
            exchange.carries(final(self)@, "FACT"@, CommandKind::ActivateUser(*email)),
    {
        self.exchange("FACT", CommandKind::ActivateUser(email.clone()))
    }

    /// The frames that remove all users on behalf of `email`.
    pub fn remove_all_users(&mut self, email: &String) -> (exchange: Exchange)
        ensures
            final(self)@ == next_id(old(self)@),
            exchange.carries(final(self)@, "FACT"@, CommandKind::RemoveAllUsers(*email)),
    {
        self.exchange("FACT", CommandKind::RemoveAllUsers(email.clone()))
    }

    /// The frames that authorize with `token`.
    pub fn authorize(&mut self, token: String) -> (exchange: Exchange)
        ensures
            final(self)@ == next_id(old(self)@),
            exchange.carries(final(self)@, "UAUT"@, CommandKind::UAUT(token)),
    {
        self.exchange("UAUT", CommandKind::UAUT(token))
    }

    /// The frames that ask for the configuration, with the address books
    /// that `addressbooks` selects.
    pub fn configuration(&mut self, addressbooks: String) -> (exchange: Exchange)
        ensures
            final(self)@ == next_id(old(self)@),
            exchange.carries(final(self)@, "UCFG"@, CommandKind::UCFG(addressbooks)),
    {
        self.exchange("UCFG", CommandKind::UCFG(addressbooks))
    }

    /// The frames that ask for the server information.
    pub fn info(&mut self) -> (exchange: Exchange)
        ensures
            final(self)@ == next_id(old(self)@),
            exchange.carries(final(self)@, "INFO"@, CommandKind::INFO),
    {
        self.exchange("INFO", CommandKind::INFO)
    }

    /// The frames that ask for the face recognition parameters.
    pub fn face_recognition_params(&mut self) -> (exchange: Exchange)
        ensures
            final(self)@ == next_id(old(self)@),
            exchange.carries(final(self)@, "FRCG"@, CommandKind::FRCG),
    {
        self.exchange("FRCG", CommandKind::FRCG)
    }

    /// A door-opening sequence for the addresses that `vip` gives, on a new
    /// CTPP channel. Without such addresses there is no sequence, and no
    /// control id is used up.
    pub fn open_door(&mut self, vip: &VipResponse) -> (session: Option<DoorSession>)
        ensures
            session is Some <==> door_addresses(*vip) is Some,
            session is None ==> final(self)@ == old(self)@,
            session matches Some(s) ==> {
                &&& final(self)@ == next_id(old(self)@)
                &&& s@ == DoorState::fresh(s@.ctpp, door_addresses(*vip).unwrap())
                &&& s@.ctpp.control == final(self)@
                &&& drawn(s@.ctpp.bitmask@)
            },
    {
        match DoorSession::addresses(vip) {
            Some((apt, sub, act)) => {
                let ctpp = self.ctpp_channel();
                DoorSession::new(ctpp, apt, sub, act)
            },
            None => None,
        }
    }

    /// A channel named `command` under the next control id.
    pub fn channel(&mut self, command: &'static str) -> (channel: Channel)
        ensures
            final(self)@ == next_id(old(self)@),
            channel@.control == final(self)@,
            channel@.name == command@,
    {
        self.tick();
        Channel::new(&self.control, command)
    }

    /// A CTPP channel under the next control id, with a freshly drawn
    /// bitmask.
    pub fn ctpp_channel(&mut self) -> (channel: CTPPChannel)
        ensures
            final(self)@ == next_id(old(self)@),
            channel@.control == final(self)@,
            drawn(channel@.bitmask@),
    {
        self.tick();
        CTPPChannel::new(&self.control)
    }
}

/// After `n` ticks from a first control byte `c0` in `[START, END)` the
/// byte is `((c0 - START + n) mod (END - START)) + START`: it walks
/// through `[START, END)` and starts over, so it is never zero and never
/// reaches `END`. While no wrap occurs it is simply `c0 + n`.
pub proof fn lemma_control_after(c0: u8, n: nat)
    requires
        START <= c0 < END,
    ensures
        control_after(c0, n) == (c0 - START + n) % (END - START) + START,
        START <= control_after(c0, n) < END,
        control_after(c0, n) != 0,
        c0 + n < END ==> control_after(c0, n) == c0 + n,
    decreases n,
{
    if n > 0 {
        lemma_control_after(c0, (n - 1) as nat);
    }
}

} // verus!
