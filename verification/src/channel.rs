//! A named channel: its open, command and close frames.

use crate::command::{close_frame, frame, open_frame, request_json, Command, CommandKind, OPEN};
use vstd::prelude::*;
use vstd::utf8::{encode_utf8, is_ascii_chars, is_ascii_chars_encode_utf8};

verus! {

/// What a `Channel` holds.
pub struct ChannelState {
    pub name: Seq<char>,
    pub control: [u8; 2],
}

/// One logical conversation with the device: it is opened, carries
/// commands under its control id, and is closed.
pub struct Channel {
    command: String,
    control: [u8; 2],
}

impl View for Channel {
    type V = ChannelState;

    closed spec fn view(&self) -> ChannelState {
        ChannelState { name: self.command@, control: self.control }
    }
}

impl Channel {
    /// The channel `command` under the control id `control`.
    pub fn new(control: &[u8; 2], command: &'static str) -> (channel: Channel)
        ensures
            channel@.name == command@,
            channel@.control == *control,
    {
        Channel { control: *control, command: command.to_owned() }
    }

    /// The control id of the channel.
    pub fn control(&self) -> (control: [u8; 2])
        ensures
            control == self@.control,
    {
        self.control
    }

    /// The frame that opens the channel.
    pub fn open(&self) -> (res: Vec<u8>)
        ensures
            res@ == open_frame(encode_utf8(self@.name), self@.control@, None),
    {
        Command::channel(&self.command, self.control.as_slice(), None)
    }

    /// The frame that closes the channel.
    pub fn close(&self) -> (res: Vec<u8>)
        ensures
            res@ == close_frame(self@.control@),
    {
        Command::close(self.control.as_slice())
    }

    /// The frame that carries the request `kind` on the channel.
    pub fn com(&self, kind: CommandKind) -> (res: Vec<u8>)
        ensures
            res@ == frame(request_json(kind), self@.control[0], self@.control[1]),
    {
        Command::for_kind(kind, self.control.as_slice())
    }
}

/// The frame that opens a channel with an ASCII name holds the open
/// preamble in bytes 8 to 16, then the name, one byte for each character
/// (a four-character name fills bytes 16 to 20), then the control id and a
/// closing zero.
pub proof fn lemma_channel_open_layout(channel: ChannelState)
    requires
        is_ascii_chars(channel.name),
    ensures
        ({
            let f = open_frame(encode_utf8(channel.name), channel.control@, None);
            let n = channel.name.len() as int;
            &&& f.len() == 8 + 8 + n + 2 + 1
            &&& f.subrange(8, 16) == OPEN@
            &&& forall|i: int| 0 <= i < n ==> f[16 + i] == channel.name[i] as u8
            &&& f[16 + n] == channel.control[0]
            &&& f[17 + n] == channel.control[1]
            &&& f[18 + n] == 0
        }),
{
    is_ascii_chars_encode_utf8(channel.name);
}

} // verus!
