//! The envelope that every JSON message carries.

use crate::json::{
    number_member, object, string_member, write_number_member, write_string_member, COMMA,
    OBJECT_CLOSE, OBJECT_OPEN,
};
use vstd::prelude::*;

verus! {

/// The three members of the envelope, in the order in which they are sent.
pub open spec fn envelope(message: Seq<char>, message_type: Seq<char>, message_id: u8) -> Seq<u8> {
    string_member("message"@, message) + seq![COMMA] + string_member(
        "message-type"@,
        message_type,
    ) + seq![COMMA] + number_member("message-id"@, message_id as nat)
}

/// The envelope: the name of the message, whether it asks or answers, and
/// an id that the device echoes.
pub struct Base {
    pub message: String,
    pub message_type: String,
    pub message_id: u8,
}

impl Base {
    /// The envelope of a response named `message`.
    pub fn response(message: &'static str) -> (base: Base)
        ensures
            base.message@ == message@,
            base.message_type@ == "response"@,
            base.message_id == 1,
    {
        Self::new(message, "response")
    }

    /// The envelope of a request named `message`.
    pub fn request(message: &'static str) -> (base: Base)
        ensures
            base.message@ == message@,
            base.message_type@ == "request"@,
            base.message_id == 1,
    {
        Self::new(message, "request")
    }

    fn new(message: &'static str, t: &'static str) -> (base: Base)
        ensures
            base.message@ == message@,
            base.message_type@ == t@,
            base.message_id == 1,
    {
        Base { message: message.to_owned(), message_type: t.to_owned(), message_id: 1 }
    }

    /// The members that this envelope contributes to a message.
    pub open spec fn members(&self) -> Seq<u8> {
        envelope(self.message@, self.message_type@, self.message_id)
    }

    /// Appends the members of this envelope.
    pub fn write_members(&self, out: &mut Vec<u8>)
        ensures
            final(out)@ == old(out)@ + self.members(),
    {
        write_string_member(out, "message", self.message.as_str());
        out.push(COMMA);
        write_string_member(out, "message-type", self.message_type.as_str());
        out.push(COMMA);
        write_number_member(out, "message-id", self.message_id as u16);
    }

    /// The message that consists of the envelope alone.
    pub fn to_json(&self) -> (out: Vec<u8>)
        ensures
            out@ == object(self.members()),
    {
        let mut out: Vec<u8> = Vec::new();
        out.push(OBJECT_OPEN);
        self.write_members(&mut out);
        out.push(OBJECT_CLOSE);
        out
    }
}

} // verus!
