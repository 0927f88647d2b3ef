//! The answer to an authorization request, as a device sends it.

use super::base::Base;
use crate::json::{
    number_member, object, string_member, write_number_member, write_string_member, COMMA,
    OBJECT_CLOSE, OBJECT_OPEN,
};
use vstd::prelude::*;

verus! {

/// What the device answers to a request for access.
pub struct AuthorizeResponse {
    pub base: Base,
    pub response_code: u8,
    pub response_string: String,
}

impl AuthorizeResponse {
    /// The JSON text of the answer.
    pub open spec fn json(&self) -> Seq<u8> {
        object(
            self.base.members() + seq![COMMA] + number_member(
                "response-code"@,
                self.response_code as nat,
            ) + seq![COMMA] + string_member("response-string"@, self.response_string@),
        )
    }

    /// Writes the answer as JSON.
    pub fn to_json(&self) -> (out: Vec<u8>)
        ensures
            out@ == self.json(),
    {
        let mut out: Vec<u8> = Vec::new();
        out.push(OBJECT_OPEN);
        self.base.write_members(&mut out);
        out.push(COMMA);
        write_number_member(&mut out, "response-code", self.response_code as u16);
        out.push(COMMA);
        write_string_member(&mut out, "response-string", self.response_string.as_str());
        out.push(OBJECT_CLOSE);
        out
    }
}

/// Builds answers.
pub struct CommandResponse {}

impl CommandResponse {
    /// The answer to a request for access, with its code and text.
    pub fn authorize(response_code: u8, response_string: &'static str) -> (response:
        AuthorizeResponse)
        ensures
            response.base.message@ == "access"@,
            response.base.message_type@ == "response"@,
            response.base.message_id == 1,
            response.response_code == response_code,
            response.response_string@ == response_string@,
    {
        AuthorizeResponse {
            base: Base::response("access"),
            response_string: response_string.to_owned(),
            response_code,
        }
    }
}

} // verus!
