//! The requests that a client sends, and their JSON form.

use super::base::Base;
use crate::json::{object, string_member, write_string_member, COMMA, OBJECT_CLOSE, OBJECT_OPEN};
use vstd::prelude::*;

verus! {

/// A message made of the members of an envelope and one more string
/// member.
pub open spec fn message_with(envelope: Seq<u8>, key: Seq<char>, value: Seq<char>) -> Seq<u8> {
    object(envelope + seq![COMMA] + string_member(key, value))
}

/// A message made of the members of an envelope and two more string
/// members.
pub open spec fn message_with_two(
    envelope: Seq<u8>,
    key: Seq<char>,
    value: Seq<char>,
    second_key: Seq<char>,
    second_value: Seq<char>,
) -> Seq<u8> {
    object(
        envelope + seq![COMMA] + string_member(key, value) + seq![COMMA] + string_member(
            second_key,
            second_value,
        ),
    )
}

/// Writes an envelope and one more string member as one object.
fn write_message_with(base: &Base, key: &str, value: &str) -> (out: Vec<u8>)
    ensures
        out@ == message_with(base.members(), key@, value@),
{
    let mut out: Vec<u8> = Vec::new();
    out.push(OBJECT_OPEN);
    base.write_members(&mut out);
    out.push(COMMA);
    write_string_member(&mut out, key, value);
    out.push(OBJECT_CLOSE);
    out
}

/// Asks for access with a user token.
pub struct Authorize {
    pub base: Base,
    pub user_token: String,
}

impl Authorize {
    /// The JSON text of the request.
    pub open spec fn json(&self) -> Seq<u8> {
        message_with(self.base.members(), "user-token"@, self.user_token@)
    }

    /// Writes the request as JSON.
    pub fn to_json(&self) -> (out: Vec<u8>)
        ensures
            out@ == self.json(),
    {
        write_message_with(&self.base, "user-token", self.user_token.as_str())
    }
}

/// Asks for the configuration, with all address books or with none.
pub struct Configuration {
    pub base: Base,
    pub addressbooks: String,
}

impl Configuration {
    /// The JSON text of the request.
    pub open spec fn json(&self) -> Seq<u8> {
        message_with(self.base.members(), "addressbooks"@, self.addressbooks@)
    }

    /// Writes the request as JSON.
    pub fn to_json(&self) -> (out: Vec<u8>)
        ensures
            out@ == self.json(),
    {
        write_message_with(&self.base, "addressbooks", self.addressbooks.as_str())
    }
}

/// Asks the device to forget every user.
pub struct RemoveAllUsers {
    pub base: Base,
    pub requester: String,
}

impl RemoveAllUsers {
    /// The JSON text of the request.
    pub open spec fn json(&self) -> Seq<u8> {
        message_with(self.base.members(), "requester"@, self.requester@)
    }

    /// Writes the request as JSON.
    pub fn to_json(&self) -> (out: Vec<u8>)
        ensures
            out@ == self.json(),
    {
        write_message_with(&self.base, "requester", self.requester.as_str())
    }
}

/// Asks the device to register a user and hand out a token.
pub struct ActivateUser {
    pub base: Base,
    pub email: String,
    pub description: String,
}

impl ActivateUser {
    /// The JSON text of the request.
    pub open spec fn json(&self) -> Seq<u8> {
        message_with_two(
            self.base.members(),
            "email"@, self.email@, "description"@, self.description@)
    }

    /// Writes the request as JSON.
    pub fn to_json(&self) -> (out: Vec<u8>)
        ensures
            out@ == self.json(),
    {
        let mut out: Vec<u8> = Vec::new();
        out.push(OBJECT_OPEN);
        self.base.write_members(&mut out);
        out.push(COMMA);
        write_string_member(&mut out, "email", self.email.as_str());
        out.push(COMMA);
        write_string_member(&mut out, "description", self.description.as_str());
        out.push(OBJECT_CLOSE);
        out
    }
}

/// Builds requests.
pub struct CommandRequest {}

impl CommandRequest {
    /// The request for access with `user_token`.
    pub fn authorize(user_token: String) -> (request: Authorize)
        ensures
            request.base.message@ == "access"@,
            request.base.message_type@ == "request"@,
            request.base.message_id == 1,
            request.user_token == user_token,
    {
        Authorize { base: Self::default("access"), user_token }
    }

    /// The request for the configuration; `addressbooks` is `"none"` or
    /// `"all"`.
    pub fn configuration(addressbooks: String) -> (request: Configuration)
        ensures
            request.base.message@ == "get-configuration"@,
            request.base.message_type@ == "request"@,
            request.base.message_id == 1,
            request.addressbooks == addressbooks,
    {
        Configuration { base: Self::default("get-configuration"), addressbooks }
    }

    /// The request to remove all users on behalf of `requester`.
    pub fn remove_all_users(requester: String) -> (request: RemoveAllUsers)
        ensures
            request.base.message@ == "remove-all-users"@,
            request.base.message_type@ == "request"@,
            request.base.message_id == 1,
            request.requester == requester,
    {
        RemoveAllUsers { base: Self::default("remove-all-users"), requester }
    }

    /// The request to register the user `email`.
    pub fn activate_user(email: String) -> (request: ActivateUser)
        ensures
            request.base.message@ == "activate-user"@,
            request.base.message_type@ == "request"@,
            request.base.message_id == 1,
            request.email == email,
            request.description@ == "viper-client"@,
    {
        ActivateUser {
            base: Self::default("activate-user"),
            description: "viper-client".to_owned(),
            email,
        }
    }

    /// The envelope of a request named `message`, with the message id 1.
    pub fn default(message: &'static str) -> (base: Base)
        ensures
            base.message@ == message@,
            base.message_type@ == "request"@,
            base.message_id == 1,
    {
        Base { message: message.to_owned(), message_type: "request".to_owned(), message_id: 1 }
    }
}

} // verus!
