//! What can go wrong between a client and the device.

use vstd::prelude::*;

verus! {

/// Why a sequence broke off.
#[derive(Clone, Copy, Debug, PartialEq, Eq, Structural)]
pub enum ProtocolError {
    /// No frame confirmed the handshake within the retry budget.
    HandshakeUnconfirmed,
    /// The frame that followed the linking of the actuators did not
    /// confirm it.
    LinkUnconfirmed,
    /// Something was reported that the sequence did not wait for.
    OutOfSequence,
}

/// The error type of `std::io`: a failed connect, read or write, a
/// timeout, a stream that was shut down.
#[verifier::external_type_specification]
#[verifier::external_body]
pub struct ExIoError(std::io::Error);

/// The error type of `serde_json`: bytes that are no JSON, or not the JSON
/// that was expected.
#[verifier::external_type_specification]
#[verifier::external_body]
pub struct ExJsonError(serde_json::Error);

/// The three kinds of failure are kept apart: the transport, the codec,
/// the protocol.
#[derive(Debug)]
pub enum ViperError {
    /// The transport failed.
    IOError(std::io::Error),
    /// An answer could not be decoded.
    JSONError(serde_json::Error),
    /// The device did not follow the protocol.
    Protocol(ProtocolError),
}

/// The text of a protocol error.
pub open spec fn protocol_text(error: ProtocolError) -> Seq<char> {
    match error {
        ProtocolError::HandshakeUnconfirmed => "the handshake was not confirmed"@,
        ProtocolError::LinkUnconfirmed => "the linking of the actuators was not confirmed"@,
        ProtocolError::OutOfSequence => "an event arrived out of sequence"@,
    }
}

/// `to_string` of `std::io::Error`: the text that the error displays. It
/// depends on the platform, so nothing is claimed of it.
#[verifier::external_body]
fn io_error_text(error: &std::io::Error) -> String {
    error.to_string()
}

/// `to_string` of `serde_json::Error`: the text that the error displays,
/// a message with the line and column where decoding stopped. Nothing is
/// claimed of it.
#[verifier::external_body]
fn json_error_text(error: &serde_json::Error) -> String {
    error.to_string()
}

impl ProtocolError {
    /// What the error says.
    pub fn message(&self) -> (text: String)
        ensures
            text@ == protocol_text(*self),
    {
        match self {
            ProtocolError::HandshakeUnconfirmed => "the handshake was not confirmed".to_owned(),
            ProtocolError::LinkUnconfirmed => {
                "the linking of the actuators was not confirmed".to_owned()
            },
            ProtocolError::OutOfSequence => "an event arrived out of sequence".to_owned(),
        }
    }
}

impl ViperError {
    /// What the error says: for a transport or codec error the text of the
    /// error that it wraps, for a protocol error its own text.
    pub fn message(&self) -> (text: String)
        ensures
            self matches ViperError::Protocol(error) ==> text@ == protocol_text(*error),
    {
        match self {
            ViperError::IOError(error) => io_error_text(error),
            ViperError::JSONError(error) => json_error_text(error),
            ViperError::Protocol(error) => error.message(),
        }
    }
}

impl From<std::io::Error> for ViperError {
    fn from(error: std::io::Error) -> (out: ViperError) {
        ViperError::IOError(error)
    }
}

impl vstd::std_specs::convert::FromSpecImpl<std::io::Error> for ViperError {
    open spec fn obeys_from_spec() -> bool {
        true
    }

    open spec fn from_spec(error: std::io::Error) -> ViperError {
        ViperError::IOError(error)
    }
}

impl From<serde_json::Error> for ViperError {
    fn from(error: serde_json::Error) -> (out: ViperError) {
        ViperError::JSONError(error)
    }
}

impl vstd::std_specs::convert::FromSpecImpl<serde_json::Error> for ViperError {
    open spec fn obeys_from_spec() -> bool {
        true
    }

    open spec fn from_spec(error: serde_json::Error) -> ViperError {
        ViperError::JSONError(error)
    }
}

impl From<ProtocolError> for ViperError {
    fn from(error: ProtocolError) -> (out: ViperError) {
        ViperError::Protocol(error)
    }
}

impl vstd::std_specs::convert::FromSpecImpl<ProtocolError> for ViperError {
    open spec fn obeys_from_spec() -> bool {
        true
    }

    open spec fn from_spec(error: ProtocolError) -> ViperError {
        ViperError::Protocol(error)
    }
}

} // verus!
