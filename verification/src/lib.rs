//! Client-side protocol logic for a networked video doorbell: wire framing,
//! channel lifecycle, JSON request envelopes and the CTPP actuator handshake.

pub mod bytes;
pub mod channel;
pub mod client;
pub mod command;
pub mod command_response;
pub mod ctpp_channel;
pub mod door;
pub mod error;
pub mod helper;
pub mod json;

pub use client::ViperClient;
pub use error::ViperError;
