//! The answers of the device, as typed values.

use std::collections::HashMap;
use vstd::prelude::*;

verus! {

/// A JSON value of `serde_json`. The library carries such values through
/// as they came and never looks inside.
#[verifier::external_type_specification]
#[verifier::external_body]
pub struct ExValue(serde_json::Value);

/// What every answer carries.
#[derive(Debug)]
pub struct BaseResponse {
    pub message: String,
    pub message_type: String,
    pub message_id: u8,
    pub response_code: u8,
    pub response_string: String,
}

/// The answer to a request for access.
#[derive(Debug)]
pub struct AuthResponse {
    pub response: BaseResponse,
}

/// What the device says of itself.
#[derive(Debug)]
pub struct InfoResponse {
    pub model: String,
    pub version: String,
    pub serial_code: String,
    pub capabilities: Vec<String>,
    /// Whatever else the device tells of its channels, by name.
    pub channel_details: HashMap<String, serde_json::Value>,
    pub response: BaseResponse,
}

/// The answer to the registration of a user, with the user's token.
#[derive(Debug)]
pub struct ActivateUserResponse {
    pub user_token: String,
    pub response: BaseResponse,
}

/// Where the device listens.
#[derive(Debug)]
pub struct ViperServerResponse {
    pub local_address: String,
    pub local_tcp_port: u16,
    pub local_udp_port: u16,
    pub remote_address: String,
    pub remote_tcp_port: u16,
    pub remote_udp_port: u16,
}

/// What the device knows of the client.
#[derive(Debug)]
pub struct ViperClientResponse {
    pub description: String,
}

/// Settings of the apartment.
#[derive(Debug)]
pub struct AptConfigResponse {
    pub description: String,
    pub call_divert_busy_en: bool,
    pub call_divert_address: String,
    pub virtual_key_enabled: bool,
}

/// An entry of the switchboard address book.
#[derive(Debug)]
pub struct Switchboard {
    pub id: String,
    pub name: String,
    pub apt_address: String,
    pub emergency_calls: bool,
}

/// An entry of the entrance address book.
#[derive(Debug)]
pub struct Entrance {
    pub id: String,
    pub name: String,
    pub apt_address: String,
}

/// An entry of an actuator address book.
#[derive(Debug)]
pub struct Actuator {
    pub id: String,
    pub name: String,
    pub apt_address: String,
    pub module_index: u8,
    pub output_index: u8,
}

/// An entry of the door address book: an actuator that opens a door.
#[derive(Debug)]
pub struct Opendoor {
    pub id: String,
    pub name: String,
    pub apt_address: String,
    pub output_index: u8,
    pub secure_mode: bool,
}

/// An action that opens a door.
#[derive(Debug)]
pub struct OpendoorAction {
    pub id: String,
    pub action: String,
    pub apt_address: String,
    pub output_index: u8,
}

/// The address books of the configuration. They are filled when the
/// configuration is asked for with all address books.
#[derive(Debug)]
pub struct UserParametersResponse {
    pub forced: bool,
    pub apt_address_book: Vec<HashMap<String, serde_json::Value>>,
    pub camera_address_book: Vec<HashMap<String, serde_json::Value>>,
    pub rtsp_camera_address_book: Vec<HashMap<String, serde_json::Value>>,
    pub switchboard_address_book: Vec<Switchboard>,
    pub entrance_address_book: Vec<Entrance>,
    pub actuator_address_book: Vec<Actuator>,
    pub opendoor_address_book: Vec<Opendoor>,
    pub opendoor_actions: Vec<OpendoorAction>,
    pub additional_actuator: Vec<Actuator>,
}

/// The addresses of the apartment on the device's bus, and its address
/// books.
#[derive(Debug)]
pub struct VipResponse {
    pub enabled: bool,
    pub apt_address: String,
    pub apt_subaddress: u16,
    pub logical_subaddress: u16,
    pub apt_config: AptConfigResponse,
    pub user_parameters: UserParametersResponse,
}

/// The answer to a request for the configuration.
#[derive(Debug)]
pub struct ConfigurationResponse {
    pub viper_server: ViperServerResponse,
    pub viper_client: ViperClientResponse,
    pub vip: VipResponse,
    pub response: BaseResponse,
}

} // verus!
