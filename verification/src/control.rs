//! Control plane: the `type` names of the JSON envelope `{type, payload}`
//! and their classification.

use vstd::prelude::*;
use crate::text::str_equals;

verus! {

/// Handshake request (client to server).
pub const CONTROL_TYPE_HANDSHAKE_REQUEST: &'static str = "handshake_request";

/// Handshake response (server to client).
pub const CONTROL_TYPE_HANDSHAKE_RESPONSE: &'static str = "handshake_response";

/// Heartbeat (both directions).
pub const CONTROL_TYPE_HEARTBEAT: &'static str = "heartbeat";

/// Statistics snapshot (server to client).
pub const CONTROL_TYPE_STATS: &'static str = "stats";

/// Status request (management side to server).
pub const CONTROL_TYPE_SERVER_STATUS_REQUEST: &'static str = "server_status_request";

/// Status response (server to management side).
pub const CONTROL_TYPE_SERVER_STATUS_RESPONSE: &'static str = "server_status_response";

/// Command request (management side to server).
pub const CONTROL_TYPE_SERVER_COMMAND_REQUEST: &'static str = "server_command_request";

/// Command response (server to management side).
pub const CONTROL_TYPE_SERVER_COMMAND_RESPONSE: &'static str = "server_command_response";

/// The control messages that a receiver acts on.
#[derive(Debug, Clone, Copy, PartialEq, Eq, Structural)]
pub enum ControlMessageType {
    HandshakeRequest,
    Heartbeat,
    ServerStatusRequest,
    ServerCommandRequest,
    /// Any other type: logged and otherwise ignored.
    Other,
}

/// The control message type that a `type` string names.
pub open spec fn control_type_of(t: Seq<char>) -> ControlMessageType {
    if t == "handshake_request"@ {
        ControlMessageType::HandshakeRequest
    } else if t == "heartbeat"@ {
        ControlMessageType::Heartbeat
    } else if t == "server_status_request"@ {
        ControlMessageType::ServerStatusRequest
    } else if t == "server_command_request"@ {
        ControlMessageType::ServerCommandRequest
    } else {
        ControlMessageType::Other
    }
}

/// Classifies the `type` field of a control envelope.
pub fn classify_control_type(msg_type: &str) -> (t: ControlMessageType)
    ensures
        t == control_type_of(msg_type@),
{
    if str_equals(msg_type, "handshake_request") {
        ControlMessageType::HandshakeRequest
    } else if str_equals(msg_type, "heartbeat") {
        ControlMessageType::Heartbeat
    } else if str_equals(msg_type, "server_status_request") {
        ControlMessageType::ServerStatusRequest
    } else if str_equals(msg_type, "server_command_request") {
        ControlMessageType::ServerCommandRequest
    } else {
        ControlMessageType::Other
    }
}

} // verus!
