//! The messages of the protocol: handshake, heartbeat, audio frame header,
//! and the status and command requests of the management side.
//!
//! These are the bare types that the contracts speak of; their JSON form is
//! produced and read outside the library.

use vstd::prelude::*;

verus! {

/// Session parameters (the values a client asks for, or those a server
/// applies).
#[derive(Debug, Clone, PartialEq, Eq)]
pub struct SessionParams {
    /// `"opus"` or `"pcm16"`.
    pub codec: String,
    pub sample_rate_hz: u32,
    /// Always 1 (mono) in this version.
    pub channels: u16,
    pub chunk_ms: u32,
    /// Only meaningful with `codec == "opus"`.
    pub opus_bitrate_kbps: Option<u32>,
    pub jitter_buffer_ms: u32,
}

/// Whether `p` holds the documented defaults: opus, 48 kHz, mono, 20 ms
/// chunks, 48 kbps, 100 ms jitter buffer.
pub open spec fn is_mvp_default(p: SessionParams) -> bool {
    &&& p.codec@ == "opus"@
    &&& p.sample_rate_hz == 48_000
    &&& p.channels == 1
    &&& p.chunk_ms == 20
    &&& p.opus_bitrate_kbps == Some(48u32)
    &&& p.jitter_buffer_ms == 100
}

impl SessionParams {
    /// The documented default parameters.
    pub fn mvp_default() -> (p: Self)
        ensures
            is_mvp_default(p),
    {
        proof {
            reveal_strlit("opus");
        }
        SessionParams {
            codec: String::from_str("opus"),
            sample_rate_hz: 48_000,
            channels: 1,
            chunk_ms: 20,
            opus_bitrate_kbps: Some(48),
            jitter_buffer_ms: 100,
        }
    }

    /// A field-by-field copy.
    pub fn copy(&self) -> (p: Self)
        ensures
            p == *self,
    {
        SessionParams {
            codec: self.codec.clone(),
            sample_rate_hz: self.sample_rate_hz,
            channels: self.channels,
            chunk_ms: self.chunk_ms,
            opus_bitrate_kbps: self.opus_bitrate_kbps,
            jitter_buffer_ms: self.jitter_buffer_ms,
        }
    }
}

/// Handshake request (client to server).
#[derive(Debug, Clone, PartialEq, Eq)]
pub struct HandshakeRequest {
    /// Chosen by the client, echoed by the server.
    pub session_id: String,
    /// Display name of the client.
    pub client_name: String,
    pub requested: SessionParams,
    /// Reserved for authentication.
    pub token: Option<String>,
}

/// Handshake response (server to client).
#[derive(Debug, Clone, PartialEq, Eq)]
pub struct HandshakeResponse {
    pub session_id: String,
    pub accepted: bool,
    /// Why the session was refused, if it was.
    pub reason: Option<String>,
    /// The parameters the server applies.
    pub effective: SessionParams,
    /// The server already streams from another client.
    pub busy: bool,
}

/// Heartbeat (both directions).
#[derive(Debug, Clone, PartialEq, Eq)]
pub struct Heartbeat {
    pub session_id: String,
    /// Increases by one per heartbeat.
    pub seq: u64,
    /// Sender clock, milliseconds.
    pub sent_at_ms: u64,
}

/// Header of an audio frame (the PCM bytes follow it).
#[derive(Debug, Clone, PartialEq, Eq)]
pub struct AudioFrameHeader {
    pub session_id: String,
    /// Increases by one per frame.
    pub seq: u64,
    /// Start of the frame, milliseconds.
    pub timestamp_ms: u64,
    /// Samples per channel in the frame.
    pub frame_samples: u32,
}

/// Status request (management side to server, loopback only).
#[derive(Debug, Clone, PartialEq, Eq)]
pub struct ServerStatusRequest {
    pub request_id: String,
}

/// Command request (management side to server, loopback only).
#[derive(Debug, Clone, PartialEq, Eq)]
pub struct ServerCommandRequest {
    pub request_id: String,
    /// `force_disconnect`, `virtual_mic_create` or `virtual_mic_remove`.
    pub action: String,
}

/// Command response (server to management side).
#[derive(Debug, Clone, PartialEq, Eq)]
pub struct ServerCommandResponse {
    pub request_id: String,
    pub ok: bool,
    pub message: Option<String>,
}

} // verus!
