//! The sender: connection state, send counters and their periodic report,
//! the reconnect policy, the settings read from the environment, and the
//! checks on the handshake reply.

use vstd::prelude::*;
use crate::audio::{pcm16_le, Pcm16Frame};
use crate::datagram::{
    audio_payload, framed, kind_of_byte, split_datagram, wrap_audio_pcm16_with_header,
    DatagramKind, DATAGRAM_KIND_AUDIO_PCM16,
};
use crate::protocol::{AudioFrameHeader, HandshakeResponse};
use crate::text::{decimal, parse_unsigned, parsed_unsigned, str_equals, u64_to_decimal};

verus! {

/// The address the sender targets by default.
pub const DEFAULT_SERVER_ADDR: &'static str = "127.0.0.1:43000";

/// The receiver releases a silent sender after this many seconds.
pub const RECONNECT_WINDOW_SECS: u64 = 10;

/// Pause before a new attempt after a failed stream (ms).
pub const RECONNECT_BACKOFF_MS: u64 = 500;

/// Attempts after the first that a sender makes before giving up.
pub const MAX_RECONNECT_ATTEMPTS: usize = 3;

/// Heartbeat interval when none is configured (ms).
pub const DEFAULT_HEARTBEAT_INTERVAL_MS: u64 = 1_000;

/// Interval of the counter report (ms).
pub const METRICS_REPORT_MS: u64 = 5_000;

/// Send-side buffer depth (no queue in this version).
pub const SEND_BUFFER_DEPTH_FRAMES: usize = 0;

/// Connection state of the sender.
#[derive(Debug, Clone, Copy, PartialEq, Eq, Structural)]
pub enum ClientConnectionState {
    Idle,
    Connecting,
    Active,
    Reconnecting,
}

/// The log label of a sender state.
pub open spec fn client_state_label(s: ClientConnectionState) -> Seq<char> {
    match s {
        ClientConnectionState::Idle => "idle"@,
        ClientConnectionState::Connecting => "connecting"@,
        ClientConnectionState::Active => "active"@,
        ClientConnectionState::Reconnecting => "reconnecting"@,
    }
}

impl ClientConnectionState {
    pub fn as_str(self) -> (s: &'static str)
        ensures
            s@ == client_state_label(self),
    {
        match self {
            ClientConnectionState::Idle => {
                proof { reveal_strlit("idle"); }
                "idle"
            },
            ClientConnectionState::Connecting => {
                proof { reveal_strlit("connecting"); }
                "connecting"
            },
            ClientConnectionState::Active => {
                proof { reveal_strlit("active"); }
                "active"
            },
            ClientConnectionState::Reconnecting => {
                proof { reveal_strlit("reconnecting"); }
                "reconnecting"
            },
        }
    }
}

/// `a - b`, or 0 where `b` is later than `a`.
pub open spec fn elapsed_ms(now: u64, since: u64) -> u64 {
    if now >= since {
        (now - since) as u64
    } else {
        0
    }
}

/// Counters of what the sender sent. Times are milliseconds on a clock
/// that the caller supplies.
#[derive(Debug, Clone)]
pub struct ClientMetrics {
    pub sent_packets: u64,
    pub sent_bytes: u64,
    pub control_packets: u64,
    pub audio_packets: u64,
    pub send_errors: u64,
    pub estimated_loss: u64,
    pub send_buffer_depth_frames: usize,
    pub last_send_at_ms: Option<u64>,
    pub last_report_at_ms: u64,
}

/// A periodic report of the sender's counters.
#[derive(Debug, Clone, Copy, PartialEq, Eq)]
pub struct ClientMetricsReport {
    pub state: ClientConnectionState,
    pub sent_packets: u64,
    pub sent_bytes: u64,
    pub control_packets: u64,
    pub audio_packets: u64,
    pub send_errors: u64,
    pub estimated_loss: u64,
    pub send_buffer_depth_frames: usize,
    pub reconnect_window_secs: u64,
    /// Time since the last send (0 before the first).
    pub idle_ms: u64,
}

/// Counters at 0, with the report clock started at `now_ms`.
pub open spec fn fresh_client_metrics(now_ms: u64) -> ClientMetrics {
    ClientMetrics {
        sent_packets: 0,
        sent_bytes: 0,
        control_packets: 0,
        audio_packets: 0,
        send_errors: 0,
        estimated_loss: 0,
        send_buffer_depth_frames: SEND_BUFFER_DEPTH_FRAMES,
        last_send_at_ms: None,
        last_report_at_ms: now_ms,
    }
}

impl ClientMetrics {
    /// All counters at 0; the report clock starts at `now_ms`.
    pub fn new(now_ms: u64) -> (m: Self)
        ensures
            m == fresh_client_metrics(now_ms),
    {
        ClientMetrics {
            sent_packets: 0,
            sent_bytes: 0,
            control_packets: 0,
            audio_packets: 0,
            send_errors: 0,
            estimated_loss: 0,
            send_buffer_depth_frames: SEND_BUFFER_DEPTH_FRAMES,
            last_send_at_ms: None,
            last_report_at_ms: now_ms,
        }
    }

    /// Counts one sent datagram of `bytes` bytes and of the given kind.
    pub fn on_send(&mut self, kind: DatagramKind, bytes: usize, now_ms: u64)
        requires
            old(self).sent_packets < u64::MAX,
            old(self).sent_bytes + bytes <= u64::MAX,
            kind == DatagramKind::ControlJson ==> old(self).control_packets < u64::MAX,
            kind == DatagramKind::AudioPcm16 ==> old(self).audio_packets < u64::MAX,
        ensures
            final(self).sent_packets == old(self).sent_packets + 1,
            final(self).sent_bytes == old(self).sent_bytes + bytes,
            final(self).last_send_at_ms == Some(now_ms),
            final(self).control_packets == old(self).control_packets + if kind
                == DatagramKind::ControlJson {
                1int
            } else {
                0
            },
            final(self).audio_packets == old(self).audio_packets + if kind
                == DatagramKind::AudioPcm16 {
                1int
            } else {
                0
            },
            final(self).send_errors == old(self).send_errors,
            final(self).estimated_loss == old(self).estimated_loss,
            final(self).send_buffer_depth_frames == old(self).send_buffer_depth_frames,
            final(self).last_report_at_ms == old(self).last_report_at_ms,
    {
        self.sent_packets = self.sent_packets + 1;
        self.sent_bytes = self.sent_bytes + bytes as u64;
        self.last_send_at_ms = Some(now_ms);
        match kind {
            DatagramKind::ControlJson => self.control_packets = self.control_packets + 1,
            DatagramKind::AudioPcm16 => self.audio_packets = self.audio_packets + 1,
            DatagramKind::Unknown(_) => {},
        }
    }

    /// Counts one failed send.
    pub fn on_send_error(&mut self)
        requires
            old(self).send_errors < u64::MAX,
        ensures
            *final(self) == (ClientMetrics { send_errors: (old(self).send_errors + 1) as u64, ..*old(self) }),
    {
        self.send_errors = self.send_errors + 1;
    }

    /// Whether a report is due at `now_ms`.
    pub open spec fn report_due(self, now_ms: u64) -> bool {
        elapsed_ms(now_ms, self.last_report_at_ms) >= METRICS_REPORT_MS
    }

    /// The report at `now_ms` in `state`, where one is due.
    pub open spec fn report_at(self, state: ClientConnectionState, now_ms: u64) -> Option<
        ClientMetricsReport,
    > {
        if !self.report_due(now_ms) {
            None
        } else {
            Some(
                ClientMetricsReport {
                    state,
                    sent_packets: self.sent_packets,
                    sent_bytes: self.sent_bytes,
                    control_packets: self.control_packets,
                    audio_packets: self.audio_packets,
                    send_errors: self.send_errors,
                    estimated_loss: self.estimated_loss,
                    send_buffer_depth_frames: self.send_buffer_depth_frames,
                    reconnect_window_secs: RECONNECT_WINDOW_SECS,
                    idle_ms: match self.last_send_at_ms {
                        Some(t) => elapsed_ms(now_ms, t),
                        None => 0,
                    },
                },
            )
        }
    }

    /// The counters after a report check at `now_ms`: the report clock
    /// restarts when a report is due.
    pub open spec fn after_report_check(self, now_ms: u64) -> ClientMetrics {
        if self.report_due(now_ms) {
            ClientMetrics { last_report_at_ms: now_ms, ..self }
        } else {
            self
        }
    }

    /// A report of the counters, once `METRICS_REPORT_MS` have passed since
    /// the last one; the report clock then restarts at `now_ms`.
    pub fn report_if_due(&mut self, state: ClientConnectionState, now_ms: u64) -> (r: Option<
        ClientMetricsReport,
    >)
        ensures
            r == old(self).report_at(state, now_ms),
            *final(self) == old(self).after_report_check(now_ms),
    {
        let since = if now_ms >= self.last_report_at_ms {
            now_ms - self.last_report_at_ms
        } else {
            0
        };
        if since < METRICS_REPORT_MS {
            return None;
        }
        let idle_ms = match self.last_send_at_ms {
            Some(t) => if now_ms >= t {
                now_ms - t
            } else {
                0
            },
            None => 0,
        };
        let report = ClientMetricsReport {
            state,
            sent_packets: self.sent_packets,
            sent_bytes: self.sent_bytes,
            control_packets: self.control_packets,
            audio_packets: self.audio_packets,
            send_errors: self.send_errors,
            estimated_loss: self.estimated_loss,
            send_buffer_depth_frames: self.send_buffer_depth_frames,
            reconnect_window_secs: RECONNECT_WINDOW_SECS,
            idle_ms,
        };
        self.last_report_at_ms = now_ms;
        Some(report)
    }
}

/// The sender's state, counters and failed attempts.
#[derive(Debug, Clone)]
pub struct ClientContext {
    pub state: ClientConnectionState,
    pub metrics: ClientMetrics,
    pub reconnect_attempts: usize,
}

impl ClientContext {
    /// Idle, fresh counters, no attempts yet.
    pub fn new(now_ms: u64) -> (c: Self)
        ensures
            c.state == ClientConnectionState::Idle,
            c.metrics == fresh_client_metrics(now_ms),
            c.reconnect_attempts == 0,
    {
        ClientContext {
            state: ClientConnectionState::Idle,
            metrics: ClientMetrics::new(now_ms),
            reconnect_attempts: 0,
        }
    }

    /// Moves to `next`; tells whether the state changed (a change is worth
    /// a log line).
    pub fn transition_to(&mut self, next: ClientConnectionState) -> (changed: bool)
        ensures
            changed == (old(self).state != next),
            final(self).state == next,
            final(self).metrics == old(self).metrics,
            final(self).reconnect_attempts == old(self).reconnect_attempts,
    {
        if self.state == next {
            return false;
        }
        self.state = next;
        true
    }

    /// The counter report, if one is due, in the current state.
    pub fn maybe_report(&mut self, now_ms: u64) -> (r: Option<ClientMetricsReport>)
        ensures
            final(self).state == old(self).state,
            final(self).reconnect_attempts == old(self).reconnect_attempts,
            final(self).metrics == old(self).metrics.after_report_check(now_ms),
            r == old(self).metrics.report_at(old(self).state, now_ms),
    {
        let state = self.state;
        self.metrics.report_if_due(state, now_ms)
    }

    /// A stream attempt failed: counts the error, moves to `Reconnecting`
    /// and tells whether another attempt is allowed (at most
    /// `MAX_RECONNECT_ATTEMPTS` after the first).
    pub fn on_stream_failure(&mut self) -> (retry: bool)
        requires
            old(self).metrics.send_errors < u64::MAX,
            old(self).reconnect_attempts < usize::MAX,
        ensures
            final(self).metrics == (ClientMetrics {
                send_errors: (old(self).metrics.send_errors + 1) as u64,
                ..old(self).metrics
            }),
            final(self).state == ClientConnectionState::Reconnecting,
            final(self).reconnect_attempts == old(self).reconnect_attempts + 1,
            retry == (final(self).reconnect_attempts <= MAX_RECONNECT_ATTEMPTS),
    {
        self.metrics.on_send_error();
        self.transition_to(ClientConnectionState::Reconnecting);
        self.reconnect_attempts = self.reconnect_attempts + 1;
        self.reconnect_attempts <= MAX_RECONNECT_ATTEMPTS
    }
}

/// The heartbeat interval in ms: the default when unset or unreadable,
/// none (no heartbeats) when set to 0.
pub open spec fn heartbeat_interval_of(raw: Option<Seq<char>>) -> Option<u64> {
    match raw {
        None => Some(DEFAULT_HEARTBEAT_INTERVAL_MS),
        Some(s) => match parsed_unsigned(s, u64::MAX as int) {
            Some(v) => if v == 0 {
                None
            } else {
                Some(v as u64)
            },
            None => Some(DEFAULT_HEARTBEAT_INTERVAL_MS),
        },
    }
}

/// Reads the heartbeat interval setting (`None`: not set).
pub fn heartbeat_interval_ms(raw: Option<&str>) -> (r: Option<u64>)
    ensures
        r == heartbeat_interval_of(
            match raw {
                Some(s) => Some(s@),
                None => None,
            },
        ),
{
    match raw {
        None => Some(DEFAULT_HEARTBEAT_INTERVAL_MS),
        Some(s) => match parse_unsigned(s, u64::MAX) {
            Some(0) => None,
            Some(v) => Some(v),
            None => Some(DEFAULT_HEARTBEAT_INTERVAL_MS),
        },
    }
}

/// The stream length limit in seconds: none when unset, unreadable or 0.
pub open spec fn stream_limit_of(raw: Option<Seq<char>>) -> Option<u64> {
    match raw {
        None => None,
        Some(s) => match parsed_unsigned(s, u64::MAX as int) {
            Some(v) => if v == 0 {
                None
            } else {
                Some(v as u64)
            },
            None => None,
        },
    }
}

/// Reads the stream length setting (`None`: not set).
pub fn stream_duration_secs(raw: Option<&str>) -> (r: Option<u64>)
    ensures
        r == stream_limit_of(
            match raw {
                Some(s) => Some(s@),
                None => None,
            },
        ),
{
    match raw {
        None => None,
        Some(s) => match parse_unsigned(s, u64::MAX) {
            Some(0) => None,
            Some(v) => Some(v),
            None => None,
        },
    }
}

/// `session-` followed by the decimal clock value.
pub open spec fn session_id_of(now_ms: u64) -> Seq<char> {
    "session-"@ + decimal(now_ms as nat)
}

/// The session id a sender proposes at time `now_ms`.
pub fn session_id_for(now_ms: u64) -> (s: String)
    ensures
        s@ == session_id_of(now_ms),
{
    let prefix = String::from_str("session-");
    prefix.concat(u64_to_decimal(now_ms).as_str())
}

/// Samples per channel of a frame: the sample count (taken modulo 2^32, as
/// a `u32`) divided by the channel count (at least 1).
pub open spec fn frame_samples_of(sample_count: nat, channels: u16) -> u32 {
    ((sample_count % 0x1_0000_0000) / (if channels == 0 {
        1
    } else {
        channels as nat
    })) as u32
}

/// The header that announces `frame` in a stream.
pub fn audio_frame_header(frame: &Pcm16Frame, session_id: &str, seq: u64, timestamp_ms: u64) -> (h:
    AudioFrameHeader)
    ensures
        h.session_id@ == session_id@,
        h.seq == seq,
        h.timestamp_ms == timestamp_ms,
        h.frame_samples == frame_samples_of(frame.samples@.len(), frame.channels),
{
    let count = frame.samples.len();
    let count32: u32 = (count as u64 % 0x1_0000_0000u64) as u32;
    let channels: u32 = if frame.channels == 0 {
        1
    } else {
        frame.channels as u32
    };
    AudioFrameHeader {
        session_id: String::from_str(session_id),
        seq,
        timestamp_ms,
        frame_samples: count32 / channels,
    }
}

/// The audio datagram of a frame, given the JSON of its header.
pub fn build_audio_datagram(frame: &Pcm16Frame, header_json: &[u8]) -> (buf: Vec<u8>)
    ensures
        buf@ == framed(DATAGRAM_KIND_AUDIO_PCM16, audio_payload(header_json@, pcm16_le(frame.samples@))),
{
    let pcm = frame.to_bytes();
    wrap_audio_pcm16_with_header(header_json, pcm.as_slice())
}

/// `a + b`, or `u64::MAX` where that overflows.
pub open spec fn sat_add(a: u64, b: u64) -> u64 {
    if a + b > u64::MAX {
        u64::MAX
    } else {
        (a + b) as u64
    }
}

/// The schedule of a stream: its length limit, the frame and heartbeat
/// sequence numbers, and when the next heartbeat is due.
#[derive(Debug, Clone, Copy, PartialEq, Eq)]
pub struct StreamSchedule {
    pub started_at_ms: u64,
    pub limit_ms: Option<u64>,
    pub heartbeat_interval_ms: Option<u64>,
    pub next_heartbeat_at_ms: Option<u64>,
    pub seq: u64,
    pub heartbeat_seq: u64,
}

impl StreamSchedule {
    /// A stream that starts at `now_ms`, limited to `limit_secs` seconds
    /// (if any), with a heartbeat every `heartbeat_ms` (if any).
    pub fn new(now_ms: u64, limit_secs: Option<u64>, heartbeat_ms: Option<u64>) -> (s: Self)
        ensures
            s.started_at_ms == now_ms,
            s.limit_ms == match limit_secs {
                Some(l) => Some(if l * 1000 > u64::MAX { u64::MAX } else { (l * 1000) as u64 }),
                None => None,
            },
            s.heartbeat_interval_ms == heartbeat_ms,
            s.next_heartbeat_at_ms == match heartbeat_ms {
                Some(i) => Some(sat_add(now_ms, i)),
                None => None,
            },
            s.seq == 0,
            s.heartbeat_seq == 0,
    {
        let limit_ms = match limit_secs {
            Some(l) => Some(
                match l.checked_mul(1000) {
                    Some(v) => v,
                    None => u64::MAX,
                },
            ),
            None => None,
        };
        let next = match heartbeat_ms {
            Some(i) => Some(
                match now_ms.checked_add(i) {
                    Some(v) => v,
                    None => u64::MAX,
                },
            ),
            None => None,
        };
        StreamSchedule {
            started_at_ms: now_ms,
            limit_ms,
            heartbeat_interval_ms: heartbeat_ms,
            next_heartbeat_at_ms: next,
            seq: 0,
            heartbeat_seq: 0,
        }
    }

    /// Whether the stream has run for its whole limit.
    pub fn limit_reached(&self, now_ms: u64) -> (r: bool)
        ensures
            r == (self.limit_ms matches Some(l) && elapsed_ms(now_ms, self.started_at_ms) >= l),
    {
        match self.limit_ms {
            Some(l) => {
                let ran = if now_ms >= self.started_at_ms {
                    now_ms - self.started_at_ms
                } else {
                    0
                };
                ran >= l
            },
            None => false,
        }
    }

    /// The sequence number of the next audio frame (they count up from 0,
    /// stopping at `u64::MAX`).
    pub fn next_audio_seq(&mut self) -> (seq: u64)
        ensures
            seq == old(self).seq,
            *final(self) == (StreamSchedule { seq: sat_add(old(self).seq, 1), ..*old(self) }),
    {
        let seq = self.seq;
        self.seq = match self.seq.checked_add(1) {
            Some(v) => v,
            None => u64::MAX,
        };
        seq
    }

    /// Once the next heartbeat is due, its sequence number; the following
    /// one is then scheduled one interval after `now_ms`.
    pub fn heartbeat_due(&mut self, now_ms: u64) -> (r: Option<u64>)
        ensures
            (old(self).next_heartbeat_at_ms matches Some(t) && now_ms >= t) ==> {
                &&& r == Some(old(self).heartbeat_seq)
                &&& *final(self) == (StreamSchedule {
                    heartbeat_seq: sat_add(old(self).heartbeat_seq, 1),
                    next_heartbeat_at_ms: match old(self).heartbeat_interval_ms {
                        Some(i) => Some(sat_add(now_ms, i)),
                        None => None,
                    },
                    ..*old(self)
                })
            },
            !(old(self).next_heartbeat_at_ms matches Some(t) && now_ms >= t) ==> r is None
                && *final(self) == *old(self),
    {
        match self.next_heartbeat_at_ms {
            Some(t) => {
                if now_ms < t {
                    return None;
                }
                let seq = self.heartbeat_seq;
                self.heartbeat_seq = match self.heartbeat_seq.checked_add(1) {
                    Some(v) => v,
                    None => u64::MAX,
                };
                self.next_heartbeat_at_ms = match self.heartbeat_interval_ms {
                    Some(i) => Some(
                        match now_ms.checked_add(i) {
                            Some(v) => v,
                            None => u64::MAX,
                        },
                    ),
                    None => None,
                };
                Some(seq)
            },
            None => None,
        }
    }
}

/// Whether a handshake reply lets the sender stream.
pub open spec fn reply_allows_streaming(r: HandshakeResponse) -> bool {
    r.accepted && !r.busy
}

/// Whether a handshake reply lets the sender stream: accepted and not busy.
pub fn handshake_allows_streaming(response: &HandshakeResponse) -> (ok: bool)
    ensures
        ok == reply_allows_streaming(*response),
{
    response.accepted && !response.busy
}

/// The control payload of a datagram received while waiting for the
/// handshake reply; an error for an empty or a non-control datagram.
pub fn handshake_reply_payload(datagram: &[u8]) -> (r: Result<&[u8], String>)
    ensures
        datagram@.len() == 0 ==> (r matches Err(e) && e@ == "invalid datagram (empty)"@),
        datagram@.len() > 0 && kind_of_byte(datagram@[0]) != DatagramKind::ControlJson ==> (r matches Err(e)
            && e@ == "unexpected datagram kind while waiting for handshake response"@),
        datagram@.len() > 0 && kind_of_byte(datagram@[0]) == DatagramKind::ControlJson ==> (r matches Ok(p)
            && p@ == datagram@.subrange(1, datagram@.len() as int)),
{
    match split_datagram(datagram) {
        None => Err(String::from_str("invalid datagram (empty)")),
        Some((kind, payload)) => {
            if kind != DatagramKind::ControlJson {
                Err(String::from_str("unexpected datagram kind while waiting for handshake response"))
            } else {
                Ok(payload)
            }
        },
    }
}

/// Checks that a control reply is a handshake response.
pub fn check_handshake_reply_type(msg_type: &str) -> (r: Result<(), String>)
    ensures
        msg_type@ == "handshake_response"@ <==> r is Ok,
        r matches Err(e) ==> e@ == "unexpected control message type: "@ + msg_type@,
{
    if str_equals(msg_type, "handshake_response") {
        Ok(())
    } else {
        Err(String::from_str("unexpected control message type: ").concat(msg_type))
    }
}

/// Checks that a handshake response answers the session that was proposed.
pub fn check_handshake_session(response: &HandshakeResponse, session_id: &str) -> (r: Result<(), String>)
    ensures
        response.session_id@ == session_id@ <==> r is Ok,
        r matches Err(e) ==> e@ == "handshake response session_id mismatch"@,
{
    if str_equals(response.session_id.as_str(), session_id) {
        Ok(())
    } else {
        Err(String::from_str("handshake response session_id mismatch"))
    }
}

} // verus!
