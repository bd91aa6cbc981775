//! The desktop front end's model: its configuration records and their
//! defaults; its state (mode, status, runtime facts, input devices, log)
//! and how each action, reply or failure changes it; its background loops;
//! the requests it sends to the receiver and the checks on the replies.
//!
//! Times are milliseconds that the caller supplies.

use vstd::prelude::*;
use crate::audio::CaptureError;
use crate::config::{
    fallback_views, fallbacks_of, is_normalized, normalize_session_params, FallbackEvent,
    FallbackView,
};
use crate::client::{session_id_of, session_id_for};
use crate::protocol::{HandshakeRequest, HandshakeResponse, SessionParams};
use crate::text::{is_blank, str_equals, trimmed};

verus! {

/// The input device entry that stands for the system default.
pub const SYSTEM_DEFAULT_DEVICE: &'static str = "系统默认";

/// Sender settings as the front end edits them.
#[derive(Debug, Clone)]
pub struct UiClientConfig {
    pub server_addr: String,
    pub server_port: u16,
    pub input_device: String,
    pub codec: String,
    pub sample_rate_hz: u32,
    pub channels: u16,
    pub chunk_ms: u32,
    pub opus_bitrate_kbps: u32,
    pub jitter_buffer_ms: u32,
    pub auto_reconnect: bool,
    pub pairing_token: String,
}

/// Receiver settings as the front end edits them.
#[derive(Debug, Clone, Copy, PartialEq, Eq, Structural)]
pub struct UiServerConfig {
    pub listen_port: u16,
    pub force_takeover: bool,
    pub virtual_mic_enabled: bool,
}

/// Whether `c` holds the default sender settings for `p`.
pub open spec fn is_default_client_config(c: UiClientConfig, p: SessionParams) -> bool {
    &&& c.server_addr@ == "127.0.0.1"@
    &&& c.server_port == 43000
    &&& c.input_device@ == "系统默认"@
    &&& c.codec == p.codec
    &&& c.sample_rate_hz == p.sample_rate_hz
    &&& c.channels == p.channels
    &&& c.chunk_ms == p.chunk_ms
    &&& c.opus_bitrate_kbps == match p.opus_bitrate_kbps {
        Some(v) => v,
        None => 48,
    }
    &&& c.jitter_buffer_ms == p.jitter_buffer_ms
    &&& c.auto_reconnect
    &&& c.pairing_token@ == Seq::<char>::empty()
}

/// The sender settings that start from `params`: local server on 43000,
/// the system default input, the codec, rate, channels, chunk and jitter
/// buffer of `params`, its Opus bitrate or 48, reconnecting, no token.
pub fn default_client_config(default_params: &SessionParams) -> (c: UiClientConfig)
    ensures
        is_default_client_config(c, *default_params),
{
    proof {
        reveal_strlit("");
    }
    let c = UiClientConfig {
        server_addr: String::from_str("127.0.0.1"),
        server_port: 43000,
        input_device: String::from_str(SYSTEM_DEFAULT_DEVICE),
        codec: default_params.codec.clone(),
        sample_rate_hz: default_params.sample_rate_hz,
        channels: default_params.channels,
        chunk_ms: default_params.chunk_ms,
        opus_bitrate_kbps: match default_params.opus_bitrate_kbps {
            Some(v) => v,
            None => 48,
        },
        jitter_buffer_ms: default_params.jitter_buffer_ms,
        auto_reconnect: true,
        pairing_token: String::from_str(""),
    };
    assert(c.server_addr@ == "127.0.0.1"@);
    assert(c.input_device@ == "系统默认"@);
    assert(c.pairing_token@ == Seq::<char>::empty());
    c
}

/// Listen on 43000, no takeover, virtual microphone on.
pub fn default_server_config() -> (c: UiServerConfig)
    ensures
        c == (UiServerConfig { listen_port: 43000, force_takeover: false, virtual_mic_enabled: true }),
{
    UiServerConfig { listen_port: 43000, force_takeover: false, virtual_mic_enabled: true }
}

/// The session parameters that a configuration asks for, with the given
/// channel count; an Opus bitrate only with the `opus` codec.
pub open spec fn requested_of(config: UiClientConfig, channels: u16) -> SessionParams {
    SessionParams {
        codec: config.codec,
        sample_rate_hz: config.sample_rate_hz,
        channels,
        chunk_ms: config.chunk_ms,
        opus_bitrate_kbps: if config.codec@ == "opus"@ {
            Some(config.opus_bitrate_kbps)
        } else {
            None
        },
        jitter_buffer_ms: config.jitter_buffer_ms,
    }
}

/// The session parameters that a configuration asks for, with the given
/// channel count; an Opus bitrate only with the `opus` codec.
pub fn requested_params(config: &UiClientConfig, channels: u16) -> (p: SessionParams)
    ensures
        p == requested_of(*config, channels),
{
    let opus = str_equals(config.codec.as_str(), "opus");
    SessionParams {
        codec: config.codec.clone(),
        sample_rate_hz: config.sample_rate_hz,
        channels,
        chunk_ms: config.chunk_ms,
        opus_bitrate_kbps: if opus {
            Some(config.opus_bitrate_kbps)
        } else {
            None
        },
        jitter_buffer_ms: config.jitter_buffer_ms,
    }
}

/// The handshake request of the front end at time `now_ms`: a fresh
/// session id, the configured parameters, and the pairing token unless it
/// is blank.
pub fn build_handshake_request(config: &UiClientConfig, now_ms: u64) -> (r: HandshakeRequest)
    ensures
        r.session_id@ == session_id_of(now_ms),
        r.client_name@ == "netmic-ui"@,
        r.requested.codec == config.codec,
        r.requested.sample_rate_hz == config.sample_rate_hz,
        r.requested.channels == config.channels,
        r.requested.chunk_ms == config.chunk_ms,
        r.requested.opus_bitrate_kbps == if config.codec@ == "opus"@ {
            Some(config.opus_bitrate_kbps)
        } else {
            None
        },
        r.requested.jitter_buffer_ms == config.jitter_buffer_ms,
        trimmed(config.pairing_token@).len() == 0 ==> r.token is None,
        trimmed(config.pairing_token@).len() > 0 ==> r.token == Some(config.pairing_token),
{
    let requested = requested_params(config, config.channels);
    let token = if is_blank(config.pairing_token.as_str()) {
        None
    } else {
        Some(config.pairing_token.clone())
    };
    HandshakeRequest {
        session_id: session_id_for(now_ms),
        client_name: String::from_str("netmic-ui"),
        requested,
        token,
    }
}

/// The microphone permission label that a capture error suggests.
pub open spec fn permission_label_of(err: CaptureError) -> Seq<char> {
    match err {
        CaptureError::DeviceUnavailable(_) | CaptureError::DeviceListFailed(_) => "不可用"@,
        CaptureError::StreamConfigUnavailable(_) | CaptureError::StreamBuildFailed(_)
        | CaptureError::StreamPlayFailed(_) => "未授权"@,
        CaptureError::BufferTimeout { .. } | CaptureError::ResampleFailed(_) => "未知"@,
    }
}

/// The microphone permission label that a capture error suggests:
/// unavailable, unauthorised, or unknown.
pub fn permission_label_from_error(err: &CaptureError) -> (s: &'static str)
    ensures
        s@ == permission_label_of(*err),
{
    match err {
        CaptureError::DeviceUnavailable(_) | CaptureError::DeviceListFailed(_) => "不可用",
        CaptureError::StreamConfigUnavailable(_) | CaptureError::StreamBuildFailed(_)
        | CaptureError::StreamPlayFailed(_) => "未授权",
        CaptureError::BufferTimeout { .. } | CaptureError::ResampleFailed(_) => "未知",
    }
}

/// The mode a request selects: `server`, or `client` for anything else.
pub fn normalize_mode(mode: &str) -> (m: &'static str)
    ensures
        mode@ == "server"@ ==> m@ == "server"@,
        mode@ != "server"@ ==> m@ == "client"@,
{
    if str_equals(mode, "server") {
        "server"
    } else {
        "client"
    }
}

/// The microphone permission shown when a mode is selected: not
/// applicable on the server side, unknown on the client side.
pub fn mic_permission_for_mode(mode: &str) -> (s: &'static str)
    ensures
        mode@ == "server"@ ==> s@ == "不适用"@,
        mode@ != "server"@ ==> s@ == "未知"@,
{
    if str_equals(mode, "server") {
        "不适用"
    } else {
        "未知"
    }
}

/// Status and note after start: connecting for a client, listening for a
/// server.
pub fn start_status_for_mode(mode: &str) -> (r: (&'static str, &'static str))
    ensures
        mode@ == "client"@ ==> r.0@ == "connecting"@ && r.1@ == "正在建立连接"@,
        mode@ != "client"@ ==> r.0@ == "listening"@ && r.1@ == "等待客户端连接"@,
{
    if str_equals(mode, "client") {
        ("connecting", "正在建立连接")
    } else {
        ("listening", "等待客户端连接")
    }
}

/// Status and note that the front end shows for a state label of the
/// receiver.
pub open spec fn server_status_view_of(state: Seq<char>) -> (Seq<char>, Seq<char>) {
    if state == "listening"@ || state == "idle"@ {
        ("listening"@, "等待客户端连接"@)
    } else if state == "streaming"@ {
        ("streaming"@, "已连接客户端"@)
    } else if state == "reconnecting"@ {
        ("connecting"@, "等待客户端重连"@)
    } else {
        ("connecting"@, "服务端运行中"@)
    }
}

/// Status and note that the front end shows for a state label of the
/// receiver.
pub fn server_status_view(state: &str) -> (r: (&'static str, &'static str))
    ensures
        (r.0@, r.1@) == server_status_view_of(state@),
{
    if str_equals(state, "listening") || str_equals(state, "idle") {
        ("listening", "等待客户端连接")
    } else if str_equals(state, "streaming") {
        ("streaming", "已连接客户端")
    } else if str_equals(state, "reconnecting") {
        ("connecting", "等待客户端重连")
    } else {
        ("connecting", "服务端运行中")
    }
}

/// One line of the front end's log.
#[derive(Debug, Clone)]
pub struct UiLogEntry {
    pub ts_ms: u64,
    /// `info`, `warn` or `error`.
    pub level: String,
    pub message: String,
}

/// A log line as the contracts see it.
pub struct UiLogView {
    pub ts_ms: u64,
    pub level: Seq<char>,
    pub message: Seq<char>,
}

impl View for UiLogEntry {
    type V = UiLogView;

    open spec fn view(&self) -> UiLogView {
        UiLogView { ts_ms: self.ts_ms, level: self.level@, message: self.message@ }
    }
}

/// Runtime facts that the front end shows.
#[derive(Debug, Clone)]
pub struct UiRuntime {
    pub peer_addr: Option<String>,
    pub connected_seconds: u64,
    pub reconnect_attempts: u32,
    pub mic_permission: String,
    pub virtual_mic_name: String,
    pub virtual_mic_ready: bool,
    pub virtual_mic_error: Option<String>,
    pub server_status_updated_ms: u64,
    pub last_error: Option<String>,
}

/// The runtime facts as the contracts see them.
pub struct UiRuntimeView {
    pub peer_addr: Option<Seq<char>>,
    pub connected_seconds: u64,
    pub reconnect_attempts: u32,
    pub mic_permission: Seq<char>,
    pub virtual_mic_name: Seq<char>,
    pub virtual_mic_ready: bool,
    pub virtual_mic_error: Option<Seq<char>>,
    pub server_status_updated_ms: u64,
    pub last_error: Option<Seq<char>>,
}

/// The characters of an optional string.
pub open spec fn opt_chars(o: Option<String>) -> Option<Seq<char>> {
    match o {
        Some(s) => Some(s@),
        None => None,
    }
}

impl View for UiRuntime {
    type V = UiRuntimeView;

    open spec fn view(&self) -> UiRuntimeView {
        UiRuntimeView {
            peer_addr: opt_chars(self.peer_addr),
            connected_seconds: self.connected_seconds,
            reconnect_attempts: self.reconnect_attempts,
            mic_permission: self.mic_permission@,
            virtual_mic_name: self.virtual_mic_name@,
            virtual_mic_ready: self.virtual_mic_ready,
            virtual_mic_error: opt_chars(self.virtual_mic_error),
            server_status_updated_ms: self.server_status_updated_ms,
            last_error: opt_chars(self.last_error),
        }
    }
}

/// The front end's state: mode, status, configuration, runtime facts,
/// input devices and log. The float metrics and the audio level live with
/// the caller.
#[derive(Debug, Clone)]
pub struct UiState {
    pub mode: String,
    pub status: String,
    pub status_note: String,
    pub client_config: UiClientConfig,
    pub server_config: UiServerConfig,
    pub effective: SessionParams,
    /// The requested values that fell back to their defaults.
    pub fallbacks: Vec<FallbackEvent>,
    pub runtime: UiRuntime,
    pub devices: Vec<String>,
    pub logs: Vec<UiLogEntry>,
    pub streaming: bool,
    pub metrics_loop: bool,
    pub capture_loop: bool,
    pub server_monitor_loop: bool,
    pub connected_since_ms: Option<u64>,
    pub latest_audio_peak: u32,
}

/// The front end's state as the contracts see it.
pub struct UiStateView {
    pub mode: Seq<char>,
    pub status: Seq<char>,
    pub status_note: Seq<char>,
    pub client_config: UiClientConfig,
    pub server_config: UiServerConfig,
    pub effective: SessionParams,
    pub fallbacks: Seq<FallbackView>,
    pub runtime: UiRuntimeView,
    pub devices: Seq<Seq<char>>,
    pub logs: Seq<UiLogView>,
    pub streaming: bool,
    pub metrics_loop: bool,
    pub capture_loop: bool,
    pub server_monitor_loop: bool,
    pub connected_since_ms: Option<u64>,
    pub latest_audio_peak: u32,
}

impl View for UiState {
    type V = UiStateView;

    open spec fn view(&self) -> UiStateView {
        UiStateView {
            mode: self.mode@,
            status: self.status@,
            status_note: self.status_note@,
            client_config: self.client_config,
            server_config: self.server_config,
            effective: self.effective,
            fallbacks: fallback_views(self.fallbacks@),
            runtime: self.runtime@,
            devices: self.devices@.map_values(|d: String| d@),
            logs: self.logs@.map_values(|e: UiLogEntry| e@),
            streaming: self.streaming,
            metrics_loop: self.metrics_loop,
            capture_loop: self.capture_loop,
            server_monitor_loop: self.server_monitor_loop,
            connected_since_ms: self.connected_since_ms,
            latest_audio_peak: self.latest_audio_peak,
        }
    }
}

/// Most log lines kept.
pub const MAX_LOG_ENTRIES: usize = 200;

/// The log after a new line: newest first, at most `MAX_LOG_ENTRIES`
/// lines.
pub open spec fn log_pushed(logs: Seq<UiLogView>, ts_ms: u64, level: Seq<char>, message: Seq<char>) -> Seq<
    UiLogView,
> {
    let l = seq![UiLogView { ts_ms, level, message }] + logs;
    if l.len() > MAX_LOG_ENTRIES {
        l.take(MAX_LOG_ENTRIES as int)
    } else {
        l
    }
}

/// The input device list: the system default first, then the listed
/// devices other than it, in order.
pub open spec fn device_list(names: Seq<Seq<char>>) -> Seq<Seq<char>> {
    seq!["系统默认"@] + names.filter(|n: Seq<char>| n != "系统默认"@)
}

/// The reason shown for a refused handshake: the server's reason unless it
/// is missing or blank, then "refused".
pub open spec fn refusal_reason(reason: Option<String>) -> Seq<char> {
    match reason {
        Some(r) => if trimmed(r@).len() > 0 {
            r@
        } else {
            "被拒绝"@
        },
        None => "被拒绝"@,
    }
}

/// What the receiver reported of itself, as the front end uses it.
#[derive(Debug, Clone)]
pub struct ServerStatusView {
    pub state: String,
    pub active_client: Option<String>,
    pub active_client_seconds: u64,
    pub last_error: Option<String>,
    pub virtual_mic_name: String,
    pub virtual_mic_ready: bool,
    pub virtual_mic_error: Option<String>,
}

/// The log line that reports the receiver's virtual microphone.
pub open spec fn virtual_mic_log_line(st: ServerStatusView) -> Seq<char> {
    "服务端状态：虚拟麦="@ + (if st.virtual_mic_ready {
        "已就绪"@
    } else {
        "未就绪"@
    }) + "（"@ + st.virtual_mic_name@ + "），错误="@ + match st.virtual_mic_error {
        Some(e) => e@,
        None => "无"@,
    }
}

impl UiState {
    /// The state at start, from the persisted mode and configuration if
    /// there are any: idle, ready, the default parameters, the system
    /// default input, one log line.
    pub fn initial(
        persisted: Option<(String, UiClientConfig, UiServerConfig)>,
        now_ms: u64,
    ) -> (s: Self)
        ensures
            s@.mode == match persisted {
                Some(p) => if p.0@ == "server"@ {
                    "server"@
                } else {
                    "client"@
                },
                None => "client"@,
            },
            s@.status == "idle"@,
            s@.status_note == "准备就绪"@,
            persisted matches Some(p) ==> s@.client_config == p.1 && s@.server_config == p.2,
            persisted is None ==> is_default_client_config(s@.client_config, s@.effective),
            persisted is None ==> s@.server_config == (UiServerConfig {
                listen_port: 43000,
                force_takeover: false,
                virtual_mic_enabled: true,
            }),
            crate::protocol::is_mvp_default(s@.effective),
            s@.fallbacks == Seq::<FallbackView>::empty(),
            s@.runtime.peer_addr is None,
            s@.runtime.connected_seconds == 0,
            s@.runtime.reconnect_attempts == 0,
            s@.runtime.mic_permission == if s@.mode == "server"@ {
                "不适用"@
            } else {
                "未知"@
            },
            s@.runtime.virtual_mic_name == "NetMic Virtual Mic"@,
            !s@.runtime.virtual_mic_ready,
            s@.runtime.virtual_mic_error is None,
            s@.runtime.server_status_updated_ms == 0,
            s@.runtime.last_error is None,
            s@.devices == seq!["系统默认"@],
            s@.logs == seq![UiLogView { ts_ms: now_ms, level: "info"@, message: "UI 已就绪"@ }],
            !s@.streaming && !s@.metrics_loop && !s@.capture_loop && !s@.server_monitor_loop,
            s@.connected_since_ms is None,
            s@.latest_audio_peak == 0,
    {
        let default_params = SessionParams::mvp_default();
        let (client_config, server_config, mode) = match persisted {
            Some((mode, client_config, server_config)) => {
                let m = if str_equals(mode.as_str(), "server") {
                    String::from_str("server")
                } else {
                    String::from_str("client")
                };
                (client_config, server_config, m)
            },
            None => (
                default_client_config(&default_params),
                default_server_config(),
                String::from_str("client"),
            ),
        };
        let is_server = str_equals(mode.as_str(), "server");
        let mut devices: Vec<String> = Vec::new();
        devices.push(String::from_str(SYSTEM_DEFAULT_DEVICE));
        let mut logs: Vec<UiLogEntry> = Vec::new();
        logs.push(
            UiLogEntry {
                ts_ms: now_ms,
                level: String::from_str("info"),
                message: String::from_str("UI 已就绪"),
            },
        );
        let s = UiState {
            mode,
            status: String::from_str("idle"),
            status_note: String::from_str("准备就绪"),
            client_config,
            server_config,
            effective: default_params,
            fallbacks: Vec::new(),
            runtime: UiRuntime {
                peer_addr: None,
                connected_seconds: 0,
                reconnect_attempts: 0,
                mic_permission: if is_server {
                    String::from_str("不适用")
                } else {
                    String::from_str("未知")
                },
                virtual_mic_name: String::from_str("NetMic Virtual Mic"),
                virtual_mic_ready: false,
                virtual_mic_error: None,
                server_status_updated_ms: 0,
                last_error: None,
            },
            devices,
            logs,
            streaming: false,
            metrics_loop: false,
            capture_loop: false,
            server_monitor_loop: false,
            connected_since_ms: None,
            latest_audio_peak: 0,
        };
        assert(s@.devices =~= seq!["系统默认"@]);
        assert(s@.logs =~= seq![UiLogView { ts_ms: now_ms, level: "info"@, message: "UI 已就绪"@ }]);
        s
    }

    /// Adds a log line in front; the oldest lines beyond
    /// `MAX_LOG_ENTRIES` go.
    pub fn push_log(&mut self, level: &str, message: String, now_ms: u64)
        ensures
            final(self)@ == (UiStateView {
                logs: log_pushed(old(self)@.logs, now_ms, level@, message@),
                ..old(self)@
            }),
    {
        let entry = UiLogEntry { ts_ms: now_ms, level: String::from_str(level), message };
        let ghost ev = entry@;
        let ghost old_logs = self.logs@;
        self.logs.insert(0, entry);
        assert(self.logs@.map_values(|e: UiLogEntry| e@) =~= seq![ev] + old_logs.map_values(
            |e: UiLogEntry| e@,
        ));
        let ghost before_trunc = self.logs@;
        self.logs.truncate(MAX_LOG_ENTRIES);
        proof {
            let l = seq![ev] + old_logs.map_values(|e: UiLogEntry| e@);
            if before_trunc.len() > MAX_LOG_ENTRIES {
                assert(self.logs@.map_values(|e: UiLogEntry| e@) =~= l.take(MAX_LOG_ENTRIES as int));
            } else {
                assert(self.logs@.map_values(|e: UiLogEntry| e@) =~= l);
            }
        }
    }

    /// Recomputes the effective parameters from the sender settings (mono,
    /// an Opus bitrate only with `opus`), held to the safe ranges, and
    /// records the values that fell back (see `normalize_session_params`).
    pub fn update_effective(&mut self)
        ensures
            final(self)@ == (UiStateView {
                effective: final(self)@.effective,
                fallbacks: fallbacks_of(requested_of(old(self)@.client_config, 1)),
                ..old(self)@
            }),
            is_normalized(requested_of(old(self)@.client_config, 1), final(self)@.effective),
    {
        let requested = requested_params(&self.client_config, 1);
        let normalized = normalize_session_params(&requested);
        self.effective = normalized.effective;
        self.fallbacks = normalized.fallbacks;
    }

    /// Selects a mode: idle and ready, nothing connected, no error, not
    /// streaming; the microphone permission is not applicable on the
    /// server side and unknown on the client side; the effective
    /// parameters and fallbacks are recomputed (see `update_effective`).
    /// The caller zeroes the float metrics, refreshes the devices and saves
    /// the configuration.
    pub fn apply_set_mode(&mut self, mode: &str, now_ms: u64)
        ensures
            ({
                let m = if mode@ == "server"@ {
                    "server"@
                } else {
                    "client"@
                };
                final(self)@ == (UiStateView {
                    mode: m,
                    status: "idle"@,
                    status_note: "准备就绪"@,
                    runtime: UiRuntimeView {
                        peer_addr: None,
                        connected_seconds: 0,
                        mic_permission: if mode@ == "server"@ {
                            "不适用"@
                        } else {
                            "未知"@
                        },
                        last_error: None,
                        virtual_mic_ready: false,
                        virtual_mic_error: None,
                        ..old(self)@.runtime
                    },
                    streaming: false,
                    connected_since_ms: None,
                    latest_audio_peak: 0,
                    effective: final(self)@.effective,
                    fallbacks: fallbacks_of(requested_of(old(self)@.client_config, 1)),
                    logs: log_pushed(old(self)@.logs, now_ms, "info"@, "切换到 "@ + m + " 模式"@),
                    ..old(self)@
                })
            }),
            is_normalized(requested_of(old(self)@.client_config, 1), final(self)@.effective),
    {
        let m = normalize_mode(mode);
        self.mode = String::from_str(m);
        self.status = String::from_str("idle");
        self.status_note = String::from_str("准备就绪");
        self.runtime.peer_addr = None;
        self.runtime.connected_seconds = 0;
        self.runtime.mic_permission = String::from_str(mic_permission_for_mode(mode));
        self.runtime.last_error = None;
        self.runtime.virtual_mic_ready = false;
        self.runtime.virtual_mic_error = None;
        self.streaming = false;
        self.connected_since_ms = None;
        self.latest_audio_peak = 0;
        self.update_effective();
        let message = String::from_str("切换到 ").concat(m).concat(" 模式");
        self.push_log("info", message, now_ms);
    }

    /// Starts: streaming, connecting (client) or listening (server), no
    /// error, the connection clock reset.
    pub fn apply_start(&mut self, now_ms: u64)
        ensures
            final(self)@ == (UiStateView {
                streaming: true,
                connected_since_ms: None,
                status: if old(self)@.mode == "client"@ {
                    "connecting"@
                } else {
                    "listening"@
                },
                status_note: if old(self)@.mode == "client"@ {
                    "正在建立连接"@
                } else {
                    "等待客户端连接"@
                },
                runtime: UiRuntimeView { connected_seconds: 0, last_error: None, ..old(self)@.runtime },
                logs: log_pushed(old(self)@.logs, now_ms, "info"@, "开始运行"@),
                ..old(self)@
            }),
    {
        let (status, note) = start_status_for_mode(self.mode.as_str());
        self.streaming = true;
        self.connected_since_ms = None;
        self.runtime.connected_seconds = 0;
        self.runtime.last_error = None;
        self.status = String::from_str(status);
        self.status_note = String::from_str(note);
        self.push_log("info", String::from_str("开始运行"), now_ms);
    }

    /// Stops: idle, nothing connected, no error, virtual microphone not
    /// ready; the client side's permission goes back to unknown. The caller
    /// zeroes the float metrics.
    pub fn apply_stop(&mut self, now_ms: u64)
        ensures
            final(self)@ == (UiStateView {
                streaming: false,
                status: "idle"@,
                status_note: "已停止"@,
                connected_since_ms: None,
                latest_audio_peak: 0,
                runtime: UiRuntimeView {
                    peer_addr: None,
                    connected_seconds: 0,
                    mic_permission: if old(self)@.mode == "client"@ {
                        "未知"@
                    } else {
                        old(self)@.runtime.mic_permission
                    },
                    last_error: None,
                    virtual_mic_ready: false,
                    virtual_mic_error: None,
                    ..old(self)@.runtime
                },
                logs: log_pushed(old(self)@.logs, now_ms, "warn"@, "已停止运行"@),
                ..old(self)@
            }),
    {
        self.streaming = false;
        self.status = String::from_str("idle");
        self.status_note = String::from_str("已停止");
        self.runtime.peer_addr = None;
        self.runtime.connected_seconds = 0;
        self.connected_since_ms = None;
        self.latest_audio_peak = 0;
        if str_equals(self.mode.as_str(), "client") {
            self.runtime.mic_permission = String::from_str("未知");
        }
        self.runtime.last_error = None;
        self.runtime.virtual_mic_ready = false;
        self.runtime.virtual_mic_error = None;
        self.push_log("warn", String::from_str("已停止运行"), now_ms);
    }

    /// Drops the peer locally: listening, disconnected.
    pub fn apply_force_disconnect(&mut self, now_ms: u64)
        ensures
            final(self)@ == (UiStateView {
                status: "listening"@,
                status_note: "已断开客户端"@,
                runtime: UiRuntimeView { peer_addr: None, ..old(self)@.runtime },
                logs: log_pushed(old(self)@.logs, now_ms, "warn"@, "已强制断开客户端"@),
                ..old(self)@
            }),
    {
        self.runtime.peer_addr = None;
        self.status = String::from_str("listening");
        self.status_note = String::from_str("已断开客户端");
        self.push_log("warn", String::from_str("已强制断开客户端"), now_ms);
    }

    /// Back to the defaults: client mode, idle, default configuration and
    /// parameters, nothing running, the log cleared but for one line. The
    /// caller zeroes the float metrics, refreshes the devices and saves the
    /// configuration.
    pub fn apply_reset_defaults(&mut self, now_ms: u64)
        ensures
            final(self)@.mode == "client"@,
            final(self)@.status == "idle"@,
            final(self)@.status_note == "准备就绪"@,
            crate::protocol::is_mvp_default(final(self)@.effective),
            is_default_client_config(final(self)@.client_config, final(self)@.effective),
            final(self)@.fallbacks == Seq::<FallbackView>::empty(),
            final(self)@.server_config == (UiServerConfig {
                listen_port: 43000,
                force_takeover: false,
                virtual_mic_enabled: true,
            }),
            final(self)@.runtime == (UiRuntimeView {
                peer_addr: None,
                connected_seconds: 0,
                mic_permission: "未知"@,
                last_error: None,
                virtual_mic_ready: false,
                virtual_mic_error: None,
                ..old(self)@.runtime
            }),
            !final(self)@.streaming && !final(self)@.metrics_loop && !final(self)@.capture_loop
                && !final(self)@.server_monitor_loop,
            final(self)@.connected_since_ms is None,
            final(self)@.latest_audio_peak == 0,
            final(self)@.devices == old(self)@.devices,
            final(self)@.logs == seq![UiLogView { ts_ms: now_ms, level: "info"@, message: "已恢复默认配置"@ }],
    {
        let default_params = SessionParams::mvp_default();
        self.mode = String::from_str("client");
        self.status = String::from_str("idle");
        self.status_note = String::from_str("准备就绪");
        self.client_config = default_client_config(&default_params);
        self.server_config = default_server_config();
        self.effective = default_params;
        self.fallbacks.clear();
        self.runtime.peer_addr = None;
        self.runtime.connected_seconds = 0;
        self.runtime.mic_permission = String::from_str("未知");
        self.runtime.last_error = None;
        self.runtime.virtual_mic_ready = false;
        self.runtime.virtual_mic_error = None;
        self.streaming = false;
        self.metrics_loop = false;
        self.capture_loop = false;
        self.server_monitor_loop = false;
        self.connected_since_ms = None;
        self.latest_audio_peak = 0;
        self.logs.clear();
        self.push_log("info", String::from_str("已恢复默认配置"), now_ms);
        assert(final_logs_single(self.logs@, now_ms));
    }
}

impl UiState {
    /// Refreshes the input device list from the devices found (the system
    /// default first, then the others); when listing failed, only the
    /// system default, and a warning in the log.
    pub fn set_devices(&mut self, listed: Result<Vec<String>, String>, now_ms: u64)
        ensures
            listed matches Ok(names) ==> final(self)@ == (UiStateView {
                devices: device_list(names@.map_values(|d: String| d@)),
                ..old(self)@
            }),
            listed matches Err(e) ==> final(self)@ == (UiStateView {
                devices: seq!["系统默认"@],
                logs: log_pushed(old(self)@.logs, now_ms, "warn"@, "输入设备枚举失败："@ + e@),
                ..old(self)@
            }),
    {
        let mut devices: Vec<String> = Vec::new();
        devices.push(String::from_str(SYSTEM_DEFAULT_DEVICE));
        match listed {
            Ok(names) => {
                let ghost nv = names@.map_values(|d: String| d@);
                let ghost keep = |n: Seq<char>| n != "系统默认"@;
                let n = names.len();
                for i in 0..n
                    invariant
                        n == names@.len(),
                        nv == names@.map_values(|d: String| d@),
                        keep == (|n: Seq<char>| n != "系统默认"@),
                        devices@.map_values(|d: String| d@) == seq!["系统默认"@] + nv.take(i as int).filter(keep),
                {
                    let ghost t = nv.take(i + 1);
                    let ghost before = devices@.map_values(|d: String| d@);
                    assert(t.drop_last() =~= nv.take(i as int));
                    assert(t.last() == names@[i as int]@);
                    assert(t.filter(keep) == if keep(t.last()) {
                        t.drop_last().filter(keep).push(t.last())
                    } else {
                        t.drop_last().filter(keep)
                    }) by {
                        reveal_with_fuel(Seq::<_>::filter, 1);
                    }
                    let name = &names[i];
                    if !str_equals(name.as_str(), SYSTEM_DEFAULT_DEVICE) {
                        devices.push(name.clone());
                        assert(devices@.map_values(|d: String| d@) =~= before.push(name@));
                    }
                    assert(devices@.map_values(|d: String| d@) =~= seq!["系统默认"@] + t.filter(keep));
                }
                assert(nv.take(n as int) =~= nv);
                self.devices = devices;
            },
            Err(e) => {
                assert(devices@.map_values(|d: String| d@) =~= seq!["系统默认"@]);
                self.devices = devices;
                let message = String::from_str("输入设备枚举失败：").concat(e.as_str());
                self.push_log("warn", message, now_ms);
            },
        }
    }
}

impl UiState {
    fn fail_handshake(&mut self, note: String, level: &str, now_ms: u64)
        ensures
            final(self)@ == (UiStateView {
                streaming: false,
                status: "error"@,
                status_note: note@,
                connected_since_ms: None,
                runtime: UiRuntimeView {
                    peer_addr: None,
                    connected_seconds: 0,
                    last_error: Some(note@),
                    ..old(self)@.runtime
                },
                logs: log_pushed(old(self)@.logs, now_ms, level@, note@),
                ..old(self)@
            }),
    {
        self.streaming = false;
        self.status = String::from_str("error");
        self.status_note = note.clone();
        self.runtime.peer_addr = None;
        self.runtime.connected_seconds = 0;
        self.runtime.last_error = Some(note.clone());
        self.connected_since_ms = None;
        self.push_log(level, note, now_ms);
    }

    /// Applies the outcome of a handshake with `server_addr`: streaming on
    /// an accepted, non-busy reply (with the server's parameters);
    /// otherwise stopped, in error, with a note that says why (server busy,
    /// the refusal reason, or the transport error). Tells whether the
    /// handshake succeeded; where it did not, the caller zeroes the float
    /// metrics.
    pub fn apply_handshake_outcome(
        &mut self,
        server_addr: &str,
        response: Result<HandshakeResponse, String>,
        now_ms: u64,
    ) -> (accepted: bool)
        ensures
            match response {
                Ok(resp) => if resp.accepted && !resp.busy {
                    &&& accepted
                    &&& final(self)@ == (UiStateView {
                        effective: resp.effective,
                        status: "streaming"@,
                        status_note: "推流中（握手成功）"@,
                        runtime: UiRuntimeView {
                            peer_addr: Some(server_addr@),
                            last_error: None,
                            ..old(self)@.runtime
                        },
                        logs: log_pushed(old(self)@.logs, now_ms, "info"@, "握手成功，已进入推流状态"@),
                        ..old(self)@
                    })
                } else {
                    let note = if resp.busy {
                        "握手失败：服务端忙"@
                    } else {
                        "握手失败："@ + refusal_reason(resp.reason)
                    };
                    &&& !accepted
                    &&& final(self)@ == (UiStateView {
                        streaming: false,
                        status: "error"@,
                        status_note: note,
                        connected_since_ms: None,
                        runtime: UiRuntimeView {
                            peer_addr: None,
                            connected_seconds: 0,
                            last_error: Some(note),
                            ..old(self)@.runtime
                        },
                        logs: log_pushed(old(self)@.logs, now_ms, if resp.busy {
                            "warn"@
                        } else {
                            "error"@
                        }, note),
                        ..old(self)@
                    })
                },
                Err(err) => {
                    let note = "握手失败："@ + err@;
                    &&& !accepted
                    &&& final(self)@ == (UiStateView {
                        streaming: false,
                        status: "error"@,
                        status_note: note,
                        connected_since_ms: None,
                        runtime: UiRuntimeView {
                            peer_addr: None,
                            connected_seconds: 0,
                            last_error: Some(note),
                            ..old(self)@.runtime
                        },
                        logs: log_pushed(old(self)@.logs, now_ms, "error"@, note),
                        ..old(self)@
                    })
                },
            },
    {
        match response {
            Ok(resp) => {
                if resp.accepted && !resp.busy {
                    self.effective = resp.effective;
                    self.status = String::from_str("streaming");
                    self.status_note = String::from_str("推流中（握手成功）");
                    self.runtime.peer_addr = Some(String::from_str(server_addr));
                    self.runtime.last_error = None;
                    self.push_log("info", String::from_str("握手成功，已进入推流状态"), now_ms);
                    true
                } else if resp.busy {
                    self.fail_handshake(String::from_str("握手失败：服务端忙"), "warn", now_ms);
                    false
                } else {
                    let reason = match resp.reason {
                        Some(r) => if is_blank(r.as_str()) {
                            String::from_str("被拒绝")
                        } else {
                            r
                        },
                        None => String::from_str("被拒绝"),
                    };
                    let note = String::from_str("握手失败：").concat(reason.as_str());
                    self.fail_handshake(note, "error", now_ms);
                    false
                }
            },
            Err(err) => {
                let note = String::from_str("握手失败：").concat(err.as_str());
                self.fail_handshake(note, "error", now_ms);
                false
            },
        }
    }

    /// Shows what the receiver reported: its state (see
    /// `server_status_view`), its client, error and virtual microphone. The
    /// caller copies the statistics into the float metrics.
    pub fn apply_server_status(&mut self, status: ServerStatusView, now_ms: u64)
        ensures
            final(self)@ == status_applied(old(self)@, status, now_ms),
    {
        let (ui_status, note) = server_status_view(status.state.as_str());
        self.status = String::from_str(ui_status);
        self.status_note = String::from_str(note);
        self.runtime.peer_addr = status.active_client;
        self.runtime.connected_seconds = status.active_client_seconds;
        self.runtime.last_error = status.last_error;
        self.runtime.virtual_mic_name = status.virtual_mic_name;
        self.runtime.virtual_mic_ready = status.virtual_mic_ready;
        self.runtime.virtual_mic_error = status.virtual_mic_error;
        self.runtime.server_status_updated_ms = now_ms;
    }

    /// The receiver did not answer: in error, "server not responding",
    /// nothing connected, virtual microphone not ready. The caller zeroes
    /// the float metrics.
    pub fn apply_server_status_error(&mut self, err: String, now_ms: u64)
        ensures
            final(self)@ == status_error_applied(old(self)@, err@, now_ms),
    {
        self.status = String::from_str("error");
        self.status_note = String::from_str("服务端未响应");
        self.runtime.peer_addr = None;
        self.runtime.connected_seconds = 0;
        self.runtime.last_error = Some(err);
        self.runtime.virtual_mic_ready = false;
        self.runtime.virtual_mic_error = Some(String::from_str("服务端未响应"));
        self.runtime.server_status_updated_ms = now_ms;
    }
}

/// The state after the receiver's report is shown.
pub open spec fn status_applied(v: UiStateView, status: ServerStatusView, now_ms: u64) -> UiStateView {
    UiStateView {
        status: server_status_view_of(status.state@).0,
        status_note: server_status_view_of(status.state@).1,
        runtime: UiRuntimeView {
            peer_addr: opt_chars(status.active_client),
            connected_seconds: status.active_client_seconds,
            last_error: opt_chars(status.last_error),
            virtual_mic_name: status.virtual_mic_name@,
            virtual_mic_ready: status.virtual_mic_ready,
            virtual_mic_error: opt_chars(status.virtual_mic_error),
            server_status_updated_ms: now_ms,
            ..v.runtime
        },
        ..v
    }
}

/// The state after the receiver failed to answer.
pub open spec fn status_error_applied(v: UiStateView, err: Seq<char>, now_ms: u64) -> UiStateView {
    UiStateView {
        status: "error"@,
        status_note: "服务端未响应"@,
        runtime: UiRuntimeView {
            peer_addr: None,
            connected_seconds: 0,
            last_error: Some(err),
            virtual_mic_ready: false,
            virtual_mic_error: Some("服务端未响应"@),
            server_status_updated_ms: now_ms,
            ..v.runtime
        },
        ..v
    }
}

/// Whether a report differs, in what the log tells of the virtual
/// microphone, from what is shown (or nothing was shown yet).
pub open spec fn status_worth_logging(v: UiStateView, st: ServerStatusView) -> bool {
    ||| v.runtime.server_status_updated_ms == 0
    ||| st.virtual_mic_ready != v.runtime.virtual_mic_ready
    ||| opt_chars(st.virtual_mic_error) != v.runtime.virtual_mic_error
    ||| st.virtual_mic_name@ != v.runtime.virtual_mic_name
}

/// The state after a status poll of the receiver at `server_addr`.
pub open spec fn status_polled(v: UiStateView, server_addr: Seq<char>, result: Result<ServerStatusView, String>, now_ms: u64) -> UiStateView {
    let first = v.runtime.server_status_updated_ms == 0;
    match result {
        Ok(st) => {
            let logs1 = if status_worth_logging(v, st) {
                log_pushed(v.logs, now_ms, if st.virtual_mic_ready {
                    "info"@
                } else {
                    "warn"@
                }, virtual_mic_log_line(st))
            } else {
                v.logs
            };
            let logs2 = if first {
                log_pushed(logs1, now_ms, "info"@, "已拉取服务端状态（"@ + server_addr + "）"@)
            } else if v.runtime.last_error is Some {
                log_pushed(logs1, now_ms, "info"@, "服务端状态拉取已恢复（"@ + server_addr + "）"@)
            } else {
                logs1
            };
            UiStateView { logs: logs2, ..status_applied(v, st, now_ms) }
        },
        Err(e) => {
            let applied = status_error_applied(v, e@, now_ms);
            if v.runtime.last_error != Some(e@) {
                UiStateView {
                    logs: log_pushed(v.logs, now_ms, "error"@, "服务端状态拉取失败（"@ + server_addr + "）："@ + e@),
                    ..applied
                }
            } else {
                applied
            }
        },
    }
}

/// The error shown when the receiver did not answer a command.
pub open spec fn no_answer_error(e: Seq<char>) -> Seq<char> {
    "服务端未响应："@ + e
}

/// The log line when the receiver at `server_addr` did not answer.
pub open spec fn no_answer_log(server_addr: Seq<char>, e: Seq<char>) -> Seq<char> {
    "服务端未响应（"@ + server_addr + "）："@ + e
}

fn same_opt(a: &Option<String>, b: &Option<String>) -> (r: bool)
    ensures
        r == (opt_chars(*a) == opt_chars(*b)),
{
    match (a, b) {
        (Some(x), Some(y)) => str_equals(x.as_str(), y.as_str()),
        (None, None) => true,
        _ => false,
    }
}

impl UiState {
    /// Records a status poll of the receiver at `server_addr`: shows the
    /// report (or the failure), logs the virtual microphone when it changed
    /// or on the first report, and notes the first report, a recovery, or a
    /// new failure.
    pub fn record_server_status(
        &mut self,
        server_addr: &str,
        result: Result<ServerStatusView, String>,
        now_ms: u64,
    )
        ensures
            final(self)@ == status_polled(old(self)@, server_addr@, result, now_ms),
    {
        let first = self.runtime.server_status_updated_ms == 0;
        let had_error = self.runtime.last_error.is_some();
        match result {
            Ok(st) => {
                let changed = first || st.virtual_mic_ready != self.runtime.virtual_mic_ready
                    || !same_opt(&st.virtual_mic_error, &self.runtime.virtual_mic_error)
                    || !str_equals(st.virtual_mic_name.as_str(), self.runtime.virtual_mic_name.as_str());
                if changed {
                    let ready = if st.virtual_mic_ready {
                        "已就绪"
                    } else {
                        "未就绪"
                    };
                    let error_note = match &st.virtual_mic_error {
                        Some(e) => e.clone(),
                        None => String::from_str("无"),
                    };
                    let message = String::from_str("服务端状态：虚拟麦=").concat(ready).concat("（").concat(
                        st.virtual_mic_name.as_str(),
                    ).concat("），错误=").concat(error_note.as_str());
                    let level = if st.virtual_mic_ready {
                        "info"
                    } else {
                        "warn"
                    };
                    self.push_log(level, message, now_ms);
                }
                self.apply_server_status(st, now_ms);
                if first {
                    let message = String::from_str("已拉取服务端状态（").concat(server_addr).concat("）");
                    self.push_log("info", message, now_ms);
                } else if had_error {
                    let message = String::from_str("服务端状态拉取已恢复（").concat(server_addr).concat("）");
                    self.push_log("info", message, now_ms);
                }
            },
            Err(err) => {
                let should_log = match &self.runtime.last_error {
                    Some(prev) => !str_equals(prev.as_str(), err.as_str()),
                    None => true,
                };
                let message = String::from_str("服务端状态拉取失败（").concat(server_addr).concat("）：").concat(
                    err.as_str(),
                );
                self.apply_server_status_error(err, now_ms);
                if should_log {
                    self.push_log("error", message, now_ms);
                }
            },
        }
    }

    /// Records the receiver's answer to a forced disconnect sent to
    /// `server_addr`: on success listening and disconnected; otherwise the
    /// refusal or the missing answer as the last error.
    pub fn apply_force_disconnect_result(
        &mut self,
        server_addr: &str,
        result: Result<crate::protocol::ServerCommandResponse, String>,
        now_ms: u64,
    )
        ensures
            match result {
                Ok(resp) => if resp.ok {
                    final(self)@ == (UiStateView {
                        status: "listening"@,
                        status_note: "已断开客户端"@,
                        runtime: UiRuntimeView {
                            peer_addr: None,
                            connected_seconds: 0,
                            last_error: None,
                            ..old(self)@.runtime
                        },
                        logs: log_pushed(old(self)@.logs, now_ms, "warn"@, "已向服务端发送强制断开命令"@),
                        ..old(self)@
                    })
                } else {
                    let m = match resp.message {
                        Some(m) => m@,
                        None => "服务端拒绝强制断开"@,
                    };
                    final(self)@ == (UiStateView {
                        runtime: UiRuntimeView { last_error: Some(m), ..old(self)@.runtime },
                        logs: log_pushed(old(self)@.logs, now_ms, "error"@, m),
                        ..old(self)@
                    })
                },
                Err(e) => final(self)@ == (UiStateView {
                    runtime: UiRuntimeView { last_error: Some(no_answer_error(e@)), ..old(self)@.runtime },
                    logs: log_pushed(old(self)@.logs, now_ms, "error"@, no_answer_log(server_addr@, e@)),
                    ..old(self)@
                }),
            },
    {
        match result {
            Ok(resp) => {
                if resp.ok {
                    self.push_log("warn", String::from_str("已向服务端发送强制断开命令"), now_ms);
                    self.runtime.peer_addr = None;
                    self.status = String::from_str("listening");
                    self.status_note = String::from_str("已断开客户端");
                    self.runtime.connected_seconds = 0;
                    self.runtime.last_error = None;
                } else {
                    let message = match resp.message {
                        Some(m) => m,
                        None => String::from_str("服务端拒绝强制断开"),
                    };
                    self.runtime.last_error = Some(message.clone());
                    self.push_log("error", message, now_ms);
                }
            },
            Err(err) => {
                self.runtime.last_error = Some(String::from_str("服务端未响应：").concat(err.as_str()));
                let message = String::from_str("服务端未响应（").concat(server_addr).concat("）：").concat(
                    err.as_str(),
                );
                self.push_log("error", message, now_ms);
            },
        }
    }

    /// Records the receiver's answer to a command sent to `server_addr`:
    /// `ok_message` in the log on success; otherwise the receiver's message
    /// (or `fail_prefix`), or the missing answer, as the last error.
    pub fn apply_server_command_result(
        &mut self,
        server_addr: &str,
        result: Result<crate::protocol::ServerCommandResponse, String>,
        ok_message: &str,
        fail_prefix: &str,
        now_ms: u64,
    )
        ensures
            match result {
                Ok(resp) => if resp.ok {
                    final(self)@ == (UiStateView {
                        runtime: UiRuntimeView { last_error: None, ..old(self)@.runtime },
                        logs: log_pushed(old(self)@.logs, now_ms, "info"@, ok_message@),
                        ..old(self)@
                    })
                } else {
                    let m = match resp.message {
                        Some(m) => m@,
                        None => fail_prefix@,
                    };
                    final(self)@ == (UiStateView {
                        runtime: UiRuntimeView { last_error: Some(m), ..old(self)@.runtime },
                        logs: log_pushed(old(self)@.logs, now_ms, "error"@, m),
                        ..old(self)@
                    })
                },
                Err(e) => final(self)@ == (UiStateView {
                    runtime: UiRuntimeView { last_error: Some(no_answer_error(e@)), ..old(self)@.runtime },
                    logs: log_pushed(old(self)@.logs, now_ms, "error"@, no_answer_log(server_addr@, e@)),
                    ..old(self)@
                }),
            },
    {
        match result {
            Ok(resp) => {
                if resp.ok {
                    self.runtime.last_error = None;
                    self.push_log("info", String::from_str(ok_message), now_ms);
                } else {
                    let message = match resp.message {
                        Some(m) => m,
                        None => String::from_str(fail_prefix),
                    };
                    self.runtime.last_error = Some(message.clone());
                    self.push_log("error", message, now_ms);
                }
            },
            Err(err) => {
                self.runtime.last_error = Some(String::from_str("服务端未响应：").concat(err.as_str()));
                let message = String::from_str("服务端未响应（").concat(server_addr).concat("）：").concat(
                    err.as_str(),
                );
                self.push_log("error", message, now_ms);
            },
        }
    }
}

/// The log keeps its newest line first and never holds more than
/// `MAX_LOG_ENTRIES` lines.
pub proof fn lemma_log_bounded(logs: Seq<UiLogView>, ts_ms: u64, level: Seq<char>, message: Seq<char>)
    ensures
        log_pushed(logs, ts_ms, level, message).len() <= MAX_LOG_ENTRIES,
        log_pushed(logs, ts_ms, level, message)[0] == (UiLogView { ts_ms, level, message }),
        logs.len() < MAX_LOG_ENTRIES ==> log_pushed(logs, ts_ms, level, message).len() == logs.len() + 1,
{
}

/// The levels a log line may have: `info`, `warn` or `error`.
pub open spec fn is_log_level(level: Seq<char>) -> bool {
    level == "info"@ || level == "warn"@ || level == "error"@
}

/// Every line of the log has one of the three levels.
pub open spec fn log_levels_ok(logs: Seq<UiLogView>) -> bool {
    forall|i: int| 0 <= i < logs.len() ==> is_log_level(#[trigger] logs[i].level)
}

/// A new line at one of the three levels keeps every line of the log at
/// one of them.
pub proof fn lemma_log_levels_kept(logs: Seq<UiLogView>, ts_ms: u64, level: Seq<char>, message: Seq<char>)
    requires
        log_levels_ok(logs),
        is_log_level(level),
    ensures
        log_levels_ok(log_pushed(logs, ts_ms, level, message)),
{
    let l = seq![UiLogView { ts_ms, level, message }] + logs;
    assert forall|i: int| 0 <= i < l.len() implies is_log_level(#[trigger] l[i].level) by {
        if i > 0 {
            assert(l[i] == logs[i - 1]);
        }
    }
}

spec fn final_logs_single(logs: Seq<UiLogEntry>, now_ms: u64) -> bool {
    logs.map_values(|e: UiLogEntry| e@) =~= seq![UiLogView { ts_ms: now_ms, level: "info"@, message: "已恢复默认配置"@ }]
}

/// The front end's background loops.
#[derive(Debug, Clone, Copy, PartialEq, Eq, Structural)]
pub enum UiLoop {
    /// Ticks the connection clock and the metrics once a second.
    Metrics,
    /// Captures the microphone for the level meter (sender side).
    Capture,
    /// Polls the receiver's status (receiver side).
    ServerMonitor,
}

/// Whether a loop is marked running.
pub open spec fn loop_running(v: UiStateView, which: UiLoop) -> bool {
    match which {
        UiLoop::Metrics => v.metrics_loop,
        UiLoop::Capture => v.capture_loop,
        UiLoop::ServerMonitor => v.server_monitor_loop,
    }
}

/// The state with a loop marked running (`on`) or stopped.
pub open spec fn with_loop(v: UiStateView, which: UiLoop, on: bool) -> UiStateView {
    match which {
        UiLoop::Metrics => UiStateView { metrics_loop: on, ..v },
        UiLoop::Capture => UiStateView { capture_loop: on, ..v },
        UiLoop::ServerMonitor => UiStateView { server_monitor_loop: on, ..v },
    }
}

/// Whether a loop goes on: the metrics loop while streaming, the capture
/// loop while streaming on the sender side, the monitor loop while
/// streaming on the receiver side.
pub open spec fn loop_should_run(v: UiStateView, which: UiLoop) -> bool {
    v.streaming && match which {
        UiLoop::Metrics => true,
        UiLoop::Capture => v.mode == "client"@,
        UiLoop::ServerMonitor => v.mode == "server"@,
    }
}

/// The largest absolute value of the samples (0 for none).
pub open spec fn peak_of(samples: Seq<i16>) -> int
    decreases samples.len(),
{
    if samples.len() == 0 {
        0
    } else {
        let x = samples.last() as int;
        let a = if x < 0 {
            -x
        } else {
            x
        };
        let rest = peak_of(samples.drop_last());
        if a > rest {
            a
        } else {
            rest
        }
    }
}

/// The peak level of a captured frame: the largest absolute sample value.
pub fn frame_peak(samples: &[i16]) -> (p: u32)
    ensures
        p == peak_of(samples@),
{
    let n = samples.len();
    let mut peak: u32 = 0;
    for i in 0..n
        invariant
            n == samples@.len(),
            peak == peak_of(samples@.take(i as int)),
            peak <= 32768,
    {
        let x = samples[i];
        let a: u32 = if x < 0 {
            (0i32 - x as i32) as u32
        } else {
            x as u32
        };
        assert(samples@.take(i + 1).drop_last() =~= samples@.take(i as int));
        assert(samples@.take(i + 1).last() == x);
        if a > peak {
            peak = a;
        }
    }
    assert(samples@.take(n as int) =~= samples@);
    peak
}

/// The state after capture stopped with an error: in error, "microphone
/// capture failed", not streaming, the connection clock and the level
/// cleared, the capture loop ended, the message kept and logged.
pub open spec fn capture_failed(v: UiStateView, message: Seq<char>, now_ms: u64) -> UiStateView {
    UiStateView {
        status: "error"@,
        status_note: "麦克风采集失败"@,
        streaming: false,
        connected_since_ms: None,
        latest_audio_peak: 0,
        runtime: UiRuntimeView { last_error: Some(message), ..v.runtime },
        logs: log_pushed(v.logs, now_ms, "error"@, message),
        capture_loop: false,
        ..v
    }
}

impl UiState {
    /// Marks a loop running. Tells whether it was not running before, that
    /// is whether the caller is to start it.
    pub fn claim_loop(&mut self, which: UiLoop) -> (claimed: bool)
        ensures
            claimed == !loop_running(old(self)@, which),
            final(self)@ == with_loop(old(self)@, which, true),
    {
        match which {
            UiLoop::Metrics => {
                let was = self.metrics_loop;
                self.metrics_loop = true;
                !was
            },
            UiLoop::Capture => {
                let was = self.capture_loop;
                self.capture_loop = true;
                !was
            },
            UiLoop::ServerMonitor => {
                let was = self.server_monitor_loop;
                self.server_monitor_loop = true;
                !was
            },
        }
    }

    /// Whether a running loop goes on (see `loop_should_run`); a loop that
    /// does not is marked stopped.
    pub fn loop_continues(&mut self, which: UiLoop) -> (go_on: bool)
        ensures
            go_on == loop_should_run(old(self)@, which),
            go_on ==> final(self)@ == old(self)@,
            !go_on ==> final(self)@ == with_loop(old(self)@, which, false),
    {
        let mode_ok = match which {
            UiLoop::Metrics => true,
            UiLoop::Capture => str_equals(self.mode.as_str(), "client"),
            UiLoop::ServerMonitor => str_equals(self.mode.as_str(), "server"),
        };
        if self.streaming && mode_ok {
            true
        } else {
            match which {
                UiLoop::Metrics => self.metrics_loop = false,
                UiLoop::Capture => self.capture_loop = false,
                UiLoop::ServerMonitor => self.server_monitor_loop = false,
            }
            false
        }
    }

    /// One tick of the connection clock while streaming: the clock starts
    /// at the first tick, and the connected time is the whole seconds
    /// since. Nothing changes when not streaming. The caller fills the
    /// float metrics.
    pub fn tick_connection_clock(&mut self, now_ms: u64)
        ensures
            !old(self)@.streaming ==> final(self)@ == old(self)@,
            old(self)@.streaming ==> ({
                let since = match old(self)@.connected_since_ms {
                    Some(t) => t,
                    None => now_ms,
                };
                final(self)@ == (UiStateView {
                    connected_since_ms: Some(since),
                    runtime: UiRuntimeView {
                        connected_seconds: (crate::client::elapsed_ms(now_ms, since) / 1000) as u64,
                        ..old(self)@.runtime
                    },
                    ..old(self)@
                })
            }),
    {
        if !self.streaming {
            return;
        }
        let since = match self.connected_since_ms {
            Some(t) => t,
            None => now_ms,
        };
        self.connected_since_ms = Some(since);
        let elapsed = if now_ms >= since {
            now_ms - since
        } else {
            0
        };
        self.runtime.connected_seconds = elapsed / 1000;
    }

    /// Capture could not be set up: see `capture_failed`, with the message
    /// "capture setup failed: ..." and the microphone permission read from
    /// the error.
    pub fn apply_capture_start_failure(&mut self, err: &CaptureError, now_ms: u64)
        ensures
            ({
                let failed = capture_failed(
                    old(self)@,
                    "采集初始化失败："@ + crate::audio::capture_error_text(*err),
                    now_ms,
                );
                final(self)@ == (UiStateView {
                    runtime: UiRuntimeView {
                        mic_permission: permission_label_of(*err),
                        ..failed.runtime
                    },
                    ..failed
                })
            }),
    {
        let message = String::from_str("采集初始化失败：").concat(err.message().as_str());
        self.status = String::from_str("error");
        self.status_note = String::from_str("麦克风采集失败");
        self.streaming = false;
        self.connected_since_ms = None;
        self.latest_audio_peak = 0;
        self.runtime.last_error = Some(message.clone());
        self.runtime.mic_permission = String::from_str(permission_label_from_error(err));
        self.push_log("error", message, now_ms);
        self.capture_loop = false;
    }

    /// Reading a frame failed: see `capture_failed`, with the message
    /// "capture failed: ...".
    pub fn apply_capture_failure(&mut self, err: &CaptureError, now_ms: u64)
        ensures
            final(self)@ == capture_failed(
                old(self)@,
                "采集失败："@ + crate::audio::capture_error_text(*err),
                now_ms,
            ),
    {
        let message = String::from_str("采集失败：").concat(err.message().as_str());
        self.status = String::from_str("error");
        self.status_note = String::from_str("麦克风采集失败");
        self.streaming = false;
        self.connected_since_ms = None;
        self.latest_audio_peak = 0;
        self.runtime.last_error = Some(message.clone());
        self.push_log("error", message, now_ms);
        self.capture_loop = false;
    }

    /// A frame was captured: its peak becomes the latest level, and on the
    /// sender side the microphone counts as granted. The caller keeps the
    /// float level and the waveform.
    pub fn apply_captured_frame(&mut self, samples: &[i16])
        ensures
            final(self)@ == (UiStateView {
                latest_audio_peak: peak_of(samples@) as u32,
                runtime: UiRuntimeView {
                    mic_permission: if old(self)@.mode == "client"@ {
                        "已授权"@
                    } else {
                        old(self)@.runtime.mic_permission
                    },
                    ..old(self)@.runtime
                },
                ..old(self)@
            }),
    {
        self.latest_audio_peak = frame_peak(samples);
        if str_equals(self.mode.as_str(), "client") {
            self.runtime.mic_permission = String::from_str("已授权");
        }
    }
}

impl UiState {
    /// Whether the outcome of a handshake still matters when it arrives:
    /// the front end is still streaming on the sender side (a stop or a
    /// mode change meanwhile makes it moot).
    pub fn handshake_outcome_wanted(&self) -> (r: bool)
        ensures
            r == (self@.streaming && self@.mode == "client"@),
    {
        self.streaming && str_equals(self.mode.as_str(), "client")
    }
}

impl UiState {
    /// The receiver could not be started when starting: in error, "server
    /// failed to start", the error kept and logged.
    pub fn apply_server_start_failure(&mut self, err: String, now_ms: u64)
        ensures
            final(self)@ == (UiStateView {
                status: "error"@,
                status_note: "服务端启动失败"@,
                runtime: UiRuntimeView { last_error: Some(err@), ..old(self)@.runtime },
                logs: log_pushed(old(self)@.logs, now_ms, "error"@, "服务端启动失败："@ + err@),
                ..old(self)@
            }),
    {
        let message = String::from_str("服务端启动失败：").concat(err.as_str());
        self.status = String::from_str("error");
        self.status_note = String::from_str("服务端启动失败");
        self.runtime.last_error = Some(err);
        self.push_log("error", message, now_ms);
    }

    /// Whether a receiver command may be sent: only on the receiver side;
    /// otherwise a warning goes to the log.
    pub fn server_command_allowed(&mut self, now_ms: u64) -> (allowed: bool)
        ensures
            allowed == (old(self)@.mode == "server"@),
            allowed ==> final(self)@ == old(self)@,
            !allowed ==> final(self)@ == (UiStateView {
                logs: log_pushed(old(self)@.logs, now_ms, "warn"@, "仅服务端模式支持该操作"@),
                ..old(self)@
            }),
    {
        if str_equals(self.mode.as_str(), "server") {
            true
        } else {
            self.push_log("warn", String::from_str("仅服务端模式支持该操作"), now_ms);
            false
        }
    }

    /// The receiver could not be started for a command: the error kept and
    /// logged.
    pub fn apply_server_launch_error(&mut self, err: String, now_ms: u64)
        ensures
            final(self)@ == (UiStateView {
                runtime: UiRuntimeView { last_error: Some(err@), ..old(self)@.runtime },
                logs: log_pushed(old(self)@.logs, now_ms, "error"@, "服务端启动失败："@ + err@),
                ..old(self)@
            }),
    {
        let message = String::from_str("服务端启动失败：").concat(err.as_str());
        self.runtime.last_error = Some(err);
        self.push_log("error", message, now_ms);
    }

    /// New receiver settings, noted in the log. The caller saves them.
    pub fn apply_set_server_config(&mut self, config: UiServerConfig, now_ms: u64)
        ensures
            final(self)@ == (UiStateView {
                server_config: config,
                logs: log_pushed(old(self)@.logs, now_ms, "info"@, "已更新服务端配置"@),
                ..old(self)@
            }),
    {
        self.server_config = config;
        self.push_log("info", String::from_str("已更新服务端配置"), now_ms);
    }

    /// New sender settings, always mono: the effective parameters and the
    /// fallbacks are recomputed (see `update_effective`) and the change is
    /// noted in the log. The caller saves them.
    pub fn apply_set_client_config(&mut self, config: UiClientConfig, now_ms: u64)
        ensures
            final(self)@ == (UiStateView {
                client_config: UiClientConfig { channels: 1, ..config },
                effective: final(self)@.effective,
                fallbacks: fallbacks_of(requested_of(UiClientConfig { channels: 1, ..config }, 1)),
                logs: log_pushed(old(self)@.logs, now_ms, "info"@, "已更新客户端配置"@),
                ..old(self)@
            }),
            is_normalized(
                requested_of(UiClientConfig { channels: 1, ..config }, 1),
                final(self)@.effective,
            ),
    {
        self.client_config = UiClientConfig { channels: 1, ..config };
        self.update_effective();
        self.push_log("info", String::from_str("已更新客户端配置"), now_ms);
    }

    /// Records whether saving the settings worked: a failure is a warning
    /// in the log.
    pub fn apply_save_result(&mut self, result: Result<(), String>, now_ms: u64)
        ensures
            result is Ok ==> final(self)@ == old(self)@,
            result matches Err(e) ==> final(self)@ == (UiStateView {
                logs: log_pushed(old(self)@.logs, now_ms, "warn"@, "配置保存失败："@ + e@),
                ..old(self)@
            }),
    {
        if let Err(e) = result {
            let message = String::from_str("配置保存失败：").concat(e.as_str());
            self.push_log("warn", message, now_ms);
        }
    }

    /// Empties the log but for a line that says so.
    pub fn clear_logs(&mut self, now_ms: u64)
        ensures
            final(self)@ == (UiStateView {
                logs: seq![UiLogView { ts_ms: now_ms, level: "info"@, message: "日志已清空"@ }],
                ..old(self)@
            }),
    {
        self.logs.clear();
        self.push_log("info", String::from_str("日志已清空"), now_ms);
        assert(self.logs@.map_values(|e: UiLogEntry| e@) =~= seq![
            UiLogView { ts_ms: now_ms, level: "info"@, message: "日志已清空"@ },
        ]);
    }

    /// Notes a log export (the export itself is simulated).
    pub fn note_log_export(&mut self, now_ms: u64)
        ensures
            final(self)@ == (UiStateView {
                logs: log_pushed(old(self)@.logs, now_ms, "info"@, "日志导出（模拟）"@),
                ..old(self)@
            }),
    {
        self.push_log("info", String::from_str("日志导出（模拟）"), now_ms);
    }
}

/// What to do to have a receiver answering.
#[derive(Debug, Clone, Copy, PartialEq, Eq, Structural)]
pub enum ServerLaunchPlan {
    /// It answers already.
    Ready,
    /// The process the front end started earlier still runs.
    AlreadyStarted,
    /// Start a receiver process.
    Start,
}

/// What to do, on stop, with a receiver process the front end started.
#[derive(Debug, Clone, Copy, PartialEq, Eq, Structural)]
pub enum ServerStopPlan {
    /// Nothing to stop (sender side, or no such process).
    Leave,
    /// Automatic stopping is switched off: keep it running.
    Keep,
    /// Stop it.
    Stop,
}

/// The receiver program to start: the configured path (trimmed) when it is
/// set and not blank, else the one beside the front end when there is one,
/// else `netmic-server` from the search path.
pub open spec fn server_binary_of(setting: Option<Seq<char>>, sibling: Option<Seq<char>>) -> Seq<char> {
    if setting matches Some(s) && trimmed(s).len() > 0 {
        trimmed(setting->0)
    } else {
        match sibling {
            Some(p) => p,
            None => "netmic-server"@,
        }
    }
}

/// Picks the receiver program to start (see `server_binary_of`).
pub fn server_binary_choice(setting: Option<&str>, sibling: Option<String>) -> (r: String)
    ensures
        r@ == server_binary_of(
            match setting {
                Some(s) => Some(s@),
                None => None,
            },
            opt_chars(sibling),
        ),
{
    if let Some(raw) = setting {
        let t = crate::text::trim(raw);
        if t.unicode_len() > 0 {
            return t;
        }
    }
    match sibling {
        Some(p) => p,
        None => String::from_str("netmic-server"),
    }
}

impl UiState {
    /// Plans having a receiver: nothing to do when it answers; when the
    /// process the front end started earlier still runs, nothing more
    /// (noted in the log); otherwise start one.
    pub fn plan_server_launch(&mut self, answers: bool, own_process_running: bool, now_ms: u64) -> (plan:
        ServerLaunchPlan)
        ensures
            answers ==> plan == ServerLaunchPlan::Ready && final(self)@ == old(self)@,
            !answers && own_process_running ==> plan == ServerLaunchPlan::AlreadyStarted
                && final(self)@ == (UiStateView {
                logs: log_pushed(old(self)@.logs, now_ms, "info"@, "服务端已在运行中（由 UI 启动）"@),
                ..old(self)@
            }),
            !answers && !own_process_running ==> plan == ServerLaunchPlan::Start && final(self)@
                == old(self)@,
    {
        if answers {
            ServerLaunchPlan::Ready
        } else if own_process_running {
            self.push_log("info", String::from_str("服务端已在运行中（由 UI 启动）"), now_ms);
            ServerLaunchPlan::AlreadyStarted
        } else {
            ServerLaunchPlan::Start
        }
    }

    /// Records that a receiver process was started (noted in the log).
    pub fn record_server_spawned(&mut self, now_ms: u64)
        ensures
            final(self)@ == (UiStateView {
                logs: log_pushed(old(self)@.logs, now_ms, "info"@, "已启动服务端进程"@),
                ..old(self)@
            }),
    {
        self.push_log("info", String::from_str("已启动服务端进程"), now_ms);
    }

    /// After a receiver process was started: a warning when it does not
    /// answer yet.
    pub fn record_server_warmup(&mut self, answers: bool, now_ms: u64)
        ensures
            answers ==> final(self)@ == old(self)@,
            !answers ==> final(self)@ == (UiStateView {
                logs: log_pushed(old(self)@.logs, now_ms, "warn"@, "服务端启动中，状态暂未就绪"@),
                ..old(self)@
            }),
    {
        if !answers {
            self.push_log("warn", String::from_str("服务端启动中，状态暂未就绪"), now_ms);
        }
    }

    /// On stop: a receiver process the front end started is stopped, unless
    /// automatic stopping is switched off (then it is kept, noted in the
    /// log); on the sender side, or without such a process, nothing.
    pub fn plan_server_stop(&mut self, has_process: bool, auto_stop: bool, now_ms: u64) -> (plan:
        ServerStopPlan)
        ensures
            old(self)@.mode != "server"@ || !has_process ==> plan == ServerStopPlan::Leave
                && final(self)@ == old(self)@,
            old(self)@.mode == "server"@ && has_process && !auto_stop ==> plan == ServerStopPlan::Keep
                && final(self)@ == (UiStateView {
                logs: log_pushed(old(self)@.logs, now_ms, "info"@, "已保留服务端进程运行"@),
                ..old(self)@
            }),
            old(self)@.mode == "server"@ && has_process && auto_stop ==> plan == ServerStopPlan::Stop
                && final(self)@ == old(self)@,
    {
        if !str_equals(self.mode.as_str(), "server") || !has_process {
            ServerStopPlan::Leave
        } else if !auto_stop {
            self.push_log("info", String::from_str("已保留服务端进程运行"), now_ms);
            ServerStopPlan::Keep
        } else {
            ServerStopPlan::Stop
        }
    }

    /// Records stopping the receiver process: done, or the failure as a
    /// warning.
    pub fn record_server_stop(&mut self, result: Result<(), String>, now_ms: u64)
        ensures
            result is Ok ==> final(self)@ == (UiStateView {
                logs: log_pushed(old(self)@.logs, now_ms, "info"@, "已停止服务端进程"@),
                ..old(self)@
            }),
            result matches Err(e) ==> final(self)@ == (UiStateView {
                logs: log_pushed(old(self)@.logs, now_ms, "warn"@, "停止服务端进程失败："@ + e@),
                ..old(self)@
            }),
    {
        match result {
            Ok(()) => self.push_log("info", String::from_str("已停止服务端进程"), now_ms),
            Err(e) => {
                let message = String::from_str("停止服务端进程失败：").concat(e.as_str());
                self.push_log("warn", message, now_ms);
            },
        }
    }
}

/// The three requests the front end sends to the receiver over UDP.
#[derive(Debug, Clone, Copy, PartialEq, Eq, Structural)]
pub enum UiRequest {
    Handshake,
    Status,
    Command,
}

/// The word for a request in error messages.
pub open spec fn request_word(which: UiRequest) -> Seq<char> {
    match which {
        UiRequest::Handshake => "handshake"@,
        UiRequest::Status => "status"@,
        UiRequest::Command => "command"@,
    }
}

/// The control message type that answers a request.
pub open spec fn reply_type_of(which: UiRequest) -> Seq<char> {
    match which {
        UiRequest::Handshake => "handshake_response"@,
        UiRequest::Status => "server_status_response"@,
        UiRequest::Command => "server_command_response"@,
    }
}

/// The error when a reply answers another request.
pub open spec fn reply_mismatch_of(which: UiRequest) -> Seq<char> {
    match which {
        UiRequest::Handshake => "handshake response session mismatch"@,
        UiRequest::Status => "status response request_id mismatch"@,
        UiRequest::Command => "command response request_id mismatch"@,
    }
}

/// The identifier a request carries: `session-`, `status-` or `cmd-`
/// followed by the clock in milliseconds.
pub open spec fn request_id_of(which: UiRequest, now_ms: u64) -> Seq<char> {
    match which {
        UiRequest::Handshake => session_id_of(now_ms),
        UiRequest::Status => "status-"@ + crate::text::decimal(now_ms as nat),
        UiRequest::Command => "cmd-"@ + crate::text::decimal(now_ms as nat),
    }
}

fn request_word_str(which: UiRequest) -> (s: &'static str)
    ensures
        s@ == request_word(which),
{
    match which {
        UiRequest::Handshake => "handshake",
        UiRequest::Status => "status",
        UiRequest::Command => "command",
    }
}

/// The identifier for a request sent at `now_ms`.
pub fn request_id_for(which: UiRequest, now_ms: u64) -> (s: String)
    ensures
        s@ == request_id_of(which, now_ms),
{
    match which {
        UiRequest::Handshake => session_id_for(now_ms),
        UiRequest::Status => String::from_str("status-").concat(
            crate::text::u64_to_decimal(now_ms).as_str(),
        ),
        UiRequest::Command => String::from_str("cmd-").concat(
            crate::text::u64_to_decimal(now_ms).as_str(),
        ),
    }
}

/// The control payload of a reply datagram: an error for an empty datagram
/// or one that is not a control datagram.
pub fn reply_control_payload(which: UiRequest, datagram: &[u8]) -> (r: Result<&[u8], String>)
    ensures
        datagram@.len() == 0 ==> (r matches Err(e) && e@ == "invalid "@ + request_word(which)
            + " datagram"@),
        datagram@.len() > 0 && datagram@[0] != crate::datagram::DATAGRAM_KIND_CONTROL_JSON ==> (r matches Err(
            e,
        ) && e@ == "unexpected "@ + request_word(which) + " response kind"@),
        datagram@.len() > 0 && datagram@[0] == crate::datagram::DATAGRAM_KIND_CONTROL_JSON ==> (r matches Ok(p)
            && p@ == datagram@.subrange(1, datagram@.len() as int)),
{
    let word = request_word_str(which);
    match crate::datagram::split_datagram(datagram) {
        None => Err(String::from_str("invalid ").concat(word).concat(" datagram")),
        Some((kind, payload)) => {
            if kind != crate::datagram::DatagramKind::ControlJson {
                Err(String::from_str("unexpected ").concat(word).concat(" response kind"))
            } else {
                Ok(payload)
            }
        },
    }
}

/// Checks the type of a reply: the one that answers the request, else an
/// error that names the type received.
pub fn check_reply_type(which: UiRequest, msg_type: &str) -> (r: Result<(), String>)
    ensures
        r is Ok <==> msg_type@ == reply_type_of(which),
        r matches Err(e) ==> e@ == "unexpected "@ + request_word(which) + " response type: "@
            + msg_type@,
{
    let expected = match which {
        UiRequest::Handshake => crate::control::CONTROL_TYPE_HANDSHAKE_RESPONSE,
        UiRequest::Status => crate::control::CONTROL_TYPE_SERVER_STATUS_RESPONSE,
        UiRequest::Command => crate::control::CONTROL_TYPE_SERVER_COMMAND_RESPONSE,
    };
    proof {
        reveal_strlit("handshake_response");
        reveal_strlit("server_status_response");
        reveal_strlit("server_command_response");
    }
    if str_equals(msg_type, expected) {
        Ok(())
    } else {
        let word = request_word_str(which);
        Err(String::from_str("unexpected ").concat(word).concat(" response type: ").concat(msg_type))
    }
}

/// Checks that a reply answers the request: its identifier (the session for
/// a handshake) is the one sent.
pub fn check_reply_id(which: UiRequest, received: &str, sent: &str) -> (r: Result<(), String>)
    ensures
        r is Ok <==> received@ == sent@,
        r matches Err(e) ==> e@ == reply_mismatch_of(which),
{
    if str_equals(received, sent) {
        Ok(())
    } else {
        Err(
            String::from_str(
                match which {
                    UiRequest::Handshake => "handshake response session mismatch",
                    UiRequest::Status => "status response request_id mismatch",
                    UiRequest::Command => "command response request_id mismatch",
                },
            ),
        )
    }
}

} // verus!
