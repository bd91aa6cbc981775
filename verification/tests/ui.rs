use netmic::audio::CaptureError;
use netmic::protocol::{HandshakeResponse, ServerCommandResponse, SessionParams};
use netmic::ui::{
    build_handshake_request, default_client_config, default_server_config,
    mic_permission_for_mode, normalize_mode, permission_label_from_error, requested_params,
    server_status_view, start_status_for_mode, ServerStatusView, UiState, MAX_LOG_ENTRIES,
};
use netmic::ui::{
    check_reply_id, check_reply_type, frame_peak, reply_control_payload, request_id_for,
    server_binary_choice, ServerLaunchPlan, ServerStopPlan, UiLoop, UiRequest,
};

fn fresh_state() -> UiState {
    UiState::initial(None, 0)
}

#[test]
fn permission_label_maps_errors() {
    assert_eq!(
        permission_label_from_error(&CaptureError::DeviceUnavailable("x".into())),
        "不可用"
    );
    assert_eq!(
        permission_label_from_error(&CaptureError::DeviceListFailed("x".into())),
        "不可用"
    );
    assert_eq!(
        permission_label_from_error(&CaptureError::StreamConfigUnavailable("x".into())),
        "未授权"
    );
    assert_eq!(
        permission_label_from_error(&CaptureError::StreamBuildFailed("x".into())),
        "未授权"
    );
    assert_eq!(
        permission_label_from_error(&CaptureError::StreamPlayFailed("x".into())),
        "未授权"
    );
    assert_eq!(
        permission_label_from_error(&CaptureError::BufferTimeout {
            wanted: 1,
            available: 0
        }),
        "未知"
    );
    assert_eq!(
        permission_label_from_error(&CaptureError::ResampleFailed("x".into())),
        "未知"
    );
}

#[test]
fn handshake_outcome_updates_status_on_success() {
    let mut state = fresh_state();
    let response = HandshakeResponse {
        session_id: "session-1".to_string(),
        accepted: true,
        reason: None,
        effective: SessionParams::mvp_default(),
        busy: false,
    };
    let accepted = state.apply_handshake_outcome("127.0.0.1:43000", Ok(response), 7);
    assert!(accepted);
    assert_eq!(state.status, "streaming");
    assert_eq!(state.status_note, "推流中（握手成功）");
    assert_eq!(state.runtime.peer_addr, Some("127.0.0.1:43000".to_string()));
    assert_eq!(state.logs[0].message, "握手成功，已进入推流状态");
    assert_eq!(state.logs[0].ts_ms, 7);
}

#[test]
fn handshake_outcome_marks_busy_as_error() {
    let mut state = fresh_state();
    state.streaming = true;
    let response = HandshakeResponse {
        session_id: "session-1".to_string(),
        accepted: false,
        reason: Some("busy".to_string()),
        effective: SessionParams::mvp_default(),
        busy: true,
    };
    let accepted = state.apply_handshake_outcome("127.0.0.1:43000", Ok(response), 1);
    assert!(!accepted);
    assert_eq!(state.status, "error");
    assert_eq!(state.status_note, "握手失败：服务端忙");
    assert_eq!(state.streaming, false);
    assert_eq!(state.logs[0].level, "warn");
}

#[test]
fn handshake_outcome_reports_reject_reason() {
    let mut state = fresh_state();
    state.streaming = true;
    let response = HandshakeResponse {
        session_id: "session-1".to_string(),
        accepted: false,
        reason: Some("unauthorized".to_string()),
        effective: SessionParams::mvp_default(),
        busy: false,
    };
    let accepted = state.apply_handshake_outcome("127.0.0.1:43000", Ok(response), 1);
    assert!(!accepted);
    assert_eq!(state.status, "error");
    assert!(state.status_note.contains("unauthorized"));
}

#[test]
fn handshake_outcome_reports_transport_error() {
    let mut state = fresh_state();
    state.streaming = true;
    let accepted =
        state.apply_handshake_outcome("127.0.0.1:43000", Err("timeout".to_string()), 1);
    assert!(!accepted);
    assert_eq!(state.status, "error");
    assert!(state.status_note.contains("timeout"));
}

#[test]
fn handshake_outcome_blank_reason_reads_refused() {
    let mut state = fresh_state();
    let response = HandshakeResponse {
        session_id: "s".to_string(),
        accepted: false,
        reason: Some("  ".to_string()),
        effective: SessionParams::mvp_default(),
        busy: false,
    };
    let accepted = state.apply_handshake_outcome("h:1", Ok(response), 3);
    assert!(!accepted);
    assert_eq!(state.status_note, "握手失败：被拒绝");
    assert_eq!(state.runtime.last_error, Some("握手失败：被拒绝".to_string()));
    assert_eq!(state.logs[0].message, "握手失败：被拒绝");
    assert_eq!(state.logs[0].level, "error");
}

#[test]
fn ipc_set_mode_resets_state_and_permissions() {
    let mut state = fresh_state();
    state.runtime.peer_addr = Some("127.0.0.1:1".to_string());
    state.runtime.connected_seconds = 42;
    state.streaming = true;
    state.apply_set_mode("server", 1);
    assert_eq!(state.mode, "server");
    assert_eq!(state.status, "idle");
    assert_eq!(state.status_note, "准备就绪");
    assert_eq!(state.runtime.peer_addr, None);
    assert_eq!(state.runtime.connected_seconds, 0);
    assert_eq!(state.runtime.mic_permission, "不适用");

    state.apply_set_mode("client", 2);
    assert_eq!(state.mode, "client");
    assert_eq!(state.runtime.mic_permission, "未知");
    assert_eq!(state.logs[0].message, "切换到 client 模式");
}

#[test]
fn ipc_start_sets_status_by_mode() {
    let mut state = fresh_state();
    state.apply_set_mode("client", 1);
    assert_eq!(state.mode, "client");
    state.apply_start(2);
    assert_eq!(state.status, "connecting");
    assert_eq!(state.status_note, "正在建立连接");

    state.apply_set_mode("server", 3);
    state.apply_start(4);
    assert_eq!(state.status, "listening");
    assert_eq!(state.status_note, "等待客户端连接");
    assert_eq!(start_status_for_mode("client"), ("connecting", "正在建立连接"));
    assert_eq!(start_status_for_mode("server"), ("listening", "等待客户端连接"));
}

#[test]
fn ipc_stop_clears_runtime_fields() {
    let mut state = fresh_state();
    state.apply_set_mode("client", 1);
    state.apply_start(2);
    state.runtime.peer_addr = Some("127.0.0.1:9".to_string());
    state.runtime.connected_seconds = 9;
    state.latest_audio_peak = 123;
    state.apply_stop(3);
    assert_eq!(state.status, "idle");
    assert_eq!(state.runtime.peer_addr, None);
    assert_eq!(state.runtime.connected_seconds, 0);
    assert_eq!(state.runtime.mic_permission, "未知");
    assert_eq!(state.latest_audio_peak, 0);
}

#[test]
fn ipc_force_disconnect_marks_listening() {
    let mut state = fresh_state();
    state.apply_set_mode("server", 1);
    state.runtime.peer_addr = Some("127.0.0.1:9".to_string());
    state.apply_force_disconnect(2);
    assert_eq!(state.status, "listening");
    assert_eq!(state.status_note, "已断开客户端");
    assert_eq!(state.runtime.peer_addr, None);
}

#[test]
fn initial_state_is_idle_with_one_log_line() {
    let state = UiState::initial(None, 9);
    assert_eq!(state.mode, "client");
    assert_eq!(state.status, "idle");
    assert_eq!(state.status_note, "准备就绪");
    assert_eq!(state.devices, vec!["系统默认".to_string()]);
    assert_eq!(state.logs.len(), 1);
    assert_eq!(state.logs[0].message, "UI 已就绪");
    assert_eq!(state.logs[0].ts_ms, 9);
    assert_eq!(state.runtime.mic_permission, "未知");
    let params = SessionParams::mvp_default();
    let persisted = UiState::initial(
        Some((
            "server".to_string(),
            default_client_config(&params),
            default_server_config(),
        )),
        0,
    );
    assert_eq!(persisted.mode, "server");
    assert_eq!(persisted.runtime.mic_permission, "不适用");
}

#[test]
fn log_keeps_newest_first_and_is_bounded() {
    let mut state = fresh_state();
    for i in 0..(MAX_LOG_ENTRIES as u64 + 10) {
        state.push_log("info", format!("line {i}"), i);
    }
    assert_eq!(state.logs.len(), MAX_LOG_ENTRIES);
    assert_eq!(state.logs[0].message, format!("line {}", MAX_LOG_ENTRIES + 9));
    assert_eq!(state.logs[1].ts_ms, MAX_LOG_ENTRIES as u64 + 8);
}

#[test]
fn reset_defaults_clears_log_and_mode() {
    let mut state = fresh_state();
    state.apply_set_mode("server", 1);
    state.apply_start(2);
    state.client_config.server_port = 1;
    state.apply_reset_defaults(5);
    assert_eq!(state.mode, "client");
    assert_eq!(state.status, "idle");
    assert!(!state.streaming);
    assert_eq!(state.client_config.server_port, 43000);
    assert_eq!(state.logs.len(), 1);
    assert_eq!(state.logs[0].message, "已恢复默认配置");
}

#[test]
fn devices_put_system_default_first() {
    let mut state = fresh_state();
    state.set_devices(
        Ok(vec!["mic A".to_string(), "系统默认".to_string(), "mic B".to_string()]),
        1,
    );
    assert_eq!(
        state.devices,
        vec!["系统默认".to_string(), "mic A".to_string(), "mic B".to_string()]
    );
    let logs_before = state.logs.len();
    assert_eq!(logs_before, 1);
    state.set_devices(Err("no backend".to_string()), 2);
    assert_eq!(state.devices, vec!["系统默认".to_string()]);
    assert_eq!(state.logs[0].level, "warn");
    assert_eq!(state.logs[0].message, "输入设备枚举失败：no backend");
}

fn report(ready: bool) -> ServerStatusView {
    ServerStatusView {
        state: "streaming".to_string(),
        active_client: Some("10.0.0.2:5000".to_string()),
        active_client_seconds: 12,
        last_error: None,
        virtual_mic_name: "NetMic Virtual Mic".to_string(),
        virtual_mic_ready: ready,
        virtual_mic_error: None,
    }
}

#[test]
fn server_status_poll_logs_first_report_and_changes() {
    let mut state = fresh_state();
    state.apply_set_mode("server", 0);
    let n0 = state.logs.len();
    state.record_server_status("127.0.0.1:43000", Ok(report(true)), 10);
    assert_eq!(state.status, "streaming");
    assert_eq!(state.status_note, "已连接客户端");
    assert_eq!(state.runtime.peer_addr, Some("10.0.0.2:5000".to_string()));
    assert_eq!(state.runtime.connected_seconds, 12);
    assert_eq!(state.runtime.server_status_updated_ms, 10);
    assert!(state.runtime.virtual_mic_ready);
    assert_eq!(state.logs.len(), n0 + 2);
    assert_eq!(state.logs[0].message, "已拉取服务端状态（127.0.0.1:43000）");
    assert_eq!(
        state.logs[1].message,
        "服务端状态：虚拟麦=已就绪（NetMic Virtual Mic），错误=无"
    );
    // The same report again adds nothing to the log.
    state.record_server_status("127.0.0.1:43000", Ok(report(true)), 20);
    assert_eq!(state.logs.len(), n0 + 2);
    // A failure is logged once, then recovery is noted.
    state.record_server_status("127.0.0.1:43000", Err("timeout".to_string()), 30);
    assert_eq!(state.status, "error");
    assert_eq!(state.status_note, "服务端未响应");
    assert_eq!(state.runtime.last_error, Some("timeout".to_string()));
    assert_eq!(state.logs.len(), n0 + 3);
    state.record_server_status("127.0.0.1:43000", Err("timeout".to_string()), 40);
    assert_eq!(state.logs.len(), n0 + 3);
    state.record_server_status("127.0.0.1:43000", Ok(report(false)), 50);
    assert_eq!(state.logs[0].message, "服务端状态拉取已恢复（127.0.0.1:43000）");
    assert_eq!(state.logs[1].level, "warn");
}

#[test]
fn server_command_results_set_last_error() {
    let mut state = fresh_state();
    state.apply_set_mode("server", 0);
    state.runtime.peer_addr = Some("10.0.0.2:5000".to_string());
    state.apply_force_disconnect_result(
        "127.0.0.1:43000",
        Ok(ServerCommandResponse { request_id: "r".to_string(), ok: true, message: None }),
        1,
    );
    assert_eq!(state.status, "listening");
    assert_eq!(state.runtime.peer_addr, None);
    assert_eq!(state.runtime.last_error, None);
    state.apply_force_disconnect_result(
        "127.0.0.1:43000",
        Ok(ServerCommandResponse { request_id: "r".to_string(), ok: false, message: None }),
        2,
    );
    assert_eq!(state.runtime.last_error, Some("服务端拒绝强制断开".to_string()));
    state.apply_server_command_result(
        "127.0.0.1:43000",
        Err("timeout".to_string()),
        "done",
        "failed",
        3,
    );
    assert_eq!(state.runtime.last_error, Some("服务端未响应：timeout".to_string()));
    assert_eq!(state.logs[0].message, "服务端未响应（127.0.0.1:43000）：timeout");
    state.apply_server_command_result(
        "127.0.0.1:43000",
        Ok(ServerCommandResponse { request_id: "r".to_string(), ok: true, message: None }),
        "done",
        "failed",
        4,
    );
    assert_eq!(state.runtime.last_error, None);
    assert_eq!(state.logs[0].message, "done");
    state.apply_server_command_result(
        "127.0.0.1:43000",
        Ok(ServerCommandResponse { request_id: "r".to_string(), ok: false, message: Some("nope".to_string()) }),
        "done",
        "failed",
        5,
    );
    assert_eq!(state.runtime.last_error, Some("nope".to_string()));
}

#[test]
fn mode_selection_and_permission() {
    assert_eq!(normalize_mode("server"), "server");
    assert_eq!(normalize_mode("client"), "client");
    assert_eq!(normalize_mode("other"), "client");
    assert_eq!(mic_permission_for_mode("server"), "不适用");
    assert_eq!(mic_permission_for_mode("client"), "未知");
}

#[test]
fn server_state_labels() {
    assert_eq!(server_status_view("idle"), ("listening", "等待客户端连接"));
    assert_eq!(server_status_view("listening"), ("listening", "等待客户端连接"));
    assert_eq!(server_status_view("streaming"), ("streaming", "已连接客户端"));
    assert_eq!(server_status_view("reconnecting"), ("connecting", "等待客户端重连"));
    assert_eq!(server_status_view("weird"), ("connecting", "服务端运行中"));
}

#[test]
fn default_configs() {
    let params = SessionParams::mvp_default();
    let c = default_client_config(&params);
    assert_eq!(c.server_addr, "127.0.0.1");
    assert_eq!(c.server_port, 43000);
    assert_eq!(c.input_device, "系统默认");
    assert_eq!(c.codec, "opus");
    assert_eq!(c.sample_rate_hz, 48_000);
    assert_eq!(c.channels, 1);
    assert_eq!(c.chunk_ms, 20);
    assert_eq!(c.opus_bitrate_kbps, 48);
    assert_eq!(c.jitter_buffer_ms, 100);
    assert!(c.auto_reconnect);
    assert_eq!(c.pairing_token, "");
    let s = default_server_config();
    assert_eq!(s.listen_port, 43000);
    assert!(!s.force_takeover);
    assert!(s.virtual_mic_enabled);
}

#[test]
fn handshake_request_from_config() {
    let params = SessionParams::mvp_default();
    let mut c = default_client_config(&params);
    let r = build_handshake_request(&c, 1234);
    assert_eq!(r.session_id, "session-1234");
    assert_eq!(r.client_name, "netmic-ui");
    assert_eq!(r.requested, params);
    assert_eq!(r.token, None);
    c.pairing_token = " secret ".to_string();
    c.codec = "pcm16".to_string();
    let r = build_handshake_request(&c, 5);
    assert_eq!(r.token, Some(" secret ".to_string()));
    assert_eq!(r.requested.opus_bitrate_kbps, None);
    let p = requested_params(&c, 1);
    assert_eq!(p.channels, 1);
    assert_eq!(p.codec, "pcm16");
}

#[test]
fn loops_are_claimed_once_and_stop_with_streaming() {
    let mut state = fresh_state();
    assert!(state.claim_loop(UiLoop::Capture));
    assert!(!state.claim_loop(UiLoop::Capture));
    assert!(state.capture_loop);
    // Not streaming: the loop ends and is marked stopped.
    assert!(!state.loop_continues(UiLoop::Capture));
    assert!(!state.capture_loop);
    state.apply_start(1);
    assert!(state.claim_loop(UiLoop::Capture));
    assert!(state.loop_continues(UiLoop::Capture));
    assert!(state.loop_continues(UiLoop::Metrics));
    assert!(!state.loop_continues(UiLoop::ServerMonitor));
    assert!(!state.server_monitor_loop);
}

#[test]
fn connection_clock_counts_whole_seconds() {
    let mut state = fresh_state();
    state.tick_connection_clock(5_000);
    assert_eq!(state.connected_since_ms, None);
    state.apply_start(1);
    state.tick_connection_clock(10_000);
    assert_eq!(state.connected_since_ms, Some(10_000));
    assert_eq!(state.runtime.connected_seconds, 0);
    state.tick_connection_clock(12_999);
    assert_eq!(state.runtime.connected_seconds, 2);
}

#[test]
fn capture_failures_stop_streaming() {
    let mut state = fresh_state();
    state.apply_start(1);
    state.capture_loop = true;
    state.latest_audio_peak = 7;
    state.apply_capture_start_failure(&CaptureError::StreamBuildFailed("denied".into()), 2);
    assert_eq!(state.status, "error");
    assert_eq!(state.status_note, "麦克风采集失败");
    assert!(!state.streaming);
    assert!(!state.capture_loop);
    assert_eq!(state.latest_audio_peak, 0);
    assert_eq!(state.runtime.mic_permission, "未授权");
    assert_eq!(
        state.runtime.last_error,
        Some("采集初始化失败：stream build failed: denied".to_string())
    );
    assert_eq!(state.logs[0].message, "采集初始化失败：stream build failed: denied");

    let mut state = fresh_state();
    state.apply_start(1);
    state.apply_capture_failure(&CaptureError::BufferTimeout { wanted: 960, available: 12 }, 3);
    assert_eq!(
        state.runtime.last_error,
        Some("采集失败：capture buffer timeout: wanted 960 frames, available 12".to_string())
    );
    assert_eq!(state.runtime.mic_permission, "未知");
}

#[test]
fn captured_frame_sets_peak_and_permission() {
    assert_eq!(frame_peak(&[]), 0);
    assert_eq!(frame_peak(&[3, -7, 5]), 7);
    assert_eq!(frame_peak(&[0, i16::MAX]), 32767);
    assert_eq!(frame_peak(&[i16::MIN, 1]), 32768);
    let mut state = fresh_state();
    state.apply_captured_frame(&[100, -200]);
    assert_eq!(state.latest_audio_peak, 200);
    assert_eq!(state.runtime.mic_permission, "已授权");
    state.apply_set_mode("server", 1);
    state.apply_captured_frame(&[1]);
    assert_eq!(state.runtime.mic_permission, "不适用");
}

#[test]
fn capture_error_messages() {
    assert_eq!(
        CaptureError::DeviceUnavailable("no default input device".into()).message(),
        "device unavailable: no default input device"
    );
    assert_eq!(
        CaptureError::StreamConfigUnavailable("x".into()).message(),
        "stream config failed: x"
    );
    assert_eq!(CaptureError::StreamPlayFailed("x".into()).message(), "stream play failed: x");
    assert_eq!(CaptureError::ResampleFailed("x".into()).message(), "resample failed: x");
    assert_eq!(
        CaptureError::BufferTimeout { wanted: 0, available: 1234567 }.message(),
        "capture buffer timeout: wanted 0 frames, available 1234567"
    );
}

#[test]
fn server_side_commands_and_launch() {
    let mut state = fresh_state();
    assert!(!state.server_command_allowed(1));
    assert_eq!(state.logs[0].message, "仅服务端模式支持该操作");
    state.apply_set_mode("server", 2);
    let n = state.logs.len();
    assert!(state.server_command_allowed(3));
    assert_eq!(state.logs.len(), n);
    state.apply_server_launch_error("no binary".to_string(), 4);
    assert_eq!(state.runtime.last_error, Some("no binary".to_string()));
    assert_eq!(state.logs[0].message, "服务端启动失败：no binary");
    state.apply_server_start_failure("no binary".to_string(), 5);
    assert_eq!(state.status, "error");
    assert_eq!(state.status_note, "服务端启动失败");

    assert_eq!(state.plan_server_launch(true, true, 6), ServerLaunchPlan::Ready);
    assert_eq!(state.plan_server_launch(false, false, 6), ServerLaunchPlan::Start);
    let n = state.logs.len();
    assert_eq!(state.plan_server_launch(false, true, 6), ServerLaunchPlan::AlreadyStarted);
    assert_eq!(state.logs.len(), n + 1);
    assert_eq!(state.logs[0].message, "服务端已在运行中（由 UI 启动）");
    state.record_server_spawned(7);
    assert_eq!(state.logs[0].message, "已启动服务端进程");
    state.record_server_warmup(false, 8);
    assert_eq!(state.logs[0].level, "warn");
    let n = state.logs.len();
    state.record_server_warmup(true, 9);
    assert_eq!(state.logs.len(), n);
}

#[test]
fn server_process_stop_plan() {
    let mut state = fresh_state();
    assert_eq!(state.plan_server_stop(true, true, 1), ServerStopPlan::Leave);
    state.apply_set_mode("server", 1);
    assert_eq!(state.plan_server_stop(false, true, 2), ServerStopPlan::Leave);
    assert_eq!(state.plan_server_stop(true, true, 3), ServerStopPlan::Stop);
    assert_eq!(state.plan_server_stop(true, false, 4), ServerStopPlan::Keep);
    assert_eq!(state.logs[0].message, "已保留服务端进程运行");
    state.record_server_stop(Ok(()), 5);
    assert_eq!(state.logs[0].message, "已停止服务端进程");
    state.record_server_stop(Err("denied".to_string()), 6);
    assert_eq!(state.logs[0].message, "停止服务端进程失败：denied");
    assert_eq!(state.logs[0].level, "warn");
}

#[test]
fn server_binary_is_setting_then_sibling_then_path() {
    assert_eq!(server_binary_choice(Some("  /opt/netmic-server \n"), None), "/opt/netmic-server");
    assert_eq!(
        server_binary_choice(Some("   "), Some("/app/netmic-server".to_string())),
        "/app/netmic-server"
    );
    assert_eq!(server_binary_choice(None, None), "netmic-server");
}

#[test]
fn settings_changes_are_logged() {
    let mut state = fresh_state();
    let params = SessionParams::mvp_default();
    let mut c = default_client_config(&params);
    c.channels = 2;
    c.server_port = 5000;
    state.apply_set_client_config(c, 1);
    assert_eq!(state.client_config.channels, 1);
    assert_eq!(state.client_config.server_port, 5000);
    assert_eq!(state.logs[0].message, "已更新客户端配置");
    let mut sc = default_server_config();
    sc.listen_port = 44000;
    state.apply_set_server_config(sc, 2);
    assert_eq!(state.server_config.listen_port, 44000);
    assert_eq!(state.logs[0].message, "已更新服务端配置");
    state.apply_save_result(Err("disk full".to_string()), 3);
    assert_eq!(state.logs[0].message, "配置保存失败：disk full");
    let n = state.logs.len();
    state.apply_save_result(Ok(()), 4);
    assert_eq!(state.logs.len(), n);
    state.note_log_export(5);
    assert_eq!(state.logs[0].message, "日志导出（模拟）");
    state.clear_logs(6);
    assert_eq!(state.logs.len(), 1);
    assert_eq!(state.logs[0].message, "日志已清空");
}

#[test]
fn reply_checks_name_the_request() {
    assert_eq!(request_id_for(UiRequest::Status, 42), "status-42");
    assert_eq!(request_id_for(UiRequest::Command, 7), "cmd-7");
    assert_eq!(request_id_for(UiRequest::Handshake, 1234), "session-1234");
    assert_eq!(
        reply_control_payload(UiRequest::Status, &[]),
        Err("invalid status datagram".to_string())
    );
    assert_eq!(
        reply_control_payload(UiRequest::Command, &[1, 2]),
        Err("unexpected command response kind".to_string())
    );
    assert_eq!(reply_control_payload(UiRequest::Handshake, &[0, 9, 8]), Ok(&[9u8, 8][..]));
    assert_eq!(check_reply_type(UiRequest::Status, "server_status_response"), Ok(()));
    assert_eq!(
        check_reply_type(UiRequest::Handshake, "stats"),
        Err("unexpected handshake response type: stats".to_string())
    );
    assert_eq!(check_reply_id(UiRequest::Command, "cmd-1", "cmd-1"), Ok(()));
    assert_eq!(
        check_reply_id(UiRequest::Handshake, "a", "b"),
        Err("handshake response session mismatch".to_string())
    );
    assert_eq!(
        check_reply_id(UiRequest::Status, "a", "b"),
        Err("status response request_id mismatch".to_string())
    );
}

#[test]
fn every_log_line_has_a_known_level() {
    let mut state = fresh_state();
    state.apply_set_mode("server", 1);
    state.apply_start(2);
    state.apply_server_start_failure("x".to_string(), 3);
    state.set_devices(Err("y".to_string()), 4);
    state.apply_stop(5);
    state.record_server_status("127.0.0.1:43000", Err("timeout".to_string()), 6);
    for line in &state.logs {
        assert!(matches!(line.level.as_str(), "info" | "warn" | "error"));
    }
    assert!(state.logs.len() >= 6);
}

#[test]
fn handshake_outcome_matters_only_while_streaming_as_sender() {
    let mut state = fresh_state();
    assert!(!state.handshake_outcome_wanted());
    state.apply_start(1);
    assert!(state.handshake_outcome_wanted());
    state.apply_stop(2);
    assert!(!state.handshake_outcome_wanted());
    state.apply_set_mode("server", 3);
    state.apply_start(4);
    assert!(!state.handshake_outcome_wanted());
}

fn has_fallback(state: &UiState, field: &str) -> bool {
    state.fallbacks.iter().any(|item| item.field == field)
}

#[test]
fn ipc_set_client_config_updates_effective_and_fallbacks() {
    let mut state = fresh_state();
    let config = netmic::ui::UiClientConfig {
        server_addr: "127.0.0.1".to_string(),
        server_port: 43000,
        input_device: "系统默认".to_string(),
        codec: "opus".to_string(),
        sample_rate_hz: 12_345,
        channels: 2,
        chunk_ms: 15,
        opus_bitrate_kbps: 999,
        jitter_buffer_ms: 999,
        auto_reconnect: true,
        pairing_token: "".to_string(),
    };
    state.apply_set_client_config(config, 1);
    assert!(has_fallback(&state, "sample_rate_hz"));
    assert!(has_fallback(&state, "chunk_ms"));
    assert!(has_fallback(&state, "opus_bitrate_kbps"));
    assert!(has_fallback(&state, "jitter_buffer_ms"));
    assert_eq!(state.effective.channels, 1);
}

#[test]
fn update_effective_records_fallbacks() {
    let mut state = fresh_state();
    state.client_config.codec = "opus".to_string();
    state.client_config.sample_rate_hz = 12_345;
    state.client_config.chunk_ms = 15;
    state.client_config.opus_bitrate_kbps = 999;
    state.client_config.jitter_buffer_ms = 999;

    state.update_effective();

    assert!(has_fallback(&state, "sample_rate_hz"));
    assert!(has_fallback(&state, "chunk_ms"));
    assert!(has_fallback(&state, "opus_bitrate_kbps"));
    assert!(has_fallback(&state, "jitter_buffer_ms"));

    let defaults = SessionParams::mvp_default();
    assert_eq!(state.effective.sample_rate_hz, defaults.sample_rate_hz);
    assert_eq!(state.effective.chunk_ms, defaults.chunk_ms);
    assert_eq!(state.effective.opus_bitrate_kbps, defaults.opus_bitrate_kbps);
    assert_eq!(state.effective.jitter_buffer_ms, defaults.jitter_buffer_ms);
}

#[test]
fn set_mode_recomputes_and_reset_clears_fallbacks() {
    let mut state = fresh_state();
    state.client_config.chunk_ms = 15;
    state.apply_set_mode("client", 1);
    assert_eq!(state.fallbacks.len(), 1);
    assert_eq!(state.fallbacks[0].field, "chunk_ms");
    assert_eq!(state.effective.chunk_ms, 20);
    state.apply_reset_defaults(2);
    assert!(state.fallbacks.is_empty());
}
