use netmic::audio::pcm16_to_bytes;
use netmic::control::{classify_control_type, ControlMessageType};
use netmic::datagram::{wrap_audio_pcm16_with_header, AudioFrameError, DatagramKind};
use netmic::protocol::{
    HandshakeRequest, Heartbeat, ServerCommandRequest, ServerStatusRequest, SessionParams,
};
use netmic::server::{
    bind_addr_from_setting, command_response_after, env_or_default,
    should_auto_create_virtual_mic, should_enable_test_tone, sink_mode_from_setting,
    test_tone_duration_secs, udp_port_from_setting, virtual_mic_config, virtual_mic_status,
    CommandOutcome, ConnectionState, ControlReply, ControlRequest, Incoming, PeerAddr,
    ReceiverContext, ReceiverMetrics, SinkMode, VirtualMicSettings, RECONNECT_GRACE_MS,
    RECONNECT_WINDOW_MS,
};

fn v4(a: u8, b: u8, c: u8, d: u8, port: u16) -> PeerAddr {
    PeerAddr::V4 { ipv4: u32::from_be_bytes([a, b, c, d]), port }
}

#[test]
fn receiver_locks_first_client_and_rejects_others() {
    let params = SessionParams::mvp_default();
    let now = 1_000;
    let mut ctx = ReceiverContext::new(params, now);
    let addr_a = v4(127, 0, 0, 1, 10001);
    let addr_b = v4(127, 0, 0, 1, 10002);

    assert!(ctx.accept_or_lock_client(addr_a, now));
    assert_eq!(ctx.active_client, Some(addr_a));
    assert_eq!(ctx.state, ConnectionState::Active);

    assert!(!ctx.accept_or_lock_client(addr_b, now));
    assert_eq!(ctx.metrics.busy_rejects, 1);
}

#[test]
fn receiver_reconnect_window_releases_client() {
    let params = SessionParams::mvp_default();
    let base = 5_000;
    let mut ctx = ReceiverContext::new(params, base);
    let addr = v4(127, 0, 0, 1, 10003);

    assert!(ctx.accept_or_lock_client(addr, base));
    ctx.update_reconnect_state(base + RECONNECT_GRACE_MS + 1_000);
    assert_eq!(ctx.state, ConnectionState::Reconnecting);

    ctx.update_reconnect_state(base + RECONNECT_WINDOW_MS + 1_000);
    assert_eq!(ctx.state, ConnectionState::Idle);
    assert!(ctx.active_client.is_none());
}

#[test]
fn reconnecting_client_becomes_active_again() {
    let mut ctx = ReceiverContext::new(SessionParams::mvp_default(), 0);
    let addr = v4(10, 0, 0, 2, 5000);
    assert!(ctx.accept_or_lock_client(addr, 0));
    ctx.on_timeout_tick(1_500);
    assert_eq!(ctx.state, ConnectionState::Reconnecting);
    assert_eq!(ctx.metrics.read_timeouts, 1);
    assert!(ctx.accept_or_lock_client(addr, 2_000));
    assert_eq!(ctx.state, ConnectionState::Active);
    ctx.update_reconnect_state(2_500);
    assert_eq!(ctx.state, ConnectionState::Active);
}

#[test]
fn metrics_tracks_buffer_depth_for_audio_payloads() {
    let now = 0;
    let mut metrics = ReceiverMetrics::new(now, 48_000, 1);
    let payload = vec![0_u8; 960 * 2];

    metrics.on_datagram(DatagramKind::AudioPcm16, &payload);
    assert_eq!(metrics.buffer_depth_ms(), 20);
}

#[test]
fn metrics_reports_rms_and_peak() {
    let mut metrics = ReceiverMetrics::new(0, 48_000, 1);
    let payload = pcm16_to_bytes(&[0_i16, 1000_i16, -1000_i16]);

    metrics.on_datagram(DatagramKind::AudioPcm16, &payload);
    let levels = metrics.take_audio_levels();
    assert_eq!(levels.peak, 1000);
    let rms = (levels.sum_squares as f64 / levels.samples as f64).sqrt() as f32;
    let expected = ((0.0_f32 * 0.0 + 1000.0_f32 * 1000.0 + 1000.0_f32 * 1000.0) / 3.0).sqrt();
    assert!((rms - expected).abs() < 0.01);
    assert_eq!(metrics.take_audio_levels().samples, 0);
}

#[test]
fn buffer_drains_with_playback_time() {
    let mut m = ReceiverMetrics::new(0, 48_000, 2);
    m.push_audio_frames(960 * 4);
    assert_eq!(m.buffer_depth_frames, 960);
    m.consume_buffer(10);
    assert_eq!(m.buffer_depth_frames, 480);
    m.consume_buffer(1_000);
    assert_eq!(m.buffer_depth_frames, 0);
    let mut silent = ReceiverMetrics::new(0, 0, 1);
    silent.push_audio_frames(100);
    assert_eq!(silent.buffer_depth_ms(), 0);
}

#[test]
fn counters_by_kind_and_reports() {
    let mut ctx = ReceiverContext::new(SessionParams::mvp_default(), 0);
    assert!(matches!(ctx.receive(&[]), Incoming::Empty));
    assert!(matches!(ctx.receive(&[0, b'{']), Incoming::Control(p) if p == b"{"));
    assert!(matches!(ctx.receive(&[7, 1, 2]), Incoming::Unknown(7, p) if p == [1, 2]));
    assert!(matches!(ctx.receive(&[1, 9]), Incoming::Audio(p) if p == [9]));
    assert_eq!(ctx.metrics.empty_packets, 1);
    assert_eq!(ctx.metrics.control_packets, 1);
    assert_eq!(ctx.metrics.unknown_packets, 1);
    assert_eq!(ctx.metrics.audio_packets, 0);
    assert_eq!(ctx.metrics.packets_total, 2);
    assert_eq!(ctx.metrics.bytes_total, 3);
    assert!(ctx.maybe_report(4_999).is_none());
    let r = ctx.maybe_report(5_000).expect("report");
    assert_eq!(r.state, ConnectionState::Idle);
    assert_eq!(r.packets_total, 2);
    assert_eq!(r.idle_ms, 0);
}

#[test]
fn audio_payloads_from_locked_client_only() {
    let mut ctx = ReceiverContext::new(SessionParams::mvp_default(), 0);
    let a = v4(192, 168, 1, 2, 4000);
    let b = v4(192, 168, 1, 3, 4000);
    let datagram = wrap_audio_pcm16_with_header(b"{}", &[1, 0, 2, 0]);
    let payload = &datagram[1..];
    let (h, pcm) = ctx.handle_audio_payload(a, payload, 10).expect("accepted").expect("frame");
    assert_eq!(h, b"{}");
    assert_eq!(pcm, &[1, 0, 2, 0]);
    assert!(ctx.handle_audio_payload(b, payload, 11).is_none());
    let bad = ctx.handle_audio_payload(a, &[9, 0], 12).expect("accepted");
    assert!(matches!(bad, Err(AudioFrameError::PayloadTooShort)));
}

#[test]
fn handshake_request_returns_control_response() {
    let params = SessionParams::mvp_default();
    let mut ctx = ReceiverContext::new(params.clone(), 0);
    let addr = v4(127, 0, 0, 1, 12001);
    let request = HandshakeRequest {
        session_id: "session-1".to_string(),
        client_name: "client".to_string(),
        requested: SessionParams {
            sample_rate_hz: 12_345,
            chunk_ms: 15,
            ..SessionParams::mvp_default()
        },
        token: None,
    };
    let reply = ctx.handle_control_request(ControlRequest::Handshake(request), addr, 0);
    let response = match reply {
        Some(ControlReply::Handshake(r)) => r,
        _ => panic!("handshake response expected"),
    };
    assert!(response.accepted);
    assert!(!response.busy);
    assert_eq!(response.session_id, "session-1");
    assert_eq!(response.effective.sample_rate_hz, netmic::config::DEFAULT_SAMPLE_RATE_HZ);
    assert_eq!(response.effective.chunk_ms, netmic::config::DEFAULT_CHUNK_MS);
}

#[test]
fn handshake_from_second_client_is_busy() {
    let mut ctx = ReceiverContext::new(SessionParams::mvp_default(), 0);
    let a = v4(127, 0, 0, 1, 1);
    let b = v4(127, 0, 0, 1, 2);
    assert!(ctx.accept_or_lock_client(a, 0));
    let req = HandshakeRequest {
        session_id: "s2".to_string(),
        client_name: "c".to_string(),
        requested: SessionParams::mvp_default(),
        token: None,
    };
    match ctx.handle_control_request(ControlRequest::Handshake(req), b, 1) {
        Some(ControlReply::Handshake(r)) => {
            assert!(!r.accepted);
            assert!(r.busy);
            assert_eq!(r.reason, Some("busy".to_string()));
        }
        _ => panic!("handshake response expected"),
    }
    assert_eq!(ctx.active_client, Some(a));
}

#[test]
fn heartbeat_locks_and_returns_stats() {
    let mut ctx = ReceiverContext::new(SessionParams::mvp_default(), 0);
    let a = v4(127, 0, 0, 1, 1);
    let hb = Heartbeat { session_id: "s".to_string(), seq: 1, sent_at_ms: 2 };
    match ctx.handle_control_request(ControlRequest::Heartbeat(hb.clone()), a, 5) {
        Some(ControlReply::Stats(s)) => assert_eq!(s.packets_lost, 0),
        _ => panic!("stats expected"),
    }
    assert_eq!(ctx.active_client, Some(a));
    let b = v4(127, 0, 0, 1, 2);
    assert!(ctx.handle_control_request(ControlRequest::Heartbeat(hb), b, 6).is_none());
    assert_eq!(ctx.metrics.busy_rejects, 1);
}

#[test]
fn management_requests_need_loopback() {
    let mut ctx = ReceiverContext::new(SessionParams::mvp_default(), 100);
    let remote = v4(10, 1, 2, 3, 9);
    let local = v4(127, 0, 0, 1, 9);
    let local6 = PeerAddr::V6 { ipv6: 1, port: 9, flowinfo: 0, scope_id: 0 };
    let status = ServerStatusRequest { request_id: "st-1".to_string() };
    assert!(ctx
        .handle_control_request(ControlRequest::ServerStatus(status.clone()), remote, 200)
        .is_none());
    match ctx.handle_control_request(ControlRequest::ServerStatus(status), local6, 1_100) {
        Some(ControlReply::Status(rep)) => {
            assert_eq!(rep.request_id, "st-1");
            assert_eq!(rep.state, "listening");
            assert_eq!(rep.uptime_ms, 1_000);
            assert_eq!(rep.active_client, None);
        }
        _ => panic!("status expected"),
    }
    assert!(ctx.accept_or_lock_client(remote, 2_000));
    let cmd = ServerCommandRequest { request_id: "c-1".to_string(), action: "force_disconnect".to_string() };
    assert!(ctx
        .handle_control_request(ControlRequest::ServerCommand(cmd.clone()), remote, 2_100)
        .is_none());
    assert_eq!(ctx.active_client, Some(remote));
    match ctx.handle_control_request(ControlRequest::ServerCommand(cmd), local, 2_200) {
        Some(ControlReply::Command(CommandOutcome::Done(resp))) => {
            assert!(resp.ok);
            assert_eq!(resp.request_id, "c-1");
        }
        _ => panic!("command response expected"),
    }
    assert_eq!(ctx.active_client, None);
    assert_eq!(ctx.state, ConnectionState::Idle);
}

#[test]
fn status_reports_streaming_client() {
    let mut ctx = ReceiverContext::new(SessionParams::mvp_default(), 0);
    let a = v4(127, 0, 0, 1, 7);
    assert!(ctx.accept_or_lock_client(a, 1_000));
    ctx.set_last_error("audio sink write failed: x".to_string());
    let rep = ctx.build_status_report("r".to_string(), 4_500);
    assert_eq!(rep.state, "streaming");
    assert_eq!(rep.active_client_seconds, 3);
    assert_eq!(rep.last_error, Some("audio sink write failed: x".to_string()));
    assert_eq!(ctx.status_label(), "streaming");
}

#[test]
fn commands_other_than_disconnect() {
    let mut ctx = ReceiverContext::new(SessionParams::mvp_default(), 0);
    let req = |a: &str| ServerCommandRequest { request_id: "id".to_string(), action: a.to_string() };
    assert!(matches!(ctx.handle_server_command(req("virtual_mic_create")), CommandOutcome::CreateVirtualMic(id) if id == "id"));
    assert!(matches!(ctx.handle_server_command(req("virtual_mic_remove")), CommandOutcome::RemoveVirtualMic(id) if id == "id"));
    match ctx.handle_server_command(req("reboot")) {
        CommandOutcome::Done(r) => {
            assert!(!r.ok);
            assert_eq!(r.message, Some("unsupported command: reboot".to_string()));
        }
        _ => panic!("refusal expected"),
    }
    let ok = command_response_after("x".to_string(), "create virtual mic", Ok(()));
    assert!(ok.ok && ok.message.is_none());
    let failed = command_response_after("x".to_string(), "remove virtual mic", Err("boom".to_string()));
    assert_eq!(failed.message, Some("remove virtual mic failed: boom".to_string()));
}

#[test]
fn control_types_classified() {
    assert_eq!(classify_control_type("handshake_request"), ControlMessageType::HandshakeRequest);
    assert_eq!(classify_control_type("heartbeat"), ControlMessageType::Heartbeat);
    assert_eq!(classify_control_type("server_status_request"), ControlMessageType::ServerStatusRequest);
    assert_eq!(classify_control_type("server_command_request"), ControlMessageType::ServerCommandRequest);
    assert_eq!(classify_control_type("stats"), ControlMessageType::Other);
}

#[test]
fn loopback_addresses() {
    assert!(v4(127, 255, 0, 9, 1).is_loopback());
    assert!(!v4(128, 0, 0, 1, 1).is_loopback());
    assert!(PeerAddr::V6 { ipv6: 1, port: 1, flowinfo: 0, scope_id: 0 }.is_loopback());
    assert!(!PeerAddr::V6 { ipv6: 2, port: 1, flowinfo: 0, scope_id: 0 }.is_loopback());
}

#[test]
fn server_settings() {
    assert_eq!(udp_port_from_setting(None), 43_000);
    assert_eq!(udp_port_from_setting(Some("5000")), 5_000);
    assert_eq!(udp_port_from_setting(Some("70000")), 43_000);
    assert_eq!(test_tone_duration_secs(None), Some(300));
    assert_eq!(test_tone_duration_secs(Some("0")), None);
    assert_eq!(test_tone_duration_secs(Some("x")), Some(300));
    assert_eq!(test_tone_duration_secs(Some("12")), Some(12));
    assert!(should_enable_test_tone(Some("yes")));
    assert!(!should_enable_test_tone(None));
    assert!(should_auto_create_virtual_mic(None));
    assert!(!should_auto_create_virtual_mic(Some("off")));
    assert_eq!(env_or_default(Some("  x "), "d"), "x");
    assert_eq!(env_or_default(Some("   "), "d"), "d");
    assert_eq!(sink_mode_from_setting(None), Ok(SinkMode::Pulse));
    assert_eq!(sink_mode_from_setting(Some("null")), Ok(SinkMode::Null));
    assert_eq!(
        sink_mode_from_setting(Some("alsa")),
        Err("unsupported NETMIC_SERVER_AUDIO_SINK=alsa (expected pulse/null)".to_string())
    );
}

#[test]
fn bind_address_forms() {
    assert_eq!(bind_addr_from_setting(43000, "", None), "0.0.0.0:43000");
    assert_eq!(bind_addr_from_setting(1, "10.0.0.1:99", Some("10.0.0.1:99".to_string())), "10.0.0.1:99");
    assert_eq!(bind_addr_from_setting(5, "[::1]", None), "[::1]:5");
    assert_eq!(bind_addr_from_setting(5, "host:7", None), "host:7");
    assert_eq!(bind_addr_from_setting(5, "fe80::1", None), "[fe80::1]:5");
    assert_eq!(bind_addr_from_setting(5, "myhost", None), "myhost:5");
}

#[test]
fn virtual_mic_names_and_status() {
    let none = VirtualMicSettings {
        prefix: None,
        sink_name: None,
        source_name: None,
        sink_desc: None,
        source_desc: None,
        state_path: None,
    };
    let c = virtual_mic_config(none);
    assert_eq!(c.sink_name, "netmic_sink");
    assert_eq!(c.source_name, "netmic_source");
    assert_eq!(c.sink_desc, "NetMic_Virtual_Sink");
    assert_eq!(c.source_desc, "NetMic_Virtual_Mic");
    assert_eq!(c.state_path, "/tmp/netmic_virtual_mic.env");
    let c = virtual_mic_config(VirtualMicSettings { prefix: Some(" test "), source_name: Some("src"), ..none });
    assert_eq!(c.sink_name, "test_sink");
    assert_eq!(c.source_name, "src");
    assert_eq!(virtual_mic_status("s".to_string(), Ok(true)), ("s".to_string(), true, None));
    assert_eq!(
        virtual_mic_status("s".to_string(), Ok(false)),
        ("s".to_string(), false, Some("未检测到虚拟麦克风".to_string()))
    );
    assert_eq!(
        virtual_mic_status("s".to_string(), Err("no pactl".to_string())),
        ("s".to_string(), false, Some("pactl 查询失败: no pactl".to_string()))
    );
}

#[test]
fn audio_frames_are_counted_and_decode_failures_kept() {
    let mut ctx = ReceiverContext::new(SessionParams::mvp_default(), 0);
    let pcm = pcm16_to_bytes(&[1000, -2000]);
    let payload = [&[0u8, 0, 0, 0][..], &pcm[..]].concat();
    ctx.record_audio_frame(&payload, Ok(&pcm));
    assert_eq!(ctx.metrics.audio_packets, 1);
    assert_eq!(ctx.metrics.bytes_total, 4);
    assert_eq!(ctx.metrics.buffer_depth_frames, 2);
    assert_eq!(ctx.metrics.levels.peak, 2000);
    assert_eq!(ctx.last_error, None);
    ctx.record_audio_frame(&payload, Err("audio payload too short".to_string()));
    assert_eq!(ctx.metrics.audio_packets, 2);
    assert_eq!(ctx.metrics.bytes_total, 12);
    assert_eq!(
        ctx.last_error,
        Some("audio header decode failed: audio payload too short".to_string())
    );
}

#[test]
fn receiver_reads_back_the_samples_sent() {
    let samples = [300_i16, -32768, 7, 32767];
    let pcm = pcm16_to_bytes(&samples);
    let header = b"{\"seq\":1}";
    let datagram = wrap_audio_pcm16_with_header(header, &pcm);
    let mut ctx = ReceiverContext::new(SessionParams::mvp_default(), 0);
    let peer = v4(10, 0, 0, 9, 4000);
    let payload = match ctx.receive(&datagram) {
        Incoming::Audio(p) => p,
        _ => panic!("not an audio datagram"),
    };
    let (h, p) = match ctx.handle_audio_payload(peer, payload, 1) {
        Some(Ok(parts)) => parts,
        _ => panic!("frame not taken apart"),
    };
    assert_eq!(h, &header[..]);
    assert_eq!(p, &pcm[..]);
    let read: Vec<i16> = p.chunks_exact(2).map(|b| i16::from_le_bytes([b[0], b[1]])).collect();
    assert_eq!(read, samples.to_vec());
    ctx.record_audio_frame(payload, Ok(p));
    assert_eq!(ctx.metrics.levels.peak, 32768);
    assert_eq!(ctx.metrics.levels.samples, 4);
}

#[test]
fn packet_total_is_sum_of_kind_counts() {
    let mut m = ReceiverMetrics::new(0, 48_000, 1);
    m.on_datagram(DatagramKind::ControlJson, b"{}");
    m.on_datagram(DatagramKind::AudioPcm16, &[0, 0, 1, 0]);
    m.on_datagram(DatagramKind::Unknown(7), &[1, 2, 3]);
    m.on_empty();
    m.on_busy_reject();
    m.on_timeout(100);
    assert_eq!(m.packets_total, m.control_packets + m.audio_packets + m.unknown_packets);
    assert_eq!(m.packets_total, 3);
    assert_eq!(m.bytes_total, 2 + 4 + 3);
}
