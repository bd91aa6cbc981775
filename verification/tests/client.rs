use netmic::audio::Pcm16Frame;
use netmic::client::{
    audio_frame_header, build_audio_datagram, check_handshake_reply_type,
    check_handshake_session, handshake_allows_streaming, handshake_reply_payload,
    heartbeat_interval_ms, session_id_for, stream_duration_secs, ClientConnectionState,
    ClientContext, ClientMetrics, StreamSchedule, MAX_RECONNECT_ATTEMPTS,
};
use netmic::datagram::{
    split_audio_pcm16_with_header, split_datagram, wrap_control_json, DatagramKind,
    DATAGRAM_KIND_AUDIO_PCM16, DATAGRAM_KIND_CONTROL_JSON,
};
use netmic::protocol::{AudioFrameHeader, HandshakeRequest, HandshakeResponse, SessionParams};
use serde_json::Value;

fn params_json(p: &SessionParams) -> Value {
    let mut m = serde_json::Map::new();
    m.insert("codec".to_string(), Value::from(p.codec.clone()));
    m.insert("sample_rate_hz".to_string(), Value::from(p.sample_rate_hz));
    m.insert("channels".to_string(), Value::from(p.channels));
    m.insert("chunk_ms".to_string(), Value::from(p.chunk_ms));
    m.insert(
        "opus_bitrate_kbps".to_string(),
        p.opus_bitrate_kbps.map(Value::from).unwrap_or(Value::Null),
    );
    m.insert("jitter_buffer_ms".to_string(), Value::from(p.jitter_buffer_ms));
    Value::Object(m)
}

fn control_json(message_type: &str, payload: Value) -> Vec<u8> {
    let mut m = serde_json::Map::new();
    m.insert("type".to_string(), Value::from(message_type));
    m.insert("payload".to_string(), payload);
    serde_json::to_vec(&Value::Object(m)).expect("envelope")
}

fn build_handshake_datagram(request: &HandshakeRequest) -> Vec<u8> {
    let mut m = serde_json::Map::new();
    m.insert("session_id".to_string(), Value::from(request.session_id.clone()));
    m.insert("client_name".to_string(), Value::from(request.client_name.clone()));
    m.insert("requested".to_string(), params_json(&request.requested));
    m.insert(
        "token".to_string(),
        request.token.clone().map(Value::from).unwrap_or(Value::Null),
    );
    wrap_control_json(&control_json("handshake_request", Value::Object(m)))
}

fn header_json(h: &AudioFrameHeader) -> Vec<u8> {
    let mut m = serde_json::Map::new();
    m.insert("session_id".to_string(), Value::from(h.session_id.clone()));
    m.insert("seq".to_string(), Value::from(h.seq));
    m.insert("timestamp_ms".to_string(), Value::from(h.timestamp_ms));
    m.insert("frame_samples".to_string(), Value::from(h.frame_samples));
    serde_json::to_vec(&Value::Object(m)).expect("header")
}

fn audio_datagram(frame: &Pcm16Frame, session_id: &str, seq: u64, ts: u64) -> Vec<u8> {
    let header = audio_frame_header(frame, session_id, seq, ts);
    build_audio_datagram(frame, &header_json(&header))
}

#[test]
fn control_datagram_prefixes_kind_and_is_splitable() {
    let params = SessionParams::mvp_default();
    let request = HandshakeRequest {
        session_id: "session-1".to_string(),
        client_name: "client".to_string(),
        requested: params,
        token: None,
    };
    let datagram = build_handshake_datagram(&request);
    assert_eq!(datagram.first().copied(), Some(DATAGRAM_KIND_CONTROL_JSON));

    let (kind, payload) = split_datagram(&datagram).expect("split control datagram");
    assert_eq!(kind, DatagramKind::ControlJson);
    assert!(!payload.is_empty());
}

#[test]
fn audio_datagram_prefixes_kind_and_preserves_payload() {
    let frame = Pcm16Frame {
        samples: vec![0_i16, 1024_i16],
        sample_rate_hz: 48_000,
        channels: 1,
    };
    let payload = frame.to_bytes();
    let datagram = audio_datagram(&frame, "session-1", 7, 1234);
    assert_eq!(datagram.first().copied(), Some(DATAGRAM_KIND_AUDIO_PCM16));

    let (kind, split_payload) = split_datagram(&datagram).expect("split audio datagram");
    assert_eq!(kind, DatagramKind::AudioPcm16);
    let (header, pcm) = split_audio_pcm16_with_header(split_payload).expect("header");
    let header: Value = serde_json::from_slice(header).expect("header json");
    assert_eq!(header["session_id"], "session-1");
    assert_eq!(header["seq"], 7);
    assert_eq!(header["timestamp_ms"], 1234);
    assert_eq!(header["frame_samples"], 2);
    assert_eq!(pcm, payload.as_slice());
}

#[test]
fn audio_header_is_encoded_and_decoded() {
    let header = AudioFrameHeader {
        session_id: "session-xyz".to_string(),
        seq: 99,
        timestamp_ms: 555,
        frame_samples: 480,
    };
    let frame = Pcm16Frame {
        samples: vec![0_i16; 480],
        sample_rate_hz: 48_000,
        channels: 1,
    };
    let datagram = audio_datagram(&frame, &header.session_id, header.seq, header.timestamp_ms);
    let (kind, payload) = split_datagram(&datagram).expect("split");
    assert_eq!(kind, DatagramKind::AudioPcm16);
    let (decoded, pcm) = split_audio_pcm16_with_header(payload).expect("decode");
    let decoded: Value = serde_json::from_slice(decoded).expect("header json");
    assert_eq!(decoded["session_id"], header.session_id.as_str());
    assert_eq!(decoded["seq"], header.seq);
    assert_eq!(decoded["timestamp_ms"], header.timestamp_ms);
    assert_eq!(decoded["frame_samples"], header.frame_samples);
    assert_eq!(pcm.len(), frame.samples.len() * 2);
}

#[test]
fn frame_header_counts_samples_per_channel() {
    let frame = Pcm16Frame::new(vec![1, 2, 3, 4, 5], 48_000, 2);
    let h = audio_frame_header(&frame, "s", 1, 2);
    assert_eq!(h.frame_samples, 2);
    let frame = Pcm16Frame::new(vec![1, 2, 3], 48_000, 0);
    assert_eq!(audio_frame_header(&frame, "s", 1, 2).frame_samples, 3);
}

#[test]
fn client_state_labels() {
    assert_eq!(ClientConnectionState::Idle.as_str(), "idle");
    assert_eq!(ClientConnectionState::Connecting.as_str(), "connecting");
    assert_eq!(ClientConnectionState::Active.as_str(), "active");
    assert_eq!(ClientConnectionState::Reconnecting.as_str(), "reconnecting");
}

#[test]
fn metrics_count_sends_and_report_every_five_seconds() {
    let mut m = ClientMetrics::new(1_000);
    m.on_send(DatagramKind::ControlJson, 100, 1_200);
    m.on_send(DatagramKind::AudioPcm16, 50, 1_300);
    m.on_send(DatagramKind::Unknown(9), 5, 1_400);
    m.on_send_error();
    assert_eq!(m.sent_packets, 3);
    assert_eq!(m.sent_bytes, 155);
    assert_eq!(m.control_packets, 1);
    assert_eq!(m.audio_packets, 1);
    assert_eq!(m.send_errors, 1);
    assert!(m.report_if_due(ClientConnectionState::Active, 5_999).is_none());
    let r = m.report_if_due(ClientConnectionState::Active, 6_000).expect("due");
    assert_eq!(r.sent_packets, 3);
    assert_eq!(r.idle_ms, 4_600);
    assert_eq!(r.reconnect_window_secs, 10);
    assert_eq!(m.last_report_at_ms, 6_000);
    assert!(m.report_if_due(ClientConnectionState::Active, 6_001).is_none());
}

#[test]
fn reconnect_gives_up_after_three_retries() {
    let mut ctx = ClientContext::new(0);
    assert!(ctx.transition_to(ClientConnectionState::Connecting));
    assert!(!ctx.transition_to(ClientConnectionState::Connecting));
    for attempt in 1..=MAX_RECONNECT_ATTEMPTS {
        assert!(ctx.on_stream_failure(), "attempt {attempt}");
        assert_eq!(ctx.state, ClientConnectionState::Reconnecting);
    }
    assert!(!ctx.on_stream_failure());
    assert_eq!(ctx.metrics.send_errors, 4);
    assert!(ctx.maybe_report(5_000).is_some());
}

#[test]
fn settings_from_environment() {
    assert_eq!(heartbeat_interval_ms(None), Some(1_000));
    assert_eq!(heartbeat_interval_ms(Some("0")), None);
    assert_eq!(heartbeat_interval_ms(Some("250")), Some(250));
    assert_eq!(heartbeat_interval_ms(Some("abc")), Some(1_000));
    assert_eq!(stream_duration_secs(None), None);
    assert_eq!(stream_duration_secs(Some("0")), None);
    assert_eq!(stream_duration_secs(Some("30")), Some(30));
    assert_eq!(stream_duration_secs(Some("-3")), None);
}

#[test]
fn session_ids_carry_the_clock() {
    assert_eq!(session_id_for(0), "session-0");
    assert_eq!(session_id_for(1700000000123), "session-1700000000123");
}

#[test]
fn stream_schedule_heartbeats_and_limit() {
    let mut s = StreamSchedule::new(100, Some(2), Some(1_000));
    assert!(!s.limit_reached(2_099));
    assert!(s.limit_reached(2_100));
    assert_eq!(s.next_audio_seq(), 0);
    assert_eq!(s.next_audio_seq(), 1);
    assert_eq!(s.heartbeat_due(1_099), None);
    assert_eq!(s.heartbeat_due(1_100), Some(0));
    assert_eq!(s.heartbeat_due(1_500), None);
    assert_eq!(s.heartbeat_due(2_100), Some(1));
    let mut quiet = StreamSchedule::new(0, None, None);
    assert!(!quiet.limit_reached(u64::MAX));
    assert_eq!(quiet.heartbeat_due(u64::MAX), None);
}

#[test]
fn handshake_reply_checks() {
    assert_eq!(handshake_reply_payload(&[]).unwrap_err(), "invalid datagram (empty)");
    assert_eq!(
        handshake_reply_payload(&[1, 2]).unwrap_err(),
        "unexpected datagram kind while waiting for handshake response"
    );
    assert_eq!(handshake_reply_payload(&[0, b'{', b'}']).unwrap(), b"{}");
    assert!(check_handshake_reply_type("handshake_response").is_ok());
    assert_eq!(
        check_handshake_reply_type("stats").unwrap_err(),
        "unexpected control message type: stats"
    );
    let response = HandshakeResponse {
        session_id: "session-test".to_string(),
        accepted: true,
        reason: None,
        effective: SessionParams::mvp_default(),
        busy: false,
    };
    assert!(check_handshake_session(&response, "session-test").is_ok());
    assert_eq!(
        check_handshake_session(&response, "other").unwrap_err(),
        "handshake response session_id mismatch"
    );
    assert!(handshake_allows_streaming(&response));
    let busy = HandshakeResponse { busy: true, ..response };
    assert!(!handshake_allows_streaming(&busy));
}
