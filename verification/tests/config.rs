use netmic::config::{normalize_session_params, DEFAULT_CHUNK_MS, DEFAULT_SAMPLE_RATE_HZ};
use netmic::protocol::SessionParams;

#[test]
fn supported_parameters_are_kept() {
    let requested = SessionParams {
        codec: "opus".to_string(),
        sample_rate_hz: 48_000,
        channels: 1,
        chunk_ms: 10,
        opus_bitrate_kbps: Some(96),
        jitter_buffer_ms: 60,
    };
    let r = normalize_session_params(&requested);
    assert_eq!(r.effective, requested);
    assert!(r.fallbacks.is_empty());
    let d = normalize_session_params(&SessionParams::mvp_default());
    assert_eq!(d.effective, SessionParams::mvp_default());
    assert!(d.fallbacks.is_empty());
}

#[test]
fn unsupported_parameters_fall_back_and_are_recorded() {
    let requested = SessionParams {
        codec: "mp3".to_string(),
        sample_rate_hz: 12_345,
        channels: 2,
        chunk_ms: 15,
        opus_bitrate_kbps: None,
        jitter_buffer_ms: 999,
    };
    let r = normalize_session_params(&requested);
    assert_eq!(r.effective, SessionParams::mvp_default());
    assert_eq!(r.effective.sample_rate_hz, DEFAULT_SAMPLE_RATE_HZ);
    assert_eq!(r.effective.chunk_ms, DEFAULT_CHUNK_MS);
    let fields: Vec<&str> = r.fallbacks.iter().map(|f| f.field.as_str()).collect();
    assert_eq!(
        fields,
        vec!["codec", "sample_rate_hz", "channels", "chunk_ms", "opus_bitrate_kbps", "jitter_buffer_ms"]
    );
    assert_eq!(r.fallbacks[0].requested, "mp3");
    assert_eq!(r.fallbacks[0].applied, "opus");
    assert_eq!(r.fallbacks[1].requested, "12345");
    assert_eq!(r.fallbacks[1].applied, "48000");
    assert_eq!(r.fallbacks[4].requested, "none");
    assert_eq!(r.fallbacks[4].applied, "48");
    assert_eq!(r.fallbacks[5].reason, "超出安全范围，已回退到默认值");
}

#[test]
fn pcm16_has_no_bitrate() {
    let requested = SessionParams {
        codec: "pcm16".to_string(),
        opus_bitrate_kbps: Some(9_999),
        ..SessionParams::mvp_default()
    };
    let r = normalize_session_params(&requested);
    assert_eq!(r.effective.codec, "pcm16");
    assert_eq!(r.effective.opus_bitrate_kbps, None);
    assert!(r.fallbacks.is_empty());
}
