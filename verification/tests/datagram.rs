use netmic::datagram::{
    split_audio_pcm16_with_header, split_datagram, wrap_audio_pcm16, wrap_audio_pcm16_with_header,
    wrap_control_json, wrap_datagram, AudioFrameError, DatagramKind, DATAGRAM_KIND_AUDIO_PCM16,
    DATAGRAM_KIND_CONTROL_JSON,
};
use serde_json::Value;

fn header_json(session_id: &str, seq: u64, timestamp_ms: u64, frame_samples: u32) -> Vec<u8> {
    let mut map = serde_json::Map::new();
    map.insert("session_id".to_string(), Value::from(session_id));
    map.insert("seq".to_string(), Value::from(seq));
    map.insert("timestamp_ms".to_string(), Value::from(timestamp_ms));
    map.insert("frame_samples".to_string(), Value::from(frame_samples));
    serde_json::to_vec(&Value::Object(map)).expect("header json")
}

#[test]
fn split_empty_returns_none() {
    assert!(split_datagram(&[]).is_none());
}

#[test]
fn split_control_json() {
    let buf = [0_u8, b'{', b'}'];
    let (kind, payload) = split_datagram(&buf).expect("control datagram");
    assert_eq!(kind, DatagramKind::ControlJson);
    assert_eq!(payload, b"{}");
}

#[test]
fn split_audio_pcm16() {
    let buf = [1_u8, 0x34, 0x12];
    let (kind, payload) = split_datagram(&buf).expect("audio datagram");
    assert_eq!(kind, DatagramKind::AudioPcm16);
    assert_eq!(payload, &[0x34, 0x12]);
}

#[test]
fn split_unknown_kind() {
    let buf = [9_u8, 1, 2, 3];
    let (kind, payload) = split_datagram(&buf).expect("unknown datagram");
    assert_eq!(kind, DatagramKind::Unknown(9));
    assert_eq!(payload, &[1, 2, 3]);
}

#[test]
fn wrap_datagram_prefixes_kind() {
    let buf = wrap_datagram(7, &[1, 2, 3]);
    assert_eq!(buf, vec![7, 1, 2, 3]);
}

#[test]
fn wrap_control_json_uses_constant_kind() {
    let buf = wrap_control_json(b"{}");
    assert_eq!(buf[0], DATAGRAM_KIND_CONTROL_JSON);
    assert_eq!(&buf[1..], b"{}");
}

#[test]
fn wrap_audio_pcm16_uses_constant_kind() {
    let buf = wrap_audio_pcm16(&[0x34, 0x12]);
    assert_eq!(buf[0], DATAGRAM_KIND_AUDIO_PCM16);
    assert_eq!(&buf[1..], &[0x34, 0x12]);
}

#[test]
fn wrap_and_split_audio_with_header() {
    let header = header_json("s-1", 42, 1234, 960);
    let pcm = vec![0x11, 0x22, 0x33];
    let buf = wrap_audio_pcm16_with_header(&header, &pcm);
    let (kind, payload) = split_datagram(&buf).expect("split datagram");
    assert_eq!(kind, DatagramKind::AudioPcm16);
    let (decoded_json, decoded_pcm) = split_audio_pcm16_with_header(payload).expect("split header");
    let decoded: Value = serde_json::from_slice(decoded_json).expect("header json");
    assert_eq!(decoded["session_id"], "s-1");
    assert_eq!(decoded["seq"], 42);
    assert_eq!(decoded["timestamp_ms"], 1234);
    assert_eq!(decoded["frame_samples"], 960);
    assert_eq!(decoded_pcm, pcm.as_slice());
}

#[test]
fn kind_names_for_logs() {
    assert_eq!(DatagramKind::ControlJson.as_str(), "control-json");
    assert_eq!(DatagramKind::AudioPcm16.as_str(), "audio-pcm16");
    assert_eq!(DatagramKind::Unknown(200).as_str(), "unknown");
    assert_eq!(DatagramKind::from_byte(0), DatagramKind::ControlJson);
    assert_eq!(DatagramKind::from_byte(1), DatagramKind::AudioPcm16);
    assert_eq!(DatagramKind::from_byte(2), DatagramKind::Unknown(2));
}

#[test]
fn wrap_then_split_gives_back_kind_and_payload() {
    for kind in [0_u8, 1, 2, 255] {
        let payload = [kind, 9, 8, 7, 6];
        let buf = wrap_datagram(kind, &payload);
        let (k, p) = split_datagram(&buf).expect("split");
        assert_eq!(k, DatagramKind::from_byte(kind));
        assert_eq!(p, &payload);
    }
    let buf = wrap_datagram(5, &[]);
    let (k, p) = split_datagram(&buf).expect("split");
    assert_eq!(k, DatagramKind::Unknown(5));
    assert!(p.is_empty());
}

#[test]
fn audio_payload_layout_is_length_header_pcm() {
    let buf = wrap_audio_pcm16_with_header(&[b'{', b'}'], &[0xAA, 0xBB]);
    assert_eq!(buf, vec![1, 2, 0, 0, 0, b'{', b'}', 0xAA, 0xBB]);
    let header = vec![b'x'; 300];
    let buf = wrap_audio_pcm16_with_header(&header, &[]);
    assert_eq!(&buf[1..5], &[44, 1, 0, 0]);
    assert_eq!(buf.len(), 1 + 4 + 300);
}

#[test]
fn audio_payload_too_short() {
    let err = split_audio_pcm16_with_header(&[1, 0, 0]).unwrap_err();
    assert!(matches!(err, AudioFrameError::PayloadTooShort));
    let err = split_audio_pcm16_with_header(&[]).unwrap_err();
    assert!(matches!(err, AudioFrameError::PayloadTooShort));
}

#[test]
fn audio_header_length_out_of_bounds() {
    let err = split_audio_pcm16_with_header(&[5, 0, 0, 0, b'a', b'b']).unwrap_err();
    assert!(matches!(err, AudioFrameError::HeaderLengthOutOfBounds(5)));
    let err = split_audio_pcm16_with_header(&[0xff, 0xff, 0xff, 0xff]).unwrap_err();
    assert!(matches!(err, AudioFrameError::HeaderLengthOutOfBounds(4294967295)));
}

#[test]
fn audio_empty_header_and_pcm() {
    let (h, pcm) = split_audio_pcm16_with_header(&[0, 0, 0, 0]).expect("split");
    assert!(h.is_empty());
    assert!(pcm.is_empty());
    let (h, pcm) = split_audio_pcm16_with_header(&[1, 0, 0, 0, 7, 8, 9]).expect("split");
    assert_eq!(h, &[7]);
    assert_eq!(pcm, &[8, 9]);
}
