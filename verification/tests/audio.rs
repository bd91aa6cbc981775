use netmic::audio::{
    capture_buffer_capacity, frame_interval_ms, frames_for_chunk, normalize_length,
    pcm16_to_bytes, CaptureError, Pcm16Frame, SampleBuffer,
};

#[test]
fn frames_for_chunk_never_zero() {
    assert_eq!(frames_for_chunk(48_000, 0), 1);
    assert_eq!(frames_for_chunk(48_000, 20), 960);
}

#[test]
fn frames_for_chunk_other_rates() {
    assert_eq!(frames_for_chunk(44_100, 20), 882);
    assert_eq!(frames_for_chunk(16_000, 10), 160);
    assert_eq!(frames_for_chunk(0, 20), 1);
    assert_eq!(frames_for_chunk(999, 1), 1);
    assert_eq!(frames_for_chunk(u32::MAX, u32::MAX), ((u32::MAX as u64 * u32::MAX as u64) / 1000) as usize);
}

#[test]
fn normalize_length_truncates_or_pads() {
    let mut samples = vec![1.0_f32, 2.0, 3.0];
    normalize_length(&mut samples, 2, 0.0);
    assert_eq!(samples.len(), 2);

    normalize_length(&mut samples, 5, 0.0);
    assert_eq!(samples.len(), 5);
    assert_eq!(samples[2], 0.0);
}

#[test]
fn normalize_length_keeps_exact_length() {
    let mut samples = vec![4_i16, 5];
    normalize_length(&mut samples, 2, 0);
    assert_eq!(samples, vec![4, 5]);
    normalize_length(&mut samples, 0, 0);
    assert!(samples.is_empty());
}

#[test]
fn frame_bytes_are_little_endian() {
    let frame = Pcm16Frame::new(vec![0, 1, -1, 0x1234, i16::MIN, i16::MAX], 48_000, 1);
    assert_eq!(frame.sample_rate_hz, 48_000);
    assert_eq!(frame.channels, 1);
    let bytes = frame.to_bytes();
    let expected: Vec<u8> = frame.samples.iter().flat_map(|s| s.to_le_bytes()).collect();
    assert_eq!(bytes, expected);
    assert_eq!(pcm16_to_bytes(&[0x1234]), vec![0x34, 0x12]);
    assert_eq!(pcm16_to_bytes(&[-2]), vec![0xfe, 0xff]);
    assert!(pcm16_to_bytes(&[]).is_empty());
}

#[test]
fn frame_bytes_decode_back_to_samples() {
    let samples = vec![-32768_i16, -1000, -1, 0, 1, 1000, 32767];
    let bytes = pcm16_to_bytes(&samples);
    let decoded: Vec<i16> = bytes.chunks_exact(2).map(|c| i16::from_le_bytes([c[0], c[1]])).collect();
    assert_eq!(decoded, samples);
}

#[test]
fn frame_interval_is_at_least_one_ms() {
    assert_eq!(frame_interval_ms(0), 1);
    assert_eq!(frame_interval_ms(20), 20);
}

#[test]
fn sample_buffer_is_fifo_and_bounded() {
    let mut buf: SampleBuffer<i32> = SampleBuffer::new(4);
    buf.push_samples(&[1, 2, 3]);
    assert_eq!(buf.available(), 3);
    buf.push_samples(&[4, 5]);
    assert_eq!(buf.available(), 4);
    assert_eq!(buf.dropped(), 1);
    assert_eq!(buf.pop_samples(2), vec![2, 3]);
    assert_eq!(buf.pop_samples(10), vec![4, 5]);
    assert_eq!(buf.available(), 0);
    assert!(buf.pop_samples(1).is_empty());
}

#[test]
fn sample_buffer_input_larger_than_capacity() {
    let mut buf: SampleBuffer<u8> = SampleBuffer::new(2);
    buf.push_samples(&[1]);
    buf.push_samples(&[2, 3, 4, 5]);
    assert_eq!(buf.dropped(), 3);
    assert_eq!(buf.available(), 2);
    assert_eq!(buf.pop_samples(4), vec![4, 5]);
    buf.push_samples(&[6, 7, 8]);
    assert_eq!(buf.dropped(), 4);
    assert_eq!(buf.pop_samples(4), vec![7, 8]);
}

#[test]
fn sample_buffer_zero_capacity_ignores_input() {
    let mut buf: SampleBuffer<f32> = SampleBuffer::new(0);
    buf.push_samples(&[0.5, 0.25]);
    assert_eq!(buf.available(), 0);
    buf.push_samples(&[]);
    assert_eq!(buf.dropped(), 0);
}

#[test]
fn capture_error_variants() {
    let e = CaptureError::BufferTimeout { wanted: 960, available: 12 };
    match e {
        CaptureError::BufferTimeout { wanted, available } => {
            assert_eq!(wanted, 960);
            assert_eq!(available, 12);
        }
        _ => unreachable!(),
    }
}

#[test]
fn take_frames_waits_for_enough_samples() {
    let mut b: SampleBuffer<i16> = SampleBuffer::new(8);
    b.push_samples(&[1, 2, 3]);
    match b.take_frames(4) {
        Err(CaptureError::BufferTimeout { wanted, available }) => {
            assert_eq!(wanted, 4);
            assert_eq!(available, 3);
        }
        other => panic!("unexpected {other:?}"),
    }
    assert_eq!(b.available(), 3);
    assert_eq!(b.take_frames(2).unwrap(), vec![1, 2]);
    assert_eq!(b.available(), 1);
}

#[test]
fn capture_buffer_holds_two_seconds() {
    assert_eq!(capture_buffer_capacity(48_000), 96_000);
    assert_eq!(capture_buffer_capacity(0), 0);
    assert_eq!(capture_buffer_capacity(u32::MAX), u32::MAX as usize);
}
