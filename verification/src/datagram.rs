//! Datagram framing: the first byte of each UDP datagram is its kind, the
//! rest is the payload of that kind.

use vstd::prelude::*;

verus! {

/// The error that `serde_json` reports when a frame header does not decode.
#[verifier::external_type_specification]
#[verifier::external_body]
pub struct ExJsonError(serde_json::Error);

/// Kind byte of a control datagram (JSON payload).
pub const DATAGRAM_KIND_CONTROL_JSON: u8 = 0;

/// Kind byte of an audio datagram (PCM16 payload).
pub const DATAGRAM_KIND_AUDIO_PCM16: u8 = 1;

/// Width of the little-endian `u32` that precedes the audio frame header.
pub const AUDIO_HEADER_LEN_BYTES: usize = 4;

/// The kind of a datagram, read from its first byte.
#[derive(Debug, Clone, Copy, PartialEq, Eq, Structural)]
pub enum DatagramKind {
    ControlJson,
    AudioPcm16,
    Unknown(u8),
}

/// The kind that a first byte stands for.
pub open spec fn kind_of_byte(kind: u8) -> DatagramKind {
    if kind == DATAGRAM_KIND_CONTROL_JSON {
        DatagramKind::ControlJson
    } else if kind == DATAGRAM_KIND_AUDIO_PCM16 {
        DatagramKind::AudioPcm16
    } else {
        DatagramKind::Unknown(kind)
    }
}

/// The byte that stands for a kind.
pub open spec fn byte_of_kind(kind: DatagramKind) -> u8 {
    match kind {
        DatagramKind::ControlJson => DATAGRAM_KIND_CONTROL_JSON,
        DatagramKind::AudioPcm16 => DATAGRAM_KIND_AUDIO_PCM16,
        DatagramKind::Unknown(b) => b,
    }
}

/// The log label of a kind.
pub open spec fn kind_label(kind: DatagramKind) -> Seq<char> {
    match kind {
        DatagramKind::ControlJson => "control-json"@,
        DatagramKind::AudioPcm16 => "audio-pcm16"@,
        DatagramKind::Unknown(_) => "unknown"@,
    }
}

/// A datagram: the kind byte followed by the payload.
pub open spec fn framed(kind: u8, payload: Seq<u8>) -> Seq<u8> {
    seq![kind] + payload
}

impl DatagramKind {
    /// The kind that the first byte of a datagram stands for.
    pub fn from_byte(kind: u8) -> (k: DatagramKind)
        ensures
            k == kind_of_byte(kind),
    {
        if kind == DATAGRAM_KIND_CONTROL_JSON {
            DatagramKind::ControlJson
        } else if kind == DATAGRAM_KIND_AUDIO_PCM16 {
            DatagramKind::AudioPcm16
        } else {
            DatagramKind::Unknown(kind)
        }
    }

    /// A human readable name of the kind, for logs.
    pub fn as_str(self) -> (s: &'static str)
        ensures
            s@ == kind_label(self),
    {
        match self {
            DatagramKind::ControlJson => {
                proof {
                    reveal_strlit("control-json");
                }
                "control-json"
            },
            DatagramKind::AudioPcm16 => {
                proof {
                    reveal_strlit("audio-pcm16");
                }
                "audio-pcm16"
            },
            DatagramKind::Unknown(_) => {
                proof {
                    reveal_strlit("unknown");
                }
                "unknown"
            },
        }
    }
}

/// Splits a datagram into its kind and its payload; `None` for an empty
/// buffer.
pub fn split_datagram(buf: &[u8]) -> (r: Option<(DatagramKind, &[u8])>)
    ensures
        buf@.len() == 0 <==> r is None,
        r matches Some((kind, payload)) ==> {
            &&& kind == kind_of_byte(buf@[0])
            &&& payload@ == buf@.subrange(1, buf@.len() as int)
        },
{
    if buf.len() == 0 {
        return None;
    }
    let first = buf[0];
    let payload = &buf[1..buf.len()];
    Some((DatagramKind::from_byte(first), payload))
}

/// Prefixes a payload with its kind byte. No check is made on either.
pub fn wrap_datagram(kind: u8, payload: &[u8]) -> (buf: Vec<u8>)
    ensures
        buf@ == framed(kind, payload@),
{
    let mut buf: Vec<u8> = Vec::new();
    buf.push(kind);
    let n = payload.len();
    for i in 0..n
        invariant
            n == payload@.len(),
            buf@ == framed(kind, payload@.subrange(0, i as int)),
    {
        buf.push(payload[i]);
        assert(payload@.subrange(0, i + 1) == payload@.subrange(0, i as int).push(payload@[i as int]));
    }
    assert(payload@.subrange(0, n as int) == payload@);
    buf
}

/// Frames a control (JSON) payload behind the control kind byte.
pub fn wrap_control_json(payload: &[u8]) -> (buf: Vec<u8>)
    ensures
        buf@ == framed(DATAGRAM_KIND_CONTROL_JSON, payload@),
{
    wrap_datagram(DATAGRAM_KIND_CONTROL_JSON, payload)
}

/// Frames an audio (PCM16) payload behind the audio kind byte.
pub fn wrap_audio_pcm16(payload: &[u8]) -> (buf: Vec<u8>)
    ensures
        buf@ == framed(DATAGRAM_KIND_AUDIO_PCM16, payload@),
{
    wrap_datagram(DATAGRAM_KIND_AUDIO_PCM16, payload)
}

/// Why the payload of an audio datagram could not be taken apart.
#[derive(Debug)]
pub enum AudioFrameError {
    /// Fewer bytes than the length field needs.
    PayloadTooShort,
    /// The length field points past the end of the payload; it holds the
    /// length that was read.
    HeaderLengthOutOfBounds(usize),
    /// The header bytes are not a JSON frame header.
    HeaderDecodeFailed(serde_json::Error),
}

/// The four little-endian bytes of `n`.
pub open spec fn le_u32_bytes(n: u32) -> Seq<u8> {
    seq![
        (n % 256) as u8,
        ((n / 256) % 256) as u8,
        ((n / 65536) % 256) as u8,
        (n / 16777216) as u8,
    ]
}

/// The number that four little-endian bytes stand for.
pub open spec fn le_u32_value(b: Seq<u8>) -> int {
    b[0] + 256 * b[1] + 65536 * b[2] + 16777216 * b[3]
}

/// The value written into the length field for a header of `len` bytes: the
/// length itself, or 0 where it does not fit a `u32`.
pub open spec fn header_len_field(len: nat) -> u32 {
    if len <= u32::MAX {
        len as u32
    } else {
        0
    }
}

/// The payload of an audio datagram: the header length, the header, the
/// PCM16 bytes.
pub open spec fn audio_payload(header_json: Seq<u8>, pcm: Seq<u8>) -> Seq<u8> {
    le_u32_bytes(header_len_field(header_json.len())) + header_json + pcm
}

/// The header length that an audio payload announces (its first four bytes).
pub open spec fn announced_header_len(payload: Seq<u8>) -> int {
    le_u32_value(payload.subrange(0, 4))
}

fn push_all(buf: &mut Vec<u8>, bytes: &[u8])
    ensures
        final(buf)@ == old(buf)@ + bytes@,
{
    let n = bytes.len();
    for i in 0..n
        invariant
            n == bytes@.len(),
            buf@ == old(buf)@ + bytes@.subrange(0, i as int),
    {
        buf.push(bytes[i]);
        assert(bytes@.subrange(0, i + 1) == bytes@.subrange(0, i as int).push(bytes@[i as int]));
    }
    assert(bytes@.subrange(0, n as int) == bytes@);
}

/// Frames an audio datagram whose payload carries a frame header:
/// `[u32 header length, little endian][header JSON][PCM16 bytes]`, after the
/// kind byte 1. A header longer than `u32::MAX` bytes is announced as 0.
pub fn wrap_audio_pcm16_with_header(header_json: &[u8], pcm_payload: &[u8]) -> (buf: Vec<u8>)
    ensures
        buf@ == framed(DATAGRAM_KIND_AUDIO_PCM16, audio_payload(header_json@, pcm_payload@)),
{
    let header_len = header_json.len();
    let len_u32: u32 = if header_len <= 0xffff_ffff_usize {
        header_len as u32
    } else {
        0
    };
    let mut buf: Vec<u8> = Vec::new();
    buf.push(DATAGRAM_KIND_AUDIO_PCM16);
    buf.push((len_u32 % 256) as u8);
    buf.push(((len_u32 / 256) % 256) as u8);
    buf.push(((len_u32 / 65536) % 256) as u8);
    buf.push((len_u32 / 16777216) as u8);
    assert(buf@ == framed(DATAGRAM_KIND_AUDIO_PCM16, le_u32_bytes(len_u32)));
    push_all(&mut buf, header_json);
    push_all(&mut buf, pcm_payload);
    assert(buf@ == framed(DATAGRAM_KIND_AUDIO_PCM16, audio_payload(header_json@, pcm_payload@)));
    buf
}

/// Takes the payload of an audio datagram apart into the frame header bytes
/// and the PCM16 bytes that follow them.
pub fn split_audio_pcm16_with_header(payload: &[u8]) -> (r: Result<(&[u8], &[u8]), AudioFrameError>)
    ensures
        payload@.len() < AUDIO_HEADER_LEN_BYTES <==> r matches Err(AudioFrameError::PayloadTooShort),
        (r matches Err(AudioFrameError::HeaderLengthOutOfBounds(_))) <==> {
            &&& payload@.len() >= AUDIO_HEADER_LEN_BYTES
            &&& payload@.len() < AUDIO_HEADER_LEN_BYTES + announced_header_len(payload@)
        },
        r matches Err(AudioFrameError::HeaderLengthOutOfBounds(n)) ==> n
            == announced_header_len(payload@),
        !(r matches Err(AudioFrameError::HeaderDecodeFailed(_))),
        r matches Ok((header_json, pcm)) ==> {
            let end = AUDIO_HEADER_LEN_BYTES + announced_header_len(payload@);
            &&& header_json@ == payload@.subrange(AUDIO_HEADER_LEN_BYTES as int, end)
            &&& pcm@ == payload@.subrange(end, payload@.len() as int)
        },
{
    if payload.len() < AUDIO_HEADER_LEN_BYTES {
        return Err(AudioFrameError::PayloadTooShort);
    }
    let header_len: usize = payload[0] as usize + 256 * (payload[1] as usize) + 65536 * (
    payload[2] as usize) + 16777216 * (payload[3] as usize);
    assert(header_len == announced_header_len(payload@));
    if payload.len() - AUDIO_HEADER_LEN_BYTES < header_len {
        return Err(AudioFrameError::HeaderLengthOutOfBounds(header_len));
    }
    let header_end = AUDIO_HEADER_LEN_BYTES + header_len;
    let header_json = &payload[AUDIO_HEADER_LEN_BYTES..header_end];
    let pcm = &payload[header_end..payload.len()];
    Ok((header_json, pcm))
}

/// Splitting a framed datagram gives back the kind byte and the payload that
/// it was framed with.
pub proof fn lemma_split_of_framed(kind: u8, payload: Seq<u8>)
    ensures
        framed(kind, payload).len() == payload.len() + 1,
        framed(kind, payload)[0] == kind,
        framed(kind, payload).subrange(1, framed(kind, payload).len() as int) == payload,
{
    assert(framed(kind, payload).subrange(1, framed(kind, payload).len() as int) =~= payload);
}

/// Framing the two halves of a split (non-empty) datagram gives back the
/// datagram.
pub proof fn lemma_framed_of_split(buf: Seq<u8>)
    requires
        buf.len() > 0,
    ensures
        framed(buf[0], buf.subrange(1, buf.len() as int)) == buf,
{
    assert(framed(buf[0], buf.subrange(1, buf.len() as int)) =~= buf);
}

/// The kind read from a byte is written back as that same byte.
pub proof fn lemma_kind_byte_roundtrip(b: u8)
    ensures
        byte_of_kind(kind_of_byte(b)) == b,
{
}

/// A kind other than `Unknown(0)` and `Unknown(1)` is read back from its
/// byte.
pub proof fn lemma_byte_kind_roundtrip(k: DatagramKind)
    requires
        k != DatagramKind::Unknown(DATAGRAM_KIND_CONTROL_JSON),
        k != DatagramKind::Unknown(DATAGRAM_KIND_AUDIO_PCM16),
    ensures
        kind_of_byte(byte_of_kind(k)) == k,
{
}

proof fn lemma_le_u32_roundtrip(n: u32)
    ensures
        le_u32_bytes(n).len() == 4,
        le_u32_value(le_u32_bytes(n)) == n,
{
    let b = le_u32_bytes(n);
    assert(b[0] == n % 256);
    assert(b[1] == (n / 256) % 256);
    assert(b[2] == (n / 65536) % 256);
    assert(b[3] == n / 16777216);
    assert((n % 256) + 256 * ((n / 256) % 256) + 65536 * ((n / 65536) % 256) + 16777216 * (n
        / 16777216) == n) by (nonlinear_arith)
        requires
            0 <= n <= 0xffff_ffff,
    ;
}

proof fn lemma_le_u32_bytes_of_value(b: Seq<u8>)
    requires
        b.len() == 4,
    ensures
        0 <= le_u32_value(b) <= u32::MAX,
        le_u32_bytes(le_u32_value(b) as u32) == b,
{
    let v = le_u32_value(b);
    let (b0, b1, b2, b3) = (b[0] as int, b[1] as int, b[2] as int, b[3] as int);
    assert(0 <= b0 < 256 && 0 <= b1 < 256 && 0 <= b2 < 256 && 0 <= b3 < 256);
    assert(v == b0 + 256 * b1 + 65536 * b2 + 16777216 * b3);
    assert(v % 256 == b0 && (v / 256) % 256 == b1 && (v / 65536) % 256 == b2 && v / 16777216
        == b3) by (nonlinear_arith)
        requires
            0 <= b0 < 256,
            0 <= b1 < 256,
            0 <= b2 < 256,
            0 <= b3 < 256,
            v == b0 + 256 * b1 + 65536 * b2 + 16777216 * b3,
    ;
    assert(le_u32_bytes(v as u32) =~= b);
}

/// Taking apart the payload built from a header and PCM bytes gives back the
/// header and the PCM bytes, for every header that fits the length field.
pub proof fn lemma_split_of_audio_payload(header_json: Seq<u8>, pcm: Seq<u8>)
    requires
        header_json.len() <= u32::MAX,
    ensures
        ({
            let p = audio_payload(header_json, pcm);
            let end = AUDIO_HEADER_LEN_BYTES + header_json.len();
            &&& p.len() >= AUDIO_HEADER_LEN_BYTES
            &&& announced_header_len(p) == header_json.len()
            &&& p.len() >= end
            &&& p.subrange(AUDIO_HEADER_LEN_BYTES as int, end as int) == header_json
            &&& p.subrange(end as int, p.len() as int) == pcm
        }),
{
    let p = audio_payload(header_json, pcm);
    let n = header_len_field(header_json.len());
    lemma_le_u32_roundtrip(n);
    assert(p.subrange(0, 4) =~= le_u32_bytes(n));
    let end = AUDIO_HEADER_LEN_BYTES + header_json.len();
    assert(p.subrange(AUDIO_HEADER_LEN_BYTES as int, end as int) =~= header_json);
    assert(p.subrange(end as int, p.len() as int) =~= pcm);
}

/// A payload that takes apart into a header and PCM bytes is rebuilt, byte
/// for byte, from those two parts.
pub proof fn lemma_audio_payload_of_split(p: Seq<u8>)
    requires
        p.len() >= AUDIO_HEADER_LEN_BYTES,
        p.len() >= AUDIO_HEADER_LEN_BYTES + announced_header_len(p),
    ensures
        ({
            let end = AUDIO_HEADER_LEN_BYTES + announced_header_len(p);
            audio_payload(p.subrange(AUDIO_HEADER_LEN_BYTES as int, end), p.subrange(end, p.len() as int)) == p
        }),
{
    let hl = announced_header_len(p);
    lemma_le_u32_bytes_of_value(p.subrange(0, 4));
    let end = AUDIO_HEADER_LEN_BYTES + hl;
    let h = p.subrange(AUDIO_HEADER_LEN_BYTES as int, end);
    assert(h.len() == hl);
    assert(header_len_field(h.len()) == hl as u32);
    assert(audio_payload(h, p.subrange(end, p.len() as int)) =~= p);
}

} // verus!
