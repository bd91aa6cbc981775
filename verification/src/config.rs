//! Codec kinds, the internal sample format, the default session
//! parameters, and the safe ranges that requested parameters are held to
//! (with a record of every value that fell back to its default).

use vstd::prelude::*;
use crate::protocol::SessionParams;
use crate::text::{decimal, str_equals, u64_to_decimal};

verus! {

/// The codecs that a session can use.
#[derive(Debug, Clone, Copy, PartialEq, Eq, Structural)]
pub enum CodecKind {
    Opus,
    Pcm16,
}

/// Internal sample rate (Hz).
pub const INTERNAL_SAMPLE_RATE_HZ: u32 = 48_000;

/// Internal channel count (mono).
pub const INTERNAL_CHANNELS: u16 = 1;

/// Internal sample width (bits).
pub const INTERNAL_BITS_PER_SAMPLE: u16 = 16;

/// The default parameters of a session.
#[derive(Debug, Clone, Copy, PartialEq, Eq, Structural)]
pub struct DefaultParams {
    pub codec: CodecKind,
    pub sample_rate_hz: u32,
    pub chunk_ms: u32,
    pub jitter_buffer_ms: u32,
}

impl Default for DefaultParams {
    /// Opus, 48 kHz, 20 ms chunks, 100 ms jitter buffer.
    fn default() -> (p: Self)
        ensures
            p == (DefaultParams {
                codec: CodecKind::Opus,
                sample_rate_hz: INTERNAL_SAMPLE_RATE_HZ,
                chunk_ms: 20,
                jitter_buffer_ms: 100,
            }),
    {
        DefaultParams {
            codec: CodecKind::Opus,
            sample_rate_hz: INTERNAL_SAMPLE_RATE_HZ,
            chunk_ms: 20,
            jitter_buffer_ms: 100,
        }
    }
}

/// Default sample rate of a session (Hz).
pub const DEFAULT_SAMPLE_RATE_HZ: u32 = 48_000;

/// Default chunk length of a session (ms).
pub const DEFAULT_CHUNK_MS: u32 = 20;

/// Default Opus bitrate (kbps).
pub const DEFAULT_OPUS_BITRATE_KBPS: u32 = 48;

/// Default jitter buffer (ms).
pub const DEFAULT_JITTER_BUFFER_MS: u32 = 100;

/// The codecs a session may use: `opus` and `pcm16`.
pub open spec fn codec_supported(c: Seq<char>) -> bool {
    c == "opus"@ || c == "pcm16"@
}

/// The sample rates a session may use: the safe range, 16 to 48 kHz.
pub open spec fn rate_supported(hz: u32) -> bool {
    16_000 <= hz <= 48_000
}

/// The chunk lengths a session may use: the Opus frame lengths inside the
/// safe range of 10 to 60 ms (10, 20, 40 and 60 ms).
pub open spec fn chunk_supported(ms: u32) -> bool {
    ms == 10 || ms == 20 || ms == 40 || ms == 60
}

/// The Opus bitrates a session may use: Opus's own range, 6 to 510 kbps.
pub open spec fn bitrate_supported(kbps: u32) -> bool {
    6 <= kbps <= 510
}

/// The jitter buffers a session may use: the advised range, 40 to 400 ms.
pub open spec fn jitter_supported(ms: u32) -> bool {
    40 <= ms <= 400
}

/// The codec that applies: the requested one where supported, else `opus`.
pub open spec fn effective_codec(req: SessionParams) -> Seq<char> {
    if codec_supported(req.codec@) {
        req.codec@
    } else {
        "opus"@
    }
}

/// The Opus bitrate that applies: none for `pcm16`; for `opus` the
/// requested one where given and supported, else the default.
pub open spec fn effective_bitrate(req: SessionParams) -> Option<u32> {
    if effective_codec(req) != "opus"@ {
        None
    } else {
        match req.opus_bitrate_kbps {
            Some(k) => if bitrate_supported(k) {
                Some(k)
            } else {
                Some(DEFAULT_OPUS_BITRATE_KBPS)
            },
            None => Some(DEFAULT_OPUS_BITRATE_KBPS),
        }
    }
}

/// Whether `eff` holds the parameters that apply to the request `req`:
/// each requested value that is supported, the default for every other,
/// and always mono.
pub open spec fn is_normalized(req: SessionParams, eff: SessionParams) -> bool {
    &&& eff.codec@ == effective_codec(req)
    &&& eff.sample_rate_hz == if rate_supported(req.sample_rate_hz) {
        req.sample_rate_hz
    } else {
        DEFAULT_SAMPLE_RATE_HZ
    }
    &&& eff.channels == INTERNAL_CHANNELS
    &&& eff.chunk_ms == if chunk_supported(req.chunk_ms) {
        req.chunk_ms
    } else {
        DEFAULT_CHUNK_MS
    }
    &&& eff.opus_bitrate_kbps == effective_bitrate(req)
    &&& eff.jitter_buffer_ms == if jitter_supported(req.jitter_buffer_ms) {
        req.jitter_buffer_ms
    } else {
        DEFAULT_JITTER_BUFFER_MS
    }
}

/// A requested value that fell back to its default.
#[derive(Debug, Clone)]
pub struct FallbackEvent {
    /// The parameter's name (`codec`, `sample_rate_hz`, `channels`,
    /// `chunk_ms`, `opus_bitrate_kbps`, `jitter_buffer_ms`).
    pub field: String,
    /// The requested value, as text (`none` for a missing bitrate).
    pub requested: String,
    /// The value that applies instead, as text.
    pub applied: String,
    /// Why.
    pub reason: String,
}

/// A fallback record as the contracts see it.
pub struct FallbackView {
    pub field: Seq<char>,
    pub requested: Seq<char>,
    pub applied: Seq<char>,
    pub reason: Seq<char>,
}

impl View for FallbackEvent {
    type V = FallbackView;

    open spec fn view(&self) -> FallbackView {
        FallbackView {
            field: self.field@,
            requested: self.requested@,
            applied: self.applied@,
            reason: self.reason@,
        }
    }
}

/// The reason given for every fallback.
pub open spec fn fallback_reason() -> Seq<char> {
    "超出安全范围，已回退到默认值"@
}

/// A record for `field` where `unsupported`, else none.
pub open spec fn record_if(unsupported: bool, field: Seq<char>, requested: Seq<char>, applied: Seq<char>) -> Seq<
    FallbackView,
> {
    if unsupported {
        seq![FallbackView { field, requested, applied, reason: fallback_reason() }]
    } else {
        seq![]
    }
}

/// The records of a request's fallbacks, in the order of the fields.
pub open spec fn fallbacks_of(req: SessionParams) -> Seq<FallbackView> {
    record_if(!codec_supported(req.codec@), "codec"@, req.codec@, "opus"@) + record_if(
        !rate_supported(req.sample_rate_hz),
        "sample_rate_hz"@,
        decimal(req.sample_rate_hz as nat),
        decimal(DEFAULT_SAMPLE_RATE_HZ as nat),
    ) + record_if(
        req.channels != INTERNAL_CHANNELS,
        "channels"@,
        decimal(req.channels as nat),
        decimal(INTERNAL_CHANNELS as nat),
    ) + record_if(
        !chunk_supported(req.chunk_ms),
        "chunk_ms"@,
        decimal(req.chunk_ms as nat),
        decimal(DEFAULT_CHUNK_MS as nat),
    ) + record_if(
        effective_codec(req) == "opus"@ && !(req.opus_bitrate_kbps matches Some(k)
            && bitrate_supported(k)),
        "opus_bitrate_kbps"@,
        match req.opus_bitrate_kbps {
            Some(k) => decimal(k as nat),
            None => "none"@,
        },
        decimal(DEFAULT_OPUS_BITRATE_KBPS as nat),
    ) + record_if(
        !jitter_supported(req.jitter_buffer_ms),
        "jitter_buffer_ms"@,
        decimal(req.jitter_buffer_ms as nat),
        decimal(DEFAULT_JITTER_BUFFER_MS as nat),
    )
}

/// The views of a list of fallback records.
pub open spec fn fallback_views(v: Seq<FallbackEvent>) -> Seq<FallbackView> {
    v.map_values(|e: FallbackEvent| e@)
}

/// The parameters that apply to a request, and the fallbacks taken.
#[derive(Debug, Clone)]
pub struct NormalizedParams {
    pub effective: SessionParams,
    pub fallbacks: Vec<FallbackEvent>,
}

fn push_record(out: &mut Vec<FallbackEvent>, field: &str, requested: String, applied: String)
    ensures
        fallback_views(final(out)@) == fallback_views(old(out)@).push(
            FallbackView {
                field: field@,
                requested: requested@,
                applied: applied@,
                reason: fallback_reason(),
            },
        ),
{
    let ghost before = fallback_views(out@);
    out.push(
        FallbackEvent {
            field: String::from_str(field),
            requested,
            applied,
            reason: String::from_str("超出安全范围，已回退到默认值"),
        },
    );
    proof {
        reveal_strlit("超出安全范围，已回退到默认值");
    }
    assert(fallback_views(out@) =~= before.push(
        FallbackView {
            field: field@,
            requested: requested@,
            applied: applied@,
            reason: fallback_reason(),
        },
    ));
}

/// Holds requested parameters to the safe ranges: each supported value is
/// kept, every other falls back to its default (and is recorded, in field
/// order); the channel count is always mono.
pub fn normalize_session_params(requested: &SessionParams) -> (r: NormalizedParams)
    ensures
        is_normalized(*requested, r.effective),
        fallback_views(r.fallbacks@) == fallbacks_of(*requested),
        r.effective.channels == 1,
        16_000 <= r.effective.sample_rate_hz <= 48_000,
        10 <= r.effective.chunk_ms <= 60,
        40 <= r.effective.jitter_buffer_ms <= 400,
        16_000 <= requested.sample_rate_hz <= 48_000 ==> r.effective.sample_rate_hz
            == requested.sample_rate_hz,
        (requested.chunk_ms == 10 || requested.chunk_ms == 20 || requested.chunk_ms == 40
            || requested.chunk_ms == 60) ==> r.effective.chunk_ms == requested.chunk_ms,
        40 <= requested.jitter_buffer_ms <= 400 ==> r.effective.jitter_buffer_ms
            == requested.jitter_buffer_ms,
        requested.codec@ == "opus"@ || requested.codec@ == "pcm16"@ ==> r.effective.codec@
            == requested.codec@,
        r.effective.codec@ == "pcm16"@ ==> r.effective.opus_bitrate_kbps is None,
        requested.codec@ == "opus"@ && (requested.opus_bitrate_kbps matches Some(k) && 6 <= k
            <= 510) ==> r.effective.opus_bitrate_kbps == requested.opus_bitrate_kbps,
{
    proof {
        reveal_strlit("opus");
        reveal_strlit("pcm16");
        assert("opus"@.len() == 4 && "pcm16"@.len() == 5);
    }
    let mut out: Vec<FallbackEvent> = Vec::new();
    let ghost req = *requested;
    assert(fallback_views(out@) =~= Seq::<FallbackView>::empty());
    let codec_ok = str_equals(requested.codec.as_str(), "opus") || str_equals(
        requested.codec.as_str(),
        "pcm16",
    );
    let codec = if codec_ok {
        requested.codec.clone()
    } else {
        push_record(&mut out, "codec", requested.codec.clone(), String::from_str("opus"));
        String::from_str("opus")
    };
    let ghost after_codec = fallback_views(out@);
    let rate_ok = 16_000 <= requested.sample_rate_hz && requested.sample_rate_hz <= 48_000;
    let sample_rate_hz = if rate_ok {
        requested.sample_rate_hz
    } else {
        push_record(
            &mut out,
            "sample_rate_hz",
            u64_to_decimal(requested.sample_rate_hz as u64),
            u64_to_decimal(DEFAULT_SAMPLE_RATE_HZ as u64),
        );
        DEFAULT_SAMPLE_RATE_HZ
    };
    let ghost after_rate = fallback_views(out@);
    if requested.channels != INTERNAL_CHANNELS {
        push_record(
            &mut out,
            "channels",
            u64_to_decimal(requested.channels as u64),
            u64_to_decimal(INTERNAL_CHANNELS as u64),
        );
    }
    let ghost after_channels = fallback_views(out@);
    let c = requested.chunk_ms;
    let chunk_ok = c == 10 || c == 20 || c == 40 || c == 60;
    let chunk_ms = if chunk_ok {
        c
    } else {
        push_record(
            &mut out,
            "chunk_ms",
            u64_to_decimal(c as u64),
            u64_to_decimal(DEFAULT_CHUNK_MS as u64),
        );
        DEFAULT_CHUNK_MS
    };
    let ghost after_chunk = fallback_views(out@);
    let is_opus = str_equals(codec.as_str(), "opus");
    let opus_bitrate_kbps = if !is_opus {
        None
    } else {
        match requested.opus_bitrate_kbps {
            Some(k) => {
                if 6 <= k && k <= 510 {
                    Some(k)
                } else {
                    push_record(
                        &mut out,
                        "opus_bitrate_kbps",
                        u64_to_decimal(k as u64),
                        u64_to_decimal(DEFAULT_OPUS_BITRATE_KBPS as u64),
                    );
                    Some(DEFAULT_OPUS_BITRATE_KBPS)
                }
            },
            None => {
                proof {
                    reveal_strlit("none");
                }
                push_record(
                    &mut out,
                    "opus_bitrate_kbps",
                    String::from_str("none"),
                    u64_to_decimal(DEFAULT_OPUS_BITRATE_KBPS as u64),
                );
                Some(DEFAULT_OPUS_BITRATE_KBPS)
            },
        }
    };
    let ghost after_bitrate = fallback_views(out@);
    let j = requested.jitter_buffer_ms;
    let jitter_buffer_ms = if 40 <= j && j <= 400 {
        j
    } else {
        push_record(
            &mut out,
            "jitter_buffer_ms",
            u64_to_decimal(j as u64),
            u64_to_decimal(DEFAULT_JITTER_BUFFER_MS as u64),
        );
        DEFAULT_JITTER_BUFFER_MS
    };
    proof {
        reveal_strlit("codec");
        reveal_strlit("sample_rate_hz");
        reveal_strlit("channels");
        reveal_strlit("chunk_ms");
        reveal_strlit("opus_bitrate_kbps");
        reveal_strlit("jitter_buffer_ms");
        assert(after_codec =~= record_if(!codec_supported(req.codec@), "codec"@, req.codec@, "opus"@));
        assert(fallback_views(out@) =~= fallbacks_of(req));
    }
    NormalizedParams {
        effective: SessionParams {
            codec,
            sample_rate_hz,
            channels: INTERNAL_CHANNELS,
            chunk_ms,
            opus_bitrate_kbps,
            jitter_buffer_ms,
        },
        fallbacks: out,
    }
}


/// The names of the fields that fell back.
pub open spec fn fallback_fields(f: Seq<FallbackView>) -> Seq<Seq<char>> {
    f.map_values(|v: FallbackView| v.field)
}

proof fn lemma_fields_concat(a: Seq<FallbackView>, b: Seq<FallbackView>, x: Seq<char>)
    ensures
        fallback_fields(a + b).contains(x) <==> (fallback_fields(a).contains(x) || fallback_fields(
            b,
        ).contains(x)),
{
    let fa = fallback_fields(a);
    let fb = fallback_fields(b);
    assert(fallback_fields(a + b) =~= fa + fb);
    if (fa + fb).contains(x) {
        let i = choose|i: int| 0 <= i < (fa + fb).len() && (fa + fb)[i] == x;
        if i < fa.len() {
            assert(fa[i] == x);
        } else {
            assert(fb[i - fa.len()] == x);
        }
    }
    if fa.contains(x) {
        let i = choose|i: int| 0 <= i < fa.len() && fa[i] == x;
        assert((fa + fb)[i] == x);
    }
    if fb.contains(x) {
        let i = choose|i: int| 0 <= i < fb.len() && fb[i] == x;
        assert((fa + fb)[fa.len() + i] == x);
    }
}

proof fn lemma_record_field(unsupported: bool, field: Seq<char>, requested: Seq<char>, applied: Seq<char>, x: Seq<char>)
    ensures
        fallback_fields(record_if(unsupported, field, requested, applied)).contains(x) <==> (unsupported
            && x == field),
{
    let f = fallback_fields(record_if(unsupported, field, requested, applied));
    if unsupported {
        assert(f =~= seq![field]);
        if x == field {
            assert(f[0] == x);
        }
    } else {
        assert(f =~= Seq::<Seq<char>>::empty());
    }
}

proof fn lemma_field_names_differ()
    ensures
        "chunk_ms"@ != "codec"@,
        "chunk_ms"@ != "sample_rate_hz"@,
        "chunk_ms"@ != "channels"@,
        "chunk_ms"@ != "opus_bitrate_kbps"@,
        "chunk_ms"@ != "jitter_buffer_ms"@,
        "sample_rate_hz"@ != "codec"@,
        "sample_rate_hz"@ != "channels"@,
        "sample_rate_hz"@ != "opus_bitrate_kbps"@,
        "sample_rate_hz"@ != "jitter_buffer_ms"@,
        "jitter_buffer_ms"@ != "codec"@,
        "jitter_buffer_ms"@ != "channels"@,
        "jitter_buffer_ms"@ != "opus_bitrate_kbps"@,
{
    reveal_strlit("codec");
    reveal_strlit("sample_rate_hz");
    reveal_strlit("channels");
    reveal_strlit("chunk_ms");
    reveal_strlit("opus_bitrate_kbps");
    reveal_strlit("jitter_buffer_ms");
    assert("codec"@.len() == 5);
    assert("sample_rate_hz"@.len() == 14);
    assert("channels"@.len() == 8);
    assert("chunk_ms"@.len() == 8);
    assert("opus_bitrate_kbps"@.len() == 17);
    assert("jitter_buffer_ms"@.len() == 16);
    assert("chunk_ms"@[2] != "channels"@[2]);
}

/// Whether a field fell back for the request `req`.
proof fn lemma_fell_back(req: SessionParams, x: Seq<char>)
    ensures
        fallback_fields(fallbacks_of(req)).contains(x) <==> (
        (!codec_supported(req.codec@) && x == "codec"@)
        || (!rate_supported(req.sample_rate_hz) && x == "sample_rate_hz"@)
        || (req.channels != INTERNAL_CHANNELS && x == "channels"@)
        || (!chunk_supported(req.chunk_ms) && x == "chunk_ms"@)
        || (effective_codec(req) == "opus"@ && !(req.opus_bitrate_kbps matches Some(k)
            && bitrate_supported(k)) && x == "opus_bitrate_kbps"@)
        || (!jitter_supported(req.jitter_buffer_ms) && x == "jitter_buffer_ms"@)),
{
    let c1 = record_if(!codec_supported(req.codec@), "codec"@, req.codec@, "opus"@);
    let c2 = record_if(
        !rate_supported(req.sample_rate_hz),
        "sample_rate_hz"@,
        decimal(req.sample_rate_hz as nat),
        decimal(DEFAULT_SAMPLE_RATE_HZ as nat),
    );
    let c3 = record_if(
        req.channels != INTERNAL_CHANNELS,
        "channels"@,
        decimal(req.channels as nat),
        decimal(INTERNAL_CHANNELS as nat),
    );
    let c4 = record_if(
        !chunk_supported(req.chunk_ms),
        "chunk_ms"@,
        decimal(req.chunk_ms as nat),
        decimal(DEFAULT_CHUNK_MS as nat),
    );
    let b5 = effective_codec(req) == "opus"@ && !(req.opus_bitrate_kbps matches Some(k)
        && bitrate_supported(k));
    let r5 = match req.opus_bitrate_kbps {
        Some(k) => decimal(k as nat),
        None => "none"@,
    };
    let c5 = record_if(b5, "opus_bitrate_kbps"@, r5, decimal(DEFAULT_OPUS_BITRATE_KBPS as nat));
    let c6 = record_if(
        !jitter_supported(req.jitter_buffer_ms),
        "jitter_buffer_ms"@,
        decimal(req.jitter_buffer_ms as nat),
        decimal(DEFAULT_JITTER_BUFFER_MS as nat),
    );
    assert(fallbacks_of(req) == c1 + c2 + c3 + c4 + c5 + c6);
    lemma_fields_concat(c1 + c2 + c3 + c4 + c5, c6, x);
    lemma_fields_concat(c1 + c2 + c3 + c4, c5, x);
    lemma_fields_concat(c1 + c2 + c3, c4, x);
    lemma_fields_concat(c1 + c2, c3, x);
    lemma_fields_concat(c1, c2, x);
    lemma_record_field(!codec_supported(req.codec@), "codec"@, req.codec@, "opus"@, x);
    lemma_record_field(
        !rate_supported(req.sample_rate_hz),
        "sample_rate_hz"@,
        decimal(req.sample_rate_hz as nat),
        decimal(DEFAULT_SAMPLE_RATE_HZ as nat),
        x,
    );
    lemma_record_field(
        req.channels != INTERNAL_CHANNELS,
        "channels"@,
        decimal(req.channels as nat),
        decimal(INTERNAL_CHANNELS as nat),
        x,
    );
    lemma_record_field(
        !chunk_supported(req.chunk_ms),
        "chunk_ms"@,
        decimal(req.chunk_ms as nat),
        decimal(DEFAULT_CHUNK_MS as nat),
        x,
    );
    lemma_record_field(b5, "opus_bitrate_kbps"@, r5, decimal(DEFAULT_OPUS_BITRATE_KBPS as nat), x);
    lemma_record_field(
        !jitter_supported(req.jitter_buffer_ms),
        "jitter_buffer_ms"@,
        decimal(req.jitter_buffer_ms as nat),
        decimal(DEFAULT_JITTER_BUFFER_MS as nat),
        x,
    );
}

/// Held to the safe ranges: whatever was requested, the parameters that
/// apply are mono, at 16 to 48 kHz, in chunks of 10 to 60 ms, with a jitter
/// buffer of 40 to 400 ms. A requested value inside its range (for the
/// chunk: an Opus frame length, 10, 20, 40 or 60 ms) is kept and is not
/// recorded as a fallback; one outside it is replaced by the default (48
/// kHz, 20 ms, 100 ms) and recorded.
pub proof fn lemma_normalized_in_safe_ranges(req: SessionParams, eff: SessionParams)
    requires
        is_normalized(req, eff),
    ensures
        eff.channels == 1,
        16_000 <= eff.sample_rate_hz <= 48_000,
        10 <= eff.chunk_ms <= 60,
        40 <= eff.jitter_buffer_ms <= 400,
        16_000 <= req.sample_rate_hz <= 48_000 ==> eff.sample_rate_hz == req.sample_rate_hz,
        !(16_000 <= req.sample_rate_hz <= 48_000) ==> eff.sample_rate_hz == 48_000,
        (req.chunk_ms == 10 || req.chunk_ms == 20 || req.chunk_ms == 40 || req.chunk_ms == 60)
            ==> eff.chunk_ms == req.chunk_ms,
        !(req.chunk_ms == 10 || req.chunk_ms == 20 || req.chunk_ms == 40 || req.chunk_ms == 60)
            ==> eff.chunk_ms == 20,
        40 <= req.jitter_buffer_ms <= 400 ==> eff.jitter_buffer_ms == req.jitter_buffer_ms,
        !(40 <= req.jitter_buffer_ms <= 400) ==> eff.jitter_buffer_ms == 100,
        fallback_fields(fallbacks_of(req)).contains("chunk_ms"@) <==> !(req.chunk_ms == 10
            || req.chunk_ms == 20 || req.chunk_ms == 40 || req.chunk_ms == 60),
        fallback_fields(fallbacks_of(req)).contains("sample_rate_hz"@) <==> !(16_000
            <= req.sample_rate_hz <= 48_000),
        fallback_fields(fallbacks_of(req)).contains("jitter_buffer_ms"@) <==> !(40
            <= req.jitter_buffer_ms <= 400),
{
    lemma_field_names_differ();
    lemma_fell_back(req, "chunk_ms"@);
    lemma_fell_back(req, "sample_rate_hz"@);
    lemma_fell_back(req, "jitter_buffer_ms"@);
}

} // verus!
