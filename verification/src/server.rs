//! The receiver: the single-client lock with its reconnect window, the
//! receive counters (buffer depth, audio levels), and the answers to
//! control requests.
//!
//! Times are milliseconds on a monotonic clock that the caller supplies.

use vstd::prelude::*;
use crate::audio::sample_of_le;
use crate::config::{is_normalized, normalize_session_params};
use crate::datagram::{split_audio_pcm16_with_header, AudioFrameError, DatagramKind};
use crate::protocol::{
    HandshakeRequest, HandshakeResponse, Heartbeat, ServerCommandRequest, ServerCommandResponse,
    ServerStatusRequest, SessionParams,
};
use crate::audio::pcm16_le;
use crate::text::{
    decimal, is_blank, is_off_word, is_on_word, parse_unsigned, parsed_unsigned, str_equals,
    switch_default_off, switch_default_on, trim, trimmed, u64_to_decimal,
};

verus! {

/// Default UDP port.
pub const DEFAULT_UDP_PORT: u16 = 43_000;

/// Largest datagram read at once.
pub const MAX_DATAGRAM_SIZE: usize = 1500;

/// Read timeout of the socket (ms).
pub const READ_TIMEOUT_MS: u64 = 250;

/// Silence after which the active client counts as reconnecting (ms).
pub const RECONNECT_GRACE_MS: u64 = 1_000;

/// Silence after which the active client is released (ms).
pub const RECONNECT_WINDOW_MS: u64 = 10_000;

/// Interval of the counter report (ms).
pub const METRICS_REPORT_MS: u64 = 5_000;

/// Target depth of the receive buffer (ms).
pub const BUFFER_TARGET_MS: u64 = 100;

/// State of the receiver's single-client lock.
#[derive(Debug, Clone, Copy, PartialEq, Eq, Structural)]
pub enum ConnectionState {
    Idle,
    Active,
    Reconnecting,
}

/// The log label of a receiver state.
pub open spec fn connection_state_label(s: ConnectionState) -> Seq<char> {
    match s {
        ConnectionState::Idle => "idle"@,
        ConnectionState::Active => "active"@,
        ConnectionState::Reconnecting => "reconnecting"@,
    }
}

impl ConnectionState {
    pub fn as_str(self) -> (s: &'static str)
        ensures
            s@ == connection_state_label(self),
    {
        match self {
            ConnectionState::Idle => {
                proof { reveal_strlit("idle"); }
                "idle"
            },
            ConnectionState::Active => {
                proof { reveal_strlit("active"); }
                "active"
            },
            ConnectionState::Reconnecting => {
                proof { reveal_strlit("reconnecting"); }
                "reconnecting"
            },
        }
    }
}

/// A UDP peer: what the receiver reads of a socket address (equality as
/// socket addresses compare, and whether the address is loopback).
#[derive(Debug, Clone, Copy, PartialEq, Eq, Structural)]
pub enum PeerAddr {
    /// IPv4 address (big-endian value of the four octets) and port.
    V4 { ipv4: u32, port: u16 },
    /// IPv6 address (big-endian value of the sixteen octets), port, flow
    /// label and scope.
    V6 { ipv6: u128, port: u16, flowinfo: u32, scope_id: u32 },
}

/// Loopback: `127.0.0.0/8` for IPv4, `::1` for IPv6.
pub open spec fn is_loopback_peer(a: PeerAddr) -> bool {
    match a {
        PeerAddr::V4 { ipv4, .. } => ipv4 / 0x100_0000 == 127,
        PeerAddr::V6 { ipv6, .. } => ipv6 == 1,
    }
}

impl PeerAddr {
    /// Whether the peer's address is a loopback address.
    pub fn is_loopback(&self) -> (r: bool)
        ensures
            r == is_loopback_peer(*self),
    {
        match self {
            PeerAddr::V4 { ipv4, .. } => *ipv4 / 0x100_0000 == 127,
            PeerAddr::V6 { ipv6, .. } => *ipv6 == 1,
        }
    }
}

/// `now - since`, or 0 where `since` is later.
pub open spec fn since_ms(now: u64, since: u64) -> u64 {
    if now >= since {
        (now - since) as u64
    } else {
        0
    }
}

fn elapsed(now: u64, since: u64) -> (r: u64)
    ensures
        r == since_ms(now, since),
{
    if now >= since {
        now - since
    } else {
        0
    }
}

fn sat_mul_u64(a: u64, b: u64) -> (r: u64)
    ensures
        r == if a * b > u64::MAX {
            u64::MAX as int
        } else {
            a * b
        },
{
    match a.checked_mul(b) {
        Some(v) => v,
        None => u64::MAX,
    }
}

/// Running audio level sums since the last snapshot.
#[derive(Debug, Clone, Copy, PartialEq, Eq, Structural)]
pub struct AudioLevels {
    /// Largest absolute sample value.
    pub peak: u32,
    /// Sum of the squared samples (saturating).
    pub sum_squares: u64,
    /// Number of samples (saturating).
    pub samples: u64,
}

/// The samples a PCM16 payload holds (a trailing odd byte is ignored).
pub open spec fn payload_samples(p: Seq<u8>) -> Seq<int> {
    Seq::new(p.len() / 2, |k: int| sample_of_le(p[2 * k], p[2 * k + 1]))
}

pub open spec fn sat_add_u64(a: u64, b: int) -> u64 {
    if a + b > u64::MAX {
        u64::MAX
    } else {
        (a + b) as u64
    }
}

pub open spec fn abs_int(x: int) -> int {
    if x < 0 {
        -x
    } else {
        x
    }
}

/// The level sums after one more sample.
pub open spec fn level_step(l: AudioLevels, x: int) -> AudioLevels {
    AudioLevels {
        peak: if abs_int(x) > l.peak {
            abs_int(x) as u32
        } else {
            l.peak
        },
        sum_squares: sat_add_u64(l.sum_squares, x * x),
        samples: sat_add_u64(l.samples, 1),
    }
}

/// The level sums after a run of samples.
pub open spec fn levels_after(l: AudioLevels, xs: Seq<int>) -> AudioLevels
    decreases xs.len(),
{
    if xs.len() == 0 {
        l
    } else {
        level_step(levels_after(l, xs.drop_last()), xs.last())
    }
}

/// The integer part of a statistics snapshot; the caller derives the RMS
/// level and the float fields from it.
#[derive(Debug, Clone, Copy, PartialEq, Eq, Structural)]
pub struct StatsCounters {
    pub packets_received: u64,
    pub packets_lost: u64,
    pub buffer_depth_frames: u64,
    pub buffer_depth_ms: u64,
    pub levels: AudioLevels,
}

/// A periodic report of the receiver's counters.
#[derive(Debug, Clone, Copy, PartialEq, Eq)]
pub struct ReceiverReport {
    pub state: ConnectionState,
    pub active_client: Option<PeerAddr>,
    pub packets_total: u64,
    pub bytes_total: u64,
    pub control_packets: u64,
    pub audio_packets: u64,
    pub unknown_packets: u64,
    pub empty_packets: u64,
    pub busy_rejects: u64,
    pub read_timeouts: u64,
    pub buffer_depth_frames: usize,
    pub buffer_depth_ms: u64,
    pub buffer_target_ms: u64,
    pub levels: AudioLevels,
    pub reconnect_window_ms: u64,
    /// Time since the last packet of the active client (0 without one).
    pub idle_ms: u64,
}

/// Receive counters and the estimated depth of the playback buffer.
#[derive(Debug, Clone, Copy, PartialEq, Eq)]
pub struct ReceiverMetrics {
    pub packets_total: u64,
    pub bytes_total: u64,
    pub control_packets: u64,
    pub audio_packets: u64,
    pub unknown_packets: u64,
    pub empty_packets: u64,
    pub busy_rejects: u64,
    pub read_timeouts: u64,
    pub buffer_depth_frames: usize,
    pub levels: AudioLevels,
    pub buffer_target_ms: u64,
    pub sample_rate_hz: u32,
    pub channels: u16,
    pub last_consume_at_ms: u64,
    pub last_report_at_ms: u64,
}

/// Level sums at zero.
pub open spec fn no_levels() -> AudioLevels {
    AudioLevels { peak: 0, sum_squares: 0, samples: 0 }
}

/// Frames in an audio payload of `len` bytes (two bytes per sample per
/// channel, at least one channel).
pub open spec fn payload_frames(len: nat, channels: u16) -> nat {
    len / (2 * if channels == 0 {
        1
    } else {
        channels as nat
    })
}

pub open spec fn sat_add_usize(a: usize, b: nat) -> usize {
    if a + b > usize::MAX {
        usize::MAX
    } else {
        (a + b) as usize
    }
}

/// Frames that `ms` milliseconds of playback consume at `rate` Hz.
pub open spec fn consumed_frames(rate: u32, ms: u64) -> usize {
    ((if rate * ms > u64::MAX {
        u64::MAX as int
    } else {
        rate * ms
    }) / 1000) as usize
}

/// The buffer depth in milliseconds at `rate` Hz (0 at rate 0).
pub open spec fn depth_ms(frames: usize, rate: u32) -> u64 {
    if rate == 0 {
        0
    } else {
        ((if frames * 1000 > u64::MAX {
            u64::MAX as int
        } else {
            frames * 1000
        }) / (rate as int)) as u64
    }
}

impl ReceiverMetrics {
    /// Counters at zero, for a stream at `sample_rate_hz` with `channels`.
    pub fn new(now_ms: u64, sample_rate_hz: u32, channels: u16) -> (m: Self)
        ensures
            m.counts_agree(),
            m == (ReceiverMetrics {
                packets_total: 0,
                bytes_total: 0,
                control_packets: 0,
                audio_packets: 0,
                unknown_packets: 0,
                empty_packets: 0,
                busy_rejects: 0,
                read_timeouts: 0,
                buffer_depth_frames: 0,
                levels: no_levels(),
                buffer_target_ms: BUFFER_TARGET_MS,
                sample_rate_hz,
                channels,
                last_consume_at_ms: now_ms,
                last_report_at_ms: now_ms,
            }),
    {
        ReceiverMetrics {
            packets_total: 0,
            bytes_total: 0,
            control_packets: 0,
            audio_packets: 0,
            unknown_packets: 0,
            empty_packets: 0,
            busy_rejects: 0,
            read_timeouts: 0,
            buffer_depth_frames: 0,
            levels: AudioLevels { peak: 0, sum_squares: 0, samples: 0 },
            buffer_target_ms: BUFFER_TARGET_MS,
            sample_rate_hz,
            channels,
            last_consume_at_ms: now_ms,
            last_report_at_ms: now_ms,
        }
    }

    /// The packet total is the sum of the control, audio and unknown
    /// counts. Counters at zero agree, and every operation on them keeps
    /// them agreeing; each counted datagram adds exactly its payload length
    /// to the byte total (see `on_datagram`).
    pub open spec fn counts_agree(self) -> bool {
        self.packets_total == self.control_packets + self.audio_packets + self.unknown_packets
    }

    /// Whether the counters have room to record one more datagram.
    pub open spec fn can_record_spec(&self, kind: DatagramKind, len: nat) -> bool {
        &&& self.packets_total < u64::MAX
        &&& self.bytes_total + len <= u64::MAX
        &&& match kind {
            DatagramKind::ControlJson => self.control_packets < u64::MAX,
            DatagramKind::AudioPcm16 => self.audio_packets < u64::MAX,
            DatagramKind::Unknown(_) => self.unknown_packets < u64::MAX,
        }
    }

    /// Whether the counters have room to record one more datagram.
    pub fn can_record(&self, kind: DatagramKind, len: usize) -> (r: bool)
        ensures
            r == self.can_record_spec(kind, len as nat),
    {
        self.packets_total < u64::MAX && (len as u64) <= u64::MAX - self.bytes_total && match kind {
            DatagramKind::ControlJson => self.control_packets < u64::MAX,
            DatagramKind::AudioPcm16 => self.audio_packets < u64::MAX,
            DatagramKind::Unknown(_) => self.unknown_packets < u64::MAX,
        }
    }

    /// Counts a datagram; an audio payload also fills the buffer estimate
    /// and the level sums.
    pub fn on_datagram(&mut self, kind: DatagramKind, payload: &[u8])
        requires
            old(self).can_record_spec(kind, payload@.len()),
        ensures
            old(self).counts_agree() ==> final(self).counts_agree(),
            final(self).packets_total == old(self).packets_total + 1,
            final(self).bytes_total == old(self).bytes_total + payload@.len(),
            final(self).control_packets == old(self).control_packets + if kind
                == DatagramKind::ControlJson {
                1int
            } else {
                0
            },
            final(self).audio_packets == old(self).audio_packets + if kind
                == DatagramKind::AudioPcm16 {
                1int
            } else {
                0
            },
            final(self).unknown_packets == old(self).unknown_packets + if kind is Unknown {
                1int
            } else {
                0
            },
            kind == DatagramKind::AudioPcm16 ==> {
                &&& final(self).buffer_depth_frames == sat_add_usize(
                    old(self).buffer_depth_frames,
                    payload_frames(payload@.len(), old(self).channels),
                )
                &&& final(self).levels == levels_after(old(self).levels, payload_samples(payload@))
            },
            kind != DatagramKind::AudioPcm16 ==> {
                &&& final(self).buffer_depth_frames == old(self).buffer_depth_frames
                &&& final(self).levels == old(self).levels
            },
            final(self).empty_packets == old(self).empty_packets,
            final(self).busy_rejects == old(self).busy_rejects,
            final(self).read_timeouts == old(self).read_timeouts,
            final(self).sample_rate_hz == old(self).sample_rate_hz,
            final(self).channels == old(self).channels,
            final(self).buffer_target_ms == old(self).buffer_target_ms,
            final(self).last_consume_at_ms == old(self).last_consume_at_ms,
            final(self).last_report_at_ms == old(self).last_report_at_ms,
    {
        self.packets_total = self.packets_total + 1;
        self.bytes_total = self.bytes_total + payload.len() as u64;
        match kind {
            DatagramKind::ControlJson => self.control_packets = self.control_packets + 1,
            DatagramKind::AudioPcm16 => {
                self.audio_packets = self.audio_packets + 1;
                self.push_audio_payload(payload);
            },
            DatagramKind::Unknown(_) => self.unknown_packets = self.unknown_packets + 1,
        }
    }

    /// Counts an empty datagram.
    pub fn on_empty(&mut self)
        requires
            old(self).empty_packets < u64::MAX,
        ensures
            old(self).counts_agree() ==> final(self).counts_agree(),
            *final(self) == (ReceiverMetrics {
                empty_packets: (old(self).empty_packets + 1) as u64,
                ..*old(self)
            }),
    {
        self.empty_packets = self.empty_packets + 1;
    }

    /// Counts a datagram refused because another client holds the lock.
    pub fn on_busy_reject(&mut self)
        requires
            old(self).busy_rejects < u64::MAX,
        ensures
            old(self).counts_agree() ==> final(self).counts_agree(),
            *final(self) == (ReceiverMetrics {
                busy_rejects: (old(self).busy_rejects + 1) as u64,
                ..*old(self)
            }),
    {
        self.busy_rejects = self.busy_rejects + 1;
    }

    /// Counts a read timeout and lets the buffer drain up to `now_ms`.
    pub fn on_timeout(&mut self, now_ms: u64)
        requires
            old(self).read_timeouts < u64::MAX,
        ensures
            old(self).counts_agree() ==> final(self).counts_agree(),
            *final(self) == (ReceiverMetrics {
                read_timeouts: (old(self).read_timeouts + 1) as u64,
                ..old(self).consumed_at(now_ms)
            }),
    {
        self.read_timeouts = self.read_timeouts + 1;
        self.consume_buffer(now_ms);
    }

    /// The buffer estimate grows by the frames of an audio payload of
    /// `payload_len` bytes (saturating).
    pub fn push_audio_frames(&mut self, payload_len: usize)
        ensures
            old(self).counts_agree() ==> final(self).counts_agree(),
            *final(self) == (ReceiverMetrics {
                buffer_depth_frames: sat_add_usize(
                    old(self).buffer_depth_frames,
                    payload_frames(payload_len as nat, old(self).channels),
                ),
                ..*old(self)
            }),
    {
        let channels: usize = if self.channels == 0 {
            1
        } else {
            self.channels as usize
        };
        let bytes_per_frame = channels * 2;
        let frames = payload_len / bytes_per_frame;
        if frames > 0 {
            self.buffer_depth_frames = self.buffer_depth_frames.saturating_add(frames);
        }
    }

    /// Adds the samples of a PCM16 payload to the level sums.
    pub fn accumulate_audio_levels(&mut self, payload: &[u8])
        ensures
            old(self).counts_agree() ==> final(self).counts_agree(),
            *final(self) == (ReceiverMetrics {
                levels: levels_after(old(self).levels, payload_samples(payload@)),
                ..*old(self)
            }),
    {
        let n = payload.len() / 2;
        let ghost xs = payload_samples(payload@);
        let ghost start = self.levels;
        let mut k: usize = 0;
        while k < n
            invariant
                n == payload@.len() / 2,
                xs == payload_samples(payload@),
                k <= n,
                *self == (ReceiverMetrics { levels: self.levels, ..*old(self) }),
                self.levels == levels_after(start, xs.subrange(0, k as int)),
                start == old(self).levels,
            decreases n - k,
        {
            assert(2 * k + 1 < payload.len()) by (nonlinear_arith)
                requires
                    k < n,
                    n == payload.len() / 2,
            ;
            let lo = payload[2 * k];
            let hi = payload[2 * k + 1];
            let u: u32 = lo as u32 + 256 * (hi as u32);
            let sample: i64 = if u >= 32768 {
                u as i64 - 65536
            } else {
                u as i64
            };
            assert(sample == xs[k as int]);
            let abs_sample: u32 = if sample < 0 {
                (-sample) as u32
            } else {
                sample as u32
            };
            if abs_sample > self.levels.peak {
                self.levels.peak = abs_sample;
            }
            assert(sample * sample <= 0x4000_0000) by (nonlinear_arith)
                requires
                    -32768 <= sample <= 32767,
            ;
            assert(sample * sample >= 0) by (nonlinear_arith);
            let square: u64 = (sample * sample) as u64;
            self.levels.sum_squares = self.levels.sum_squares.saturating_add(square);
            self.levels.samples = self.levels.samples.saturating_add(1);
            assert(xs.subrange(0, k + 1).drop_last() =~= xs.subrange(0, k as int));
            k = k + 1;
        }
        assert(xs.subrange(0, n as int) =~= xs);
    }

    /// An audio payload: grows the buffer estimate and the level sums.
    pub fn push_audio_payload(&mut self, payload: &[u8])
        ensures
            old(self).counts_agree() ==> final(self).counts_agree(),
            *final(self) == (ReceiverMetrics {
                buffer_depth_frames: sat_add_usize(
                    old(self).buffer_depth_frames,
                    payload_frames(payload@.len(), old(self).channels),
                ),
                levels: levels_after(old(self).levels, payload_samples(payload@)),
                ..*old(self)
            }),
    {
        self.push_audio_frames(payload.len());
        self.accumulate_audio_levels(payload);
    }

    /// The metrics after the buffer drained up to `now_ms`.
    pub open spec fn consumed_at(self, now_ms: u64) -> ReceiverMetrics {
        let ms = since_ms(now_ms, self.last_consume_at_ms);
        if ms == 0 {
            self
        } else if self.sample_rate_hz == 0 {
            ReceiverMetrics { last_consume_at_ms: now_ms, ..self }
        } else {
            let f = consumed_frames(self.sample_rate_hz, ms);
            ReceiverMetrics {
                buffer_depth_frames: if f >= self.buffer_depth_frames {
                    0
                } else {
                    (self.buffer_depth_frames - f) as usize
                },
                last_consume_at_ms: now_ms,
                ..self
            }
        }
    }

    /// Lets the buffer estimate drain by the frames that playback consumed
    /// since the last call (saturating at 0).
    pub fn consume_buffer(&mut self, now_ms: u64)
        ensures
            old(self).counts_agree() ==> final(self).counts_agree(),
            *final(self) == old(self).consumed_at(now_ms),
            now_ms >= old(self).last_consume_at_ms ==> final(self).last_consume_at_ms == now_ms,
            now_ms < old(self).last_consume_at_ms ==> *final(self) == *old(self),
            final(self).buffer_depth_frames <= old(self).buffer_depth_frames,
    {
        let ms = elapsed(now_ms, self.last_consume_at_ms);
        if ms == 0 {
            return;
        }
        let rate = self.sample_rate_hz as u64;
        if rate == 0 {
            self.last_consume_at_ms = now_ms;
            return;
        }
        let frames = (sat_mul_u64(rate, ms) / 1000) as usize;
        if frames > 0 {
            self.buffer_depth_frames = self.buffer_depth_frames.saturating_sub(frames);
        }
        self.last_consume_at_ms = now_ms;
    }

    /// The buffer estimate in milliseconds.
    pub fn buffer_depth_ms(&self) -> (ms: u64)
        ensures
            ms == depth_ms(self.buffer_depth_frames, self.sample_rate_hz),
    {
        let rate = self.sample_rate_hz as u64;
        if rate == 0 {
            return 0;
        }
        sat_mul_u64(self.buffer_depth_frames as u64, 1000) / rate
    }

    /// The level sums since the last snapshot; the sums restart at zero.
    pub fn take_audio_levels(&mut self) -> (l: AudioLevels)
        ensures
            old(self).counts_agree() ==> final(self).counts_agree(),
            l == old(self).levels,
            *final(self) == (ReceiverMetrics { levels: no_levels(), ..*old(self) }),
    {
        let l = self.levels;
        self.levels = AudioLevels { peak: 0, sum_squares: 0, samples: 0 };
        l
    }

    /// The counters of a statistics snapshot of these metrics.
    pub open spec fn stats_counters_of(self) -> StatsCounters {
        StatsCounters {
            packets_received: self.audio_packets,
            packets_lost: 0,
            buffer_depth_frames: self.buffer_depth_frames as u64,
            buffer_depth_ms: depth_ms(self.buffer_depth_frames, self.sample_rate_hz),
            levels: self.levels,
        }
    }

    /// The counters of a statistics snapshot; the level sums restart.
    pub fn build_stats_counters(&mut self) -> (s: StatsCounters)
        ensures
            old(self).counts_agree() ==> final(self).counts_agree(),
            s == old(self).stats_counters_of(),
            s.packets_received == old(self).audio_packets,
            s.packets_lost == 0,
            s.buffer_depth_frames == old(self).buffer_depth_frames,
            *final(self) == (ReceiverMetrics { levels: no_levels(), ..*old(self) }),
    {
        let levels = self.take_audio_levels();
        let depth_ms = self.buffer_depth_ms();
        StatsCounters {
            packets_received: self.audio_packets,
            packets_lost: 0,
            buffer_depth_frames: self.buffer_depth_frames as u64,
            buffer_depth_ms: depth_ms,
            levels,
        }
    }

    /// Whether a report is due at `now_ms` (after the buffer drained).
    pub open spec fn report_due(self, now_ms: u64) -> bool {
        since_ms(now_ms, self.consumed_at(now_ms).last_report_at_ms) >= METRICS_REPORT_MS
    }

    /// The metrics after a report check at `now_ms`: drained; when a report
    /// is due, the level sums and the report clock restart.
    pub open spec fn after_report_check(self, now_ms: u64) -> ReceiverMetrics {
        let c = self.consumed_at(now_ms);
        if self.report_due(now_ms) {
            ReceiverMetrics { levels: no_levels(), last_report_at_ms: now_ms, ..c }
        } else {
            c
        }
    }

    /// The report at `now_ms`, where one is due: the drained counters, the
    /// lock's state and holder, and the time since the holder's last
    /// packet.
    pub open spec fn report_at(
        self,
        now_ms: u64,
        state: ConnectionState,
        active_client: Option<PeerAddr>,
        last_packet_at_ms: Option<u64>,
    ) -> Option<ReceiverReport> {
        let c = self.consumed_at(now_ms);
        if !self.report_due(now_ms) {
            None
        } else {
            Some(
                ReceiverReport {
                    state,
                    active_client,
                    packets_total: c.packets_total,
                    bytes_total: c.bytes_total,
                    control_packets: c.control_packets,
                    audio_packets: c.audio_packets,
                    unknown_packets: c.unknown_packets,
                    empty_packets: c.empty_packets,
                    busy_rejects: c.busy_rejects,
                    read_timeouts: c.read_timeouts,
                    buffer_depth_frames: c.buffer_depth_frames,
                    buffer_depth_ms: depth_ms(c.buffer_depth_frames, c.sample_rate_hz),
                    buffer_target_ms: c.buffer_target_ms,
                    levels: c.levels,
                    reconnect_window_ms: RECONNECT_WINDOW_MS,
                    idle_ms: match last_packet_at_ms {
                        Some(t) => since_ms(now_ms, t),
                        None => 0,
                    },
                },
            )
        }
    }

    /// Drains the buffer up to `now_ms`, then, once `METRICS_REPORT_MS`
    /// have passed since the last report, reports the counters and restarts
    /// the level sums and the report clock.
    pub fn report_if_due(
        &mut self,
        now_ms: u64,
        state: ConnectionState,
        active_client: Option<PeerAddr>,
        last_packet_at_ms: Option<u64>,
    ) -> (r: Option<ReceiverReport>)
        ensures
            old(self).counts_agree() ==> final(self).counts_agree(),
            *final(self) == old(self).after_report_check(now_ms),
            r == old(self).report_at(now_ms, state, active_client, last_packet_at_ms),
    {
        self.consume_buffer(now_ms);
        if elapsed(now_ms, self.last_report_at_ms) < METRICS_REPORT_MS {
            return None;
        }
        let levels = self.take_audio_levels();
        let buffer_depth_ms = self.buffer_depth_ms();
        let idle_ms = match last_packet_at_ms {
            Some(t) => elapsed(now_ms, t),
            None => 0,
        };
        let report = ReceiverReport {
            state,
            active_client,
            packets_total: self.packets_total,
            bytes_total: self.bytes_total,
            control_packets: self.control_packets,
            audio_packets: self.audio_packets,
            unknown_packets: self.unknown_packets,
            empty_packets: self.empty_packets,
            busy_rejects: self.busy_rejects,
            read_timeouts: self.read_timeouts,
            buffer_depth_frames: self.buffer_depth_frames,
            buffer_depth_ms,
            buffer_target_ms: self.buffer_target_ms,
            levels,
            reconnect_window_ms: RECONNECT_WINDOW_MS,
            idle_ms,
        };
        self.last_report_at_ms = now_ms;
        Some(report)
    }
}

/// The part of the receiver that decides who may stream.
#[derive(Debug, Clone, Copy, PartialEq, Eq, Structural)]
pub struct LockState {
    pub state: ConnectionState,
    pub active_client: Option<PeerAddr>,
    pub active_since_ms: Option<u64>,
    pub last_packet_at_ms: Option<u64>,
}

/// The lock is consistent: a client is held exactly when the state is not
/// idle, and then its start and its last packet are known.
pub open spec fn lock_wf(s: LockState) -> bool {
    &&& (s.active_client is None <==> s.state == ConnectionState::Idle)
    &&& (s.active_client is Some <==> s.active_since_ms is Some)
    &&& (s.active_client is Some <==> s.last_packet_at_ms is Some)
}

/// No client held.
pub open spec fn lock_released() -> LockState {
    LockState {
        state: ConnectionState::Idle,
        active_client: None,
        active_since_ms: None,
        last_packet_at_ms: None,
    }
}

/// A packet from `addr` at `now`: the first sender takes the lock, the
/// holder refreshes it (and is active again after a silence), anyone else
/// is refused. The flag tells whether the packet is accepted.
pub open spec fn lock_accept(s: LockState, addr: PeerAddr, now: u64) -> (LockState, bool) {
    match s.active_client {
        Some(current) => if current != addr {
            (s, false)
        } else {
            (
                LockState {
                    state: if s.state == ConnectionState::Reconnecting {
                        ConnectionState::Active
                    } else {
                        s.state
                    },
                    last_packet_at_ms: Some(now),
                    ..s
                },
                true,
            )
        },
        None => (
            LockState {
                state: ConnectionState::Active,
                active_client: Some(addr),
                active_since_ms: Some(now),
                last_packet_at_ms: Some(now),
            },
            true,
        ),
    }
}

/// The lock at `now` after a silence: `RECONNECT_GRACE_MS` of silence move
/// an active client to reconnecting, `RECONNECT_WINDOW_MS` release it.
pub open spec fn lock_tick(s: LockState, now: u64) -> LockState {
    match s.last_packet_at_ms {
        None => s,
        Some(last) => {
            let idle = since_ms(now, last);
            let s1 = if idle >= RECONNECT_GRACE_MS && s.state == ConnectionState::Active {
                LockState { state: ConnectionState::Reconnecting, ..s }
            } else {
                s
            };
            if idle >= RECONNECT_WINDOW_MS && s1.state == ConnectionState::Reconnecting {
                lock_released()
            } else {
                s1
            }
        },
    }
}

/// The state label that a status response reports.
pub open spec fn status_label_of(s: LockState) -> Seq<char> {
    if s.active_client is None {
        "listening"@
    } else {
        match s.state {
            ConnectionState::Active => "streaming"@,
            ConnectionState::Reconnecting => "reconnecting"@,
            ConnectionState::Idle => "listening"@,
        }
    }
}

/// The receiver's answer to a status request, before the virtual
/// microphone state and the float fields are added.
#[derive(Debug, Clone)]
pub struct StatusReport {
    pub request_id: String,
    pub state: String,
    pub active_client: Option<PeerAddr>,
    pub active_client_seconds: u64,
    pub uptime_ms: u64,
    pub last_error: Option<String>,
    pub stats: StatsCounters,
}

/// What a command request leads to.
#[derive(Debug, Clone)]
pub enum CommandOutcome {
    /// Handled; this is the response.
    Done(ServerCommandResponse),
    /// The virtual microphone must be created; the request id is kept for
    /// the response.
    CreateVirtualMic(String),
    /// The virtual microphone must be removed; the request id is kept for
    /// the response.
    RemoveVirtualMic(String),
}

/// A control request, decoded.
#[derive(Debug, Clone)]
pub enum ControlRequest {
    Handshake(HandshakeRequest),
    Heartbeat(Heartbeat),
    ServerStatus(ServerStatusRequest),
    ServerCommand(ServerCommandRequest),
}

/// The answer to a control request.
#[derive(Debug, Clone)]
pub enum ControlReply {
    Handshake(HandshakeResponse),
    Stats(StatsCounters),
    Status(StatusReport),
    Command(CommandOutcome),
}

/// The receiver: who holds the lock, since when, the last error, the
/// counters, and the parameters it plays at.
#[derive(Debug, Clone)]
pub struct ReceiverContext {
    pub state: ConnectionState,
    pub active_client: Option<PeerAddr>,
    pub active_since_ms: Option<u64>,
    pub started_at_ms: u64,
    pub last_packet_at_ms: Option<u64>,
    pub last_error: Option<String>,
    pub metrics: ReceiverMetrics,
    pub params: SessionParams,
}

impl ReceiverContext {
    /// The lock part of the receiver.
    pub open spec fn lock(&self) -> LockState {
        LockState {
            state: self.state,
            active_client: self.active_client,
            active_since_ms: self.active_since_ms,
            last_packet_at_ms: self.last_packet_at_ms,
        }
    }

    /// The receiver is consistent.
    pub open spec fn wf(&self) -> bool {
        lock_wf(self.lock())
    }

    /// A receiver that plays at `params`, idle, with counters at zero.
    pub fn new(params: SessionParams, now_ms: u64) -> (c: Self)
        ensures
            c.metrics.counts_agree(),
            c.wf(),
            c.lock() == lock_released(),
            c.started_at_ms == now_ms,
            c.last_error is None,
            c.metrics == ReceiverMetrics::new_spec(now_ms, params.sample_rate_hz, params.channels),
            c.params == params,
    {
        let metrics = ReceiverMetrics::new(now_ms, params.sample_rate_hz, params.channels);
        ReceiverContext {
            state: ConnectionState::Idle,
            active_client: None,
            active_since_ms: None,
            started_at_ms: now_ms,
            last_packet_at_ms: None,
            last_error: None,
            metrics,
            params,
        }
    }

    /// Single-client policy: the first sender takes the lock, its packets
    /// refresh it, everyone else is refused (and counted as busy).
    pub fn accept_or_lock_client(&mut self, addr: PeerAddr, now_ms: u64) -> (accepted: bool)
        requires
            old(self).wf(),
            old(self).metrics.busy_rejects < u64::MAX,
        ensures
            old(self).metrics.counts_agree() ==> final(self).metrics.counts_agree(),
            final(self).wf(),
            (final(self).lock(), accepted) == lock_accept(old(self).lock(), addr, now_ms),
            accepted == (old(self).active_client is None || old(self).active_client == Some(addr)),
            old(self).active_client is None ==> final(self).active_since_ms == Some(now_ms),
            old(self).active_client is Some ==> final(self).active_since_ms
                == old(self).active_since_ms,
            accepted ==> final(self).active_client == Some(addr) && final(self).last_packet_at_ms
                == Some(now_ms),
            !accepted ==> final(self).lock() == old(self).lock(),
            final(self).metrics == if accepted {
                old(self).metrics
            } else {
                ReceiverMetrics { busy_rejects: (old(self).metrics.busy_rejects + 1) as u64, ..old(self).metrics }
            },
            final(self).started_at_ms == old(self).started_at_ms,
            final(self).last_error == old(self).last_error,
            final(self).params == old(self).params,
    {
        match self.active_client {
            Some(current) => {
                if current != addr {
                    self.metrics.on_busy_reject();
                    false
                } else {
                    if self.state == ConnectionState::Reconnecting {
                        self.state = ConnectionState::Active;
                    }
                    self.last_packet_at_ms = Some(now_ms);
                    true
                }
            },
            None => {
                self.active_client = Some(addr);
                self.active_since_ms = Some(now_ms);
                self.last_packet_at_ms = Some(now_ms);
                self.state = ConnectionState::Active;
                true
            },
        }
    }

    /// Lets a silence of the active client take effect (see `lock_tick`).
    pub fn update_reconnect_state(&mut self, now_ms: u64)
        requires
            old(self).wf(),
        ensures
            old(self).metrics.counts_agree() ==> final(self).metrics.counts_agree(),
            final(self).wf(),
            final(self).lock() == lock_tick(old(self).lock(), now_ms),
            final(self).metrics == old(self).metrics,
            final(self).started_at_ms == old(self).started_at_ms,
            final(self).last_error == old(self).last_error,
            final(self).params == old(self).params,
    {
        let last_seen = match self.last_packet_at_ms {
            Some(t) => t,
            None => {
                return;
            },
        };
        let idle = elapsed(now_ms, last_seen);
        if idle >= RECONNECT_GRACE_MS && self.state == ConnectionState::Active {
            self.state = ConnectionState::Reconnecting;
        }
        if idle >= RECONNECT_WINDOW_MS && self.state == ConnectionState::Reconnecting {
            self.release_client();
        }
    }

    /// Releases the active client, if any.
    pub fn release_client(&mut self)
        ensures
            old(self).metrics.counts_agree() ==> final(self).metrics.counts_agree(),
            final(self).lock() == lock_released(),
            final(self).metrics == old(self).metrics,
            final(self).started_at_ms == old(self).started_at_ms,
            final(self).last_error == old(self).last_error,
            final(self).params == old(self).params,
    {
        self.active_client = None;
        self.active_since_ms = None;
        self.last_packet_at_ms = None;
        self.state = ConnectionState::Idle;
    }

    /// A read timeout: counted, the buffer drains, and the silence takes
    /// effect.
    pub fn on_timeout_tick(&mut self, now_ms: u64)
        requires
            old(self).wf(),
            old(self).metrics.read_timeouts < u64::MAX,
        ensures
            old(self).metrics.counts_agree() ==> final(self).metrics.counts_agree(),
            final(self).wf(),
            final(self).lock() == lock_tick(old(self).lock(), now_ms),
            final(self).metrics == (ReceiverMetrics {
                read_timeouts: (old(self).metrics.read_timeouts + 1) as u64,
                ..old(self).metrics.consumed_at(now_ms)
            }),
            final(self).last_error == old(self).last_error,
            final(self).params == old(self).params,
            final(self).started_at_ms == old(self).started_at_ms,
    {
        self.metrics.on_timeout(now_ms);
        self.update_reconnect_state(now_ms);
    }

    /// The counter report, if one is due, with the lock's state.
    pub fn maybe_report(&mut self, now_ms: u64) -> (r: Option<ReceiverReport>)
        ensures
            old(self).metrics.counts_agree() ==> final(self).metrics.counts_agree(),
            final(self).lock() == old(self).lock(),
            final(self).last_error == old(self).last_error,
            final(self).params == old(self).params,
            final(self).metrics == old(self).metrics.after_report_check(now_ms),
            final(self).started_at_ms == old(self).started_at_ms,
            r == old(self).metrics.report_at(
                now_ms,
                old(self).state,
                old(self).active_client,
                old(self).last_packet_at_ms,
            ),
    {
        let state = self.state;
        let active = self.active_client;
        let last = self.last_packet_at_ms;
        self.metrics.report_if_due(now_ms, state, active, last)
    }

    /// The state label reported to the management side.
    pub fn status_label(&self) -> (s: String)
        ensures
            s@ == status_label_of(self.lock()),
            s@ == "streaming"@ <==> (self.active_client is Some && self.state
                == ConnectionState::Active),
            s@ == "reconnecting"@ <==> (self.active_client is Some && self.state
                == ConnectionState::Reconnecting),
            s@ == "listening"@ <==> (self.active_client is None || self.state
                == ConnectionState::Idle),
    {
        proof {
            lemma_status_labels(self.lock());
        }
        if self.active_client.is_none() {
            return String::from_str("listening");
        }
        match self.state {
            ConnectionState::Active => String::from_str("streaming"),
            ConnectionState::Reconnecting => String::from_str("reconnecting"),
            ConnectionState::Idle => String::from_str("listening"),
        }
    }

    /// Records the last error, for the status response.
    pub fn set_last_error(&mut self, err: String)
        ensures
            old(self).metrics.counts_agree() ==> final(self).metrics.counts_agree(),
            final(self).last_error == Some(err),
            final(self).lock() == old(self).lock(),
            final(self).metrics == old(self).metrics,
            final(self).started_at_ms == old(self).started_at_ms,
            final(self).params == old(self).params,
    {
        self.last_error = Some(err);
    }
}

/// The status label tells the lock apart: `streaming` exactly while a
/// client holds the lock and is active, `reconnecting` exactly while the
/// holder has gone silent but is still within its reconnect window, and
/// `listening` exactly while nobody holds it.
pub proof fn lemma_status_labels(s: LockState)
    ensures
        status_label_of(s) == "streaming"@ <==> (s.active_client is Some && s.state
            == ConnectionState::Active),
        status_label_of(s) == "reconnecting"@ <==> (s.active_client is Some && s.state
            == ConnectionState::Reconnecting),
        status_label_of(s) == "listening"@ <==> (s.active_client is None || s.state
            == ConnectionState::Idle),
{
    reveal_strlit("streaming");
    reveal_strlit("reconnecting");
    reveal_strlit("listening");
    assert("streaming"@.len() == 9);
    assert("listening"@.len() == 9);
    assert("reconnecting"@.len() == 12);
    assert("streaming"@[0] != "listening"@[0]);
}

/// A statistics snapshot counts audio datagrams only: its received count
/// is the number of audio datagrams, and counting a control or an unknown
/// datagram (packet total and its own counter up by one) leaves it as it
/// was, while counting an audio datagram raises it by one.
pub proof fn lemma_stats_count_audio(m: ReceiverMetrics, len: u64)
    requires
        m.packets_total < u64::MAX,
        m.control_packets < u64::MAX,
        m.audio_packets < u64::MAX,
        m.bytes_total + len <= u64::MAX,
    ensures
        m.stats_counters_of().packets_received == m.audio_packets,
        (ReceiverMetrics {
            packets_total: (m.packets_total + 1) as u64,
            bytes_total: (m.bytes_total + len) as u64,
            control_packets: (m.control_packets + 1) as u64,
            ..m
        }).stats_counters_of().packets_received == m.stats_counters_of().packets_received,
        (ReceiverMetrics {
            packets_total: (m.packets_total + 1) as u64,
            bytes_total: (m.bytes_total + len) as u64,
            audio_packets: (m.audio_packets + 1) as u64,
            ..m
        }).stats_counters_of().packets_received == m.stats_counters_of().packets_received + 1,
{
}

/// Each millisecond of playback drains the buffer once: draining up to
/// `t1` and then up to `t2` leaves the same depth as draining up to `t2`
/// at once, and the drain clock ends at `t2`. (This holds exactly when a
/// millisecond is a whole number of frames, that is at a rate that is a
/// multiple of 1000 Hz, such as 48 kHz; otherwise each drain rounds down.)
pub proof fn lemma_drains_add_up(m: ReceiverMetrics, t1: u64, t2: u64)
    requires
        m.last_consume_at_ms <= t1 <= t2,
        m.sample_rate_hz % 1000 == 0,
        m.sample_rate_hz * (t2 - m.last_consume_at_ms) <= usize::MAX,
    ensures
        m.consumed_at(t1).consumed_at(t2).buffer_depth_frames == m.consumed_at(t2).buffer_depth_frames,
        m.consumed_at(t1).consumed_at(t2).last_consume_at_ms == t2,
        m.consumed_at(t2).last_consume_at_ms == t2,
        m.consumed_at(t2).buffer_depth_frames == if m.buffer_depth_frames >= (m.sample_rate_hz
            / 1000) * (t2 - m.last_consume_at_ms) {
            m.buffer_depth_frames - (m.sample_rate_hz / 1000) * (t2 - m.last_consume_at_ms)
        } else {
            0
        },
{
    let t0 = m.last_consume_at_ms;
    let rate = m.sample_rate_hz;
    let k = rate / 1000;
    let a = t1 - t0;
    let b = t2 - t1;
    assert(rate == 1000 * k);
    assert(rate * a <= rate * (t2 - t0)) by (nonlinear_arith)
        requires
            a <= t2 - t0,
            0 <= rate,
    ;
    assert(rate * b <= rate * (t2 - t0)) by (nonlinear_arith)
        requires
            b <= t2 - t0,
            0 <= rate,
    ;
    assert(rate * a / 1000 == k * a) by (nonlinear_arith)
        requires
            rate == 1000 * k,
            a >= 0,
    ;
    assert(rate * b / 1000 == k * b) by (nonlinear_arith)
        requires
            rate == 1000 * k,
            b >= 0,
    ;
    assert(rate * (t2 - t0) / 1000 == k * a + k * b) by (nonlinear_arith)
        requires
            rate == 1000 * k,
            a >= 0,
            b >= 0,
            t2 - t0 == a + b,
    ;
    assert(k * a + k * b <= usize::MAX) by (nonlinear_arith)
        requires
            rate == 1000 * k,
            k >= 0,
            a >= 0,
            b >= 0,
            rate * (a + b) <= usize::MAX,
    ;
    assert(k * (t2 - t0) == k * a + k * b) by (nonlinear_arith)
        requires
            t2 - t0 == a + b,
    ;
    assert(usize::MAX <= u64::MAX);
}

/// Whether a handshake from `addr` is accepted: nobody holds the lock, or
/// `addr` does.
pub open spec fn handshake_accepted(s: LockState, addr: PeerAddr) -> bool {
    match s.active_client {
        Some(current) => current == addr,
        None => true,
    }
}

/// The command response for a command that ran: ok, or the failure with
/// `what` in front of it.
pub open spec fn command_response_of(request_id: String, what: Seq<char>, result: Result<(), String>) -> (
    bool,
    Option<Seq<char>>,
) {
    match result {
        Ok(()) => (true, None),
        Err(e) => (false, Some(what + " failed: "@ + e@)),
    }
}

/// The response to a command that ran: ok, or `"<what> failed: <error>"`.
pub fn command_response_after(request_id: String, what: &str, result: Result<(), String>) -> (r:
    ServerCommandResponse)
    ensures
        r.request_id == request_id,
        (r.ok, match r.message {
            Some(m) => Some(m@),
            None => None,
        }) == command_response_of(request_id, what@, result),
{
    match result {
        Ok(()) => ServerCommandResponse { request_id, ok: true, message: None },
        Err(e) => {
            let message = String::from_str(what).concat(" failed: ").concat(e.as_str());
            ServerCommandResponse { request_id, ok: false, message: Some(message) }
        },
    }
}

/// Whether `r` is what the command `request` leads to: `force_disconnect`
/// is done and ok; the virtual microphone commands are handed back with the
/// request id; anything else is refused as unsupported.
pub open spec fn is_command_outcome(r: CommandOutcome, request: ServerCommandRequest) -> bool {
    if request.action@ == "force_disconnect"@ {
        r matches CommandOutcome::Done(resp) && resp.request_id == request.request_id && resp.ok
            && resp.message is None
    } else if request.action@ == "virtual_mic_create"@ {
        r == CommandOutcome::CreateVirtualMic(request.request_id)
    } else if request.action@ == "virtual_mic_remove"@ {
        r == CommandOutcome::RemoveVirtualMic(request.request_id)
    } else {
        &&& r matches CommandOutcome::Done(resp)
        &&& resp.request_id == request.request_id && !resp.ok
        &&& resp.message matches Some(m) && m@ == "unsupported command: "@ + request.action@
    }
}

/// Whether `r` is the response to a handshake from `addr` while the lock is
/// `s`: the requested parameters held to the safe ranges are the effective
/// ones.
pub open spec fn is_handshake_response(
    r: HandshakeResponse,
    request: HandshakeRequest,
    s: LockState,
    addr: PeerAddr,
) -> bool {
    &&& r.session_id == request.session_id
    &&& r.accepted == handshake_accepted(s, addr)
    &&& r.busy == !r.accepted
    &&& r.accepted ==> r.reason is None
    &&& !r.accepted ==> (r.reason matches Some(m) && m@ == "busy"@)
    &&& is_normalized(request.requested, r.effective)
}

impl ReceiverContext {
    /// The response to a handshake from `addr`: accepted unless another
    /// client holds the lock (then busy, with reason `busy`); the session id
    /// is echoed and the effective parameters are the requested ones held
    /// to the safe ranges (see `normalize_session_params`). The lock itself
    /// does not change.
    pub fn handshake_response(&self, request: HandshakeRequest, addr: PeerAddr) -> (r: HandshakeResponse)
        ensures
            is_handshake_response(r, request, self.lock(), addr),
    {
        let accepted = match self.active_client {
            Some(current) => current == addr,
            None => true,
        };
        let reason = if accepted {
            None
        } else {
            Some(String::from_str("busy"))
        };
        let normalized = normalize_session_params(&request.requested);
        HandshakeResponse {
            session_id: request.session_id,
            accepted,
            reason,
            effective: normalized.effective,
            busy: !accepted,
        }
    }

    /// A command from the management side. `force_disconnect` releases the
    /// active client here; the virtual microphone commands are handed back
    /// to the caller; anything else is refused as unsupported.
    pub fn handle_server_command(&mut self, request: ServerCommandRequest) -> (r: CommandOutcome)
        requires
            old(self).wf(),
        ensures
            old(self).metrics.counts_agree() ==> final(self).metrics.counts_agree(),
            final(self).wf(),
            request.action@ == "force_disconnect"@ ==> final(self).lock() == lock_released(),
            request.action@ != "force_disconnect"@ ==> final(self).lock() == old(self).lock(),
            is_command_outcome(r, request),
            final(self).started_at_ms == old(self).started_at_ms,
            final(self).metrics == old(self).metrics,
            final(self).last_error == old(self).last_error,
            final(self).params == old(self).params,
    {
        proof {
            reveal_strlit("force_disconnect");
            reveal_strlit("virtual_mic_create");
            reveal_strlit("virtual_mic_remove");
            assert("force_disconnect"@.len() != "virtual_mic_create"@.len());
            assert("force_disconnect"@.len() != "virtual_mic_remove"@.len());
            assert("virtual_mic_create"@[12] != "virtual_mic_remove"@[12]);
        }
        let action = request.action.as_str();
        if str_equals(action, "force_disconnect") {
            self.release_client();
            CommandOutcome::Done(
                ServerCommandResponse { request_id: request.request_id, ok: true, message: None },
            )
        } else if str_equals(action, "virtual_mic_create") {
            CommandOutcome::CreateVirtualMic(request.request_id)
        } else if str_equals(action, "virtual_mic_remove") {
            CommandOutcome::RemoveVirtualMic(request.request_id)
        } else {
            let message = String::from_str("unsupported command: ").concat(action);
            CommandOutcome::Done(
                ServerCommandResponse {
                    request_id: request.request_id,
                    ok: false,
                    message: Some(message),
                },
            )
        }
    }

    /// Whether `r` is the status report of this receiver at `now_ms` for the
    /// request `request_id`.
    pub open spec fn is_status_report(&self, r: StatusReport, request_id: String, now_ms: u64) -> bool {
        &&& r.request_id == request_id
        &&& r.state@ == status_label_of(self.lock())
        &&& r.active_client == self.active_client
        &&& r.active_client_seconds == match self.active_since_ms {
            Some(t) => since_ms(now_ms, t) / 1000,
            None => 0,
        }
        &&& r.uptime_ms == since_ms(now_ms, self.started_at_ms)
        &&& r.last_error == self.last_error
        &&& r.stats == self.metrics.stats_counters_of()
    }

    /// The status report at `now_ms`; the level sums restart.
    pub fn build_status_report(&mut self, request_id: String, now_ms: u64) -> (r: StatusReport)
        ensures
            old(self).metrics.counts_agree() ==> final(self).metrics.counts_agree(),
            old(self).is_status_report(r, request_id, now_ms),
            r.state@ == "streaming"@ <==> (old(self).active_client is Some && old(self).state
                == ConnectionState::Active),
            r.state@ == "reconnecting"@ <==> (old(self).active_client is Some && old(self).state
                == ConnectionState::Reconnecting),
            r.stats.packets_received == old(self).metrics.audio_packets,
            r.active_client_seconds == match old(self).active_since_ms {
                Some(t) => if now_ms >= t {
                    (now_ms - t) / 1000
                } else {
                    0
                },
                None => 0,
            },
            final(self).started_at_ms == old(self).started_at_ms,
            final(self).lock() == old(self).lock(),
            final(self).metrics == (ReceiverMetrics { levels: no_levels(), ..old(self).metrics }),
            final(self).last_error == old(self).last_error,
            final(self).params == old(self).params,
    {
        let state = self.status_label();
        let active_client_seconds = match self.active_since_ms {
            Some(t) => elapsed(now_ms, t) / 1000,
            None => 0,
        };
        let uptime_ms = elapsed(now_ms, self.started_at_ms);
        let last_error = self.last_error.clone();
        let stats = self.metrics.build_stats_counters();
        StatusReport {
            request_id,
            state,
            active_client: self.active_client,
            active_client_seconds,
            uptime_ms,
            last_error,
            stats,
        }
    }

    /// Answers a decoded control request from `addr`: a handshake gets its
    /// response; a heartbeat takes or refreshes the lock and gets the
    /// statistics (nothing for a refused sender); status and command
    /// requests are answered for loopback senders only.
    pub fn handle_control_request(&mut self, request: ControlRequest, addr: PeerAddr, now_ms: u64) -> (r:
        Option<ControlReply>)
        requires
            old(self).wf(),
            old(self).metrics.busy_rejects < u64::MAX,
        ensures
            old(self).metrics.counts_agree() ==> final(self).metrics.counts_agree(),
            final(self).wf(),
            final(self).params == old(self).params,
            final(self).last_error == old(self).last_error,
            final(self).started_at_ms == old(self).started_at_ms,
            match request {
                ControlRequest::Handshake(req) => {
                    &&& final(self).lock() == old(self).lock()
                    &&& final(self).metrics == old(self).metrics
                    &&& r matches Some(ControlReply::Handshake(resp))
                    &&& is_handshake_response(resp, req, old(self).lock(), addr)
                },
                ControlRequest::Heartbeat(_) => {
                    let (after, ok) = lock_accept(old(self).lock(), addr, now_ms);
                    &&& final(self).lock() == after
                    &&& ok ==> {
                        &&& r matches Some(ControlReply::Stats(st))
                        &&& st == old(self).metrics.stats_counters_of()
                        &&& final(self).metrics == (ReceiverMetrics {
                            levels: no_levels(),
                            ..old(self).metrics
                        })
                    }
                    &&& !ok ==> {
                        &&& r is None
                        &&& final(self).metrics == (ReceiverMetrics {
                            busy_rejects: (old(self).metrics.busy_rejects + 1) as u64,
                            ..old(self).metrics
                        })
                    }
                },
                ControlRequest::ServerStatus(req) => {
                    &&& final(self).lock() == old(self).lock()
                    &&& !is_loopback_peer(addr) ==> r is None && final(self).metrics
                        == old(self).metrics
                    &&& is_loopback_peer(addr) ==> {
                        &&& r matches Some(ControlReply::Status(rep))
                        &&& old(self).is_status_report(rep, req.request_id, now_ms)
                        &&& final(self).metrics == (ReceiverMetrics {
                            levels: no_levels(),
                            ..old(self).metrics
                        })
                    }
                },
                ControlRequest::ServerCommand(req) => {
                    &&& !is_loopback_peer(addr) ==> r is None && final(self).lock()
                        == old(self).lock()
                    &&& is_loopback_peer(addr) ==> (r matches Some(ControlReply::Command(outcome))
                        && is_command_outcome(outcome, req))
                    &&& (is_loopback_peer(addr) && req.action@ == "force_disconnect"@)
                        ==> final(self).lock() == lock_released()
                    &&& !(is_loopback_peer(addr) && req.action@ == "force_disconnect"@)
                        ==> final(self).lock() == old(self).lock()
                    &&& final(self).metrics == old(self).metrics
                },
            },
    {
        match request {
            ControlRequest::Handshake(req) => {
                let resp = self.handshake_response(req, addr);
                Some(ControlReply::Handshake(resp))
            },
            ControlRequest::Heartbeat(_) => {
                if !self.accept_or_lock_client(addr, now_ms) {
                    return None;
                }
                let stats = self.metrics.build_stats_counters();
                Some(ControlReply::Stats(stats))
            },
            ControlRequest::ServerStatus(req) => {
                if !addr.is_loopback() {
                    return None;
                }
                let report = self.build_status_report(req.request_id, now_ms);
                Some(ControlReply::Status(report))
            },
            ControlRequest::ServerCommand(req) => {
                if !addr.is_loopback() {
                    return None;
                }
                let outcome = self.handle_server_command(req);
                Some(ControlReply::Command(outcome))
            },
        }
    }

    /// An audio datagram's payload from `addr`: refused (`None`) unless the
    /// sender may stream (see `accept_or_lock_client`); otherwise the
    /// payload taken apart into header bytes and PCM bytes.
    pub fn handle_audio_payload<'a>(&mut self, addr: PeerAddr, payload: &'a [u8], now_ms: u64) -> (r:
        Option<Result<(&'a [u8], &'a [u8]), AudioFrameError>>)
        requires
            old(self).wf(),
            old(self).metrics.busy_rejects < u64::MAX,
        ensures
            old(self).metrics.counts_agree() ==> final(self).metrics.counts_agree(),
            final(self).wf(),
            (final(self).lock(), r is Some) == lock_accept(old(self).lock(), addr, now_ms),
            r matches Some(Ok((h, pcm))) ==> {
                let end = 4 + crate::datagram::announced_header_len(payload@);
                &&& h@ == payload@.subrange(4, end)
                &&& pcm@ == payload@.subrange(end, payload@.len() as int)
            },
            r matches Some(Err(e)) ==> !(e matches AudioFrameError::HeaderDecodeFailed(_)),
            r matches Some(Err(e)) ==> (e matches AudioFrameError::PayloadTooShort) == (payload@.len()
                < 4),
            r is Some ==> final(self).metrics == old(self).metrics,
            r is None ==> final(self).metrics == (ReceiverMetrics {
                busy_rejects: (old(self).metrics.busy_rejects + 1) as u64,
                ..old(self).metrics
            }),
            final(self).params == old(self).params,
            final(self).last_error == old(self).last_error,
            final(self).started_at_ms == old(self).started_at_ms,
    {
        if !self.accept_or_lock_client(addr, now_ms) {
            return None;
        }
        Some(split_audio_pcm16_with_header(payload))
    }
}

/// Every step of the lock keeps it consistent.
pub proof fn lemma_lock_steps_keep_wf(s: LockState, addr: PeerAddr, now: u64)
    requires
        lock_wf(s),
    ensures
        lock_wf(lock_accept(s, addr, now).0),
        lock_wf(lock_tick(s, now)),
        lock_wf(lock_released()),
{
}

/// One client at a time: while a client holds the lock, a packet from any
/// other address is refused and changes nothing.
pub proof fn lemma_lock_is_exclusive(s: LockState, holder: PeerAddr, other: PeerAddr, now: u64)
    requires
        lock_wf(s),
        s.active_client == Some(holder),
        other != holder,
    ensures
        lock_accept(s, other, now) == (s, false),
{
}

/// The single-client rule in full: a packet is accepted exactly when nobody
/// holds the lock or its sender does; an accepted sender then holds it,
/// active, with the packet's time as its last one; a refused packet leaves
/// the lock as it was; the lock stays consistent either way. (Refusals are
/// counted by `accept_or_lock_client`, one each, while the counter has
/// room.)
pub proof fn lemma_accept_decides(s: LockState, addr: PeerAddr, now: u64)
    requires
        lock_wf(s),
    ensures
        ({
            let (after, accepted) = lock_accept(s, addr, now);
            &&& accepted == (s.active_client is None || s.active_client == Some(addr))
            &&& accepted ==> {
                &&& after.active_client == Some(addr)
                &&& after.state == ConnectionState::Active
                &&& after.last_packet_at_ms == Some(now)
            }
            &&& !accepted ==> after == s
            &&& lock_wf(after)
        }),
{
}

/// The lock remembers when its holder took it: taking a free lock starts
/// the clock at the packet's time, and later packets of the holder (however
/// many, and also after a silence within the window) leave that start as
/// it was. So a client that took the lock at `t0` and sent again at `t1`
/// has held it since `t0`.
pub proof fn lemma_lock_start_time(s: LockState, addr: PeerAddr, t0: u64, t1: u64)
    requires
        lock_wf(s),
    ensures
        s.active_client is None ==> lock_accept(s, addr, t0).0.active_since_ms == Some(t0),
        s.active_client == Some(addr) ==> lock_accept(s, addr, t1).0.active_since_ms
            == s.active_since_ms,
        s.active_client is None ==> lock_accept(lock_accept(s, addr, t0).0, addr, t1).0.active_since_ms
            == Some(t0),
{
}

/// An accepted packet leaves its sender holding the lock, active, with the
/// packet's time as its last one.
pub proof fn lemma_accept_holds_lock(s: LockState, addr: PeerAddr, now: u64)
    requires
        lock_wf(s),
        lock_accept(s, addr, now).1,
    ensures
        lock_accept(s, addr, now).0.active_client == Some(addr),
        lock_accept(s, addr, now).0.state == ConnectionState::Active,
        lock_accept(s, addr, now).0.last_packet_at_ms == Some(now),
{
}

/// Silence shorter than the grace period changes nothing; a silence of the
/// reconnect window or longer releases the client.
pub proof fn lemma_silence_releases_after_window(s: LockState, now: u64)
    requires
        lock_wf(s),
        s.last_packet_at_ms is Some,
    ensures
        since_ms(now, s.last_packet_at_ms->0) < RECONNECT_GRACE_MS ==> lock_tick(s, now) == s,
        since_ms(now, s.last_packet_at_ms->0) >= RECONNECT_WINDOW_MS ==> lock_tick(s, now)
            == lock_released(),
        RECONNECT_GRACE_MS <= since_ms(now, s.last_packet_at_ms->0) < RECONNECT_WINDOW_MS ==> {
            &&& lock_tick(s, now).active_client == s.active_client
            &&& lock_tick(s, now).state == ConnectionState::Reconnecting
        },
{
}

/// A client that is reconnecting takes the lock back with its next packet.
pub proof fn lemma_reconnect_within_window(s: LockState, addr: PeerAddr, now: u64)
    requires
        lock_wf(s),
        s.active_client == Some(addr),
        s.state == ConnectionState::Reconnecting,
    ensures
        lock_accept(s, addr, now).1,
        lock_accept(s, addr, now).0.state == ConnectionState::Active,
{
}

/// Once released, the lock goes to whichever client sends first.
pub proof fn lemma_released_lock_is_free(addr: PeerAddr, now: u64)
    ensures
        lock_accept(lock_released(), addr, now).1,
        lock_accept(lock_released(), addr, now).0.active_client == Some(addr),
{
}

/// A handshake is accepted exactly for the senders whose packets the lock
/// would accept.
pub proof fn lemma_handshake_agrees_with_lock(s: LockState, addr: PeerAddr, now: u64)
    requires
        lock_wf(s),
    ensures
        handshake_accepted(s, addr) == lock_accept(s, addr, now).1,
{
}

/// The receiver reads back exactly the samples that the sender encoded.
pub proof fn lemma_receiver_reads_sent_samples(samples: Seq<i16>)
    ensures
        payload_samples(pcm16_le(samples)) == samples.map_values(|x: i16| x as int),
{
    crate::audio::lemma_pcm16_le_decodes(samples);
    let p = pcm16_le(samples);
    assert(p.len() / 2 == samples.len()) by (nonlinear_arith)
        requires
            p.len() == 2 * samples.len(),
    ;
    assert forall|k: int| 0 <= k < samples.len() implies #[trigger] payload_samples(p)[k]
        == samples[k] as int by {
        assert(sample_of_le(p[2 * k], p[2 * k + 1]) == samples[k]);
    }
    assert(payload_samples(p) =~= samples.map_values(|x: i16| x as int));
}

/// An audio datagram as the sender builds it (kind byte, header length,
/// header, PCM16 bytes) is read back by the receiver as the same header
/// bytes and the same samples, for every header that fits the length field.
pub proof fn lemma_receiver_reads_sent_frame(header_json: Seq<u8>, samples: Seq<i16>)
    requires
        header_json.len() <= u32::MAX,
    ensures
        ({
            let d = crate::datagram::framed(
                crate::datagram::DATAGRAM_KIND_AUDIO_PCM16,
                crate::datagram::audio_payload(header_json, pcm16_le(samples)),
            );
            let p = d.subrange(1, d.len() as int);
            let end = 4 + header_json.len();
            &&& d.len() > 0
            &&& crate::datagram::kind_of_byte(d[0]) == DatagramKind::AudioPcm16
            &&& p.len() >= 4
            &&& crate::datagram::announced_header_len(p) == header_json.len()
            &&& p.len() >= end
            &&& p.subrange(4, end as int) == header_json
            &&& payload_samples(p.subrange(end as int, p.len() as int)) == samples.map_values(
                |x: i16| x as int,
            )
        }),
{
    let payload = crate::datagram::audio_payload(header_json, pcm16_le(samples));
    crate::datagram::lemma_split_of_framed(crate::datagram::DATAGRAM_KIND_AUDIO_PCM16, payload);
    crate::datagram::lemma_split_of_audio_payload(header_json, pcm16_le(samples));
    lemma_receiver_reads_sent_samples(samples);
}

/// The UDP port: the setting when it reads as a port number, the default
/// otherwise.
pub open spec fn udp_port_of(raw: Option<Seq<char>>) -> u16 {
    match raw {
        Some(s) => match parsed_unsigned(s, u16::MAX as int) {
            Some(v) => v as u16,
            None => DEFAULT_UDP_PORT,
        },
        None => DEFAULT_UDP_PORT,
    }
}

/// Reads the UDP port setting (`None`: not set).
pub fn udp_port_from_setting(raw: Option<&str>) -> (port: u16)
    ensures
        port == udp_port_of(
            match raw {
                Some(s) => Some(s@),
                None => None,
            },
        ),
{
    match raw {
        Some(s) => match parse_unsigned(s, 0xffff) {
            Some(v) => v as u16,
            None => DEFAULT_UDP_PORT,
        },
        None => DEFAULT_UDP_PORT,
    }
}

/// The test tone's length in seconds: 300 when unset or unreadable, none
/// (unlimited) when 0.
pub open spec fn test_tone_secs_of(raw: Option<Seq<char>>) -> Option<u64> {
    match raw {
        None => Some(300),
        Some(s) => match parsed_unsigned(s, u64::MAX as int) {
            Some(v) => if v == 0 {
                None
            } else {
                Some(v as u64)
            },
            None => Some(300),
        },
    }
}

/// Reads the test tone length setting (`None`: not set).
pub fn test_tone_duration_secs(raw: Option<&str>) -> (r: Option<u64>)
    ensures
        r == test_tone_secs_of(
            match raw {
                Some(s) => Some(s@),
                None => None,
            },
        ),
{
    match raw {
        None => Some(300),
        Some(s) => match parse_unsigned(s, u64::MAX) {
            Some(0) => None,
            Some(v) => Some(v),
            None => Some(300),
        },
    }
}

/// Whether the test tone replaces the network input: off unless switched
/// on.
pub fn should_enable_test_tone(raw: Option<&str>) -> (r: bool)
    ensures
        r == (raw matches Some(s) && is_on_word(s@)),
{
    switch_default_off(raw)
}

/// Whether the virtual microphone is created at start: on unless switched
/// off.
pub fn should_auto_create_virtual_mic(raw: Option<&str>) -> (r: bool)
    ensures
        r == !(raw matches Some(s) && is_off_word(s@)),
{
    switch_default_on(raw)
}

/// A setting, trimmed, or `fallback` where it is unset or blank.
pub open spec fn setting_or(raw: Option<Seq<char>>, fallback: Seq<char>) -> Seq<char> {
    match raw {
        Some(s) => if trimmed(s).len() > 0 {
            trimmed(s)
        } else {
            fallback
        },
        None => fallback,
    }
}

/// A setting, trimmed, or `fallback` where it is unset or blank.
pub fn env_or_default(raw: Option<&str>, fallback: &str) -> (r: String)
    ensures
        r@ == setting_or(
            match raw {
                Some(s) => Some(s@),
                None => None,
            },
            fallback@,
        ),
{
    match raw {
        Some(s) => {
            let t = trim(s);
            if t.unicode_len() > 0 {
                t
            } else {
                String::from_str(fallback)
            }
        },
        None => String::from_str(fallback),
    }
}

/// Names of the virtual microphone: a null sink and the source that
/// remaps its monitor.
#[derive(Debug, Clone)]
pub struct VirtualMicConfig {
    pub state_path: String,
    pub sink_name: String,
    pub source_name: String,
    pub sink_desc: String,
    pub source_desc: String,
}

/// The settings that name the virtual microphone (`None`: not set).
#[derive(Debug, Clone, Copy)]
pub struct VirtualMicSettings<'a> {
    pub prefix: Option<&'a str>,
    pub sink_name: Option<&'a str>,
    pub source_name: Option<&'a str>,
    pub sink_desc: Option<&'a str>,
    pub source_desc: Option<&'a str>,
    pub state_path: Option<&'a str>,
}

pub open spec fn opt_view(o: Option<&str>) -> Option<Seq<char>> {
    match o {
        Some(s) => Some(s@),
        None => None,
    }
}

/// The virtual microphone's names: each setting or its default, where the
/// sink and source names default to the prefix (default `netmic`) followed
/// by `_sink` and `_source`.
pub fn virtual_mic_config(settings: VirtualMicSettings) -> (c: VirtualMicConfig)
    ensures
        ({
            let prefix = setting_or(opt_view(settings.prefix), "netmic"@);
            &&& c.sink_name@ == setting_or(opt_view(settings.sink_name), prefix + "_sink"@)
            &&& c.source_name@ == setting_or(opt_view(settings.source_name), prefix + "_source"@)
            &&& c.sink_desc@ == setting_or(opt_view(settings.sink_desc), "NetMic_Virtual_Sink"@)
            &&& c.source_desc@ == setting_or(opt_view(settings.source_desc), "NetMic_Virtual_Mic"@)
            &&& c.state_path@ == setting_or(
                opt_view(settings.state_path),
                "/tmp/netmic_virtual_mic.env"@,
            )
        }),
{
    let prefix = env_or_default(settings.prefix, "netmic");
    let sink_default = prefix.clone().concat("_sink");
    let source_default = prefix.concat("_source");
    let sink_name = env_or_default(settings.sink_name, sink_default.as_str());
    let source_name = env_or_default(settings.source_name, source_default.as_str());
    let sink_desc = env_or_default(settings.sink_desc, "NetMic_Virtual_Sink");
    let source_desc = env_or_default(settings.source_desc, "NetMic_Virtual_Mic");
    let state_path = env_or_default(settings.state_path, "/tmp/netmic_virtual_mic.env");
    VirtualMicConfig { state_path, sink_name, source_name, sink_desc, source_desc }
}

/// What the status response says of the virtual microphone, given whether
/// its source was found (or why looking failed).
pub fn virtual_mic_status(source_name: String, probe: Result<bool, String>) -> (r: (
    String,
    bool,
    Option<String>,
))
    ensures
        r.0 == source_name,
        r.1 == (probe == Ok::<bool, String>(true)),
        probe == Ok::<bool, String>(true) ==> r.2 is None,
        probe == Ok::<bool, String>(false) ==> (r.2 matches Some(m) && m@ == "未检测到虚拟麦克风"@),
        probe matches Err(e) ==> (r.2 matches Some(m) && m@ == "pactl 查询失败: "@ + e@),
{
    match probe {
        Ok(true) => (source_name, true, None),
        Ok(false) => (source_name, false, Some(String::from_str("未检测到虚拟麦克风"))),
        Err(e) => (source_name, false, Some(String::from_str("pactl 查询失败: ").concat(e.as_str()))),
    }
}

/// Where received audio goes.
#[derive(Debug, Clone, Copy, PartialEq, Eq, Structural)]
pub enum SinkMode {
    /// Discard (network path only).
    Null,
    /// The PulseAudio null sink behind the virtual microphone.
    Pulse,
}

/// Reads the sink setting: `pulse` when unset; `null` or `pulse`; anything
/// else is an error that names the value.
pub fn sink_mode_from_setting(raw: Option<&str>) -> (r: Result<SinkMode, String>)
    ensures
        raw is None ==> r == Ok::<SinkMode, String>(SinkMode::Pulse),
        (raw matches Some(s) && s@ == "null"@) ==> r == Ok::<SinkMode, String>(SinkMode::Null),
        (raw matches Some(s) && s@ == "pulse"@) ==> r == Ok::<SinkMode, String>(SinkMode::Pulse),
        (raw matches Some(s) && s@ != "null"@ && s@ != "pulse"@) ==> (r matches Err(e) && e@
            == "unsupported NETMIC_SERVER_AUDIO_SINK="@ + raw->0@ + " (expected pulse/null)"@),
{
    proof {
        reveal_strlit("null");
        reveal_strlit("pulse");
        assert("null"@.len() != "pulse"@.len());
    }
    match raw {
        None => Ok(SinkMode::Pulse),
        Some(s) => {
            if str_equals(s, "null") {
                Ok(SinkMode::Null)
            } else if str_equals(s, "pulse") {
                Ok(SinkMode::Pulse)
            } else {
                Err(
                    String::from_str("unsupported NETMIC_SERVER_AUDIO_SINK=").concat(s).concat(
                        " (expected pulse/null)",
                    ),
                )
            }
        },
    }
}

/// The path of the audio dump file, where the setting names one.
pub fn audio_dump_path(raw: Option<&str>) -> (r: Option<String>)
    ensures
        raw is None ==> r is None,
        raw matches Some(s) ==> if trimmed(s@).len() == 0 {
            r is None
        } else {
            r matches Some(p) && p@ == trimmed(s@)
        },
{
    match raw {
        None => None,
        Some(s) => {
            let t = trim(s);
            if t.unicode_len() == 0 {
                None
            } else {
                Some(t)
            }
        },
    }
}

/// The number of `:` in `s`.
pub open spec fn colon_count(s: Seq<char>) -> nat
    decreases s.len(),
{
    if s.len() == 0 {
        0
    } else {
        colon_count(s.drop_last()) + if s.last() == ':' {
            1nat
        } else {
            0
        }
    }
}

fn count_colons(s: &str) -> (n: usize)
    ensures
        n == colon_count(s@),
{
    let len = s.unicode_len();
    let mut n: usize = 0;
    for i in 0..len
        invariant
            len == s@.len(),
            n == colon_count(s@.subrange(0, i as int)),
            n <= i,
    {
        assert(s@.subrange(0, i + 1).drop_last() =~= s@.subrange(0, i as int));
        if s.get_char(i) == ':' {
            n = n + 1;
        }
    }
    assert(s@.subrange(0, len as int) =~= s@);
    n
}

/// The bind address: `0.0.0.0:<port>` for an empty setting; the setting
/// as a socket address where it reads as one (`parsed` is its canonical
/// form); a bracketed IPv6 host or a bare host with the port appended; a
/// `host:port` as it is; a bare IPv6 host bracketed, with the port.
pub open spec fn bind_addr_of(port: u16, setting: Seq<char>, parsed: Option<Seq<char>>) -> Seq<char> {
    let with_port = ":"@ + decimal(port as nat);
    if setting.len() == 0 {
        "0.0.0.0"@ + with_port
    } else if parsed is Some {
        parsed->0
    } else if setting[0] == '[' && setting.last() == ']' {
        setting + with_port
    } else if colon_count(setting) == 1 {
        setting
    } else if colon_count(setting) > 1 {
        "["@ + setting + "]"@ + with_port
    } else {
        setting + with_port
    }
}

/// Chooses the bind address from the trimmed setting (empty when unset)
/// and, where the setting reads as a socket address, that address written
/// out.
pub fn bind_addr_from_setting(port: u16, setting: &str, parsed: Option<String>) -> (r: String)
    ensures
        r@ == bind_addr_of(
            port,
            setting@,
            match parsed {
                Some(p) => Some(p@),
                None => None,
            },
        ),
{
    let port_text = String::from_str(":").concat(u64_to_decimal(port as u64).as_str());
    let len = setting.unicode_len();
    if len == 0 {
        return String::from_str("0.0.0.0").concat(port_text.as_str());
    }
    if let Some(p) = parsed {
        return p;
    }
    if setting.get_char(0) == '[' && setting.get_char(len - 1) == ']' {
        return String::from_str(setting).concat(port_text.as_str());
    }
    let colons = count_colons(setting);
    if colons == 1 {
        String::from_str(setting)
    } else if colons > 1 {
        String::from_str("[").concat(setting).concat("]").concat(port_text.as_str())
    } else {
        String::from_str(setting).concat(port_text.as_str())
    }
}

/// A received datagram, sorted by kind.
#[derive(Debug, Clone, Copy)]
pub enum Incoming<'a> {
    /// No bytes at all.
    Empty,
    /// A control payload (JSON).
    Control(&'a [u8]),
    /// An audio payload (header and PCM16).
    Audio(&'a [u8]),
    /// A payload of an unknown kind, with the kind byte.
    Unknown(u8, &'a [u8]),
}

impl ReceiverContext {
    /// Whether the counters have room for a datagram of `len` bytes of any
    /// kind.
    pub open spec fn can_receive_spec(&self, len: nat) -> bool {
        &&& self.metrics.packets_total < u64::MAX
        &&& self.metrics.bytes_total + len <= u64::MAX
        &&& self.metrics.control_packets < u64::MAX
        &&& self.metrics.unknown_packets < u64::MAX
        &&& self.metrics.empty_packets < u64::MAX
    }

    /// Whether the counters have room for a datagram of `len` bytes of any
    /// kind.
    pub fn can_receive(&self, len: usize) -> (r: bool)
        ensures
            r == self.can_receive_spec(len as nat),
    {
        self.metrics.packets_total < u64::MAX && (len as u64) <= u64::MAX - self.metrics.bytes_total
            && self.metrics.control_packets < u64::MAX && self.metrics.unknown_packets < u64::MAX
            && self.metrics.empty_packets < u64::MAX
    }

    /// Sorts a received datagram by its kind byte. Empty, control and
    /// unknown datagrams are counted here; an audio datagram is counted once
    /// its frame is taken apart.
    pub fn receive<'a>(&mut self, packet: &'a [u8]) -> (r: Incoming<'a>)
        requires
            old(self).can_receive_spec(packet@.len()),
        ensures
            old(self).metrics.counts_agree() ==> final(self).metrics.counts_agree(),
            final(self).lock() == old(self).lock(),
            final(self).started_at_ms == old(self).started_at_ms,
            final(self).last_error == old(self).last_error,
            final(self).params == old(self).params,
            packet@.len() == 0 ==> r is Empty && final(self).metrics == (ReceiverMetrics {
                empty_packets: (old(self).metrics.empty_packets + 1) as u64,
                ..old(self).metrics
            }),
            packet@.len() > 0 ==> {
                let payload = packet@.subrange(1, packet@.len() as int);
                match crate::datagram::kind_of_byte(packet@[0]) {
                    DatagramKind::ControlJson => (r matches Incoming::Control(p) && p@ == payload
                        && final(self).metrics == (ReceiverMetrics {
                        packets_total: (old(self).metrics.packets_total + 1) as u64,
                        bytes_total: (old(self).metrics.bytes_total + payload.len()) as u64,
                        control_packets: (old(self).metrics.control_packets + 1) as u64,
                        ..old(self).metrics
                    })),
                    DatagramKind::AudioPcm16 => (r matches Incoming::Audio(p) && p@ == payload
                        && final(self).metrics == old(self).metrics),
                    DatagramKind::Unknown(b) => (r matches Incoming::Unknown(k, p) && k == b && p@ == payload
                        && final(self).metrics == (ReceiverMetrics {
                        packets_total: (old(self).metrics.packets_total + 1) as u64,
                        bytes_total: (old(self).metrics.bytes_total + payload.len()) as u64,
                        unknown_packets: (old(self).metrics.unknown_packets + 1) as u64,
                        ..old(self).metrics
                    })),
                }
            },
    {
        match crate::datagram::split_datagram(packet) {
            None => {
                self.metrics.on_empty();
                Incoming::Empty
            },
            Some((kind, payload)) => match kind {
                DatagramKind::ControlJson => {
                    self.metrics.on_datagram(kind, payload);
                    Incoming::Control(payload)
                },
                DatagramKind::AudioPcm16 => Incoming::Audio(payload),
                DatagramKind::Unknown(tag) => {
                    self.metrics.on_datagram(kind, payload);
                    Incoming::Unknown(tag, payload)
                },
            },
        }
    }
}

impl ReceiverContext {
    /// Records an accepted audio frame. Where it was taken apart (`Ok`, its
    /// PCM bytes), those bytes are counted; where it was not (`Err`, the
    /// reason), the whole payload is counted and the reason is kept as the
    /// last error.
    pub fn record_audio_frame(&mut self, payload: &[u8], outcome: Result<&[u8], String>)
        requires
            old(self).metrics.can_record_spec(
                DatagramKind::AudioPcm16,
                match outcome {
                    Ok(pcm) => pcm@.len(),
                    Err(_) => payload@.len(),
                },
            ),
        ensures
            old(self).metrics.counts_agree() ==> final(self).metrics.counts_agree(),
            final(self).lock() == old(self).lock(),
            final(self).params == old(self).params,
            final(self).started_at_ms == old(self).started_at_ms,
            ({
                let counted = match outcome {
                    Ok(pcm) => pcm@,
                    Err(_) => payload@,
                };
                final(self).metrics == (ReceiverMetrics {
                    packets_total: (old(self).metrics.packets_total + 1) as u64,
                    bytes_total: (old(self).metrics.bytes_total + counted.len()) as u64,
                    audio_packets: (old(self).metrics.audio_packets + 1) as u64,
                    buffer_depth_frames: sat_add_usize(
                        old(self).metrics.buffer_depth_frames,
                        payload_frames(counted.len(), old(self).metrics.channels),
                    ),
                    levels: levels_after(old(self).metrics.levels, payload_samples(counted)),
                    ..old(self).metrics
                })
            }),
            outcome is Ok ==> final(self).last_error == old(self).last_error,
            outcome matches Err(e) ==> (final(self).last_error matches Some(m) && m@
                == "audio header decode failed: "@ + e@),
    {
        match outcome {
            Ok(pcm) => {
                self.metrics.on_datagram(DatagramKind::AudioPcm16, pcm);
            },
            Err(reason) => {
                self.last_error = Some(
                    String::from_str("audio header decode failed: ").concat(reason.as_str()),
                );
                self.metrics.on_datagram(DatagramKind::AudioPcm16, payload);
            },
        }
    }
}

impl ReceiverMetrics {
    /// Counters at zero (the value `new` returns).
    pub open spec fn new_spec(now_ms: u64, sample_rate_hz: u32, channels: u16) -> ReceiverMetrics {
        ReceiverMetrics {
            packets_total: 0,
            bytes_total: 0,
            control_packets: 0,
            audio_packets: 0,
            unknown_packets: 0,
            empty_packets: 0,
            busy_rejects: 0,
            read_timeouts: 0,
            buffer_depth_frames: 0,
            levels: no_levels(),
            buffer_target_ms: BUFFER_TARGET_MS,
            sample_rate_hz,
            channels,
            last_consume_at_ms: now_ms,
            last_report_at_ms: now_ms,
        }
    }
}

} // verus!
