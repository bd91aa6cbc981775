//! Audio side of the sender: PCM16 frames and their little-endian bytes,
//! frame sizing, and the bounded sample buffer between capture and send.

use vstd::prelude::*;
use std::collections::VecDeque;
use crate::text::{decimal, u64_to_decimal};

verus! {

/// Internal sample rate of the pipeline (Hz).
pub const TARGET_SAMPLE_RATE_HZ: u32 = 48_000;

/// Internal channel count of the pipeline (mono).
pub const TARGET_CHANNELS: u16 = 1;

/// The unsigned 16-bit pattern of a sample (two's complement).
pub open spec fn sample_bits(x: i16) -> int {
    if x >= 0 {
        x as int
    } else {
        x + 65536
    }
}

/// The two little-endian bytes of a sample.
pub open spec fn i16_le_bytes(x: i16) -> Seq<u8> {
    seq![(sample_bits(x) % 256) as u8, (sample_bits(x) / 256) as u8]
}

/// The little-endian bytes of a run of samples, two per sample.
pub open spec fn pcm16_le(samples: Seq<i16>) -> Seq<u8> {
    Seq::new(2 * samples.len(), |i: int| i16_le_bytes(samples[i / 2])[i % 2])
}

/// The sample that two little-endian bytes stand for.
pub open spec fn sample_of_le(lo: u8, hi: u8) -> int {
    let u = lo + 256 * hi;
    if u >= 32768 {
        u - 65536
    } else {
        u
    }
}

/// A frame of PCM16 samples.
#[derive(Debug, Clone)]
pub struct Pcm16Frame {
    pub samples: Vec<i16>,
    pub sample_rate_hz: u32,
    pub channels: u16,
}

/// Why capture or resampling failed.
#[derive(Debug, Clone)]
pub enum CaptureError {
    DeviceUnavailable(String),
    DeviceListFailed(String),
    StreamConfigUnavailable(String),
    StreamBuildFailed(String),
    StreamPlayFailed(String),
    BufferTimeout { wanted: usize, available: usize },
    ResampleFailed(String),
}

/// The text of a capture error, as it is shown to users and in logs.
pub open spec fn capture_error_text(e: CaptureError) -> Seq<char> {
    match e {
        CaptureError::DeviceUnavailable(m) => "device unavailable: "@ + m@,
        CaptureError::DeviceListFailed(m) => "device list failed: "@ + m@,
        CaptureError::StreamConfigUnavailable(m) => "stream config failed: "@ + m@,
        CaptureError::StreamBuildFailed(m) => "stream build failed: "@ + m@,
        CaptureError::StreamPlayFailed(m) => "stream play failed: "@ + m@,
        CaptureError::BufferTimeout { wanted, available } => "capture buffer timeout: wanted "@
            + decimal(wanted as nat) + " frames, available "@ + decimal(available as nat),
        CaptureError::ResampleFailed(m) => "resample failed: "@ + m@,
    }
}

impl CaptureError {
    /// The text of the error (what its `Display` would write).
    pub fn message(&self) -> (s: String)
        ensures
            s@ == capture_error_text(*self),
    {
        match self {
            CaptureError::DeviceUnavailable(m) => String::from_str("device unavailable: ").concat(
                m.as_str(),
            ),
            CaptureError::DeviceListFailed(m) => String::from_str("device list failed: ").concat(
                m.as_str(),
            ),
            CaptureError::StreamConfigUnavailable(m) => String::from_str(
                "stream config failed: ",
            ).concat(m.as_str()),
            CaptureError::StreamBuildFailed(m) => String::from_str("stream build failed: ").concat(
                m.as_str(),
            ),
            CaptureError::StreamPlayFailed(m) => String::from_str("stream play failed: ").concat(
                m.as_str(),
            ),
            CaptureError::BufferTimeout { wanted, available } => {
                let w = u64_to_decimal(*wanted as u64);
                let a = u64_to_decimal(*available as u64);
                String::from_str("capture buffer timeout: wanted ").concat(w.as_str()).concat(
                    " frames, available ",
                ).concat(a.as_str())
            },
            CaptureError::ResampleFailed(m) => String::from_str("resample failed: ").concat(
                m.as_str(),
            ),
        }
    }
}

fn le_bytes_of_sample(x: i16) -> (r: (u8, u8))
    ensures
        seq![r.0, r.1] == i16_le_bytes(x),
{
    let u: u32 = if x >= 0 {
        x as u32
    } else {
        (x as i32 + 65536) as u32
    };
    ((u % 256) as u8, (u / 256) as u8)
}

/// The little-endian bytes of PCM16 samples.
pub fn pcm16_to_bytes(samples: &[i16]) -> (buf: Vec<u8>)
    ensures
        buf@ == pcm16_le(samples@),
{
    let mut buf: Vec<u8> = Vec::new();
    let n = samples.len();
    for i in 0..n
        invariant
            n == samples@.len(),
            buf@.len() == 2 * i,
            forall|j: int|
                0 <= j < 2 * i ==> #[trigger] buf@[j] == i16_le_bytes(samples@[j / 2])[j % 2],
    {
        let (lo, hi) = le_bytes_of_sample(samples[i]);
        buf.push(lo);
        buf.push(hi);
        assert forall|j: int| 0 <= j < 2 * (i + 1) implies #[trigger] buf@[j] == i16_le_bytes(
            samples@[j / 2],
        )[j % 2] by {
            if j >= 2 * i {
                assert(j / 2 == i);
            }
        }
    }
    assert(buf@ =~= pcm16_le(samples@));
    buf
}

impl Pcm16Frame {
    pub fn new(samples: Vec<i16>, sample_rate_hz: u32, channels: u16) -> (f: Self)
        ensures
            f.samples@ == samples@,
            f.sample_rate_hz == sample_rate_hz,
            f.channels == channels,
    {
        Pcm16Frame { samples, sample_rate_hz, channels }
    }

    /// The samples as little-endian bytes, ready to send.
    pub fn to_bytes(&self) -> (buf: Vec<u8>)
        ensures
            buf@ == pcm16_le(self.samples@),
    {
        pcm16_to_bytes(self.samples.as_slice())
    }
}

/// Every sample survives the trip through its two little-endian bytes.
pub proof fn lemma_sample_le_roundtrip(x: i16)
    ensures
        i16_le_bytes(x).len() == 2,
        sample_of_le(i16_le_bytes(x)[0], i16_le_bytes(x)[1]) == x,
{
    let u = sample_bits(x);
    assert(0 <= u < 65536);
    assert((u % 256) + 256 * (u / 256) == u) by (nonlinear_arith)
        requires
            0 <= u,
    ;
    assert(u / 256 < 256) by (nonlinear_arith)
        requires
            0 <= u < 65536,
    ;
}

/// The samples of a frame are read back, in order, from its bytes: byte
/// pair `k` decodes to sample `k`.
pub proof fn lemma_pcm16_le_decodes(samples: Seq<i16>)
    ensures
        pcm16_le(samples).len() == 2 * samples.len(),
        forall|k: int|
            0 <= k < samples.len() ==> sample_of_le(
                #[trigger] pcm16_le(samples)[2 * k],
                pcm16_le(samples)[2 * k + 1],
            ) == samples[k],
{
    assert forall|k: int| 0 <= k < samples.len() implies sample_of_le(
        #[trigger] pcm16_le(samples)[2 * k],
        pcm16_le(samples)[2 * k + 1],
    ) == samples[k] by {
        assert((2 * k) / 2 == k && (2 * k) % 2 == 0);
        assert((2 * k + 1) / 2 == k && (2 * k + 1) % 2 == 1);
        lemma_sample_le_roundtrip(samples[k]);
    }
}

/// Frames in a chunk: `sample_rate_hz * chunk_ms / 1000`, at least 1.
pub open spec fn chunk_frames(sample_rate_hz: u32, chunk_ms: u32) -> int {
    let f = (sample_rate_hz as int * chunk_ms as int) / 1000;
    if f < 1 {
        1
    } else {
        f
    }
}

/// The number of frames in a chunk of `chunk_ms` milliseconds; never 0.
pub fn frames_for_chunk(sample_rate_hz: u32, chunk_ms: u32) -> (n: usize)
    ensures
        n == chunk_frames(sample_rate_hz, chunk_ms) as usize,
{
    let rate = sample_rate_hz as u64;
    let ms = chunk_ms as u64;
    assert(rate * ms <= 0xffff_ffff_u64 * 0xffff_ffff_u64) by (nonlinear_arith)
        requires
            rate <= 0xffff_ffff_u64,
            ms <= 0xffff_ffff_u64,
    ;
    let frames = rate * ms / 1000;
    let frames = if frames < 1 {
        1
    } else {
        frames
    };
    frames as usize
}

/// The pause between two sent frames, in milliseconds: the chunk length, at
/// least 1.
pub fn frame_interval_ms(chunk_ms: u32) -> (ms: u64)
    ensures
        ms == if chunk_ms < 1 {
            1
        } else {
            chunk_ms
        },
{
    if chunk_ms < 1 {
        1
    } else {
        chunk_ms as u64
    }
}

/// Truncates or pads (with `fill`) `samples` to exactly `target_frames`
/// items.
pub fn normalize_length<T: Copy>(samples: &mut Vec<T>, target_frames: usize, fill: T)
    ensures
        final(samples)@.len() == target_frames,
        old(samples)@.len() >= target_frames ==> final(samples)@ == old(samples)@.subrange(
            0,
            target_frames as int,
        ),
        old(samples)@.len() < target_frames ==> final(samples)@ == old(samples)@ + Seq::new(
            (target_frames - old(samples)@.len()) as nat,
            |i: int| fill,
        ),
{
    if samples.len() > target_frames {
        samples.truncate(target_frames);
    } else if samples.len() < target_frames {
        let ghost start = samples@;
        while samples.len() < target_frames
            invariant
                start.len() <= samples@.len() <= target_frames,
                start.len() < target_frames,
                samples@ == start + Seq::new((samples@.len() - start.len()) as nat, |i: int| fill),
            decreases target_frames - samples@.len(),
        {
            samples.push(fill);
            assert(samples@ =~= start + Seq::new(
                (samples@.len() - start.len()) as nat,
                |i: int| fill,
            ));
        }
    } else {
        assert(samples@.subrange(0, target_frames as int) =~= samples@);
    }
}

/// How many samples a push drops: whatever the held and the incoming
/// samples together have beyond the capacity (nothing is pushed, and so
/// nothing dropped, with a zero capacity or an empty input).
pub open spec fn dropped_by_push(held: nat, capacity: nat, incoming: nat) -> nat {
    if capacity == 0 || incoming == 0 || held + incoming <= capacity {
        0
    } else {
        (held + incoming - capacity) as nat
    }
}

/// The contents of a sample buffer after pushing `input`: the newest
/// samples of the held ones followed by the input, as many as the capacity
/// allows, oldest first.
pub open spec fn after_push<T>(contents: Seq<T>, capacity: nat, input: Seq<T>) -> Seq<T> {
    if capacity == 0 || input.len() == 0 {
        contents
    } else {
        (contents + input).skip(dropped_by_push(contents.len(), capacity, input.len()) as int)
    }
}

/// A bounded FIFO (ring) buffer of samples: it never holds more than its
/// capacity, and a push that would exceed it drops the oldest samples
/// first.
pub struct SampleBuffer<T> {
    samples: VecDeque<T>,
    capacity: usize,
    dropped_samples: u64,
}

impl<T: Copy> SampleBuffer<T> {
    /// The samples held, oldest first.
    pub closed spec fn contents(&self) -> Seq<T> {
        self.samples@
    }

    /// The nominal capacity.
    pub closed spec fn spec_capacity(&self) -> nat {
        self.capacity as nat
    }

    /// How many samples pushes have dropped (saturating).
    pub closed spec fn spec_dropped(&self) -> u64 {
        self.dropped_samples
    }

    /// An empty buffer.
    pub fn new(capacity: usize) -> (b: Self)
        ensures
            b.contents() == Seq::<T>::empty(),
            b.spec_capacity() == capacity,
            b.spec_dropped() == 0,
    {
        SampleBuffer { samples: VecDeque::new(), capacity, dropped_samples: 0 }
    }

    /// The number of samples held.
    pub fn available(&self) -> (n: usize)
        ensures
            n == self.contents().len(),
    {
        self.samples.len()
    }

    /// The number of samples dropped so far.
    pub fn dropped(&self) -> (n: u64)
        ensures
            n == self.spec_dropped(),
    {
        self.dropped_samples
    }

    /// Appends `input`, keeping only the newest samples where the buffer
    /// would hold more than its capacity; every sample that goes is counted
    /// as dropped (saturating). Nothing happens with an empty input or a
    /// zero capacity.
    pub fn push_samples(&mut self, input: &[T])
        ensures
            final(self).contents() == after_push(
                old(self).contents(),
                old(self).spec_capacity(),
                input@,
            ),
            final(self).spec_capacity() == old(self).spec_capacity(),
            final(self).spec_dropped() == if old(self).spec_dropped() + dropped_by_push(
                old(self).contents().len(),
                old(self).spec_capacity(),
                input@.len(),
            ) > u64::MAX {
                u64::MAX as int
            } else {
                old(self).spec_dropped() + dropped_by_push(
                    old(self).contents().len(),
                    old(self).spec_capacity(),
                    input@.len(),
                )
            },
            old(self).contents().len() <= old(self).spec_capacity() ==> final(self).contents().len()
                <= final(self).spec_capacity(),
    {
        if self.capacity == 0 || input.len() == 0 {
            return;
        }
        let ghost start = self.samples@;
        let cap = self.capacity;
        let held = self.samples.len();
        let incoming = input.len();
        let (drop_old, skip_in): (usize, usize) = if incoming >= cap {
            (held, incoming - cap)
        } else if held > cap - incoming {
            (held - (cap - incoming), 0)
        } else {
            (0, 0)
        };
        assert(drop_old + skip_in == dropped_by_push(held as nat, cap as nat, incoming as nat));
        let mut k: usize = 0;
        while k < drop_old
            invariant
                self.capacity == cap,
                self.dropped_samples == old(self).dropped_samples,
                drop_old <= start.len(),
                k <= drop_old,
                self.samples@ == start.skip(k as int),
            decreases drop_old - k,
        {
            let popped = self.samples.pop_front();
            assert(start.skip(k as int).drop_first() =~= start.skip(k + 1));
            k = k + 1;
        }
        let mut i: usize = skip_in;
        assert(input@.subrange(skip_in as int, skip_in as int) =~= Seq::<T>::empty());
        assert(start.skip(drop_old as int) + Seq::<T>::empty() =~= start.skip(drop_old as int));
        while i < incoming
            invariant
                incoming == input@.len(),
                self.capacity == cap,
                self.dropped_samples == old(self).dropped_samples,
                skip_in <= i <= incoming,
                self.samples@ == start.skip(drop_old as int) + input@.subrange(skip_in as int, i as int),
            decreases incoming - i,
        {
            self.samples.push_back(input[i]);
            assert(input@.subrange(skip_in as int, i + 1) =~= input@.subrange(skip_in as int, i as int).push(
                input@[i as int],
            ));
            i = i + 1;
        }
        self.dropped_samples = self.dropped_samples.saturating_add(drop_old as u64).saturating_add(
            skip_in as u64,
        );
        proof {
            let all = start + input@;
            let d = (drop_old + skip_in) as int;
            if incoming >= cap {
                assert(all.skip(d) =~= start.skip(drop_old as int) + input@.subrange(
                    skip_in as int,
                    incoming as int,
                ));
            } else {
                assert(all.skip(d) =~= start.skip(drop_old as int) + input@.subrange(
                    skip_in as int,
                    incoming as int,
                ));
            }
        }
    }

    /// Takes up to `frames` of the oldest samples out of the buffer.
    pub fn pop_samples(&mut self, frames: usize) -> (out: Vec<T>)
        ensures
            ({
                let take = if frames <= old(self).contents().len() {
                    frames as int
                } else {
                    old(self).contents().len() as int
                };
                &&& out@ == old(self).contents().subrange(0, take)
                &&& final(self).contents() == old(self).contents().skip(take)
            }),
            final(self).spec_capacity() == old(self).spec_capacity(),
            final(self).spec_dropped() == old(self).spec_dropped(),
    {
        let take = if frames <= self.samples.len() {
            frames
        } else {
            self.samples.len()
        };
        let ghost start = self.samples@;
        let mut out: Vec<T> = Vec::new();
        let mut k: usize = 0;
        while k < take
            invariant
                take <= start.len(),
                k <= take,
                self.capacity == old(self).capacity,
                self.dropped_samples == old(self).dropped_samples,
                self.samples@ == start.skip(k as int),
                out@ == start.subrange(0, k as int),
            decreases take - k,
        {
            let popped = self.samples.pop_front();
            if let Some(value) = popped {
                out.push(value);
            }
            assert(start.skip(k as int).drop_first() =~= start.skip(k + 1));
            assert(start.subrange(0, k + 1) =~= start.subrange(0, k as int).push(start[k as int]));
            k = k + 1;
        }
        out
    }
}

impl<T: Copy> SampleBuffer<T> {
    /// Takes exactly `frames` of the oldest samples where the buffer holds
    /// that many; otherwise leaves the buffer alone and reports the
    /// shortfall as a buffer timeout (the caller waits and tries again until
    /// its deadline).
    pub fn take_frames(&mut self, frames: usize) -> (r: Result<Vec<T>, CaptureError>)
        ensures
            frames <= old(self).contents().len() ==> {
                &&& r matches Ok(out) && out@ == old(self).contents().subrange(0, frames as int)
                &&& final(self).contents() == old(self).contents().skip(frames as int)
            },
            frames > old(self).contents().len() ==> {
                &&& r matches Err(CaptureError::BufferTimeout { wanted, available })
                &&& wanted == frames && available == old(self).contents().len()
                &&& final(self).contents() == old(self).contents()
            },
            final(self).spec_capacity() == old(self).spec_capacity(),
            final(self).spec_dropped() == old(self).spec_dropped(),
    {
        let available = self.available();
        if available >= frames {
            Ok(self.pop_samples(frames))
        } else {
            Err(CaptureError::BufferTimeout { wanted: frames, available })
        }
    }
}

/// Seconds of capture that the sample buffer holds.
pub const CAPTURE_BUFFER_SECS: u32 = 2;

/// The capacity of the capture buffer at `sample_rate_hz`: two seconds of
/// samples (saturating at `u32::MAX`).
pub fn capture_buffer_capacity(sample_rate_hz: u32) -> (n: usize)
    ensures
        n == (if sample_rate_hz * CAPTURE_BUFFER_SECS > u32::MAX {
            u32::MAX as int
        } else {
            sample_rate_hz * CAPTURE_BUFFER_SECS
        }) as usize,
{
    let c: u32 = match sample_rate_hz.checked_mul(CAPTURE_BUFFER_SECS) {
        Some(v) => v,
        None => u32::MAX,
    };
    c as usize
}

/// A push never leaves more than the capacity in a buffer that held at most
/// its capacity, however long the input.
pub proof fn lemma_push_keeps_capacity<T>(contents: Seq<T>, capacity: nat, input: Seq<T>)
    requires
        contents.len() <= capacity,
    ensures
        after_push(contents, capacity, input).len() <= capacity,
{
}

/// A sample buffer is first in, first out: what is pushed into an empty
/// buffer (and fits it) is what the next pop of that many samples returns.
pub proof fn lemma_push_then_pop<T>(capacity: nat, input: Seq<T>)
    requires
        0 < input.len() <= capacity,
    ensures
        after_push(Seq::<T>::empty(), capacity, input) == input,
        after_push(Seq::<T>::empty(), capacity, input).subrange(0, input.len() as int) == input,
{
    assert(Seq::<T>::empty().skip(0) + input =~= input);
    assert(input.subrange(0, input.len() as int) =~= input);
}

/// A push keeps the newest samples: the buffer then holds the last
/// `min(capacity, held + pushed)` samples of the held ones followed by the
/// pushed ones, in order, and every other sample of the two is counted as
/// dropped.
pub proof fn lemma_push_keeps_newest<T>(contents: Seq<T>, capacity: nat, input: Seq<T>)
    requires
        capacity > 0,
        input.len() > 0,
    ensures
        ({
            let all = contents + input;
            let keep = if all.len() < capacity {
                all.len()
            } else {
                capacity
            };
            let r = after_push(contents, capacity, input);
            &&& r.len() == keep
            &&& r == all.subrange(all.len() - keep, all.len() as int)
            &&& dropped_by_push(contents.len(), capacity, input.len()) == all.len() - keep
        }),
{
    let all = contents + input;
    let d = dropped_by_push(contents.len(), capacity, input.len()) as int;
    assert(all.skip(d) =~= all.subrange(d, all.len() as int));
}

} // verus!
