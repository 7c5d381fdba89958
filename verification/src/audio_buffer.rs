//! Bounded, evictable store of normalized audio samples.
//!
//! Decoded frames are downmixed to one normalized channel and appended
//! under a monotonically increasing global sample index. When the store
//! would outgrow its capacity, a fixed fraction is evicted from the
//! front, but only once the consumer side no longer needs it.

use vstd::prelude::*;

use byte_slice_cast::AsSliceOf;

use std::collections::VecDeque;

verus! {

/// Full range of a normalized sample value, in thousandths.
pub const SAMPLES_NORM: i64 = 200_000;

/// Baseline (mid-range) of a normalized sample value, in thousandths.
pub const SAMPLES_OFFSET: i64 = 100_000;

/// Largest positive value of a raw 16-bit sample.
pub const I16_MAX_VALUE: i64 = 32_767;

pub const NANOS_PER_SEC: u64 = 1_000_000_000;

/// Upper bound on global sample indices the engine works with; keeps
/// every index-times-duration product inside `u64`.
pub const MAX_SAMPLE_INDEX: u64 = 2_147_483_648;

/// Largest supported stream rate, in samples per second.
pub const MAX_RATE: u64 = 192_000;

/// Largest supported channel count of a raw frame.
pub const MAX_CHANNELS: usize = 32;

/// Largest supported buffered duration, in nanoseconds.
pub const MAX_BUFFER_DURATION: u64 = 1_000_000_000_000;

/// Failure of the raw-byte reinterpretation of an incoming chunk.
#[derive(Clone, Copy, PartialEq, Eq, Structural, Debug)]
pub enum SampleCastError {
    /// The chunk does not start on a 16-bit boundary.
    Alignment,
    /// The chunk holds an odd number of bytes.
    Length,
}

/// Sum of a sequence of raw samples.
pub open spec fn sum16(s: Seq<i16>) -> int
    decreases s.len(),
{
    if s.len() == 0 {
        0
    } else {
        sum16(s.drop_last()) + s.last()
    }
}

/// Normalized value of one interleaved frame: a weighted downmix of its
/// channels mapped into `0..=SAMPLES_NORM` (baseline minus signal, so a
/// positive raw excursion points below the baseline). With more than two
/// channels, the first two carry three quarters of the weight.
pub open spec fn downmix_frame(frame: Seq<i16>, channels: int) -> int
    recommends
        1 <= channels,
        frame.len() == channels,
{
    if channels <= 2 {
        SAMPLES_OFFSET * (channels * I16_MAX_VALUE - sum16(frame)) / (channels * I16_MAX_VALUE)
    } else {
        let front = sum16(frame.take(2));
        let others = sum16(frame.skip(2));
        let denom = 2 * (channels - 2) * I16_MAX_VALUE;
        (100 * denom - 75 * (channels - 2) * front - 50 * others) * 1_000 / denom
    }
}

/// Normalized values of a whole interleaved chunk, one per frame.
pub open spec fn downmix_frames(raw: Seq<i16>, channels: int) -> Seq<i64>
    recommends
        1 <= channels,
{
    Seq::new(
        (raw.len() as int / channels) as nat,
        |f: int| downmix_frame(raw.subrange(f * channels, (f + 1) * channels), channels) as i64,
    )
}

/// Append-only, history-bounded store of normalized samples, indexed by
/// the global sample number since stream start.
pub struct AudioBuffer {
    /// Configured maximum buffered duration, in nanoseconds.
    pub buffer_duration: u64,
    /// Number of samples the store aims to retain at most.
    pub capacity: usize,
    /// Number of samples evicted from the front in one step.
    pub drain_size: usize,
    /// Channel count of incoming raw frames; 0 until the geometry is known.
    pub channels: usize,
    /// Stream rate in samples per second; 0 until the geometry is known.
    pub rate: u64,
    /// Nanoseconds per sample; 0 until the geometry is known.
    pub sample_duration: u64,
    /// Whether end of stream has been reached.
    pub eos: bool,
    /// Global index of the first retained sample.
    pub lower: u64,
    /// Global index where the most recent contiguous segment starts.
    pub segment_lower: u64,
    /// Global index one past the last retained sample.
    pub upper: u64,
    /// The retained samples, front first.
    pub samples: VecDeque<i64>,
    /// Every normalized sample ever pushed, including evicted ones.
    pub history: Ghost<Seq<i64>>,
}

impl AudioBuffer {
    /// Whether the stream geometry has been recorded.
    pub open spec fn is_initialized(self) -> bool {
        self.sample_duration > 0
    }

    pub open spec fn wf(self) -> bool {
        &&& self.lower <= self.segment_lower <= self.upper <= MAX_SAMPLE_INDEX
        &&& self.upper - self.lower == self.samples@.len()
        &&& self.history@.len() == self.upper
        &&& forall|i: int|
            self.lower <= i < self.upper ==> self.samples@[i - self.lower] == self.history@[i]
        &&& self.buffer_duration <= MAX_BUFFER_DURATION
        &&& self.is_initialized() ==> {
            &&& 1 <= self.rate <= MAX_RATE
            &&& self.sample_duration == NANOS_PER_SEC / self.rate
            &&& 1 <= self.channels <= MAX_CHANNELS
            &&& self.capacity == self.buffer_duration / self.sample_duration
            &&& self.drain_size == self.capacity / 5
        }
        &&& !self.is_initialized() ==> self.upper == self.lower
    }

    /// Number of samples currently retained.
    pub fn len(&self) -> (r: usize)
        ensures
            r == self.samples@.len(),
    {
        self.samples.len()
    }

    /// The retained samples, for specifications.
    pub open spec fn view_samples(self) -> Seq<i64> {
        self.samples@
    }

    /// Creates an empty store for the given maximum buffered duration.
    /// The capacity is derived later, once the stream rate is known.
    pub fn new(buffer_duration: u64) -> (r: AudioBuffer)
        requires
            buffer_duration <= MAX_BUFFER_DURATION,
        ensures
            r.wf(),
            !r.is_initialized(),
            r.buffer_duration == buffer_duration,
            r.lower == 0 && r.upper == 0 && r.segment_lower == 0,
            !r.eos,
            r.history@ == Seq::<i64>::empty(),
    {
        AudioBuffer {
            buffer_duration,
            capacity: 0,
            drain_size: 0,
            channels: 0,
            rate: 0,
            sample_duration: 0,
            eos: false,
            lower: 0,
            segment_lower: 0,
            upper: 0,
            samples: VecDeque::new(),
            history: Ghost(Seq::empty()),
        }
    }

    /// Records the stream geometry and derives the per-sample duration
    /// and the retention capacity from it; discards any prior content.
    pub fn init(&mut self, rate: u64, channels: usize)
        requires
            old(self).wf(),
            1 <= rate <= MAX_RATE,
            1 <= channels <= MAX_CHANNELS,
        ensures
            final(self).wf(),
            final(self).is_initialized(),
            final(self).rate == rate,
            final(self).channels == channels,
            final(self).sample_duration == NANOS_PER_SEC / rate,
            final(self).capacity == final(self).buffer_duration / final(self).sample_duration,
            final(self).lower == 0 && final(self).upper == 0 && final(self).segment_lower == 0,
            !final(self).eos,
            final(self).buffer_duration == old(self).buffer_duration,
            final(self).history@ == Seq::<i64>::empty(),
    {
        let sample_duration = NANOS_PER_SEC / rate;
        proof {
            vstd::arithmetic::div_mod::lemma_div_is_ordered_by_denominator(
                NANOS_PER_SEC as int,
                rate as int,
                MAX_RATE as int,
            );
            assert(sample_duration >= NANOS_PER_SEC / MAX_RATE);
        }
        let capacity_u64 = self.buffer_duration / sample_duration;
        proof {
            vstd::arithmetic::div_mod::lemma_div_is_ordered_by_denominator(
                self.buffer_duration as int,
                (NANOS_PER_SEC / MAX_RATE) as int,
                sample_duration as int,
            );
            vstd::arithmetic::div_mod::lemma_div_is_ordered(
                self.buffer_duration as int,
                MAX_BUFFER_DURATION as int,
                (NANOS_PER_SEC / MAX_RATE) as int,
            );
            assert(capacity_u64 <= MAX_BUFFER_DURATION as int / (NANOS_PER_SEC / MAX_RATE) as int);
        }
        let capacity = capacity_u64 as usize;
        self.rate = rate;
        self.channels = channels;
        self.sample_duration = sample_duration;
        self.capacity = capacity;
        self.drain_size = capacity / 5;
        self.eos = false;
        self.lower = 0;
        self.segment_lower = 0;
        self.upper = 0;
        self.samples.clear();
        self.history = Ghost(Seq::empty());
    }

    /// Forgets the stream: content, geometry and flags return to their
    /// initial state so the store can be reused for the next session.
    pub fn cleanup(&mut self)
        requires
            old(self).wf(),
        ensures
            final(self).wf(),
            !final(self).is_initialized(),
            final(self).buffer_duration == old(self).buffer_duration,
            final(self).lower == 0 && final(self).upper == 0,
            final(self).segment_lower == 0,
            !final(self).eos,
            final(self).history@ == Seq::<i64>::empty(),
    {
        self.rate = 0;
        self.channels = 0;
        self.sample_duration = 0;
        self.capacity = 0;
        self.drain_size = 0;
        self.eos = false;
        self.lower = 0;
        self.segment_lower = 0;
        self.upper = 0;
        self.samples.clear();
        self.history = Ghost(Seq::empty());
    }

    /// Marks the start of a new contiguous playback segment: samples
    /// before this point must not be blended into incremental renders.
    pub fn on_segment_start(&mut self)
        requires
            old(self).wf(),
        ensures
            final(self).wf(),
            *final(self) == (AudioBuffer {
                segment_lower: old(self).upper,
                eos: false,
                ..*old(self)
            }),
    {
        self.segment_lower = self.upper;
        self.eos = false;
    }

    /// Records that end of stream has been reached: no further samples
    /// will arrive until a new segment starts.
    pub fn handle_eos(&mut self)
        requires
            old(self).wf(),
        ensures
            final(self).wf(),
            *final(self) == (AudioBuffer { eos: true, ..*old(self) }),
    {
        self.eos = true;
    }

    /// Whether appending `added` samples now would trigger an eviction:
    /// the store would outgrow its capacity and the consumer side, which
    /// still needs everything from `lower_to_keep` up, is safely past
    /// the eviction region.
    pub open spec fn push_evicts(self, added: int, lower_to_keep: u64) -> bool {
        &&& self.samples@.len() + added > self.capacity
        &&& lower_to_keep > self.lower + self.drain_size
    }

    /// How many samples an eviction step removes.
    pub open spec fn evict_count(self) -> int {
        if self.drain_size <= self.samples@.len() {
            self.drain_size as int
        } else {
            self.samples@.len() as int
        }
    }

    /// Appends one interleaved raw chunk, downmixed frame by frame.
    /// Evicts a chunk of history first when capacity demands it and the
    /// consumer allows it. Returns the number of samples added.
    pub fn push_frames(&mut self, raw: &Vec<i16>, lower_to_keep: u64) -> (added: usize)
        requires
            old(self).wf(),
            old(self).is_initialized(),
            raw@.len() as int % (old(self).channels as int) == 0,
            old(self).upper + raw@.len() as int / (old(self).channels as int) <= MAX_SAMPLE_INDEX,
        ensures
            final(self).wf(),
            added == raw@.len() as int / (old(self).channels as int),
            final(self).upper == old(self).upper + added,
            final(self).history@ == old(self).history@
                + downmix_frames(raw@, old(self).channels as int),
            final(self).lower == if old(self).push_evicts(added as int, lower_to_keep) {
                old(self).lower + old(self).evict_count()
            } else {
                old(self).lower as int
            },
            final(self).segment_lower == if old(self).segment_lower < final(self).lower {
                final(self).lower
            } else {
                old(self).segment_lower
            },
            final(self).eos == old(self).eos,
            final(self).capacity == old(self).capacity,
            final(self).drain_size == old(self).drain_size,
            final(self).channels == old(self).channels,
            final(self).rate == old(self).rate,
            final(self).sample_duration == old(self).sample_duration,
            final(self).buffer_duration == old(self).buffer_duration,
    {
        let ghost pre0 = *old(self);
        let channels = self.channels;
        let total = raw.len();
        let n = total / channels;

        if self.samples.len() + n > self.capacity
            && lower_to_keep > self.lower + self.drain_size as u64 {
            let count = if self.drain_size <= self.samples.len() {
                self.drain_size
            } else {
                self.samples.len()
            };
            let ghost pre_evict = self.samples@;
            let mut k: usize = 0;
            while k < count
                invariant
                    k <= count,
                    count <= pre_evict.len(),
                    self.samples@ == pre_evict.subrange(k as int, pre_evict.len() as int),
                    self.lower == pre0.lower,
                    self.upper == pre0.upper,
                    self.segment_lower == pre0.segment_lower,
                    self.capacity == pre0.capacity,
                    self.drain_size == pre0.drain_size,
                    self.channels == pre0.channels,
                    self.rate == pre0.rate,
                    self.sample_duration == pre0.sample_duration,
                    self.buffer_duration == pre0.buffer_duration,
                    self.eos == pre0.eos,
                    self.history == pre0.history,
                decreases count - k,
            {
                assert(self.samples@.len() > 0);
                self.samples.pop_front();
                proof {
                    assert(self.samples@ =~= pre_evict.subrange(k + 1, pre_evict.len() as int));
                }
                k = k + 1;
            }
            assert(count <= pre0.upper - pre0.lower);
            self.lower = self.lower + count as u64;
            if self.segment_lower < self.lower {
                self.segment_lower = self.lower;
            }
            proof {
                assert forall|i: int| self.lower <= i < self.upper implies self.samples@[i
                    - self.lower] == self.history@[i] by {
                    assert(self.samples@[i - self.lower] == pre_evict[i - pre0.lower]);
                }
            }
        }

        let ghost mix = downmix_frames(raw@, channels as int);
        let ghost pre = *self;
        assert(pre.wf());
        assert(mix.len() == n);
        let mut f: usize = 0;
        while f < n
            invariant
                f <= n,
                total == raw@.len(),
                n == raw@.len() as int / (channels as int),
                raw@.len() as int % (channels as int) == 0,
                1 <= channels <= MAX_CHANNELS,
                mix == downmix_frames(raw@, channels as int),
                mix.len() == n,
                self.samples@ == pre.samples@ + mix.take(f as int),
                self.history@ == pre.history@ + mix.take(f as int),
                self.lower == pre.lower,
                self.upper == pre.upper + f,
                pre.wf(),
                pre.channels == channels,
                pre.upper + n <= MAX_SAMPLE_INDEX,
                self.capacity == pre.capacity,
                self.drain_size == pre.drain_size,
                self.channels == pre.channels,
                self.rate == pre.rate,
                self.sample_duration == pre.sample_duration,
                self.buffer_duration == pre.buffer_duration,
                self.eos == pre.eos,
                self.segment_lower == pre.segment_lower,
            decreases n - f,
        {
            proof {
                assert(raw@.len() == n * (channels as int)) by {
                    vstd::arithmetic::div_mod::lemma_fundamental_div_mod(
                        raw@.len() as int,
                        channels as int,
                    );
                }
                assert((f as int + 1) * (channels as int) <= n * (channels as int)) by (
                nonlinear_arith)
                    requires
                        f as int + 1 <= n,
                        1 <= channels,
                ;
                assert(f as int * channels as int + channels as int == (f as int + 1) * (
                channels as int)) by (nonlinear_arith);
            }
            let base = f * channels;
            proof {
                assert(base as int + channels as int <= raw@.len() as int) by (nonlinear_arith)
                    requires
                        (f as int + 1) * (channels as int) <= raw@.len() as int,
                        base as int == f as int * channels as int,
                ;
            }
            let value = downmix_one(raw, base, channels);
            proof {
                assert((f as int + 1) * (channels as int) == f as int * (channels as int)
                    + channels as int) by (nonlinear_arith);
                assert(mix[f as int] == downmix_frame(
                    raw@.subrange(f as int * channels as int, (f as int + 1) * channels as int),
                    channels as int,
                ) as i64);
                assert(raw@.subrange(base as int, (base + channels) as int) =~= raw@.subrange(
                    f as int * channels as int,
                    (f as int + 1) * channels as int,
                ));
            }
            self.samples.push_back(value);
            self.history = Ghost(self.history@.push(value));
            self.upper = self.upper + 1;
            proof {
                assert(mix.take(f as int + 1) =~= mix.take(f as int).push(mix[f as int]));
            }
            f = f + 1;
        }
        proof {
            assert(mix.take(n as int) =~= mix);
        }
        n
    }

    /// The sample stored under a global index.
    pub fn get(&self, idx: u64) -> (r: i64)
        requires
            self.wf(),
            self.lower <= idx < self.upper,
        ensures
            r == self.history@[idx as int],
    {
        let i = (idx - self.lower) as usize;
        self.samples[i]
    }

    /// Appends one raw chunk delivered as bytes, reinterpreting them as
    /// 16-bit samples first. Whatever the cast yields, the store is only
    /// ever extended by the downmix of the values that came back.
    pub fn push_bytes(&mut self, bytes: &Vec<u8>, lower_to_keep: u64) -> (r: Result<
        usize,
        SampleCastError,
    >)
        requires
            old(self).wf(),
            old(self).is_initialized(),
            old(self).upper + bytes@.len() as int / 2 <= MAX_SAMPLE_INDEX,
        ensures
            final(self).wf(),
            bytes@.len() % 2 != 0 ==> (r is Err),
            match r {
                Ok(added) => {
                    &&& exists|raw: Seq<i16>|
                        {
                            &&& raw.len() == bytes@.len() as int / 2
                            &&& raw.len() as int % (old(self).channels as int) == 0
                            &&& added == raw.len() as int / (old(self).channels as int)
                            &&& final(self).history@ == old(self).history@ + downmix_frames(
                                raw,
                                old(self).channels as int,
                            )
                        }
                    &&& final(self).upper == old(self).upper + added
                    &&& final(self).eos == old(self).eos
                },
                Err(_) => *final(self) == *old(self),
            },
    {
        match bytes_as_samples(bytes) {
            Ok(raw) => {
                if raw.len() % self.channels == 0 {
                    proof {
                        vstd::arithmetic::div_mod::lemma_div_nonincreasing(
                            raw@.len() as int,
                            old(self).channels as int,
                        );
                    }
                    let added = self.push_frames(&raw, lower_to_keep);
                    Ok(added)
                } else {
                    Err(SampleCastError::Length)
                }
            },
            Err(e) => Err(e),
        }
    }
}

/// Normalized value of the frame starting at `base`; the executable
/// counterpart of `downmix_frame`.
fn downmix_one(raw: &Vec<i16>, base: usize, channels: usize) -> (v: i64)
    requires
        1 <= channels <= MAX_CHANNELS,
        base + channels <= raw@.len(),
    ensures
        v == downmix_frame(raw@.subrange(base as int, (base + channels) as int), channels as int),
{
    let total = raw.len();
    let ghost frame = raw@.subrange(base as int, (base + channels) as int);
    if channels <= 2 {
        let mut sum: i64 = 0;
        let mut c: usize = 0;
        while c < channels
            invariant
                c <= channels <= 2,
                base + channels <= total,
                total == raw@.len(),
                frame == raw@.subrange(base as int, (base + channels) as int),
                sum == sum16(frame.take(c as int)),
                -32_768 * c <= sum <= 32_767 * c,
            decreases channels - c,
        {
            let s = raw[base + c];
            proof {
                assert(frame.take(c as int + 1).drop_last() =~= frame.take(c as int));
                assert(frame.take(c as int + 1).last() == frame[c as int]);
            }
            sum = sum + s as i64;
            c = c + 1;
        }
        proof {
            assert(frame.take(channels as int) =~= frame);
        }
        let denom = channels as i64 * I16_MAX_VALUE;
        let num = SAMPLES_OFFSET * (denom - sum);
        assert(num >= 0);
        let q = (num as u64) / (denom as u64);
        proof {
            vstd::arithmetic::div_mod::lemma_div_nonincreasing(num as int, denom as int);
        }
        q as i64
    } else {
        let mut front: i64 = 0;
        let mut c: usize = 0;
        while c < 2
            invariant
                c <= 2,
                2 < channels <= MAX_CHANNELS,
                base + channels <= total,
                total == raw@.len(),
                frame == raw@.subrange(base as int, (base + channels) as int),
                front == sum16(frame.take(2).take(c as int)),
                -32_768 * c <= front <= 32_767 * c,
            decreases 2 - c,
        {
            let s = raw[base + c];
            proof {
                assert(frame.take(2).take(c as int + 1).drop_last() =~= frame.take(2).take(
                    c as int,
                ));
                assert(frame.take(2).take(c as int + 1).last() == frame[c as int]);
            }
            front = front + s as i64;
            c = c + 1;
        }
        proof {
            assert(frame.take(2).take(2) =~= frame.take(2));
        }
        let mut others: i64 = 0;
        let mut c: usize = 2;
        while c < channels
            invariant
                2 <= c <= channels <= MAX_CHANNELS,
                base + channels <= total,
                total == raw@.len(),
                frame == raw@.subrange(base as int, (base + channels) as int),
                others == sum16(frame.skip(2).take(c - 2)),
                -32_768 * (c - 2) <= others <= 32_767 * (c - 2),
            decreases channels - c,
        {
            let s = raw[base + c];
            proof {
                assert(frame.skip(2).take(c - 2 + 1).drop_last() =~= frame.skip(2).take(c - 2));
                assert(frame.skip(2).take(c - 2 + 1).last() == frame[c as int]);
            }
            others = others + s as i64;
            c = c + 1;
        }
        proof {
            assert(frame.skip(2).take(channels - 2) =~= frame.skip(2));
        }
        let ch = channels as i64;
        let chm2 = ch - 2;
        let denom = 2 * chm2 * I16_MAX_VALUE;
        proof {
            assert(-(30 * 65_536) <= chm2 * front <= 30 * 65_534) by (nonlinear_arith)
                requires
                    1 <= chm2 <= 30,
                    -65_536 <= front <= 65_534,
            ;
        }
        let t_front = chm2 * front;
        let num0 = 100 * denom - 75 * t_front - 50 * others;
        proof {
            assert(num0 >= 0) by (nonlinear_arith)
                requires
                    num0 == 100 * (2 * chm2 * I16_MAX_VALUE) - 75 * (chm2 * front) - 50 * others,
                    1 <= chm2,
                    front <= 2 * I16_MAX_VALUE,
                    others <= I16_MAX_VALUE * chm2,
            ;
        }
        let num = num0 * 1_000;
        let q = (num as u64) / (denom as u64);
        proof {
            vstd::arithmetic::div_mod::lemma_div_nonincreasing(num as int, denom as int);
            assert(75 * (chm2 * front) == 75 * chm2 * front) by (nonlinear_arith);
        }
        q as i64
    }
}

/// Relies on byte_slice_cast's `as_slice_of::<i16>`: reinterprets a byte
/// slice as machine-order 16-bit samples, two bytes each, failing on an
/// odd length or a misaligned start.
#[verifier::external_body]
fn bytes_as_samples(bytes: &Vec<u8>) -> (r: Result<Vec<i16>, SampleCastError>)
    ensures
        match r {
            Ok(raw) => raw@.len() == bytes@.len() as int / 2,
            Err(_) => true,
        },
        bytes@.len() % 2 != 0 ==> (r is Err),
{
    match bytes.as_slice().as_slice_of::<i16>() {
        Ok(raw) => Ok(raw.to_vec()),
        Err(byte_slice_cast::Error::AlignmentMismatch { .. }) => Err(SampleCastError::Alignment),
        Err(byte_slice_cast::Error::LengthMismatch { .. }) => Err(SampleCastError::Length),
    }
}


/// Monotonic bounds: a well-formed store keeps
/// `lower <= segment_lower <= upper`, and across any push — the only
/// operation that moves `upper` — the upper bound grows by exactly the
/// frames added and never decreases; eviction moves only `lower`.
/// Chained over a sequence of pushes this pins `upper` as
/// non-decreasing for the whole session.
pub proof fn lemma_monotonic_bounds(pre: AudioBuffer, post: AudioBuffer, added: int)
    requires
        pre.wf(),
        post.wf(),
        0 <= added,
        post.upper == pre.upper + added,
    ensures
        pre.lower <= pre.segment_lower <= pre.upper,
        post.lower <= post.segment_lower <= post.upper,
        post.upper >= pre.upper,
{
}

} // verus!
