//! Numeric state shared by the sample extractors.

use vstd::prelude::*;

use crate::audio_buffer::MAX_RATE;
use crate::audio_buffer::MAX_SAMPLE_INDEX;
use crate::audio_buffer::NANOS_PER_SEC;

verus! {

/// Stream-rate-derived constants of one extractor, set once per session
/// when the stream geometry becomes known.
#[derive(Clone, Copy, PartialEq, Eq, Structural, Debug)]
pub struct SamplesExtractionState {
    /// Stream rate in samples per second; 0 until known.
    pub rate: u64,
    /// Nanoseconds per sample; 0 until known.
    pub sample_duration: u64,
}

impl SamplesExtractionState {
    pub open spec fn wf(self) -> bool {
        &&& self.rate > 0 <==> self.sample_duration > 0
        &&& self.rate > 0 ==> {
            &&& self.rate <= MAX_RATE
            &&& self.sample_duration == NANOS_PER_SEC / self.rate
        }
    }

    /// Largest playback position, in nanoseconds, the engine can map to
    /// a sample index.
    pub open spec fn max_position(self) -> int {
        MAX_SAMPLE_INDEX * self.sample_duration
    }

    pub fn new() -> (r: SamplesExtractionState)
        ensures
            r.wf(),
            r.rate == 0,
            r.sample_duration == 0,
    {
        SamplesExtractionState { rate: 0, sample_duration: 0 }
    }

    /// Records the stream rate and derives the per-sample duration.
    pub fn set_sample_duration(&mut self, rate: u64)
        requires
            1 <= rate <= MAX_RATE,
        ensures
            final(self).wf(),
            final(self).rate == rate,
            final(self).sample_duration == NANOS_PER_SEC / rate,
    {
        proof {
            vstd::arithmetic::div_mod::lemma_div_is_ordered_by_denominator(
                NANOS_PER_SEC as int,
                rate as int,
                MAX_RATE as int,
            );
        }
        self.rate = rate;
        self.sample_duration = NANOS_PER_SEC / rate;
    }

    /// Clears the state for reuse on the next stream.
    pub fn cleanup(&mut self)
        ensures
            final(self).wf(),
            final(self).rate == 0,
            final(self).sample_duration == 0,
    {
        self.rate = 0;
        self.sample_duration = 0;
    }

    /// The sample index playing at a position, rounded to the nearest
    /// sample.
    pub fn sample_at(&self, position: u64) -> (r: u64)
        requires
            self.wf(),
            self.sample_duration > 0,
            position <= self.max_position(),
        ensures
            r == (position + self.sample_duration / 2) as int / self.sample_duration as int,
            r <= MAX_SAMPLE_INDEX,
    {
        proof {
            vstd::arithmetic::div_mod::lemma_div_nonincreasing(
                NANOS_PER_SEC as int,
                self.rate as int,
            );
            assert(position + self.sample_duration / 2 <= 0xffff_ffff_ffff_ffff) by (
            nonlinear_arith)
                requires
                    position <= MAX_SAMPLE_INDEX as int * self.sample_duration,
                    0 < self.sample_duration <= NANOS_PER_SEC,
            ;
        }
        let r = (position + self.sample_duration / 2) / self.sample_duration;
        proof {
            let d = self.sample_duration as int;
            let h = d / 2;
            vstd::arithmetic::div_mod::lemma_div_is_ordered(d, 2 * d - 1, 2);
            vstd::arithmetic::div_mod::lemma_fundamental_div_mod_converse_div(2 * d - 1, 2, d - 1, 1);
            assert(h < d);
            assert((position + h) < d * (MAX_SAMPLE_INDEX as int + 1)) by (nonlinear_arith)
                requires
                    position <= MAX_SAMPLE_INDEX as int * d,
                    h < d,
                    d >= 1,
            ;
            vstd::arithmetic::div_mod::lemma_multiply_divide_lt(
                (position + self.sample_duration / 2) as int,
                d,
                MAX_SAMPLE_INDEX as int + 1,
            );
        }
        r
    }
}

} // verus!
