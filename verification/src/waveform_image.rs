//! Incremental rendering of the waveform into a reusable column image.
//!
//! The image is a row of pixel columns, one per `sample_step` samples,
//! each holding the amplitude extrema of its bucket. A render reuses
//! every column of the previous image whose bucket is unchanged and
//! computes only the columns that scrolled in.

use vstd::prelude::*;

use crate::audio_buffer::AudioBuffer;
use crate::audio_buffer::MAX_SAMPLE_INDEX;

verus! {

/// Largest supported number of samples per rendered column.
pub const MAX_SAMPLE_STEP: u64 = 1_048_576;

/// Largest supported number of pixels per rendered column.
pub const MAX_X_STEP: u64 = 1_048_576;

/// One rendered pixel column: the extrema of the normalized samples in
/// its bucket.
#[derive(Clone, Copy, PartialEq, Eq, Structural, Debug)]
pub struct WaveformColumn {
    pub min: i64,
    pub max: i64,
}

/// Smallest value of a non-empty sequence.
pub open spec fn seq_min(s: Seq<i64>) -> i64
    recommends
        s.len() > 0,
    decreases s.len(),
{
    if s.len() <= 1 {
        s[0]
    } else {
        let m = seq_min(s.drop_last());
        if s.last() < m {
            s.last()
        } else {
            m
        }
    }
}

/// Largest value of a non-empty sequence.
pub open spec fn seq_max(s: Seq<i64>) -> i64
    recommends
        s.len() > 0,
    decreases s.len(),
{
    if s.len() <= 1 {
        s[0]
    } else {
        let m = seq_max(s.drop_last());
        if s.last() > m {
            s.last()
        } else {
            m
        }
    }
}

/// The column a bucket of the sample history renders to.
pub open spec fn column_spec(history: Seq<i64>, start: int, step: int) -> WaveformColumn
    recommends
        1 <= step,
        0 <= start,
        start + step <= history.len(),
{
    let bucket = history.subrange(start, start + step);
    WaveformColumn { min: seq_min(bucket), max: seq_max(bucket) }
}

/// `x` rounded down to a multiple of `step`.
pub open spec fn align_down(x: int, step: int) -> int {
    x / step * step
}

/// The first column start used when asked to render from `lower`:
/// rounded down to the step grid, bumped up one step if that fell
/// before the first retained sample.
pub open spec fn spec_aligned_lower(lower: int, store_lower: int, step: int) -> int {
    if align_down(lower, step) < store_lower {
        align_down(lower, step) + step
    } else {
        align_down(lower, step)
    }
}

/// The incremental waveform image and the sample range it represents.
pub struct WaveformImage {
    /// Tells the two images of a double buffer apart.
    pub id: usize,
    /// Whether the image holds a rendered range.
    pub is_ready: bool,
    /// Global index of the first rendered sample.
    pub lower: u64,
    /// Global index one past the rendered range.
    pub upper: u64,
    /// Samples per rendered column.
    pub sample_step: u64,
    /// Pixels per rendered column.
    pub x_step: u64,
    /// Target width, in pixels.
    pub width: u64,
    /// Target height, in pixels.
    pub height: u64,
    /// Whether `upper` coincides with the end of the stream.
    pub contains_eos: bool,
    /// Whether the next render must start from scratch (no previous
    /// image, or the resolution or scale changed under it).
    pub force_redraw: bool,
    /// The rendered columns.
    pub cols: Vec<WaveformColumn>,
    /// The sample history the columns were rendered from.
    pub hist: Ghost<Seq<i64>>,
}

impl WaveformImage {
    /// Whether rendering conditions have been set.
    pub open spec fn has_conditions(self) -> bool {
        &&& 1 <= self.sample_step <= MAX_SAMPLE_STEP
        &&& 1 <= self.x_step <= MAX_X_STEP
    }

    /// Every column equals the extrema of its bucket of the history.
    pub open spec fn consistent(self) -> bool {
        forall|k: int|
            0 <= k < self.cols@.len() ==> self.cols@[k] == column_spec(
                self.hist@,
                self.lower + k * self.sample_step,
                self.sample_step as int,
            )
    }

    pub open spec fn wf(self) -> bool {
        &&& self.sample_step <= MAX_SAMPLE_STEP
        &&& self.x_step <= MAX_X_STEP
        &&& (self.sample_step > 0 <==> self.x_step > 0)
        &&& self.lower <= self.upper <= MAX_SAMPLE_INDEX
        &&& self.is_ready ==> self.has_conditions()
        &&& (self.is_ready && !self.force_redraw) ==> {
            &&& self.lower as int % (self.sample_step as int) == 0
            &&& self.upper - self.lower == self.cols@.len() * self.sample_step
            &&& self.upper <= self.hist@.len()
            &&& self.consistent()
        }
        &&& !self.is_ready ==> self.cols@.len() == 0
    }

    pub fn new(id: usize) -> (r: WaveformImage)
        ensures
            r.wf(),
            !r.is_ready,
            r.id == id,
            r.sample_step == 0 && r.x_step == 0,
            r.width == 0 && r.height == 0,
            !r.contains_eos,
            r.hist@ == Seq::<i64>::empty(),
            r.lower == 0 && r.upper == 0,
    {
        WaveformImage {
            id,
            is_ready: false,
            lower: 0,
            upper: 0,
            sample_step: 0,
            x_step: 0,
            width: 0,
            height: 0,
            contains_eos: false,
            force_redraw: true,
            cols: Vec::new(),
            hist: Ghost(Seq::empty()),
        }
    }

    /// Clears the rendered content and the conditions for reuse on the
    /// next stream.
    pub fn cleanup(&mut self)
        ensures
            final(self).wf(),
            !final(self).is_ready,
            final(self).id == old(self).id,
            final(self).sample_step == 0 && final(self).x_step == 0,
            final(self).width == 0 && final(self).height == 0,
            !final(self).contains_eos,
            final(self).hist@ == Seq::<i64>::empty(),
            final(self).lower == 0 && final(self).upper == 0,
    {
        self.is_ready = false;
        self.lower = 0;
        self.upper = 0;
        self.sample_step = 0;
        self.x_step = 0;
        self.width = 0;
        self.height = 0;
        self.contains_eos = false;
        self.force_redraw = true;
        self.cols.clear();
        self.hist = Ghost(Seq::empty());
    }

    /// Records new rendering conditions. A change of resolution or of
    /// target height invalidates the current columns, so the next
    /// render starts from scratch; a mere width change does not.
    pub fn update_dimensions(&mut self, sample_step: u64, x_step: u64, width: u64, height: u64)
        requires
            old(self).wf(),
            1 <= sample_step <= MAX_SAMPLE_STEP,
            1 <= x_step <= MAX_X_STEP,
        ensures
            final(self).wf(),
            *final(self) == (WaveformImage {
                sample_step,
                x_step,
                width,
                height,
                force_redraw: old(self).force_redraw || sample_step != old(self).sample_step
                    || x_step != old(self).x_step || height != old(self).height,
                ..*old(self)
            }),
    {
        if sample_step != self.sample_step || x_step != self.x_step || height != self.height {
            self.force_redraw = true;
        }
        self.sample_step = sample_step;
        self.x_step = x_step;
        self.width = width;
        self.height = height;
    }

    /// Takes over the rendering conditions of the other image of a
    /// double buffer, invalidating the current columns where the
    /// resolution or height differs.
    pub fn sync_conditions(&mut self, other: &WaveformImage)
        requires
            old(self).wf(),
            other.has_conditions(),
        ensures
            final(self).wf(),
            *final(self) == (WaveformImage {
                sample_step: other.sample_step,
                x_step: other.x_step,
                width: other.width,
                height: other.height,
                force_redraw: old(self).force_redraw || other.sample_step != old(
                    self,
                ).sample_step || other.x_step != old(self).x_step || other.height != old(
                    self,
                ).height,
                ..*old(self)
            }),
    {
        self.update_dimensions(other.sample_step, other.x_step, other.width, other.height)
    }

    /// The rendered columns.
    pub fn get_image(&self) -> (r: &Vec<WaveformColumn>)
        ensures
            r == self.cols,
    {
        &self.cols
    }

    /// Renders the requested range, clipped to the step grid. Columns
    /// whose bucket already stands in the image are copied over without
    /// touching the samples; the others are computed from the store.
    /// With fewer than one full bucket to show, the image is left as it
    /// was.
    pub fn render(&mut self, audio: &AudioBuffer, lower: u64, upper: u64)
        requires
            old(self).wf(),
            old(self).has_conditions(),
            audio.wf(),
            audio.lower <= lower <= upper <= audio.upper,
            old(self).hist@.is_prefix_of(audio.history@),
        ensures
            final(self).wf(),
            final(self).id == old(self).id,
            final(self).sample_step == old(self).sample_step,
            final(self).x_step == old(self).x_step,
            final(self).width == old(self).width,
            final(self).height == old(self).height,
            ({
                let step = old(self).sample_step as int;
                let from = spec_aligned_lower(lower as int, audio.lower as int, step);
                let to = align_down(upper as int, step);
                if from < to {
                    &&& final(self).is_ready
                    &&& !final(self).force_redraw
                    &&& final(self).lower == from
                    &&& final(self).upper == to
                    &&& final(self).hist@ == audio.history@
                    &&& final(self).contains_eos == (audio.eos && to + step > audio.upper)
                    &&& final(self).cols@.len() * step == to - from
                } else {
                    *final(self) == *old(self)
                }
            }),
    {
        let step = self.sample_step;
        let q_low = lower / step;
        proof {
            vstd::arithmetic::div_mod::lemma_fundamental_div_mod(lower as int, step as int);
            vstd::arithmetic::div_mod::lemma_mod_bound(lower as int, step as int);
            assert(q_low * step == step * q_low) by (nonlinear_arith);
        }
        let low0 = q_low * step;
        proof {
            vstd::arithmetic::div_mod::lemma_fundamental_div_mod_converse_mod(
                low0 as int,
                step as int,
                q_low as int,
                0,
            );
            assert(low0 as int % (step as int) == 0);
        }
        let from = if low0 < audio.lower {
            low0 + step
        } else {
            low0
        };
        proof {
            if low0 < audio.lower {
                vstd::arithmetic::div_mod::lemma_mod_add_multiples_vanish(
                    low0 as int,
                    step as int,
                );
                assert((low0 + step) as int % (step as int) == low0 as int % (step as int));
            }
            assert(from as int % (step as int) == 0);
            assert(audio.lower <= from);
        }
        let q_up = upper / step;
        proof {
            vstd::arithmetic::div_mod::lemma_fundamental_div_mod(upper as int, step as int);
            vstd::arithmetic::div_mod::lemma_mod_bound(upper as int, step as int);
            assert(q_up * step == step * q_up) by (nonlinear_arith);
        }
        let to = q_up * step;
        proof {
            vstd::arithmetic::div_mod::lemma_fundamental_div_mod_converse_mod(
                to as int,
                step as int,
                q_up as int,
                0,
            );
            assert(to as int % (step as int) == 0);
        }
        if from >= to {
            return ;
        }
        let ghost pre = *old(self);
        let mut new_cols: Vec<WaveformColumn> = Vec::new();
        let mut b = from;
        while b < to
            invariant
                from <= b <= to <= audio.upper <= MAX_SAMPLE_INDEX,
                audio.lower <= from,
                1 <= step <= MAX_SAMPLE_STEP,
                b as int % (step as int) == 0,
                to as int % (step as int) == 0,
                b - from == new_cols@.len() * step,
                audio.wf(),
                pre.wf(),
                pre.hist@.is_prefix_of(audio.history@),
                pre.sample_step == step,
                *self == pre,
                forall|k: int|
                    0 <= k < new_cols@.len() ==> new_cols@[k] == column_spec(
                        audio.history@,
                        from + k * step,
                        step as int,
                    ),
            decreases to - b,
        {
            proof {
                vstd::arithmetic::div_mod::lemma_sub_mod_noop(to as int, b as int, step as int);
                vstd::arithmetic::div_mod::lemma_small_mod(0, step as nat);
                if to - b < step {
                    vstd::arithmetic::div_mod::lemma_small_mod((to - b) as nat, step as nat);
                }
                assert(b + step <= to);
            }
            let col = if !self.force_redraw && self.is_ready && self.lower <= b && b + step
                <= self.upper {
                let idx_u64 = (b - self.lower) / step;
                proof {
                    vstd::arithmetic::div_mod::lemma_sub_mod_noop(
                        b as int,
                        pre.lower as int,
                        step as int,
                    );
                    vstd::arithmetic::div_mod::lemma_small_mod(0, step as nat);
                    assert((b - pre.lower) as int % (step as int) == 0);
                    vstd::arithmetic::div_mod::lemma_fundamental_div_mod(
                        (b - pre.lower) as int,
                        step as int,
                    );
                    assert(idx_u64 * step == b - pre.lower) by (nonlinear_arith)
                        requires
                            idx_u64 == (b - pre.lower) as int / step as int,
                            (b - pre.lower) as int % (step as int) == 0,
                            (b - pre.lower) as int == step as int * ((b - pre.lower) as int
                                / step as int) + (b - pre.lower) as int % (step as int),
                    ;
                    assert(idx_u64 < pre.cols@.len()) by (nonlinear_arith)
                        requires
                            idx_u64 * step == b - pre.lower,
                            b + step <= pre.upper,
                            pre.upper - pre.lower == pre.cols@.len() * step,
                            step >= 1,
                    ;
                }
                let idx = idx_u64 as usize;
                let reused = self.cols[idx];
                proof {
                    assert(reused == column_spec(pre.hist@, b as int, step as int));
                    assert(pre.hist@.subrange(b as int, b + step) =~= audio.history@.subrange(
                        b as int,
                        b + step,
                    ));
                    assert(reused == column_spec(audio.history@, b as int, step as int));
                }
                reused
            } else {
                compute_column(audio, b, step)
            };
            let ghost prev_cols = new_cols@;
            new_cols.push(col);
            proof {
                assert(new_cols@.len() * step == (new_cols@.len() - 1) * step + step) by (
                nonlinear_arith);
                assert(from + (new_cols@.len() - 1) * step == b);
                assert forall|k: int| 0 <= k < new_cols@.len() implies new_cols@[k] == column_spec(
                    audio.history@,
                    from + k * step,
                    step as int,
                ) by {
                    if k == new_cols@.len() - 1 {
                        assert(new_cols@[k] == col);
                        assert(from + k * step == b);
                    } else {
                        assert(new_cols@[k] == prev_cols[k]);
                        assert(prev_cols[k] == column_spec(
                            audio.history@,
                            from + k * step,
                            step as int,
                        ));
                    }
                }
            }
            proof {
                vstd::arithmetic::div_mod::lemma_mod_add_multiples_vanish(b as int, step as int);
            }
            b = b + step;
        }
        self.cols = new_cols;
        self.lower = from;
        self.upper = to;
        self.is_ready = true;
        self.force_redraw = false;
        self.contains_eos = audio.eos && to + step > audio.upper;
        self.hist = Ghost(audio.history@);
        proof {
            assert(final(self).consistent());
        }
    }
}

/// Computes one column from the store: the extrema of the bucket of
/// `step` samples starting at `start`.
fn compute_column(audio: &AudioBuffer, start: u64, step: u64) -> (c: WaveformColumn)
    requires
        audio.wf(),
        1 <= step,
        audio.lower <= start,
        start + step <= audio.upper,
    ensures
        c == column_spec(audio.history@, start as int, step as int),
{
    let first = audio.get(start);
    let mut mn = first;
    let mut mx = first;
    proof {
        let b1 = audio.history@.subrange(start as int, start as int + 1);
        assert(b1.len() == 1);
        assert(b1[0] == audio.history@[start as int]);
        assert(seq_min(b1) == b1[0]);
        assert(seq_max(b1) == b1[0]);
    }
    let mut j: u64 = 1;
    while j < step
        invariant
            1 <= j <= step,
            audio.wf(),
            audio.lower <= start,
            start + step <= audio.upper,
            mn == seq_min(audio.history@.subrange(start as int, start + j)),
            mx == seq_max(audio.history@.subrange(start as int, start + j)),
        decreases step - j,
    {
        let v = audio.get(start + j);
        proof {
            let prev = audio.history@.subrange(start as int, start + j);
            let cur = audio.history@.subrange(start as int, start + j + 1);
            assert(cur.drop_last() =~= prev);
            assert(cur.last() == audio.history@[start + j]);
        }
        if v < mn {
            mn = v;
        }
        if v > mx {
            mx = v;
        }
        j = j + 1;
    }
    WaveformColumn { min: mn, max: mx }
}

/// Rendering is deterministic in the history: wherever the ranges of
/// two images rendered from the same sample history at the same
/// resolution overlap, their columns are identical, whether each was
/// produced by a full redraw or by an incremental shift and extend.
pub proof fn lemma_incremental_equals_full(a: WaveformImage, b: WaveformImage, i: int, j: int)
    requires
        a.wf(),
        b.wf(),
        a.is_ready && !a.force_redraw,
        b.is_ready && !b.force_redraw,
        a.hist@ == b.hist@,
        a.sample_step == b.sample_step,
        0 <= i < a.cols@.len(),
        0 <= j < b.cols@.len(),
        a.lower + i * a.sample_step == b.lower + j * b.sample_step,
    ensures
        a.cols@[i] == b.cols@[j],
{
    assert(a.cols@[i] == column_spec(a.hist@, a.lower + i * a.sample_step, a.sample_step as int));
    assert(b.cols@[j] == column_spec(b.hist@, b.lower + j * b.sample_step, b.sample_step as int));
}

/// Columns are stable as the store grows: a bucket fully inside an
/// earlier history renders to the same column under any extension of
/// that history.
pub proof fn lemma_column_stable(h1: Seq<i64>, h2: Seq<i64>, start: int, step: int)
    requires
        h1.is_prefix_of(h2),
        0 <= start,
        1 <= step,
        start + step <= h1.len(),
    ensures
        column_spec(h1, start, step) == column_spec(h2, start, step),
{
    assert(h1.subrange(start, start + step) =~= h2.subrange(start, start + step));
}

} // verus!
