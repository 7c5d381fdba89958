//! Double-buffered orchestration of the two waveform extractors.
//!
//! The producer side owns the sample store and a private working
//! extractor; the consumer side reads the exposed extractor. An
//! extraction updates the working copy away from the consumer, pulls
//! the continuity state over and swaps the two, so neither side ever
//! waits for rendering work.

use vstd::prelude::*;

use crate::audio_buffer::AudioBuffer;
use crate::audio_buffer::MAX_BUFFER_DURATION;
use crate::audio_buffer::MAX_CHANNELS;
use crate::audio_buffer::MAX_RATE;
use crate::audio_buffer::MAX_SAMPLE_INDEX;
use crate::audio_buffer::NANOS_PER_SEC;
use crate::audio_buffer::SampleCastError;
use crate::audio_buffer::downmix_frames;
use crate::waveform_buffer::ImagePositions;
use crate::waveform_buffer::MAX_DIMENSION;
use crate::waveform_buffer::MAX_HALF_WINDOW;
use crate::waveform_buffer::MAX_REQ_DURATION;
use crate::waveform_buffer::WaveformBuffer;
use crate::waveform_image::WaveformColumn;

verus! {

/// Samples accumulated between two extractions before the working
/// extractor is refreshed and swapped in.
pub const EXTRACTION_THRESHOLD: u64 = 1024;

/// The view conditions passed to both extractors in one piece.
#[derive(Clone, Copy, PartialEq, Eq, Structural, Debug)]
pub struct WaveformConditions {
    /// Requested zoom, in nanoseconds per 1000 pixels.
    pub duration_per_1000px: u64,
    /// Target raster width, in pixels.
    pub width: u64,
    /// Target raster height, in pixels.
    pub height: u64,
}

impl WaveformConditions {
    pub fn new(duration_per_1000px: u64, width: u64, height: u64) -> (r: WaveformConditions)
        ensures
            r == (WaveformConditions { duration_per_1000px, width, height }),
    {
        WaveformConditions { duration_per_1000px, width, height }
    }
}

/// The double buffer: the sample store, the exposed extractor a
/// consumer reads, and the privately held working extractor.
pub struct DoubleAudioBuffer {
    pub audio_buffer: AudioBuffer,
    /// The extractor a consumer may read between swaps.
    pub exposed_buffer: WaveformBuffer,
    /// The extractor the producer side updates.
    pub working_buffer: WaveformBuffer,
    pub samples_since_last_extract: u64,
    /// Eviction floor: the store keeps everything the exposed side
    /// still displays.
    pub lower_to_keep: u64,
    /// Samples accumulated since the last segment start, used to
    /// notify the consumer once a first window is ready.
    pub sample_gauge: Option<u64>,
    pub sample_window: u64,
    pub max_sample_window: u64,
    /// Accept or ignore end of stream (bounded-range playback reaches
    /// the end of its range without the session ending).
    pub can_handle_eos: bool,
}

/// The empty history is a prefix of any history.
proof fn lemma_empty_prefix(s: Seq<i64>)
    ensures
        Seq::<i64>::empty().is_prefix_of(s),
{
    assert(Seq::<i64>::empty() =~= s.subrange(0, 0));
}

impl DoubleAudioBuffer {
    pub open spec fn wf(self) -> bool {
        &&& self.audio_buffer.wf()
        &&& self.exposed_buffer.wf()
        &&& self.working_buffer.wf()
        &&& self.exposed_buffer.image.hist@.is_prefix_of(self.audio_buffer.history@)
        &&& self.working_buffer.image.hist@.is_prefix_of(self.audio_buffer.history@)
        &&& self.exposed_buffer.state == self.working_buffer.state
        &&& self.exposed_buffer.image.id + self.working_buffer.image.id == 3
        &&& 1 <= self.exposed_buffer.image.id <= 2
        &&& self.samples_since_last_extract <= EXTRACTION_THRESHOLD
        &&& (self.sample_gauge matches Some(g) ==> g <= 2 * MAX_HALF_WINDOW)
        &&& self.sample_window <= 2 * MAX_HALF_WINDOW
    }

    /// Creates the pair around an empty store. One extractor starts
    /// exposed, the other working; they trade places at each swap.
    pub fn new(buffer_duration: u64) -> (r: DoubleAudioBuffer)
        requires
            buffer_duration <= MAX_BUFFER_DURATION,
        ensures
            r.wf(),
            r.exposed_buffer.image.id == 1,
            r.working_buffer.image.id == 2,
            r.audio_buffer.upper == 0,
            !r.audio_buffer.eos,
            r.can_handle_eos,
            r.sample_gauge is None,
    {
        proof {
            lemma_empty_prefix(Seq::<i64>::empty());
        }
        DoubleAudioBuffer {
            audio_buffer: AudioBuffer::new(buffer_duration),
            exposed_buffer: WaveformBuffer::new(1),
            working_buffer: WaveformBuffer::new(2),
            samples_since_last_extract: 0,
            lower_to_keep: 0,
            sample_gauge: None,
            sample_window: 0,
            max_sample_window: 0,
            can_handle_eos: true,
        }
    }

    fn reset(&mut self)
        ensures
            *final(self) == (DoubleAudioBuffer {
                samples_since_last_extract: 0,
                lower_to_keep: 0,
                sample_gauge: None,
                sample_window: 0,
                max_sample_window: 0,
                can_handle_eos: true,
                ..*old(self)
            }),
    {
        self.samples_since_last_extract = 0;
        self.lower_to_keep = 0;
        self.sample_gauge = None;
        self.sample_window = 0;
        self.max_sample_window = 0;
        self.can_handle_eos = true;
    }

    /// Clears the store and both extractors for the next session.
    pub fn cleanup(&mut self)
        requires
            old(self).wf(),
        ensures
            final(self).wf(),
            final(self).audio_buffer.upper == 0,
            final(self).audio_buffer.lower == 0,
            !final(self).audio_buffer.eos,
            !final(self).audio_buffer.is_initialized(),
            final(self).exposed_buffer.image.id == old(self).exposed_buffer.image.id,
            final(self).working_buffer.image.id == old(self).working_buffer.image.id,
            final(self).can_handle_eos,
            final(self).samples_since_last_extract == 0,
            final(self).lower_to_keep == 0,
            final(self).sample_gauge is None,
            final(self).sample_window == 0,
            final(self).max_sample_window == 0,
            !final(self).exposed_buffer.image.is_ready,
            !final(self).working_buffer.image.is_ready,
            final(self).exposed_buffer.req_sample_window == 0,
            final(self).working_buffer.req_sample_window == 0,
            final(self).exposed_buffer.state.rate == 0,
            final(self).working_buffer.state.rate == 0,
            final(self).exposed_buffer.first_visible_sample is None,
            final(self).working_buffer.first_visible_sample is None,
            final(self).exposed_buffer.cursor_sample == 0,
            final(self).working_buffer.cursor_sample == 0,
    {
        self.reset();
        self.audio_buffer.cleanup();
        self.exposed_buffer.cleanup();
        self.working_buffer.cleanup();
        proof {
            lemma_empty_prefix(final(self).audio_buffer.history@);
        }
    }

    /// Records the stream geometry on the store and on both
    /// extractors, and derives the largest sensible notification
    /// window from the buffered duration. Both extractors start the
    /// new stream from a clean view: the conditions are declared anew
    /// once the consumer knows its raster.
    pub fn set_caps(&mut self, rate: u64, channels: usize)
        requires
            old(self).wf(),
            1 <= rate <= MAX_RATE,
            1 <= channels <= MAX_CHANNELS,
        ensures
            final(self).wf(),
            final(self).audio_buffer.rate == rate,
            final(self).audio_buffer.channels == channels,
            final(self).audio_buffer.is_initialized(),
            final(self).audio_buffer.upper == 0,
            final(self).exposed_buffer.state.rate == rate,
            final(self).working_buffer.state.rate == rate,
            final(self).exposed_buffer.image.id == old(self).exposed_buffer.image.id,
            final(self).working_buffer.image.id == old(self).working_buffer.image.id,
            final(self).max_sample_window == ({
                let cap = old(self).audio_buffer.buffer_duration as int / (
                NANOS_PER_SEC as int / rate as int);
                if cap > 2 * MAX_HALF_WINDOW {
                    2 * MAX_HALF_WINDOW as int
                } else {
                    cap
                }
            }),
            final(self).samples_since_last_extract == 0,
            final(self).lower_to_keep == 0,
            final(self).sample_gauge is None,
            final(self).sample_window == 0,
            final(self).can_handle_eos,
            !final(self).exposed_buffer.image.is_ready,
            !final(self).working_buffer.image.is_ready,
            final(self).exposed_buffer.req_sample_window == 0,
            final(self).working_buffer.req_sample_window == 0,
    {
        self.reset();
        self.audio_buffer.init(rate, channels);
        self.exposed_buffer.cleanup();
        self.working_buffer.cleanup();
        let sample_duration = self.audio_buffer.sample_duration;
        proof {
            vstd::arithmetic::div_mod::lemma_div_is_ordered_by_denominator(
                NANOS_PER_SEC as int,
                rate as int,
                MAX_RATE as int,
            );
        }
        let max_window_u64 = self.audio_buffer.buffer_duration / sample_duration;
        self.max_sample_window = if max_window_u64 > 2 * MAX_HALF_WINDOW {
            2 * MAX_HALF_WINDOW
        } else {
            max_window_u64
        };
        self.exposed_buffer.set_sample_duration(rate);
        self.working_buffer.set_sample_duration(rate);
        proof {
            lemma_empty_prefix(final(self).audio_buffer.history@);
        }
    }

    /// Applies the view conditions to both extractors.
    pub fn set_conditions(&mut self, conditions: WaveformConditions)
        requires
            old(self).wf(),
            1 <= conditions.duration_per_1000px <= MAX_REQ_DURATION,
            conditions.width <= MAX_DIMENSION,
            conditions.height <= MAX_DIMENSION,
        ensures
            final(self).wf(),
            final(self).audio_buffer == old(self).audio_buffer,
            final(self).exposed_buffer.req_duration_per_1000px == conditions.duration_per_1000px,
            final(self).working_buffer.req_duration_per_1000px == conditions.duration_per_1000px,
            final(self).exposed_buffer.width == conditions.width,
            final(self).working_buffer.width == conditions.width,
            final(self).exposed_buffer.height == conditions.height,
            final(self).working_buffer.height == conditions.height,
            final(self).exposed_buffer.image.id == old(self).exposed_buffer.image.id,
            final(self).working_buffer.image.id == old(self).working_buffer.image.id,
            final(self).exposed_buffer.state == old(self).exposed_buffer.state,
            final(self).working_buffer.state == old(self).working_buffer.state,
            final(self).exposed_buffer.cursor_sample == old(self).exposed_buffer.cursor_sample,
            final(self).exposed_buffer.current_sample == old(self).exposed_buffer.current_sample,
            final(self).exposed_buffer.previous_sample == old(self).exposed_buffer.previous_sample,
            final(self).exposed_buffer.cursor_position == old(self).exposed_buffer.cursor_position,
            final(self).exposed_buffer.sought_sample == old(self).exposed_buffer.sought_sample,
            final(self).working_buffer.cursor_sample == old(self).working_buffer.cursor_sample,
            final(self).working_buffer.sought_sample == old(self).working_buffer.sought_sample,
            final(self).exposed_buffer.image.lower == old(self).exposed_buffer.image.lower,
            final(self).exposed_buffer.image.upper == old(self).exposed_buffer.image.upper,
            final(self).exposed_buffer.image.cols == old(self).exposed_buffer.image.cols,
            final(self).exposed_buffer.image.hist == old(self).exposed_buffer.image.hist,
            final(self).exposed_buffer.image.is_ready == old(self).exposed_buffer.image.is_ready,
            final(self).exposed_buffer.image.contains_eos == old(self).exposed_buffer.image.contains_eos,
            final(self).working_buffer.image.lower == old(self).working_buffer.image.lower,
            final(self).working_buffer.image.upper == old(self).working_buffer.image.upper,
            final(self).working_buffer.image.cols == old(self).working_buffer.image.cols,
            final(self).working_buffer.image.hist == old(self).working_buffer.image.hist,
            final(self).working_buffer.image.is_ready == old(self).working_buffer.image.is_ready,
            final(self).working_buffer.image.contains_eos == old(self).working_buffer.image.contains_eos,
            ({
                let rate = old(self).exposed_buffer.state.rate as int;
                let stepv = crate::waveform_buffer::spec_sample_step(
                    conditions.duration_per_1000px as int,
                    rate,
                );
                let xv = crate::waveform_buffer::spec_x_step(
                    conditions.duration_per_1000px as int,
                    rate,
                );
                let halfv = crate::waveform_buffer::spec_half_window(
                    conditions.width as int,
                    stepv,
                    xv,
                );
                let cc_e = WaveformBuffer::spec_conditions_continuity(
                    old(self).exposed_buffer,
                    conditions.duration_per_1000px,
                    conditions.width,
                    2 * halfv,
                    stepv,
                );
                let cc_w = WaveformBuffer::spec_conditions_continuity(
                    old(self).working_buffer,
                    conditions.duration_per_1000px,
                    conditions.width,
                    2 * halfv,
                    stepv,
                );
                &&& final(self).exposed_buffer.first_visible_sample == cc_e.0
                &&& final(self).exposed_buffer.first_visible_sample_lock == cc_e.1
                &&& final(self).working_buffer.first_visible_sample == cc_w.0
                &&& final(self).working_buffer.first_visible_sample_lock == cc_w.1
                &&& final(self).exposed_buffer.sample_step == stepv
                &&& final(self).exposed_buffer.x_step == xv
                &&& final(self).exposed_buffer.half_req_sample_window == halfv
                &&& final(self).working_buffer.sample_step == stepv
                &&& final(self).working_buffer.x_step == xv
                &&& final(self).working_buffer.half_req_sample_window == halfv
                &&& (stepv >= 1 ==> {
                    &&& final(self).exposed_buffer.image.sample_step == stepv
                    &&& final(self).exposed_buffer.image.x_step == xv
                    &&& final(self).working_buffer.image.sample_step == stepv
                    &&& final(self).working_buffer.image.x_step == xv
                })
                &&& (stepv == 0 ==> {
                    &&& final(self).exposed_buffer.image == old(self).exposed_buffer.image
                    &&& final(self).working_buffer.image == old(self).working_buffer.image
                })
            }),
    {
        self.working_buffer.update_conditions(
            conditions.duration_per_1000px,
            conditions.width,
            conditions.height,
        );
        self.exposed_buffer.update_conditions(
            conditions.duration_per_1000px,
            conditions.width,
            conditions.height,
        );
    }

    /// Suppresses end-of-stream handling during a bounded-range
    /// playback.
    pub fn ignore_eos(&mut self)
        ensures
            *final(self) == (DoubleAudioBuffer { can_handle_eos: false, ..*old(self) }),
    {
        self.can_handle_eos = false;
    }

    /// Accepts end-of-stream handling again.
    pub fn accept_eos(&mut self)
        ensures
            *final(self) == (DoubleAudioBuffer { can_handle_eos: true, ..*old(self) }),
    {
        self.can_handle_eos = true;
    }

    /// Marks a new contiguous segment in the store and starts gauging
    /// samples toward the first notification.
    pub fn have_segment(&mut self)
        requires
            old(self).wf(),
        ensures
            final(self).wf(),
            final(self).audio_buffer.segment_lower == old(self).audio_buffer.upper,
            !final(self).audio_buffer.eos,
            final(self).sample_gauge == Some(0u64),
    {
        self.audio_buffer.on_segment_start();
        self.sample_gauge = Some(0);
    }

    /// Updates the working extractor from the store, pulls the
    /// continuity state of the exposed one over, and swaps the two:
    /// the freshly rendered extractor becomes exposed, the other
    /// becomes the next working copy.
    pub fn extract_samples(&mut self)
        requires
            old(self).wf(),
        ensures
            final(self).wf(),
            final(self).exposed_buffer.image.id == old(self).working_buffer.image.id,
            final(self).working_buffer.image.id == old(self).exposed_buffer.image.id,
            final(self).audio_buffer == old(self).audio_buffer,
            final(self).lower_to_keep == final(self).working_buffer.image.lower,
            final(self).exposed_buffer.previous_sample == old(self).exposed_buffer.previous_sample,
            final(self).exposed_buffer.current_sample == old(self).exposed_buffer.current_sample,
            final(self).exposed_buffer.cursor_sample == old(self).exposed_buffer.cursor_sample,
            final(self).exposed_buffer.first_visible_sample == old(self).exposed_buffer.first_visible_sample,
            final(self).exposed_buffer.first_visible_sample_lock == old(self).exposed_buffer.first_visible_sample_lock,
            final(self).exposed_buffer.sought_sample == old(self).exposed_buffer.sought_sample,
            (old(self).working_buffer.req_sample_window > 0
                && old(self).working_buffer.image.sample_step >= 1) ==> ({
                let sr = WaveformBuffer::spec_sample_range(
                    old(self).working_buffer,
                    old(self).audio_buffer,
                );
                let step = old(self).working_buffer.image.sample_step as int;
                let from = crate::waveform_image::spec_aligned_lower(
                    sr.0.0,
                    old(self).audio_buffer.lower as int,
                    step,
                );
                let to = crate::waveform_image::align_down(sr.0.1, step);
                &&& (from < to ==> {
                    &&& final(self).exposed_buffer.image.is_ready
                    &&& final(self).exposed_buffer.image.lower == from
                    &&& final(self).exposed_buffer.image.upper == to
                    &&& final(self).exposed_buffer.image.hist@ == old(self).audio_buffer.history@
                    &&& final(self).exposed_buffer.image.contains_eos == (old(self).audio_buffer.eos && to + step > old(self).audio_buffer.upper)
                })
                &&& (from >= to ==> {
                    &&& final(self).exposed_buffer.image.lower == old(self).working_buffer.image.lower
                    &&& final(self).exposed_buffer.image.upper == old(self).working_buffer.image.upper
                    &&& final(self).exposed_buffer.image.cols == old(self).working_buffer.image.cols
                })
            }),
            final(self).can_handle_eos == old(self).can_handle_eos,
            final(self).sample_gauge == old(self).sample_gauge,
            final(self).samples_since_last_extract == old(self).samples_since_last_extract,
            final(self).max_sample_window == old(self).max_sample_window,
final(self).sample_window == (if final(self).working_buffer.req_sample_window < old(self).max_sample_window {
                final(self).working_buffer.req_sample_window as int
            } else {
                old(self).max_sample_window as int
            }),
            (old(self).working_buffer.req_sample_window > 0 && old(self).working_buffer.image.sample_step >= 1) ==> final(self).working_buffer == (
            WaveformBuffer {
                playback_needs_refresh: final(self).exposed_buffer.playback_needs_refresh,
                conditions_changed: false,
                ..old(self).exposed_buffer
            }),
    {
        self.working_buffer.extract_samples(&self.audio_buffer);
        self.working_buffer.update_concrete_state(&mut self.exposed_buffer);
        core::mem::swap(&mut self.exposed_buffer, &mut self.working_buffer);
        self.lower_to_keep = self.working_buffer.get_lower();
        let req = self.working_buffer.req_sample_window;
        self.sample_window = if req < self.max_sample_window {
            req
        } else {
            self.max_sample_window
        };
    }

    /// Bookkeeping after samples were stored: advances the gauge and
    /// the extraction counter, and extracts and swaps once either
    /// passes its threshold. Returns whether the gauge told the
    /// consumer that a first window is ready.
    fn after_push(&mut self, added: usize) -> (notify: bool)
        requires
            old(self).wf(),
            added <= MAX_SAMPLE_INDEX,
        ensures
            final(self).wf(),
            final(self).audio_buffer == old(self).audio_buffer,
            final(self).can_handle_eos == old(self).can_handle_eos,
            notify == (match old(self).sample_gauge {
                Some(g) => g + added > old(self).sample_window,
                None => false,
            }),
            notify ==> (final(self).sample_gauge is None),
            !notify ==> final(self).sample_gauge == (match old(self).sample_gauge {
                Some(g) => Some((g + added) as u64),
                None => Option::<u64>::None,
            }),
            ({
                let trigger = notify || old(self).samples_since_last_extract + added
                    >= EXTRACTION_THRESHOLD;
                &&& (trigger ==> {
                    &&& final(self).samples_since_last_extract == 0
                    &&& final(self).exposed_buffer.image.id == old(self).working_buffer.image.id
                    &&& final(self).working_buffer.image.id == old(self).exposed_buffer.image.id
                })
                &&& (!trigger ==> {
                    &&& final(self).samples_since_last_extract == old(self).samples_since_last_extract + added
                    &&& final(self).exposed_buffer == old(self).exposed_buffer
                    &&& final(self).working_buffer == old(self).working_buffer
                })
            }),
    {
        let window = self.sample_window;
        let gauge = self.sample_gauge;
        let mut notify = false;
        match gauge {
            Some(g) => {
                if g + added as u64 > window {
                    notify = true;
                    self.sample_gauge = None;
                } else {
                    self.sample_gauge = Some(g + added as u64);
                }
            },
            None => {},
        }
        let new_since = self.samples_since_last_extract + added as u64;
        if notify || new_since >= EXTRACTION_THRESHOLD {
            self.samples_since_last_extract = 0;
            self.extract_samples();
        } else {
            self.samples_since_last_extract = new_since;
        }
        notify
    }

    /// Producer entry point: stores one interleaved raw chunk, then
    /// extracts and swaps once the gauge overflows the window or the
    /// extraction counter passes its threshold. Returns whether the
    /// consumer should be notified that a first window is ready.
    pub fn push_frames(&mut self, raw: &Vec<i16>) -> (notify: bool)
        requires
            old(self).wf(),
            old(self).audio_buffer.is_initialized(),
            raw@.len() as int % (old(self).audio_buffer.channels as int) == 0,
            old(self).audio_buffer.upper + raw@.len() as int / (old(self).audio_buffer.channels as int) <= MAX_SAMPLE_INDEX,
        ensures
            final(self).wf(),
            final(self).audio_buffer.history@ == old(self).audio_buffer.history@
                + downmix_frames(raw@, old(self).audio_buffer.channels as int),
            final(self).audio_buffer.upper == old(self).audio_buffer.upper + raw@.len() as int / (
            old(self).audio_buffer.channels as int),
            final(self).audio_buffer.eos == old(self).audio_buffer.eos,
            final(self).can_handle_eos == old(self).can_handle_eos,
            notify == (match old(self).sample_gauge {
                Some(g) => g + raw@.len() as int / (old(self).audio_buffer.channels as int) > old(self).sample_window,
                None => false,
            }),
            notify ==> (final(self).sample_gauge is None),
            ({
                let n = raw@.len() as int / (old(self).audio_buffer.channels as int);
                let trigger = notify || old(self).samples_since_last_extract + n
                    >= EXTRACTION_THRESHOLD;
                &&& (trigger ==> {
                    &&& final(self).samples_since_last_extract == 0
                    &&& final(self).exposed_buffer.image.id == old(self).working_buffer.image.id
                    &&& final(self).working_buffer.image.id == old(self).exposed_buffer.image.id
                })
                &&& (!trigger ==> {
                    &&& final(self).samples_since_last_extract == old(self).samples_since_last_extract + n
                    &&& final(self).exposed_buffer == old(self).exposed_buffer
                    &&& final(self).working_buffer == old(self).working_buffer
                })
                &&& (!notify ==> final(self).sample_gauge == (match old(self).sample_gauge {
                    Some(g) => Some((g + n) as u64),
                    None => Option::<u64>::None,
                }))
            }),
    {
        let ghost pre = *self;
        let n = self.audio_buffer.push_frames(raw, self.lower_to_keep);
        proof {
            lemma_prefix_extend(
                pre.exposed_buffer.image.hist@,
                pre.audio_buffer.history@,
                downmix_frames(raw@, pre.audio_buffer.channels as int),
            );
            lemma_prefix_extend(
                pre.working_buffer.image.hist@,
                pre.audio_buffer.history@,
                downmix_frames(raw@, pre.audio_buffer.channels as int),
            );
        }
        self.after_push(n)
    }

    /// Producer entry point for chunks delivered as raw bytes,
    /// reinterpreted as 16-bit samples first. Whatever the cast
    /// yields, the store is only extended by the downmix of the values
    /// that came back; a failed cast leaves everything unchanged.
    pub fn push_bytes(&mut self, bytes: &Vec<u8>) -> (r: Result<bool, SampleCastError>)
        requires
            old(self).wf(),
            old(self).audio_buffer.is_initialized(),
            old(self).audio_buffer.upper + bytes@.len() as int / 2 <= MAX_SAMPLE_INDEX,
        ensures
            final(self).wf(),
            bytes@.len() % 2 != 0 ==> (r is Err),
            (r is Err) ==> *final(self) == *old(self),
            (r is Ok) ==> ({
                &&& exists|raw: Seq<i16>|
                    {
                        &&& raw.len() == bytes@.len() as int / 2
                        &&& raw.len() as int % (old(self).audio_buffer.channels as int) == 0
                        &&& final(self).audio_buffer.history@ == old(self).audio_buffer.history@
                            + downmix_frames(raw, old(self).audio_buffer.channels as int)
                    }
                &&& final(self).audio_buffer.eos == old(self).audio_buffer.eos
            }),
            (match r {
                Ok(notify) => ({
                    let n = bytes@.len() as int / 2 / (old(self).audio_buffer.channels as int);
                    let trigger = notify || old(self).samples_since_last_extract + n
                        >= EXTRACTION_THRESHOLD;
                    &&& final(self).audio_buffer.upper == old(self).audio_buffer.upper + n
                    &&& notify == (match old(self).sample_gauge {
                        Some(g) => g + n > old(self).sample_window,
                        None => false,
                    })
                    &&& (notify ==> (final(self).sample_gauge is None))
                    &&& (!notify ==> final(self).sample_gauge == (match old(self).sample_gauge {
                        Some(g) => Some((g + n) as u64),
                        None => Option::<u64>::None,
                    }))
                    &&& (trigger ==> {
                        &&& final(self).samples_since_last_extract == 0
                        &&& final(self).exposed_buffer.image.id == old(self).working_buffer.image.id
                        &&& final(self).working_buffer.image.id == old(self).exposed_buffer.image.id
                    })
                    &&& (!trigger ==> {
                        &&& final(self).samples_since_last_extract == old(self).samples_since_last_extract + n
                        &&& final(self).exposed_buffer == old(self).exposed_buffer
                        &&& final(self).working_buffer == old(self).working_buffer
                    })
                }),
                Err(_) => true,
            }),
    {
        let ghost pre = *self;
        let outcome = self.audio_buffer.push_bytes(bytes, self.lower_to_keep);
        match outcome {
            Ok(n) => {
                proof {
                    let raw = choose|raw: Seq<i16>|
                        {
                            &&& raw.len() == bytes@.len() as int / 2
                            &&& raw.len() as int % (pre.audio_buffer.channels as int) == 0
                            &&& n == raw.len() as int / (pre.audio_buffer.channels as int)
                            &&& self.audio_buffer.history@ == pre.audio_buffer.history@
                                + downmix_frames(raw, pre.audio_buffer.channels as int)
                        };
                    lemma_prefix_extend(
                        pre.exposed_buffer.image.hist@,
                        pre.audio_buffer.history@,
                        downmix_frames(raw, pre.audio_buffer.channels as int),
                    );
                    lemma_prefix_extend(
                        pre.working_buffer.image.hist@,
                        pre.audio_buffer.history@,
                        downmix_frames(raw, pre.audio_buffer.channels as int),
                    );
                    vstd::arithmetic::div_mod::lemma_div_nonincreasing(
                        raw.len() as int,
                        pre.audio_buffer.channels as int,
                    );
                }
                let notify = self.after_push(n);
                Ok(notify)
            },
            Err(e) => Err(e),
        }
    }

    /// Re-renders under the current conditions without waiting for new
    /// samples (after a resize or zoom), through the same pull-swap
    /// sequence as an extraction. Leaving playing mode settles any
    /// in-flight seek first.
    pub fn refresh(&mut self, is_playing: bool)
        requires
            old(self).wf(),
        ensures
            final(self).wf(),
            final(self).audio_buffer == old(self).audio_buffer,
            final(self).exposed_buffer.image.id == old(self).working_buffer.image.id,
            final(self).working_buffer.image.id == old(self).exposed_buffer.image.id,
            final(self).lower_to_keep == final(self).working_buffer.image.lower,
            final(self).can_handle_eos == old(self).can_handle_eos,
            (old(self).exposed_buffer.req_duration_per_1000px == old(self).working_buffer.req_duration_per_1000px) ==> {
                &&& final(self).exposed_buffer.req_duration_per_1000px == old(self).exposed_buffer.req_duration_per_1000px
                &&& final(self).working_buffer.req_duration_per_1000px == old(self).exposed_buffer.req_duration_per_1000px
            },
            (old(self).exposed_buffer.width == old(self).working_buffer.width) ==> final(self).exposed_buffer.width == old(self).exposed_buffer.width,
            (old(self).exposed_buffer.height == old(self).working_buffer.height) ==> final(self).exposed_buffer.height == old(self).exposed_buffer.height,
            final(self).exposed_buffer.previous_sample == old(self).exposed_buffer.previous_sample,
            final(self).exposed_buffer.current_sample == old(self).exposed_buffer.current_sample,
            final(self).exposed_buffer.cursor_sample == old(self).exposed_buffer.cursor_sample,
            final(self).exposed_buffer.cursor_position == old(self).exposed_buffer.cursor_position,
            final(self).exposed_buffer.state == old(self).exposed_buffer.state,
            is_playing ==> final(self).exposed_buffer.sought_sample == old(self).exposed_buffer.sought_sample,
            !is_playing ==> (final(self).exposed_buffer.sought_sample is None),
            !is_playing ==> (final(self).working_buffer.sought_sample is None),
            ({
                let e0 = if is_playing {
                    old(self).exposed_buffer
                } else {
                    WaveformBuffer { sought_sample: None, ..old(self).exposed_buffer }
                };
                final(self).working_buffer == (WaveformBuffer {
                    playback_needs_refresh: old(self).working_buffer.playback_needs_refresh,
                    conditions_changed: false,
                    ..e0
                })
            }),
            ({
                let e0 = if is_playing {
                    old(self).exposed_buffer
                } else {
                    WaveformBuffer { sought_sample: None, ..old(self).exposed_buffer }
                };
                let w0 = old(self).working_buffer;
                let cnd = e0.conditions_changed;
                let w1 = WaveformBuffer {
                    cursor_sample: e0.cursor_sample,
                    first_visible_sample: e0.first_visible_sample,
                    first_visible_sample_lock: e0.first_visible_sample_lock,
                    req_sample_window: if cnd {
                        e0.req_sample_window
                    } else {
                        w0.req_sample_window
                    },
                    half_req_sample_window: if cnd {
                        e0.half_req_sample_window
                    } else {
                        w0.half_req_sample_window
                    },
                    quarter_req_sample_window: if cnd {
                        e0.quarter_req_sample_window
                    } else {
                        w0.quarter_req_sample_window
                    },
                    ..w0
                };
                let step = if e0.image.has_conditions() {
                    e0.image.sample_step as int
                } else {
                    w0.image.sample_step as int
                };
                let sr = WaveformBuffer::spec_sample_range(w1, old(self).audio_buffer);
                let from = crate::waveform_image::spec_aligned_lower(
                    sr.0.0,
                    old(self).audio_buffer.lower as int,
                    step,
                );
                let to = crate::waveform_image::align_down(sr.0.1, step);
                &&& (w0.image.is_ready ==> {
                    &&& final(self).exposed_buffer.first_visible_sample == sr.1
                    &&& final(self).exposed_buffer.first_visible_sample_lock == sr.2
                    &&& (from < to ==> {
                        &&& final(self).exposed_buffer.image.is_ready
                        &&& final(self).exposed_buffer.image.lower == from
                        &&& final(self).exposed_buffer.image.upper == to
                        &&& final(self).exposed_buffer.image.hist@ == old(self).audio_buffer.history@
                        &&& final(self).exposed_buffer.image.contains_eos == (old(self).audio_buffer.eos && to + step > old(self).audio_buffer.upper)
                    })
                    &&& (from >= to ==> {
                        &&& final(self).exposed_buffer.image.lower == w0.image.lower
                        &&& final(self).exposed_buffer.image.upper == w0.image.upper
                        &&& final(self).exposed_buffer.image.cols == w0.image.cols
                    })
                    &&& final(self).exposed_buffer.playback_needs_refresh == !final(self).exposed_buffer.image.contains_eos
                })
                &&& (!w0.image.is_ready ==> {
                    &&& final(self).exposed_buffer.first_visible_sample
                        == e0.first_visible_sample
                    &&& final(self).exposed_buffer.first_visible_sample_lock
                        == e0.first_visible_sample_lock
                    &&& final(self).exposed_buffer.image.cols == w0.image.cols
                    &&& final(self).exposed_buffer.image.lower == w0.image.lower
                    &&& final(self).exposed_buffer.image.upper == w0.image.upper
                })
            }),
    {
        if !is_playing {
            self.exposed_buffer.switch_to_paused();
        }
        let ghost e0g = self.exposed_buffer;
        let ghost w0g = self.working_buffer;
        self.working_buffer.update_concrete_state(&mut self.exposed_buffer);
        proof {
            let cnd = e0g.conditions_changed;
            let w1 = WaveformBuffer {
                cursor_sample: e0g.cursor_sample,
                first_visible_sample: e0g.first_visible_sample,
                first_visible_sample_lock: e0g.first_visible_sample_lock,
                req_sample_window: if cnd {
                    e0g.req_sample_window
                } else {
                    w0g.req_sample_window
                },
                half_req_sample_window: if cnd {
                    e0g.half_req_sample_window
                } else {
                    w0g.half_req_sample_window
                },
                quarter_req_sample_window: if cnd {
                    e0g.quarter_req_sample_window
                } else {
                    w0g.quarter_req_sample_window
                },
                ..w0g
            };
            crate::waveform_buffer::lemma_sample_range_agrees(
                self.working_buffer,
                w1,
                self.audio_buffer,
            );
        }
        self.working_buffer.refresh(&self.audio_buffer);
        core::mem::swap(&mut self.exposed_buffer, &mut self.working_buffer);
        self.lower_to_keep = self.working_buffer.get_lower();
    }

    /// Applies new view conditions to both extractors and re-renders
    /// under them at once (the resize and zoom path), through the same
    /// pull-swap sequence as an extraction.
    pub fn refresh_with_conditions(&mut self, conditions: WaveformConditions, is_playing: bool)
        requires
            old(self).wf(),
            1 <= conditions.duration_per_1000px <= MAX_REQ_DURATION,
            conditions.width <= MAX_DIMENSION,
            conditions.height <= MAX_DIMENSION,
        ensures
            final(self).wf(),
            final(self).audio_buffer == old(self).audio_buffer,
            final(self).exposed_buffer.req_duration_per_1000px == conditions.duration_per_1000px,
            final(self).working_buffer.req_duration_per_1000px == conditions.duration_per_1000px,
            final(self).exposed_buffer.width == conditions.width,
            final(self).exposed_buffer.height == conditions.height,
            final(self).exposed_buffer.image.id == old(self).working_buffer.image.id,
            final(self).working_buffer.image.id == old(self).exposed_buffer.image.id,
            final(self).lower_to_keep == final(self).working_buffer.image.lower,
            final(self).exposed_buffer.previous_sample == old(self).exposed_buffer.previous_sample,
            final(self).exposed_buffer.current_sample == old(self).exposed_buffer.current_sample,
            final(self).exposed_buffer.cursor_sample == old(self).exposed_buffer.cursor_sample,
            final(self).exposed_buffer.cursor_position == old(self).exposed_buffer.cursor_position,
            is_playing ==> final(self).exposed_buffer.sought_sample == old(self).exposed_buffer.sought_sample,
            !is_playing ==> (final(self).exposed_buffer.sought_sample is None),
            !is_playing ==> (final(self).working_buffer.sought_sample is None),
            ({
                let rate = old(self).exposed_buffer.state.rate as int;
                let stepv = crate::waveform_buffer::spec_sample_step(
                    conditions.duration_per_1000px as int,
                    rate,
                );
                let xv = crate::waveform_buffer::spec_x_step(
                    conditions.duration_per_1000px as int,
                    rate,
                );
                let halfv = crate::waveform_buffer::spec_half_window(
                    conditions.width as int,
                    stepv,
                    xv,
                );
                let cc_e = WaveformBuffer::spec_conditions_continuity(
                    old(self).exposed_buffer,
                    conditions.duration_per_1000px,
                    conditions.width,
                    2 * halfv,
                    stepv,
                );
                let w1 = WaveformBuffer {
                    cursor_sample: old(self).exposed_buffer.cursor_sample,
                    first_visible_sample: cc_e.0,
                    first_visible_sample_lock: cc_e.1,
                    req_sample_window: (2 * halfv) as u64,
                    half_req_sample_window: halfv as u64,
                    quarter_req_sample_window: (halfv / 2) as u64,
                    ..old(self).working_buffer
                };
                let sr = WaveformBuffer::spec_sample_range(w1, old(self).audio_buffer);
                let from = crate::waveform_image::spec_aligned_lower(
                    sr.0.0,
                    old(self).audio_buffer.lower as int,
                    stepv,
                );
                let to = crate::waveform_image::align_down(sr.0.1, stepv);
                (old(self).working_buffer.image.is_ready && stepv >= 1) ==> {
                    &&& final(self).exposed_buffer.first_visible_sample == sr.1
                    &&& final(self).exposed_buffer.first_visible_sample_lock == sr.2
                    &&& (from < to ==> {
                        &&& final(self).exposed_buffer.image.is_ready
                        &&& final(self).exposed_buffer.image.lower == from
                        &&& final(self).exposed_buffer.image.upper == to
                        &&& final(self).exposed_buffer.image.hist@ == old(self).audio_buffer.history@
                        &&& final(self).exposed_buffer.image.contains_eos == (old(self).audio_buffer.eos && to + stepv > old(self).audio_buffer.upper)
                    })
                    &&& (from >= to ==> {
                        &&& final(self).exposed_buffer.image.lower == old(self).working_buffer.image.lower
                        &&& final(self).exposed_buffer.image.upper == old(self).working_buffer.image.upper
                        &&& final(self).exposed_buffer.image.cols == old(self).working_buffer.image.cols
                    })
                    &&& final(self).exposed_buffer.playback_needs_refresh == !final(self).exposed_buffer.image.contains_eos
                }
            }),
    {
        self.set_conditions(conditions);
        let ghost emid = self.exposed_buffer;
        let ghost wmid = self.working_buffer;
        self.refresh(is_playing);
        proof {
            let e0 = if is_playing {
                emid
            } else {
                WaveformBuffer { sought_sample: None, ..emid }
            };
            let cnd = e0.conditions_changed;
            let w1r = WaveformBuffer {
                cursor_sample: e0.cursor_sample,
                first_visible_sample: e0.first_visible_sample,
                first_visible_sample_lock: e0.first_visible_sample_lock,
                req_sample_window: if cnd {
                    e0.req_sample_window
                } else {
                    wmid.req_sample_window
                },
                half_req_sample_window: if cnd {
                    e0.half_req_sample_window
                } else {
                    wmid.half_req_sample_window
                },
                quarter_req_sample_window: if cnd {
                    e0.quarter_req_sample_window
                } else {
                    wmid.quarter_req_sample_window
                },
                ..wmid
            };
            let rate = old(self).exposed_buffer.state.rate as int;
            let stepv = crate::waveform_buffer::spec_sample_step(
                conditions.duration_per_1000px as int,
                rate,
            );
            let xv = crate::waveform_buffer::spec_x_step(
                conditions.duration_per_1000px as int,
                rate,
            );
            let halfv = crate::waveform_buffer::spec_half_window(
                conditions.width as int,
                stepv,
                xv,
            );
            let cc_e = WaveformBuffer::spec_conditions_continuity(
                old(self).exposed_buffer,
                conditions.duration_per_1000px,
                conditions.width,
                2 * halfv,
                stepv,
            );
            let w1m = WaveformBuffer {
                cursor_sample: old(self).exposed_buffer.cursor_sample,
                first_visible_sample: cc_e.0,
                first_visible_sample_lock: cc_e.1,
                req_sample_window: (2 * halfv) as u64,
                half_req_sample_window: halfv as u64,
                quarter_req_sample_window: (halfv / 2) as u64,
                ..old(self).working_buffer
            };
            crate::waveform_buffer::lemma_sample_range_agrees(w1r, w1m, self.audio_buffer);
        }
    }

    /// Handles end of stream, unless a bounded-range playback asked to
    /// ignore it: marks the store and extracts twice, so both
    /// extractor copies observe the end-adjusted window.
    pub fn handle_eos(&mut self)
        requires
            old(self).wf(),
        ensures
            final(self).wf(),
            final(self).sample_gauge is None,
            final(self).can_handle_eos == old(self).can_handle_eos,
            old(self).can_handle_eos ==> final(self).audio_buffer.eos,
            old(self).can_handle_eos ==> {
                &&& final(self).exposed_buffer.image.id == old(self).exposed_buffer.image.id
                &&& final(self).working_buffer.image.id == old(self).working_buffer.image.id
            },
            !old(self).can_handle_eos ==> *final(self) == (DoubleAudioBuffer {
                sample_gauge: None,
                ..*old(self)
            }),
            old(self).can_handle_eos ==> final(self).audio_buffer == (AudioBuffer {
                eos: true,
                ..old(self).audio_buffer
            }),
            old(self).can_handle_eos ==> ({
                let store1 = AudioBuffer { eos: true, ..old(self).audio_buffer };
                let w0 = old(self).working_buffer;
                let e0 = old(self).exposed_buffer;
                let active = w0.req_sample_window > 0 && w0.image.sample_step >= 1
                    && e0.req_sample_window > 0 && e0.image.sample_step >= 1;
                let sr1 = WaveformBuffer::spec_sample_range(w0, store1);
                let step1 = w0.image.sample_step as int;
                let from1 = crate::waveform_image::spec_aligned_lower(
                    sr1.0.0,
                    store1.lower as int,
                    step1,
                );
                let to1 = crate::waveform_image::align_down(sr1.0.1, step1);
                let sr2 = WaveformBuffer::spec_sample_range(e0, store1);
                let step2 = e0.image.sample_step as int;
                let from2 = crate::waveform_image::spec_aligned_lower(
                    sr2.0.0,
                    store1.lower as int,
                    step2,
                );
                let to2 = crate::waveform_image::align_down(sr2.0.1, step2);
                active ==> {
                    &&& (from1 < to1 ==> {
                        &&& final(self).working_buffer.image.is_ready
                        &&& final(self).working_buffer.image.lower == from1
                        &&& final(self).working_buffer.image.upper == to1
                        &&& final(self).working_buffer.image.hist@ == store1.history@
                        &&& final(self).working_buffer.image.contains_eos == (to1 + step1
                            > store1.upper)
                    })
                    &&& (from2 < to2 ==> {
                        &&& final(self).exposed_buffer.image.is_ready
                        &&& final(self).exposed_buffer.image.lower == from2
                        &&& final(self).exposed_buffer.image.upper == to2
                        &&& final(self).exposed_buffer.image.hist@ == store1.history@
                        &&& final(self).exposed_buffer.image.contains_eos == (to2 + step2
                            > store1.upper)
                    })
                }
            }),
    {
        if self.can_handle_eos {
            self.audio_buffer.handle_eos();
            let ghost e0g = self.exposed_buffer;
            let ghost w0g = self.working_buffer;
            self.extract_samples();
            proof {
                if w0g.req_sample_window > 0 && w0g.image.sample_step >= 1 {
                    crate::waveform_buffer::lemma_sample_range_agrees(
                        self.working_buffer,
                        e0g,
                        self.audio_buffer,
                    );
                }
            }
            self.extract_samples();
        }
        self.sample_gauge = None;
    }

    /// Consumer entry point: the current image positions of the
    /// exposed extractor, given the playback position just queried
    /// (None when no transport is active).
    pub fn get_image(&mut self, position: Option<u64>) -> (r: Option<ImagePositions>)
        requires
            old(self).wf(),
            old(self).exposed_buffer.state.sample_duration > 0 ==> (position matches Some(p)
                ==> p <= old(self).exposed_buffer.state.max_position()),
        ensures
            final(self).wf(),
            final(self).audio_buffer == old(self).audio_buffer,
            final(self).working_buffer == old(self).working_buffer,
            final(self).exposed_buffer == ({
                let s1 = WaveformBuffer::spec_refresh_position(
                    old(self).exposed_buffer,
                    position,
                );
                WaveformBuffer {
                    first_visible_sample: WaveformBuffer::spec_next_window(s1).0,
                    first_visible_sample_lock: WaveformBuffer::spec_next_window(s1).1,
                    sought_sample: WaveformBuffer::spec_next_window(s1).2,
                    ..s1
                }
            }),
            r == WaveformBuffer::spec_image_positions(final(self).exposed_buffer),
    {
        self.exposed_buffer.get_image(position)
    }

    /// Consumer entry point: forwards a transport seek to the exposed
    /// extractor (see `WaveformBuffer::seek`).
    pub fn seek(&mut self, position: u64, is_playing: bool)
        requires
            old(self).wf(),
            old(self).exposed_buffer.image.sample_step >= 1 ==> position <= old(self).exposed_buffer.state.max_position(),
        ensures
            final(self).wf(),
            final(self).audio_buffer == old(self).audio_buffer,
            final(self).working_buffer == old(self).working_buffer,
            final(self).exposed_buffer == WaveformBuffer::spec_seek(
                old(self).exposed_buffer,
                position,
                is_playing,
            ),
    {
        self.exposed_buffer.seek(position, is_playing);
    }

    /// Consumer entry point: pins the window for a bounded range
    /// playback (see `WaveformBuffer::start_play_range`).
    pub fn start_play_range(&mut self)
        requires
            old(self).wf(),
        ensures
            final(self).wf(),
            final(self).audio_buffer == old(self).audio_buffer,
            final(self).working_buffer == old(self).working_buffer,
            old(self).exposed_buffer.image.sample_step == 0 ==> final(self).exposed_buffer == old(self).exposed_buffer,
            old(self).exposed_buffer.image.sample_step >= 1 ==> final(self).exposed_buffer == (
            WaveformBuffer {
                first_visible_sample_lock: match old(self).exposed_buffer.first_visible_sample {
                    Some(f) => Some((f, true)),
                    None => old(self).exposed_buffer.first_visible_sample_lock,
                },
                ..old(self).exposed_buffer
            }),
    {
        self.exposed_buffer.start_play_range();
    }

    /// Consumer entry point: the timestamp under a pixel of the
    /// exposed image (see `WaveformBuffer::get_position_at`).
    pub fn get_position_at(&self, x: u64) -> (r: Option<u64>)
        requires
            self.wf(),
            x <= MAX_DIMENSION,
        ensures
            r == WaveformBuffer::spec_position_at(self.exposed_buffer, x),
    {
        self.exposed_buffer.get_position_at(x)
    }

    /// Whether the exposed extractor's cached playback sample has left
    /// the retained range, so the consumer should query the position
    /// source before the next frame.
    pub fn position_is_stale(&self) -> (r: bool)
        ensures
            r == (self.exposed_buffer.current_sample < self.audio_buffer.lower
                || self.exposed_buffer.current_sample > self.audio_buffer.upper),
    {
        self.exposed_buffer.position_is_stale(&self.audio_buffer)
    }

    /// The rendered columns of the exposed image, for presentation.
    pub fn image_columns(&self) -> (r: &Vec<WaveformColumn>)
        ensures
            r == self.exposed_buffer.image.cols,
    {
        self.exposed_buffer.image.get_image()
    }
}

/// Constructs the double buffer that backs a waveform view, with its
/// two renderers in place.
pub struct DoubleWaveformBuffer {}

impl DoubleWaveformBuffer {
    pub fn new(buffer_duration: u64) -> (r: DoubleAudioBuffer)
        requires
            buffer_duration <= MAX_BUFFER_DURATION,
        ensures
            r.wf(),
            r.exposed_buffer.image.id == 1,
            r.working_buffer.image.id == 2,
            r.audio_buffer.upper == 0,
    {
        DoubleAudioBuffer::new(buffer_duration)
    }
}

/// A history stays a prefix when the other sequence is extended.
proof fn lemma_prefix_extend(h1: Seq<i64>, h2: Seq<i64>, tail: Seq<i64>)
    requires
        h1.is_prefix_of(h2),
    ensures
        h1.is_prefix_of(h2 + tail),
{
    assert(h1 =~= (h2 + tail).subrange(0, h1.len() as int));
}


/// Swap exclusivity: at any instant the double buffer holds exactly
/// one exposed and one working extractor. Their identities are
/// distinct and always partition the same pair, and each extraction
/// or refresh swaps the two roles whole — no state is ever reachable
/// through both slots, and none is half-swapped.
pub proof fn lemma_swap_exclusivity(d: DoubleAudioBuffer)
    requires
        d.wf(),
    ensures
        d.exposed_buffer.image.id != d.working_buffer.image.id,
        (d.exposed_buffer.image.id == 1 && d.working_buffer.image.id == 2) || (
        d.exposed_buffer.image.id == 2 && d.working_buffer.image.id == 1),
{
}

} // verus!
