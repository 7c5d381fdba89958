//! Windowing and cursor policy of one waveform extractor.
//!
//! A `WaveformBuffer` owns one incremental image plus the view state
//! around it: the requested zoom and raster size, the playback cursor,
//! the first visible sample and the seek lock that keeps the window
//! steady right after a seek.

use vstd::prelude::*;

use crate::audio_buffer::AudioBuffer;
use crate::audio_buffer::MAX_RATE;
use crate::audio_buffer::MAX_SAMPLE_INDEX;
use crate::audio_buffer::NANOS_PER_SEC;
use crate::sample_extractor::SamplesExtractionState;
use crate::waveform_image::MAX_SAMPLE_STEP;
use crate::waveform_image::MAX_X_STEP;
use crate::waveform_image::WaveformImage;

verus! {

/// Largest supported requested duration, in nanoseconds per 1000
/// pixels.
pub const MAX_REQ_DURATION: u64 = 4_000_000_000_000;

/// Largest supported raster width or height, in pixels.
pub const MAX_DIMENSION: u64 = 1_048_576;

/// Bound on the half sample window (a width times a sample step).
pub const MAX_HALF_WINDOW: u64 = 549_755_813_888;

/// Bound on first-visible-sample values; wider than the sample index
/// range because the catch-up policy may aim past the rendered range.
pub const MAX_VISIBLE_INDEX: u64 = 8_589_934_592;

/// Nanoseconds per 1000 samples at one sample per second; the pivot
/// between zooming out (many samples per column) and zooming in.
pub const NANOS_PER_1000_SAMPLES: u64 = 1_000_000_000_000;

/// Samples per rendered column for a requested zoom, or 0 while the
/// zoom or the stream rate is unknown.
pub open spec fn spec_sample_step(req: int, rate: int) -> int {
    if req <= 0 || rate <= 0 {
        0
    } else if req * rate >= NANOS_PER_1000_SAMPLES {
        req * rate / (NANOS_PER_1000_SAMPLES as int)
    } else {
        1
    }
}

/// Pixels per rendered column for a requested zoom, or 0 while the
/// zoom or the stream rate is unknown; saturates at `MAX_X_STEP`.
pub open spec fn spec_x_step(req: int, rate: int) -> int {
    if req <= 0 || rate <= 0 {
        0
    } else if req * rate >= NANOS_PER_1000_SAMPLES {
        1
    } else {
        let c = (NANOS_PER_1000_SAMPLES + req * rate - 1) / (req * rate);
        if c > MAX_X_STEP {
            MAX_X_STEP as int
        } else {
            c
        }
    }
}

/// Half of the sample window a raster width covers at a resolution.
pub open spec fn spec_half_window(width: int, sample_step: int, x_step: int) -> int {
    if x_step <= 0 {
        0
    } else {
        (width * sample_step / x_step) / 2
    }
}

/// Conversion of a pixel x offset into an on-screen position, with its
/// timestamp.
#[derive(Clone, Copy, PartialEq, Eq, Structural, Debug)]
pub struct SamplePosition {
    /// Horizontal pixel offset from the left edge of the display.
    pub x: u64,
    /// Playback timestamp at that pixel, in nanoseconds.
    pub timestamp: u64,
}

/// The labeled positions handed out with the image for overlays.
#[derive(Clone, Copy, PartialEq, Eq, Structural, Debug)]
pub struct ImagePositions {
    /// Pixel offset into the image where display starts, and the
    /// timestamp of the first visible sample.
    pub first: SamplePosition,
    /// End of the drawable data, when any is visible.
    pub last: Option<SamplePosition>,
    /// The playback cursor, when it falls inside the window.
    pub current: Option<SamplePosition>,
}

/// One of the two sample extractors of a double buffer: turns store
/// snapshots into an up-to-date waveform image for the current window.
pub struct WaveformBuffer {
    pub state: SamplesExtractionState,
    /// Set when zoom or raster size changed since the last hand-off,
    /// so the peer extractor takes the new conditions over.
    pub conditions_changed: bool,
    pub image: WaveformImage,
    /// Cursor as of the previous frame.
    pub previous_sample: u64,
    /// Last known playback sample.
    pub current_sample: u64,
    /// Sample shown under the cursor; differs from `current_sample`
    /// while a seek is in flight.
    pub cursor_sample: u64,
    /// Timestamp at the cursor, in nanoseconds.
    pub cursor_position: u64,
    /// First sample of the displayed window, once known.
    pub first_visible_sample: Option<u64>,
    /// A pinned window origin right after a seek: the origin, and
    /// whether to keep the pin for a whole range playback.
    pub first_visible_sample_lock: Option<(u64, bool)>,
    /// Target of an in-flight seek.
    pub sought_sample: Option<u64>,
    /// Set at end of stream while the image still misses samples.
    pub playback_needs_refresh: bool,
    /// Requested zoom, in nanoseconds per 1000 pixels.
    pub req_duration_per_1000px: u64,
    /// Target raster width, in pixels.
    pub width: u64,
    /// Target raster height, in pixels.
    pub height: u64,
    /// Samples per rendered column for the requested zoom.
    pub sample_step: u64,
    /// Pixels per rendered column for the requested zoom.
    pub x_step: u64,
    /// Samples the raster covers at the requested zoom.
    pub req_sample_window: u64,
    pub half_req_sample_window: u64,
    pub quarter_req_sample_window: u64,
}

impl WaveformBuffer {
    /// Well-formedness of everything but the derived sample window.
    pub open spec fn wf_core(self) -> bool {
        &&& self.state.wf()
        &&& self.image.wf()
        &&& self.current_sample <= MAX_SAMPLE_INDEX
        &&& self.previous_sample <= MAX_SAMPLE_INDEX
        &&& self.cursor_sample <= MAX_SAMPLE_INDEX
        &&& (self.sought_sample matches Some(s) ==> s <= MAX_SAMPLE_INDEX)
        &&& (self.first_visible_sample matches Some(f) ==> f <= MAX_VISIBLE_INDEX)
        &&& (self.first_visible_sample_lock matches Some(l) ==> l.0 <= MAX_VISIBLE_INDEX)
        &&& self.req_duration_per_1000px <= MAX_REQ_DURATION
        &&& self.width <= MAX_DIMENSION
        &&& self.height <= MAX_DIMENSION
        &&& self.sample_step <= MAX_SAMPLE_STEP
        &&& self.x_step <= MAX_X_STEP
        &&& (self.sample_step > 0 <==> self.x_step > 0)
        &&& self.sample_step > 0 ==> self.state.rate > 0
        &&& self.image.sample_step > 0 ==> self.state.rate > 0
    }

    pub open spec fn wf(self) -> bool {
        &&& self.wf_core()
        &&& self.half_req_sample_window <= MAX_HALF_WINDOW
        &&& self.req_sample_window == 2 * self.half_req_sample_window
        &&& self.quarter_req_sample_window == self.half_req_sample_window / 2
        &&& self.req_sample_window > 0 ==> self.sample_step >= 1
        &&& self.sample_step == spec_sample_step(
            self.req_duration_per_1000px as int,
            self.state.rate as int,
        )
        &&& self.x_step == spec_x_step(self.req_duration_per_1000px as int, self.state.rate as int)
        &&& self.half_req_sample_window == spec_half_window(
            self.width as int,
            self.sample_step as int,
            self.x_step as int,
        )
    }

    pub fn new(id: usize) -> (r: WaveformBuffer)
        ensures
            r.wf(),
            r.image.id == id,
            !r.image.is_ready,
            r.first_visible_sample is None,
            r.first_visible_sample_lock is None,
            r.sought_sample is None,
            r.req_sample_window == 0,
            r.state.rate == 0,
            r.image.hist@ == Seq::<i64>::empty(),
            !r.conditions_changed,
    {
        WaveformBuffer {
            state: SamplesExtractionState::new(),
            conditions_changed: false,
            image: WaveformImage::new(id),
            previous_sample: 0,
            current_sample: 0,
            cursor_sample: 0,
            cursor_position: 0,
            first_visible_sample: None,
            first_visible_sample_lock: None,
            sought_sample: None,
            playback_needs_refresh: false,
            req_duration_per_1000px: 0,
            width: 0,
            height: 0,
            sample_step: 0,
            x_step: 0,
            req_sample_window: 0,
            half_req_sample_window: 0,
            quarter_req_sample_window: 0,
        }
    }

    /// Resets all view state for reuse on the next stream; the image
    /// identity survives.
    pub fn cleanup(&mut self)
        ensures
            final(self).wf(),
            final(self).image.id == old(self).image.id,
            !final(self).image.is_ready,
            final(self).first_visible_sample is None,
            final(self).first_visible_sample_lock is None,
            final(self).sought_sample is None,
            final(self).req_sample_window == 0,
            final(self).half_req_sample_window == 0,
            final(self).quarter_req_sample_window == 0,
            final(self).state.rate == 0,
            final(self).state.sample_duration == 0,
            !final(self).playback_needs_refresh,
            !final(self).conditions_changed,
            final(self).image.hist@ == Seq::<i64>::empty(),
            final(self).previous_sample == 0,
            final(self).current_sample == 0,
            final(self).cursor_sample == 0,
            final(self).cursor_position == 0,
            final(self).req_duration_per_1000px == 0,
            final(self).width == 0,
            final(self).height == 0,
            final(self).sample_step == 0,
            final(self).x_step == 0,
            final(self).image.lower == 0,
            final(self).image.upper == 0,
            final(self).image.sample_step == 0,
            final(self).image.x_step == 0,
            final(self).image.cols@.len() == 0,
            !final(self).image.contains_eos,
    {
        self.state.cleanup();
        self.conditions_changed = false;
        self.image.cleanup();
        self.previous_sample = 0;
        self.current_sample = 0;
        self.cursor_sample = 0;
        self.cursor_position = 0;
        self.first_visible_sample = None;
        self.first_visible_sample_lock = None;
        self.sought_sample = None;
        self.playback_needs_refresh = false;
        self.req_duration_per_1000px = 0;
        self.width = 0;
        self.height = 0;
        self.sample_step = 0;
        self.x_step = 0;
        self.req_sample_window = 0;
        self.half_req_sample_window = 0;
        self.quarter_req_sample_window = 0;
    }

    /// Records the stream rate and re-derives the resolution and the
    /// sample window for it.
    pub fn set_sample_duration(&mut self, rate: u64)
        requires
            old(self).wf(),
            1 <= rate <= MAX_RATE,
        ensures
            final(self).wf(),
            final(self).state.rate == rate,
            final(self).sample_step == spec_sample_step(
                old(self).req_duration_per_1000px as int,
                rate as int,
            ),
            final(self).x_step == spec_x_step(old(self).req_duration_per_1000px as int, rate as int),
            final(self).half_req_sample_window == spec_half_window(
                old(self).width as int,
                final(self).sample_step as int,
                final(self).x_step as int,
            ),
            final(self).conditions_changed,
            final(self).image == old(self).image,
            final(self).first_visible_sample == old(self).first_visible_sample,
            final(self).first_visible_sample_lock == old(self).first_visible_sample_lock,
            final(self).cursor_sample == old(self).cursor_sample,
            final(self).req_duration_per_1000px == old(self).req_duration_per_1000px,
            final(self).width == old(self).width,
            final(self).height == old(self).height,
            final(self).state.sample_duration == NANOS_PER_SEC / rate,
    {
        self.state.set_sample_duration(rate);
        self.update_sample_step();
        self.update_sample_window();
    }

    /// Re-derives the resolution: how many samples one rendered column
    /// collapses (zoomed out) or how many pixels one sample spans
    /// (zoomed in).
    fn update_sample_step(&mut self)
        requires
            old(self).wf_core(),
        ensures
            final(self).wf_core(),
            *final(self) == (WaveformBuffer {
                sample_step: final(self).sample_step,
                x_step: final(self).x_step,
                conditions_changed: true,
                ..*old(self)
            }),
            final(self).sample_step == spec_sample_step(
                old(self).req_duration_per_1000px as int,
                old(self).state.rate as int,
            ),
            final(self).x_step == spec_x_step(
                old(self).req_duration_per_1000px as int,
                old(self).state.rate as int,
            ),
    {
        let req = self.req_duration_per_1000px;
        let rate = self.state.rate;
        if req == 0 || rate == 0 {
            self.sample_step = 0;
            self.x_step = 0;
        } else {
            proof {
                assert(1 <= req * rate <= MAX_REQ_DURATION * MAX_RATE) by (nonlinear_arith)
                    requires
                        1 <= req <= MAX_REQ_DURATION,
                        1 <= rate <= MAX_RATE,
                ;
            }
            let p = req * rate;
            if p >= NANOS_PER_1000_SAMPLES {
                proof {
                    vstd::arithmetic::div_mod::lemma_div_is_ordered(
                        p as int,
                        (MAX_REQ_DURATION * MAX_RATE) as int,
                        NANOS_PER_1000_SAMPLES as int,
                    );
                    vstd::arithmetic::div_mod::lemma_div_is_ordered(
                        NANOS_PER_1000_SAMPLES as int,
                        p as int,
                        NANOS_PER_1000_SAMPLES as int,
                    );
                    vstd::arithmetic::div_mod::lemma_div_by_self(NANOS_PER_1000_SAMPLES as int);
                }
                self.sample_step = p / NANOS_PER_1000_SAMPLES;
                self.x_step = 1;
            } else {
                self.sample_step = 1;
                proof {
                    vstd::arithmetic::div_mod::lemma_div_is_ordered(
                        p as int,
                        (NANOS_PER_1000_SAMPLES + p - 1) as int,
                        p as int,
                    );
                    vstd::arithmetic::div_mod::lemma_div_by_self(p as int);
                }
                let c = (NANOS_PER_1000_SAMPLES + p - 1) / p;
                self.x_step = if c > MAX_X_STEP {
                    MAX_X_STEP
                } else {
                    c
                };
            }
        }
        self.conditions_changed = true;
    }

    /// Re-derives the sample window: an even number of samples so the
    /// cursor can sit exactly in the middle of the raster.
    fn update_sample_window(&mut self)
        requires
            old(self).wf_core(),
            old(self).sample_step == spec_sample_step(
                old(self).req_duration_per_1000px as int,
                old(self).state.rate as int,
            ),
            old(self).x_step == spec_x_step(
                old(self).req_duration_per_1000px as int,
                old(self).state.rate as int,
            ),
        ensures
            final(self).wf(),
            *final(self) == (WaveformBuffer {
                half_req_sample_window: final(self).half_req_sample_window,
                req_sample_window: final(self).req_sample_window,
                quarter_req_sample_window: final(self).quarter_req_sample_window,
                conditions_changed: true,
                ..*old(self)
            }),
            final(self).half_req_sample_window == spec_half_window(
                old(self).width as int,
                old(self).sample_step as int,
                old(self).x_step as int,
            ),
            final(self).req_sample_window == 2 * final(self).half_req_sample_window,
            final(self).quarter_req_sample_window == final(self).half_req_sample_window / 2,
    {
        let half: u64 = if self.x_step == 0 {
            0
        } else {
            proof {
                assert(self.width * self.sample_step <= MAX_DIMENSION * MAX_SAMPLE_STEP) by (
                nonlinear_arith)
                    requires
                        self.width <= MAX_DIMENSION,
                        self.sample_step <= MAX_SAMPLE_STEP,
                ;
            }
            let covered = self.width * self.sample_step / self.x_step;
            proof {
                vstd::arithmetic::div_mod::lemma_div_is_ordered(
                    (self.width * self.sample_step) as int,
                    (MAX_DIMENSION * MAX_SAMPLE_STEP) as int,
                    self.x_step as int,
                );
                vstd::arithmetic::div_mod::lemma_div_is_ordered(
                    covered as int,
                    (MAX_DIMENSION * MAX_SAMPLE_STEP) as int,
                    2,
                );
            }
            covered / 2
        };
        self.half_req_sample_window = half;
        self.req_sample_window = 2 * half;
        self.quarter_req_sample_window = half / 2;
        self.conditions_changed = true;
    }

    /// The window origin after a zoom or resize, chosen so the cursor
    /// keeps its on-screen offset, scaled to the new window; the origin
    /// snaps away (None) when the cursor would land within one step of
    /// the start, or precedes the old origin.
    pub open spec fn spec_rebase_first(
        first: int,
        cursor: int,
        old_win: int,
        new_win: int,
        step: int,
    ) -> Option<u64> {
        if old_win <= 0 || cursor < first || cursor - first > old_win {
            None
        } else {
            let off = (cursor - first) * new_win / old_win;
            if off + step >= cursor {
                None
            } else {
                Some((cursor - off) as u64)
            }
        }
    }

    /// The window origin and seek lock carried across a declaration of
    /// view conditions: rebased to the new window when the zoom or the
    /// width actually changes, untouched otherwise.
    pub open spec fn spec_conditions_continuity(
        s: WaveformBuffer,
        duration: u64,
        width: u64,
        new_window: int,
        new_step: int,
    ) -> (Option<u64>, Option<(u64, bool)>) {
        if duration == s.req_duration_per_1000px && width == s.width {
            (s.first_visible_sample, s.first_visible_sample_lock)
        } else {
            match s.first_visible_sample {
                Some(f) => {
                    let rebased = WaveformBuffer::spec_rebase_first(
                        f as int,
                        s.cursor_sample as int,
                        s.req_sample_window as int,
                        new_window,
                        new_step,
                    );
                    (
                        rebased,
                        match rebased {
                            Some(nf) => match s.first_visible_sample_lock {
                                Some(lk) => Some((nf, lk.1)),
                                None => None,
                            },
                            None => s.first_visible_sample_lock,
                        },
                    )
                },
                None => (None, s.first_visible_sample_lock),
            }
        }
    }

    /// Declares the desired zoom level and raster size. Re-derives the
    /// resolution and the sample window where they changed, forwards
    /// the new dimensions to the image, and rebases the window origin
    /// so the cursor keeps its on-screen position.
    pub fn update_conditions(&mut self, duration_per_1000px: u64, width: u64, height: u64)
        requires
            old(self).wf(),
            1 <= duration_per_1000px <= MAX_REQ_DURATION,
            width <= MAX_DIMENSION,
            height <= MAX_DIMENSION,
        ensures
            final(self).wf(),
            final(self).req_duration_per_1000px == duration_per_1000px,
            final(self).width == width,
            final(self).height == height,
            final(self).state == old(self).state,
            final(self).cursor_sample == old(self).cursor_sample,
            final(self).current_sample == old(self).current_sample,
            final(self).previous_sample == old(self).previous_sample,
            final(self).cursor_position == old(self).cursor_position,
            final(self).sought_sample == old(self).sought_sample,
            final(self).playback_needs_refresh == old(self).playback_needs_refresh,
            duration_per_1000px != old(self).req_duration_per_1000px ==> {
                &&& final(self).sample_step == spec_sample_step(
                    duration_per_1000px as int,
                    old(self).state.rate as int,
                )
                &&& final(self).x_step == spec_x_step(
                    duration_per_1000px as int,
                    old(self).state.rate as int,
                )
            },
            duration_per_1000px == old(self).req_duration_per_1000px ==> {
                &&& final(self).sample_step == old(self).sample_step
                &&& final(self).x_step == old(self).x_step
            },
            (duration_per_1000px != old(self).req_duration_per_1000px || width != old(self).width) ==> {
                &&& final(self).half_req_sample_window == spec_half_window(
                    width as int,
                    final(self).sample_step as int,
                    final(self).x_step as int,
                )
                &&& final(self).req_sample_window == 2 * final(self).half_req_sample_window
                &&& (match old(self).first_visible_sample {
                    Some(first) => {
                        let rebased = WaveformBuffer::spec_rebase_first(
                            first as int,
                            old(self).cursor_sample as int,
                            old(self).req_sample_window as int,
                            final(self).req_sample_window as int,
                            final(self).sample_step as int,
                        );
                        &&& final(self).first_visible_sample == rebased
                        &&& final(self).first_visible_sample_lock == (match rebased {
                            Some(nf) => match old(self).first_visible_sample_lock {
                                Some(lk) => Some((nf, lk.1)),
                                None => None,
                            },
                            None => old(self).first_visible_sample_lock,
                        })
                    },
                    None => {
                        &&& final(self).first_visible_sample is None
                        &&& final(self).first_visible_sample_lock == old(
                            self,
                        ).first_visible_sample_lock
                    },
                })
            },
            (duration_per_1000px == old(self).req_duration_per_1000px && width == old(self).width) ==> {
                &&& final(self).half_req_sample_window == old(self).half_req_sample_window
                &&& final(self).req_sample_window == old(self).req_sample_window
                &&& final(self).first_visible_sample == old(self).first_visible_sample
                &&& final(self).first_visible_sample_lock == old(self).first_visible_sample_lock
            },
            final(self).sample_step >= 1 ==> final(self).image.sample_step == final(self).sample_step,
            final(self).sample_step >= 1 ==> final(self).image.x_step == final(self).x_step,
            final(self).sample_step >= 1 ==> final(self).image.width == width,
            final(self).sample_step >= 1 ==> final(self).image.height == height,
            final(self).sample_step == 0 ==> final(self).image == old(self).image,
            (duration_per_1000px != old(self).req_duration_per_1000px || width != old(
                self,
            ).width) ==> final(self).conditions_changed,
            final(self).image.id == old(self).image.id,
            final(self).image.lower == old(self).image.lower,
            final(self).image.upper == old(self).image.upper,
            final(self).image.hist == old(self).image.hist,
            final(self).image.cols == old(self).image.cols,
            final(self).image.is_ready == old(self).image.is_ready,
            final(self).image.contains_eos == old(self).image.contains_eos,
    {
        let duration_changed = duration_per_1000px != self.req_duration_per_1000px;
        self.req_duration_per_1000px = duration_per_1000px;
        if duration_changed {
            self.update_sample_step();
        }
        let width_changed = width != self.width;
        self.width = width;
        self.height = height;
        if self.sample_step >= 1 {
            self.image.update_dimensions(self.sample_step, self.x_step, width, height);
        }
        if duration_changed || width_changed {
            let prev_window = self.req_sample_window;
            self.update_sample_window();
            let fv = self.first_visible_sample;
            match fv {
                Some(first) => {
                    if prev_window > 0 && self.cursor_sample >= first && self.cursor_sample - first
                        <= prev_window {
                        let d = self.cursor_sample - first;
                        proof {
                            let dd = d as int;
                            let nw = self.req_sample_window as int;
                            let ow = prev_window as int;
                            assert(dd * nw <= ow * nw) by (nonlinear_arith)
                                requires
                                    0 <= dd <= ow,
                                    0 <= nw,
                            ;
                            assert(dd * nw < 0x1_0000_0000_0000_0000_0000_0000_0000_0000) by (
                            nonlinear_arith)
                                requires
                                    0 <= dd <= 2 * MAX_HALF_WINDOW,
                                    0 <= nw <= 2 * MAX_HALF_WINDOW,
                            ;
                            vstd::arithmetic::div_mod::lemma_div_is_ordered(dd * nw, ow * nw, ow);
                            vstd::arithmetic::div_mod::lemma_div_multiples_vanish(nw, ow);
                        }
                        let off128 = (d as u128) * (self.req_sample_window as u128) / (
                        prev_window as u128);
                        let off = off128 as u64;
                        if off + self.sample_step >= self.cursor_sample {
                            self.first_visible_sample = None;
                        } else {
                            let nf = self.cursor_sample - off;
                            self.first_visible_sample = Some(nf);
                            let lk = self.first_visible_sample_lock;
                            if let Some((_, keep)) = lk {
                                self.first_visible_sample_lock = Some((nf, keep));
                            }
                        }
                    } else {
                        self.first_visible_sample = None;
                    }
                },
                None => {},
            }
        }
    }

    /// The state after a transport seek; the policy of record for
    /// `seek`.
    pub open spec fn spec_seek(s: WaveformBuffer, position: u64, is_playing: bool) -> WaveformBuffer {
        if s.image.sample_step == 0 {
            s
        } else {
            let step = s.image.sample_step as int;
            let sought = position as int / s.state.sample_duration as int / step * step;
            WaveformBuffer {
                sought_sample: Some(sought as u64),
                cursor_sample: sought as u64,
                first_visible_sample: if is_playing {
                    s.first_visible_sample
                } else {
                    Option::<u64>::None
                },
                first_visible_sample_lock: match s.first_visible_sample {
                    Some(f) => if is_playing && sought >= f && sought <= f + s.req_sample_window
                        && s.image.upper - s.image.lower >= s.req_sample_window {
                        Some((f, false))
                    } else {
                        None
                    },
                    None => None,
                },
                ..s
            }
        }
    }

    /// Applies a transport seek: aligns the sought position to the
    /// step grid, moves the cursor there at once and, while playing
    /// with the target still inside the window, pins the window origin
    /// so the cursor jumps without scrolling the waveform.
    pub fn seek(&mut self, position: u64, is_playing: bool)
        requires
            old(self).wf(),
            old(self).image.sample_step >= 1 ==> position <= old(self).state.max_position(),
        ensures
            final(self).wf(),
            old(self).image.sample_step == 0 ==> *final(self) == *old(self),
            old(self).image.sample_step >= 1 ==> ({
                let step = old(self).image.sample_step as int;
                let sought = position as int / old(self).state.sample_duration as int / step
                    * step;
                &&& final(self).sought_sample == Some(sought as u64)
                &&& final(self).cursor_sample == sought
                &&& final(self).first_visible_sample == (if is_playing {
                    old(self).first_visible_sample
                } else {
                    Option::<u64>::None
                })
                &&& final(self).first_visible_sample_lock == (match old(self).first_visible_sample {
                    Some(f) => if is_playing && sought >= f && sought <= f + old(self).req_sample_window && old(self).image.upper - old(self).image.lower >= old(self).req_sample_window {
                        Some((f, false))
                    } else {
                        None
                    },
                    None => None,
                })
                &&& final(self).current_sample == old(self).current_sample
                &&& final(self).previous_sample == old(self).previous_sample
                &&& final(self).image == old(self).image
                &&& final(self).req_sample_window == old(self).req_sample_window
            }),
            final(self).state == old(self).state,
            final(self).image == old(self).image,
            final(self).half_req_sample_window == old(self).half_req_sample_window,
            final(self).quarter_req_sample_window == old(self).quarter_req_sample_window,
            final(self).req_sample_window == old(self).req_sample_window,
            *final(self) == WaveformBuffer::spec_seek(*old(self), position, is_playing),
    {
        if self.image.sample_step == 0 {
            return ;
        }
        self.first_visible_sample_lock = None;
        proof {
            vstd::arithmetic::div_mod::lemma_div_is_ordered(
                position as int,
                old(self).state.max_position() as int,
                old(self).state.sample_duration as int,
            );
            vstd::arithmetic::div_mod::lemma_div_multiples_vanish(
                MAX_SAMPLE_INDEX as int,
                old(self).state.sample_duration as int,
            );
        }
        let in_samples = position / self.state.sample_duration;
        let step = self.image.sample_step;
        let q = in_samples / step;
        proof {
            vstd::arithmetic::div_mod::lemma_fundamental_div_mod(in_samples as int, step as int);
            vstd::arithmetic::div_mod::lemma_mod_bound(in_samples as int, step as int);
            assert(q * step == step * q) by (nonlinear_arith);
        }
        let sought = q * step;
        if is_playing {
            let fv = self.first_visible_sample;
            if let Some(first_visible) = fv {
                if sought >= first_visible && sought <= first_visible + self.req_sample_window
                    && self.image.upper - self.image.lower >= self.req_sample_window {
                    self.first_visible_sample_lock = Some((first_visible, false));
                }
            }
        } else {
            self.first_visible_sample = None;
        }
        self.sought_sample = Some(sought);
        self.cursor_sample = sought;
    }

    /// Pins the window origin for the whole of an upcoming bounded
    /// range playback, so scrubbing a selection does not scroll.
    pub fn start_play_range(&mut self)
        requires
            old(self).wf(),
        ensures
            final(self).wf(),
            old(self).image.sample_step == 0 ==> *final(self) == *old(self),
            old(self).image.sample_step >= 1 ==> *final(self) == (WaveformBuffer {
                first_visible_sample_lock: match old(self).first_visible_sample {
                    Some(f) => Some((f, true)),
                    None => old(self).first_visible_sample_lock,
                },
                ..*old(self)
            }),
    {
        if self.image.sample_step == 0 {
            return ;
        }
        let fv = self.first_visible_sample;
        if let Some(first_visible) = fv {
            self.first_visible_sample_lock = Some((first_visible, true));
        }
    }

    /// The timestamp shown under a pixel: the first visible sample
    /// advanced by the columns left of the pixel, when that lands on
    /// drawable data.
    pub open spec fn spec_position_at(s: WaveformBuffer, x: u64) -> Option<u64> {
        match s.first_visible_sample {
            Some(f) => {
                if s.image.sample_step == 0 || s.image.x_step == 0 {
                    Option::<u64>::None
                } else {
                    let at = f + x as int / s.image.x_step as int * s.image.sample_step as int;
                    if (!s.image.contains_eos || at < s.image.upper) && at <= MAX_VISIBLE_INDEX {
                        Some((at * s.state.sample_duration) as u64)
                    } else {
                        None
                    }
                }
            },
            None => None,
        }
    }

    /// The playback timestamp under a pixel of the display, when that
    /// pixel shows a sample.
    pub fn get_position_at(&self, x: u64) -> (r: Option<u64>)
        requires
            self.wf(),
            x <= MAX_DIMENSION,
        ensures
            r == WaveformBuffer::spec_position_at(*self, x),
    {
        let fv = self.first_visible_sample;
        match fv {
            Some(f) => {
                if self.image.sample_step == 0 || self.image.x_step == 0 {
                    return None;
                }
                proof {
                    vstd::arithmetic::div_mod::lemma_div_nonincreasing(
                        x as int,
                        self.image.x_step as int,
                    );
                    assert((x as int / self.image.x_step as int) * self.image.sample_step as int
                        <= MAX_DIMENSION * MAX_SAMPLE_STEP) by (nonlinear_arith)
                        requires
                            0 <= x as int / self.image.x_step as int <= MAX_DIMENSION,
                            self.image.sample_step <= MAX_SAMPLE_STEP,
                    ;
                    assert((x as int / self.image.x_step as int) * self.image.sample_step as int
                        == x as int / self.image.x_step as int * self.image.sample_step as int);
                }
                let cols = x / self.image.x_step;
                let s = f + cols * self.image.sample_step;
                if (!self.image.contains_eos || s < self.image.upper) && s <= MAX_VISIBLE_INDEX {
                    proof {
                        vstd::arithmetic::div_mod::lemma_div_nonincreasing(
                            NANOS_PER_SEC as int,
                            self.state.rate as int,
                        );
                        assert(s * self.state.sample_duration <= MAX_VISIBLE_INDEX
                            * NANOS_PER_SEC) by (nonlinear_arith)
                            requires
                                s <= MAX_VISIBLE_INDEX,
                                self.state.sample_duration <= NANOS_PER_SEC,
                        ;
                    }
                    Some(s * self.state.sample_duration)
                } else {
                    None
                }
            },
            None => None,
        }
    }

    /// Whether the cached playback sample has left the range the store
    /// retains — as right after a seek or another discontinuity — so
    /// the position source should be queried anew rather than trusting
    /// the incrementally tracked value.
    pub fn position_is_stale(&self, audio: &AudioBuffer) -> (r: bool)
        ensures
            r == (self.current_sample < audio.lower || self.current_sample > audio.upper),
    {
        self.current_sample < audio.lower || self.current_sample > audio.upper
    }

    /// Folds a freshly queried playback position into the cursor
    /// state; with no position known, the last cached cursor stands.
    /// At end of stream the cursor is clipped to the rendered range.
    pub fn refresh_position(&mut self, position: Option<u64>)
        requires
            old(self).wf(),
            old(self).state.sample_duration > 0 ==> (position matches Some(p) ==> p <= old(self).state.max_position()),
        ensures
            final(self).wf(),
            *final(self) == WaveformBuffer::spec_refresh_position(*old(self), position),
            final(self).image == old(self).image,
            final(self).state == old(self).state,
            final(self).first_visible_sample == old(self).first_visible_sample,
            final(self).first_visible_sample_lock == old(self).first_visible_sample_lock,
            final(self).req_sample_window == old(self).req_sample_window,
    {
        if self.state.sample_duration == 0 {
            return ;
        }
        match position {
            Some(p) => {
                let s0 = self.state.sample_at(p);
                let s = if self.image.contains_eos && s0 >= self.image.upper && self.image.upper
                    >= 1 {
                    self.image.upper - 1
                } else {
                    s0
                };
                if self.previous_sample != s {
                    let sought = self.sought_sample;
                    match sought {
                        None => {
                            self.previous_sample = self.current_sample;
                        },
                        Some(_) => {
                            self.sought_sample = None;
                            self.previous_sample = s;
                        },
                    }
                    self.current_sample = s;
                    self.cursor_sample = s;
                    self.cursor_position = p;
                }
            },
            None => {},
        }
    }

    /// Leaves playing mode: a pending in-flight seek is forgotten so
    /// the paused window is recomputed only on explicit refreshes.
    pub fn switch_to_paused(&mut self)
        requires
            old(self).wf(),
        ensures
            final(self).wf(),
            *final(self) == (WaveformBuffer { sought_sample: None, ..*old(self) }),
    {
        self.sought_sample = None;
    }

    /// Pulls the continuity state of the previously exposed extractor
    /// into this one right before a swap, so cursor tracking survives
    /// the hand-off; pushes the refresh flag the other way, and takes
    /// over changed view conditions.
    pub fn update_concrete_state(&mut self, other: &mut WaveformBuffer)
        requires
            old(self).wf(),
            old(other).wf(),
            old(self).state == old(other).state,
        ensures
            final(self).wf(),
            final(other).wf(),
            final(self).previous_sample == old(other).previous_sample,
            final(self).current_sample == old(other).current_sample,
            final(self).cursor_sample == old(other).cursor_sample,
            final(self).cursor_position == old(other).cursor_position,
            final(self).first_visible_sample == old(other).first_visible_sample,
            final(self).first_visible_sample_lock == old(other).first_visible_sample_lock,
            final(self).sought_sample == old(other).sought_sample,
            final(self).state == old(other).state,
            final(self).playback_needs_refresh == old(self).playback_needs_refresh,
            final(self).image.cols == old(self).image.cols,
            final(self).image.id == old(self).image.id,
            final(self).image.lower == old(self).image.lower,
            final(self).image.upper == old(self).image.upper,
            final(self).image.hist == old(self).image.hist,
            final(self).image.is_ready == old(self).image.is_ready,
            final(self).image.contains_eos == old(self).image.contains_eos,
            final(self).req_sample_window == (if old(other).conditions_changed {
                old(other).req_sample_window
            } else {
                old(self).req_sample_window
            }),
            *final(other) == (WaveformBuffer {
                playback_needs_refresh: old(self).playback_needs_refresh,
                conditions_changed: false,
                ..*old(other)
            }),
            old(other).conditions_changed ==> {
                &&& final(self).req_duration_per_1000px == old(other).req_duration_per_1000px
                &&& final(self).width == old(other).width
                &&& final(self).height == old(other).height
                &&& final(self).sample_step == old(other).sample_step
                &&& final(self).x_step == old(other).x_step
                &&& final(self).req_sample_window == old(other).req_sample_window
                &&& final(self).half_req_sample_window == old(other).half_req_sample_window
                &&& final(self).quarter_req_sample_window == old(other).quarter_req_sample_window
            },
            !old(other).conditions_changed ==> {
                &&& final(self).req_duration_per_1000px == old(self).req_duration_per_1000px
                &&& final(self).sample_step == old(self).sample_step
                &&& final(self).x_step == old(self).x_step
                &&& final(self).req_sample_window == old(self).req_sample_window
                &&& final(self).half_req_sample_window == old(self).half_req_sample_window
                &&& final(self).quarter_req_sample_window == old(self).quarter_req_sample_window
                &&& final(self).width == old(self).width
                &&& final(self).height == old(self).height
            },
            old(other).image.has_conditions() ==> {
                &&& final(self).image.sample_step == old(other).image.sample_step
                &&& final(self).image.x_step == old(other).image.x_step
                &&& final(self).image.width == old(other).image.width
                &&& final(self).image.height == old(other).image.height
            },
            !old(other).image.has_conditions() ==> final(self).image == old(self).image,
    {
        self.previous_sample = other.previous_sample;
        self.current_sample = other.current_sample;
        self.cursor_sample = other.cursor_sample;
        self.cursor_position = other.cursor_position;
        self.first_visible_sample = other.first_visible_sample;
        self.first_visible_sample_lock = other.first_visible_sample_lock;
        self.sought_sample = other.sought_sample;
        self.state = other.state;

        other.playback_needs_refresh = self.playback_needs_refresh;

        if other.conditions_changed {
            self.req_duration_per_1000px = other.req_duration_per_1000px;
            self.width = other.width;
            self.height = other.height;
            self.sample_step = other.sample_step;
            self.x_step = other.x_step;
            self.req_sample_window = other.req_sample_window;
            self.half_req_sample_window = other.half_req_sample_window;
            self.quarter_req_sample_window = other.quarter_req_sample_window;
            other.conditions_changed = false;
        } else {
            other.conditions_changed = false;
        }

        if other.image.sample_step >= 1 && other.image.x_step >= 1 {
            self.image.sync_conditions(&other.image);
        }
    }

    /// The window-origin decision taken on each frame: from the cursor,
    /// the rendered range and the seek lock, choose the first visible
    /// sample, the next lock state and whether an in-flight seek is
    /// settled. This is the policy of record; the executable code
    /// mirrors it.
    pub open spec fn spec_next_window(s: WaveformBuffer) -> (Option<u64>, Option<(u64, bool)>, Option<
        u64,
    >) {
        let img = s.image;
        let cursor = s.cursor_sample as int;
        let half = s.half_req_sample_window as int;
        let req = s.req_sample_window as int;
        let step = img.sample_step as int;
        let lower = img.lower as int;
        let upper = img.upper as int;
        if !img.is_ready {
            (None, s.first_visible_sample_lock, s.sought_sample)
        } else if cursor >= lower {
            match s.first_visible_sample_lock {
                Some(lk) => {
                    let l = lk.0 as int;
                    let keep = lk.1;
                    let offset_to_center = cursor - half - l;
                    if keep || offset_to_center < -step {
                        (Some(lk.0), s.first_visible_sample_lock, s.sought_sample)
                    } else if offset_to_center <= step {
                        let nf = if lower > cursor - half {
                            lower
                        } else {
                            cursor - half
                        };
                        (Some(nf as u64), None, None)
                    } else if l + req < upper {
                        let prev = s.previous_sample as int;
                        let target = cursor - (prev - l) + (cursor - prev);
                        let nl = if lower > target {
                            lower
                        } else {
                            target
                        };
                        (Some(nl as u64), Some((nl as u64, false)), s.sought_sample)
                    } else {
                        if lower + req < upper {
                            let nl = (upper - req) as u64;
                            if !img.contains_eos {
                                (Some(nl), Some((nl, false)), s.sought_sample)
                            } else {
                                (Some(nl), None, s.sought_sample)
                            }
                        } else {
                            (Some(img.lower), None, s.sought_sample)
                        }
                    }
                },
                None => {
                    if cursor + half <= upper {
                        if cursor > lower + half {
                            (Some((cursor - half) as u64), None, s.sought_sample)
                        } else {
                            (Some(img.lower), None, s.sought_sample)
                        }
                    } else if cursor >= upper {
                        if upper + req >= cursor {
                            if cursor > lower + req {
                                (Some((cursor - req) as u64), None, s.sought_sample)
                            } else {
                                (Some(img.lower), None, s.sought_sample)
                            }
                        } else {
                            (None, None, s.sought_sample)
                        }
                    } else if lower + req < upper {
                        (Some((upper - req) as u64), None, s.sought_sample)
                    } else {
                        (Some(img.lower), None, s.sought_sample)
                    }
                },
            }
        } else if cursor + req > lower {
            (Some(img.lower), s.first_visible_sample_lock, s.sought_sample)
        } else {
            (None, s.first_visible_sample_lock, s.sought_sample)
        }
    }

    /// Chooses the first sample to display for the current cursor, per
    /// the window-origin policy.
    pub fn update_first_visible_sample(&mut self)
        requires
            old(self).wf(),
        ensures
            final(self).wf(),
            *final(self) == (WaveformBuffer {
                first_visible_sample: WaveformBuffer::spec_next_window(*old(self)).0,
                first_visible_sample_lock: WaveformBuffer::spec_next_window(*old(self)).1,
                sought_sample: WaveformBuffer::spec_next_window(*old(self)).2,
                ..*old(self)
            }),
    {
        if !self.image.is_ready {
            self.first_visible_sample = None;
            return ;
        }
        let cursor = self.cursor_sample;
        let half = self.half_req_sample_window;
        let req = self.req_sample_window;
        let step = self.image.sample_step;
        let lower = self.image.lower;
        let upper = self.image.upper;
        if cursor >= lower {
            let lock = self.first_visible_sample_lock;
            match lock {
                Some((l, keep)) => {
                    let offset_to_center: i64 = cursor as i64 - half as i64 - l as i64;
                    if keep || offset_to_center < -(step as i64) {
                        self.first_visible_sample = Some(l);
                    } else if offset_to_center <= step as i64 {
                        let centered = if cursor >= half && cursor - half > lower {
                            cursor - half
                        } else {
                            lower
                        };
                        self.first_visible_sample_lock = None;
                        self.sought_sample = None;
                        self.first_visible_sample = Some(centered);
                    } else if l + req < upper {
                        let target: i64 = 2 * (cursor as i64) - 2 * (self.previous_sample as i64)
                            + l as i64;
                        let nl: u64 = if (lower as i64) > target {
                            lower
                        } else {
                            target as u64
                        };
                        self.first_visible_sample_lock = Some((nl, false));
                        self.first_visible_sample = Some(nl);
                    } else {
                        if lower + req < upper {
                            let nl = upper - req;
                            if !self.image.contains_eos {
                                self.first_visible_sample_lock = Some((nl, false));
                            } else {
                                self.first_visible_sample_lock = None;
                            }
                            self.first_visible_sample = Some(nl);
                        } else {
                            self.first_visible_sample_lock = None;
                            self.first_visible_sample = Some(lower);
                        }
                    }
                },
                None => {
                    if cursor + half <= upper {
                        if cursor > lower + half {
                            self.first_visible_sample = Some(cursor - half);
                        } else {
                            self.first_visible_sample = Some(lower);
                        }
                    } else if cursor >= upper {
                        if upper + req >= cursor {
                            if cursor > lower + req {
                                self.first_visible_sample = Some(cursor - req);
                            } else {
                                self.first_visible_sample = Some(lower);
                            }
                        } else {
                            self.first_visible_sample = None;
                        }
                    } else if lower + req < upper {
                        self.first_visible_sample = Some(upper - req);
                    } else {
                        self.first_visible_sample = Some(lower);
                    }
                },
            }
        } else if cursor + req > lower {
            self.first_visible_sample = Some(lower);
        } else {
            self.first_visible_sample = None;
        }
    }

    /// First step of the range choice: how the rendered image and the
    /// store contents merge. None means the store has moved past the
    /// image and continuity must be dropped.
    pub open spec fn spec_merge_range(s: WaveformBuffer, audio: AudioBuffer) -> Option<(int, int)> {
        let il = s.image.lower as int;
        let iu = s.image.upper as int;
        let al = audio.lower as int;
        let au = audio.upper as int;
        if al <= il && au >= iu {
            Some((al, au))
        } else if al >= il && al < iu {
            Some((il, if au > iu { au } else { iu }))
        } else if al < il && au >= il {
            Some((al, if au > iu { au } else { iu }))
        } else {
            None
        }
    }

    /// Default range when no continuity constraint applies: the latest
    /// segment, up to a window and a half.
    pub open spec fn spec_fallback_range(s: WaveformBuffer, audio: AudioBuffer) -> (int, int) {
        let sl = audio.segment_lower as int;
        let au = audio.upper as int;
        let hi = sl + s.req_sample_window + s.half_req_sample_window;
        (sl, if au < hi { au } else { hi })
    }

    /// The sample range the next render should cover, with the
    /// continuity state it leaves behind, before clipping to the data
    /// actually retained in the store.
    pub open spec fn spec_sample_range_raw(s: WaveformBuffer, audio: AudioBuffer) -> ((int, int), Option<
        u64,
    >, Option<(u64, bool)>) {
        let req = s.req_sample_window as int;
        let half = s.half_req_sample_window as int;
        let quarter = s.quarter_req_sample_window as int;
        let cursor = s.cursor_sample as int;
        match WaveformBuffer::spec_merge_range(s, audio) {
            Some(lu) => {
                let lower = lu.0;
                let upper = lu.1;
                if upper - lower <= req {
                    ((lower, upper), None, None)
                } else {
                    match s.first_visible_sample {
                        Some(fv0) => {
                            let fv = fv0 as int;
                            if cursor >= fv && cursor < fv + req {
                                let hi = fv + req + half;
                                ((fv, if upper < hi { upper } else { hi }), s.first_visible_sample, s.first_visible_sample_lock)
                            } else {
                                match s.first_visible_sample_lock {
                                    Some(lk) => {
                                        if lk.1 {
                                            let l = lk.0 as int;
                                            let hi = l + req + half;
                                            ((l, if upper < hi { upper } else { hi }), s.first_visible_sample, s.first_visible_sample_lock)
                                        } else {
                                            (WaveformBuffer::spec_fallback_range(s, audio), None, None)
                                        }
                                    },
                                    None => (WaveformBuffer::spec_fallback_range(s, audio), None, None),
                                }
                            }
                        },
                        None => {
                            if cursor > lower + half && cursor < upper {
                                if cursor + half < upper {
                                    let hi = cursor + req;
                                    ((cursor - half, if upper < hi { upper } else { hi }), s.first_visible_sample, s.first_visible_sample_lock)
                                } else if upper > lower + req + quarter {
                                    ((upper - req - quarter, upper), s.first_visible_sample, s.first_visible_sample_lock)
                                } else if upper > lower + req {
                                    ((upper - req, upper), s.first_visible_sample, s.first_visible_sample_lock)
                                } else {
                                    (WaveformBuffer::spec_fallback_range(s, audio), s.first_visible_sample, s.first_visible_sample_lock)
                                }
                            } else {
                                (WaveformBuffer::spec_fallback_range(s, audio), s.first_visible_sample, s.first_visible_sample_lock)
                            }
                        },
                    }
                }
            },
            None => {
                let s1 = WaveformBuffer {
                    first_visible_sample: None,
                    first_visible_sample_lock: None,
                    ..s
                };
                ((WaveformBuffer::spec_fallback_range(s1, audio)), None, None)
            },
        }
    }

    /// `spec_sample_range_raw`, clipped to the samples the store still
    /// retains.
    pub open spec fn spec_sample_range(s: WaveformBuffer, audio: AudioBuffer) -> ((int, int), Option<
        u64,
    >, Option<(u64, bool)>) {
        let raw = WaveformBuffer::spec_sample_range_raw(s, audio);
        let al = audio.lower as int;
        let au = audio.upper as int;
        let lo0 = raw.0.0;
        let hi0 = raw.0.1;
        let lo = if lo0 < al {
            al
        } else if lo0 > au {
            au
        } else {
            lo0
        };
        let hi = if hi0 < lo {
            lo
        } else if hi0 > au {
            au
        } else {
            hi0
        };
        ((lo, hi), raw.1, raw.2)
    }

    /// Chooses the range the next render covers, merging the image
    /// with the store and dropping continuity when they cannot merge;
    /// the result is clipped to the retained samples.
    pub fn get_sample_range(&mut self, audio: &AudioBuffer) -> (r: (u64, u64))
        requires
            old(self).wf(),
            audio.wf(),
        ensures
            final(self).wf(),
            *final(self) == (WaveformBuffer {
                first_visible_sample: WaveformBuffer::spec_sample_range(*old(self), *audio).1,
                first_visible_sample_lock: WaveformBuffer::spec_sample_range(*old(self), *audio).2,
                ..*old(self)
            }),
            r.0 == WaveformBuffer::spec_sample_range(*old(self), *audio).0.0,
            r.1 == WaveformBuffer::spec_sample_range(*old(self), *audio).0.1,
            audio.lower <= r.0 <= r.1 <= audio.upper,
    {
        let al = audio.lower;
        let au = audio.upper;
        let il = self.image.lower;
        let iu = self.image.upper;
        let req = self.req_sample_window;
        let half = self.half_req_sample_window;
        let quarter = self.quarter_req_sample_window;
        let cursor = self.cursor_sample;

        let mut merged = true;
        let mut lower: u64 = 0;
        let mut upper: u64 = 0;
        if al <= il && au >= iu {
            lower = al;
            upper = au;
        } else if al >= il && al < iu {
            lower = il;
            upper = if au > iu {
                au
            } else {
                iu
            };
        } else if al < il && au >= il {
            lower = al;
            upper = if au > iu {
                au
            } else {
                iu
            };
        } else {
            self.first_visible_sample = None;
            self.first_visible_sample_lock = None;
            merged = false;
        }

        let range: (u64, u64) = if merged {
            if upper - lower <= req {
                self.first_visible_sample = None;
                self.first_visible_sample_lock = None;
                (lower, upper)
            } else {
                let fv_opt = self.first_visible_sample;
                match fv_opt {
                    Some(fv) => {
                        if cursor >= fv && cursor < fv + req {
                            let hi = fv + req + half;
                            (
                                fv,
                                if upper < hi {
                                    upper
                                } else {
                                    hi
                                },
                            )
                        } else {
                            let lk = self.first_visible_sample_lock;
                            match lk {
                                Some((l, true)) => {
                                    let hi = l + req + half;
                                    (
                                        l,
                                        if upper < hi {
                                            upper
                                        } else {
                                            hi
                                        },
                                    )
                                },
                                _ => {
                                    self.first_visible_sample = None;
                                    self.first_visible_sample_lock = None;
                                    self.fallback_range(audio)
                                },
                            }
                        }
                    },
                    None => {
                        if cursor > lower + half && cursor < upper {
                            if cursor + half < upper {
                                let hi = cursor + req;
                                (
                                    cursor - half,
                                    if upper < hi {
                                        upper
                                    } else {
                                        hi
                                    },
                                )
                            } else if upper > lower + req + quarter {
                                (upper - req - quarter, upper)
                            } else if upper > lower + req {
                                (upper - req, upper)
                            } else {
                                self.fallback_range(audio)
                            }
                        } else {
                            self.fallback_range(audio)
                        }
                    },
                }
            }
        } else {
            self.fallback_range(audio)
        };

        let lo = if range.0 < al {
            al
        } else if range.0 > au {
            au
        } else {
            range.0
        };
        let hi = if range.1 < lo {
            lo
        } else if range.1 > au {
            au
        } else {
            range.1
        };
        (lo, hi)
    }

    /// The fallback range: the latest segment, up to a window and a
    /// half.
    fn fallback_range(&self, audio: &AudioBuffer) -> (r: (u64, u64))
        requires
            self.wf(),
            audio.wf(),
        ensures
            r.0 == WaveformBuffer::spec_fallback_range(*self, *audio).0,
            r.1 == WaveformBuffer::spec_fallback_range(*self, *audio).1,
    {
        let sl = audio.segment_lower;
        let hi = sl + self.req_sample_window + self.half_req_sample_window;
        (
            sl,
            if audio.upper < hi {
                audio.upper
            } else {
                hi
            },
        )
    }

    /// The rendered range's first sample, the eviction floor the store
    /// must respect for this extractor.
    pub fn get_lower(&self) -> (r: u64)
        ensures
            r == self.image.lower,
    {
        self.image.lower
    }

    /// Merges the samples added since the last extraction into the
    /// image, choosing the range for the current window; skipped until
    /// view conditions are known. Records whether end of stream was
    /// reached before the image could cover it.
    pub fn extract_samples(&mut self, audio: &AudioBuffer)
        requires
            old(self).wf(),
            audio.wf(),
            old(self).image.hist@.is_prefix_of(audio.history@),
        ensures
            final(self).wf(),
            final(self).image.hist@.is_prefix_of(audio.history@),
            final(self).image.id == old(self).image.id,
            final(self).conditions_changed == old(self).conditions_changed,
            final(self).state == old(self).state,
            final(self).cursor_sample == old(self).cursor_sample,
            final(self).current_sample == old(self).current_sample,
            final(self).previous_sample == old(self).previous_sample,
            final(self).cursor_position == old(self).cursor_position,
            final(self).sought_sample == old(self).sought_sample,
            final(self).req_sample_window == old(self).req_sample_window,
            final(self).req_duration_per_1000px == old(self).req_duration_per_1000px,
            final(self).width == old(self).width,
            final(self).height == old(self).height,
            (old(self).req_sample_window == 0 || old(self).image.sample_step == 0) ==> *final(self) == *old(self),
            (old(self).req_sample_window > 0 && old(self).image.sample_step >= 1) ==> ({
                let sr = WaveformBuffer::spec_sample_range(*old(self), *audio);
                let step = old(self).image.sample_step as int;
                let from = crate::waveform_image::spec_aligned_lower(
                    sr.0.0,
                    audio.lower as int,
                    step,
                );
                let to = crate::waveform_image::align_down(sr.0.1, step);
                &&& final(self).first_visible_sample == sr.1
                &&& final(self).first_visible_sample_lock == sr.2
                &&& (from < to ==> {
                    &&& final(self).image.is_ready
                    &&& !final(self).image.force_redraw
                    &&& final(self).image.lower == from
                    &&& final(self).image.upper == to
                    &&& final(self).image.hist@ == audio.history@
                    &&& final(self).image.contains_eos == (audio.eos && to + step > audio.upper)
                })
                &&& (from >= to ==> final(self).image == old(self).image)
                &&& final(self).playback_needs_refresh == (audio.eos && !final(self).image.contains_eos)
            }),
    {
        if self.req_sample_window == 0 || self.image.sample_step == 0 {
            return ;
        }
        let range = self.get_sample_range(audio);
        self.image.render(audio, range.0, range.1);
        self.playback_needs_refresh = audio.eos && !self.image.contains_eos;
    }

    /// Re-renders in place under the current conditions, without
    /// waiting for new samples; a no-op until a first image exists.
    pub fn refresh(&mut self, audio: &AudioBuffer)
        requires
            old(self).wf(),
            audio.wf(),
            old(self).image.hist@.is_prefix_of(audio.history@),
        ensures
            final(self).wf(),
            final(self).image.hist@.is_prefix_of(audio.history@),
            final(self).image.id == old(self).image.id,
            final(self).state == old(self).state,
            final(self).req_duration_per_1000px == old(self).req_duration_per_1000px,
            final(self).req_sample_window == old(self).req_sample_window,
            final(self).cursor_sample == old(self).cursor_sample,
            final(self).current_sample == old(self).current_sample,
            final(self).previous_sample == old(self).previous_sample,
            final(self).cursor_position == old(self).cursor_position,
            final(self).sought_sample == old(self).sought_sample,
            final(self).conditions_changed == old(self).conditions_changed,
            final(self).width == old(self).width,
            final(self).height == old(self).height,
            !old(self).image.is_ready ==> *final(self) == *old(self),
            old(self).image.is_ready ==> ({
                let sr = WaveformBuffer::spec_sample_range(*old(self), *audio);
                let step = old(self).image.sample_step as int;
                let from = crate::waveform_image::spec_aligned_lower(
                    sr.0.0,
                    audio.lower as int,
                    step,
                );
                let to = crate::waveform_image::align_down(sr.0.1, step);
                &&& final(self).first_visible_sample == sr.1
                &&& final(self).first_visible_sample_lock == sr.2
                &&& (from < to ==> {
                    &&& final(self).image.is_ready
                    &&& !final(self).image.force_redraw
                    &&& final(self).image.lower == from
                    &&& final(self).image.upper == to
                    &&& final(self).image.hist@ == audio.history@
                    &&& final(self).image.contains_eos == (audio.eos && to + step > audio.upper)
                })
                &&& (from >= to ==> final(self).image == old(self).image)
                &&& final(self).playback_needs_refresh == !final(self).image.contains_eos
            }),
    {
        if !self.image.is_ready {
            return ;
        }
        let range = self.get_sample_range(audio);
        self.image.render(audio, range.0, range.1);
        self.playback_needs_refresh = !self.image.contains_eos;
    }

    /// The cursor state after folding in a queried position; the
    /// policy of record for `refresh_position`.
    pub open spec fn spec_refresh_position(s: WaveformBuffer, position: Option<u64>) -> WaveformBuffer {
        if s.state.sample_duration == 0 {
            s
        } else {
            match position {
                None => s,
                Some(p) => {
                    let s0 = (p + s.state.sample_duration / 2) as int / s.state.sample_duration as int;
                    let smp = if s.image.contains_eos && s0 >= s.image.upper && s.image.upper >= 1 {
                        s.image.upper - 1
                    } else {
                        s0
                    };
                    if s.previous_sample != smp {
                        WaveformBuffer {
                            previous_sample: (match s.sought_sample {
                                Some(_) => smp,
                                None => s.current_sample as int,
                            }) as u64,
                            current_sample: smp as u64,
                            cursor_sample: smp as u64,
                            cursor_position: p,
                            sought_sample: None,
                            ..s
                        }
                    } else {
                        s
                    }
                },
            }
        }
    }

    /// The positions handed out beside the image: where display
    /// starts, where drawable data ends, and the cursor when visible.
    pub open spec fn spec_image_positions(s: WaveformBuffer) -> Option<ImagePositions> {
        match s.first_visible_sample {
            None => None,
            Some(f0) => {
                let f = f0 as int;
                let dur = s.state.sample_duration as int;
                let step = s.image.sample_step as int;
                let xs = s.image.x_step as int;
                let cursor = s.cursor_sample as int;
                let req = s.req_sample_window as int;
                let current = if cursor >= f && cursor <= f + req {
                    Some(
                        SamplePosition {
                            x: ((cursor - f) / step * xs) as u64,
                            timestamp: s.cursor_position,
                        },
                    )
                } else {
                    None
                };
                let x_offset = if f >= s.image.lower {
                    (f - s.image.lower) / step * xs
                } else {
                    0
                };
                let delta_x = if s.image.upper > f0 {
                    (s.image.upper - f) / step * xs
                } else {
                    0
                };
                let last = if delta_x > 0 {
                    let last_x = if delta_x < s.width {
                        delta_x
                    } else {
                        s.width as int
                    };
                    Some(
                        SamplePosition {
                            x: last_x as u64,
                            timestamp: ((f + last_x / xs * step) * dur) as u64,
                        },
                    )
                } else {
                    None
                };
                Some(
                    ImagePositions {
                        first: SamplePosition { x: x_offset as u64, timestamp: (f * dur) as u64 },
                        last,
                        current,
                    },
                )
            },
        }
    }

    /// Hands out the current image positions for presentation: folds
    /// in the queried playback position, recomputes the window origin,
    /// and labels the result. To be called as close as possible to the
    /// actual presentation. None while no window can be shown yet.
    pub fn get_image(&mut self, position: Option<u64>) -> (r: Option<ImagePositions>)
        requires
            old(self).wf(),
            old(self).state.sample_duration > 0 ==> (position matches Some(p) ==> p <= old(self).state.max_position()),
        ensures
            final(self).wf(),
            final(self).image == old(self).image,
            *final(self) == ({
                let s1 = WaveformBuffer::spec_refresh_position(*old(self), position);
                WaveformBuffer {
                    first_visible_sample: WaveformBuffer::spec_next_window(s1).0,
                    first_visible_sample_lock: WaveformBuffer::spec_next_window(s1).1,
                    sought_sample: WaveformBuffer::spec_next_window(s1).2,
                    ..s1
                }
            }),
            r == WaveformBuffer::spec_image_positions(*final(self)),
    {
        self.refresh_position(position);
        self.update_first_visible_sample();
        let fv = self.first_visible_sample;
        match fv {
            Some(first) => {
                let dur = self.state.sample_duration;
                let step = self.image.sample_step;
                let xs = self.image.x_step;
                assert(self.image.is_ready);
                assert(step >= 1 && xs >= 1);
                assert(dur >= 1);
                let cursor_opt = if self.cursor_sample >= first && self.cursor_sample <= first
                    + self.req_sample_window {
                    Some(
                        SamplePosition {
                            x: cols_to_px(self.cursor_sample - first, step, xs),
                            timestamp: self.cursor_position,
                        },
                    )
                } else {
                    None
                };
                let x_offset = if first >= self.image.lower {
                    cols_to_px(first - self.image.lower, step, xs)
                } else {
                    0
                };
                let delta_x = if self.image.upper > first {
                    cols_to_px(self.image.upper - first, step, xs)
                } else {
                    0
                };
                let last_opt = if delta_x > 0 {
                    let last_x = if delta_x < self.width {
                        delta_x
                    } else {
                        self.width
                    };
                    proof {
                        let up = self.image.upper as int;
                        let ff = first as int;
                        let st = step as int;
                        let xi = xs as int;
                        let q = (up - ff) / st;
                        vstd::arithmetic::div_mod::lemma_fundamental_div_mod(up - ff, st);
                        vstd::arithmetic::div_mod::lemma_mod_bound(up - ff, st);
                        vstd::arithmetic::div_mod::lemma_div_is_ordered(
                            last_x as int,
                            q * xi,
                            xi,
                        );
                        assert(q * xi == xi * q) by (nonlinear_arith);
                        vstd::arithmetic::div_mod::lemma_div_multiples_vanish(q, xi);
                        vstd::arithmetic::mul::lemma_mul_inequality(
                            last_x as int / xi,
                            q,
                            st,
                        );
                        assert((last_x as int / xi) * st == last_x as int / xi * st);
                        assert(q * st == st * q) by (nonlinear_arith);
                        assert(ff + last_x as int / xi * st <= up);
                        vstd::arithmetic::div_mod::lemma_div_nonincreasing(
                            NANOS_PER_SEC as int,
                            self.state.rate as int,
                        );
                        assert((ff + last_x as int / xi * st) * dur <= MAX_VISIBLE_INDEX
                            * NANOS_PER_SEC) by (nonlinear_arith)
                            requires
                                0 <= ff + last_x as int / xi * st <= MAX_VISIBLE_INDEX,
                                0 < dur <= NANOS_PER_SEC,
                        ;
                    }
                    let back = last_x / xs * step;
                    Some(SamplePosition { x: last_x, timestamp: (first + back) * dur })
                } else {
                    None
                };
                proof {
                    vstd::arithmetic::div_mod::lemma_div_nonincreasing(
                        NANOS_PER_SEC as int,
                        self.state.rate as int,
                    );
                    assert(first as int * dur <= MAX_VISIBLE_INDEX * NANOS_PER_SEC) by (
                    nonlinear_arith)
                        requires
                            0 <= first <= MAX_VISIBLE_INDEX,
                            0 < dur <= NANOS_PER_SEC,
                    ;
                }
                Some(
                    ImagePositions {
                        first: SamplePosition { x: x_offset, timestamp: first * dur },
                        last: last_opt,
                        current: cursor_opt,
                    },
                )
            },
            None => None,
        }
    }
}

/// Converts a sample span into a pixel span at the image resolution.
fn cols_to_px(diff: u64, step: u64, xs: u64) -> (r: u64)
    requires
        1 <= step,
        xs <= MAX_X_STEP,
        diff <= MAX_VISIBLE_INDEX,
    ensures
        r == diff as int / step as int * xs as int,
{
    proof {
        vstd::arithmetic::div_mod::lemma_div_nonincreasing(diff as int, step as int);
        assert((diff as int / step as int) * xs <= MAX_VISIBLE_INDEX * MAX_X_STEP) by (
        nonlinear_arith)
            requires
                0 <= diff as int / step as int <= MAX_VISIBLE_INDEX,
                0 <= xs <= MAX_X_STEP,
        ;
    }
    diff / step * xs
}


/// Alignment stability: recomputing the window origin a second time,
/// with the cursor, the image and the view conditions unchanged and no
/// transient seek lock in flight, yields the same first visible sample
/// — successive frames reuse identical columns, so nothing drifts or
/// flickers. (A transient seek lock is excluded on purpose: while the
/// cursor catches up with the window center the origin moves by
/// design.)
pub proof fn lemma_alignment_stability(s: WaveformBuffer)
    requires
        s.wf(),
        (s.first_visible_sample_lock matches Some(l) ==> l.1),
    ensures
        ({
            let r1 = WaveformBuffer::spec_next_window(s);
            let s1 = WaveformBuffer {
                first_visible_sample: r1.0,
                first_visible_sample_lock: r1.1,
                sought_sample: r1.2,
                ..s
            };
            WaveformBuffer::spec_next_window(s1).0 == r1.0
        }),
{
}

/// End-of-stream pinning: once the stream has ended and everything the
/// store retains fits inside the requested window, every further range
/// choice covers exactly the retained range — so repeated extractions
/// keep rendering up to the same stream end, and the image's upper
/// bound stays pinned there.
pub proof fn lemma_eos_pinning(s: WaveformBuffer, audio: AudioBuffer)
    requires
        s.wf(),
        audio.wf(),
        audio.eos,
        audio.upper - audio.lower <= s.req_sample_window,
        audio.lower <= s.image.lower,
        s.image.upper <= audio.upper,
    ensures
        WaveformBuffer::spec_sample_range(s, audio).0.0 == audio.lower,
        WaveformBuffer::spec_sample_range(s, audio).0.1 == audio.upper,
        WaveformBuffer::spec_sample_range(s, audio).1 is None,
{
}


/// The range choice reads only the image bounds, the window sizes, the
/// cursor and the continuity fields: two extractor states that agree
/// on those choose the same range from the same store.
pub proof fn lemma_sample_range_agrees(a: WaveformBuffer, b: WaveformBuffer, audio: AudioBuffer)
    requires
        a.image.lower == b.image.lower,
        a.image.upper == b.image.upper,
        a.req_sample_window == b.req_sample_window,
        a.half_req_sample_window == b.half_req_sample_window,
        a.quarter_req_sample_window == b.quarter_req_sample_window,
        a.cursor_sample == b.cursor_sample,
        a.first_visible_sample == b.first_visible_sample,
        a.first_visible_sample_lock == b.first_visible_sample_lock,
    ensures
        WaveformBuffer::spec_sample_range(a, audio) == WaveformBuffer::spec_sample_range(b, audio),
{
}


/// Extraction stability: re-running the range choice on an unchanged
/// store, with the cursor still inside the window or the window pinned
/// for a range playback, yields the same range and continuity — so a
/// repeated extraction renders the same aligned window and nothing
/// drifts between frames. (The one excluded input is a continuity
/// reset: the cursor has left a window that is not pinned, and the
/// choice deliberately resynchronizes on the latest segment.)
pub proof fn lemma_extraction_stability(s: WaveformBuffer, audio: AudioBuffer)
    requires
        s.wf(),
        audio.wf(),
        (s.first_visible_sample matches Some(f) ==> ((s.cursor_sample >= f && s.cursor_sample < f
            + s.req_sample_window) || (s.first_visible_sample_lock matches Some(lk) && lk.1))),
    ensures
        ({
            let r1 = WaveformBuffer::spec_sample_range(s, audio);
            let s1 = WaveformBuffer {
                first_visible_sample: r1.1,
                first_visible_sample_lock: r1.2,
                ..s
            };
            WaveformBuffer::spec_sample_range(s1, audio) == r1
        }),
{
}

} // verus!
