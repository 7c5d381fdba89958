//! End-to-end checks of the sample store, the incremental renderer and
//! the double-buffered extraction engine.

use media_toc_core::audio_buffer::AudioBuffer;
use media_toc_core::dbl_audio_buffer::DoubleWaveformBuffer;
use media_toc_core::dbl_audio_buffer::WaveformConditions;
use media_toc_core::waveform_image::WaveformImage;

const NS: u64 = 1_000_000_000;

/// Normalized value of one mono 16-bit sample.
fn norm(v: i64) -> i64 {
    100_000 * (32_767 - v) / 32_767
}

fn mono_store(buffer_secs: u64) -> AudioBuffer {
    let mut store = AudioBuffer::new(buffer_secs * NS);
    store.init(48_000, 1);
    store
}

#[test]
fn downmix_mono_values() {
    let mut store = mono_store(1);
    let n = store.push_frames(&vec![0i16, -32_767, 32_767], 0);
    assert_eq!(n, 3);
    assert_eq!(store.get(0), 100_000);
    assert_eq!(store.get(1), 200_000);
    assert_eq!(store.get(2), 0);
}

#[test]
fn downmix_stereo_averages_channels() {
    let mut store = AudioBuffer::new(NS);
    store.init(48_000, 2);
    // One frame: the two channels sum to 32767, half the positive range.
    let n = store.push_frames(&vec![16_383i16, 16_384], 0);
    assert_eq!(n, 1);
    assert_eq!(store.get(0), 50_000);
}

#[test]
fn downmix_weights_front_channels() {
    let mut store = AudioBuffer::new(NS);
    store.init(48_000, 4);
    // Front channels at full positive, rears at full negative: the
    // front pair carries three quarters of the weight.
    let n = store.push_frames(&vec![32_767i16, 32_767, -32_768, -32_768], 0);
    assert_eq!(n, 1);
    // 100*d - 75*2*front - 50*others over d = 2*2*32767, in thousandths.
    let d: i64 = 2 * 2 * 32_767;
    let expected = (100 * d - 75 * 2 * (2 * 32_767) - 50 * (-(2 * 65_536) / 2)) * 1_000 / d;
    assert_eq!(store.get(0), expected);
}

#[test]
fn push_bytes_reinterprets_pairs() {
    let mut store = mono_store(1);
    // Four zero bytes are two silent samples whatever the byte order.
    let added = store.push_bytes(&vec![0u8, 0, 0, 0], 0).unwrap();
    assert_eq!(added, 2);
    assert_eq!(store.len(), 2);
    assert_eq!(store.get(0), 100_000);
    assert_eq!(store.get(1), 100_000);
}

#[test]
fn push_bytes_rejects_odd_length() {
    let mut store = mono_store(1);
    assert!(store.push_bytes(&vec![0u8, 0, 0], 0).is_err());
    assert_eq!(store.len(), 0);
}

#[test]
fn store_bounds_stay_monotonic() {
    // Across pushes, lower <= upper and upper never decreases.
    let mut store = mono_store(1);
    let chunk: Vec<i16> = (0..1000).map(|i| (i % 100) as i16).collect();
    let mut last_upper = 0u64;
    for round in 0u64..60 {
        let keep = store.lower + (round % 7) * 100;
        store.push_frames(&chunk, keep);
        assert!(store.lower <= store.segment_lower);
        assert!(store.segment_lower <= store.upper);
        assert!(store.upper >= last_upper);
        last_upper = store.upper;
    }
}

#[test]
fn eviction_waits_for_consumer() {
    // Capacity is one second (48000 samples), eviction chunk a fifth of
    // it. Exceeding capacity by 30% with the consumer still at the
    // start evicts nothing.
    let mut store = mono_store(1);
    let chunk: Vec<i16> = vec![7i16; 4800];
    for _ in 0..13 {
        store.push_frames(&chunk, 0);
    }
    assert_eq!(store.lower, 0);
    assert_eq!(store.upper, 13 * 4800);

    // Once the consumer has moved past the eviction boundary, the next
    // push drops exactly the oldest fifth.
    store.push_frames(&chunk, 20_000);
    assert_eq!(store.lower, 9_600);
    assert_eq!(store.upper, 14 * 4800);
    // Samples behind the new lower bound are retained unchanged.
    assert_eq!(store.get(9_600), norm(7));
}

#[test]
fn render_full_range_extrema() {
    let mut store = mono_store(1);
    // 40 samples alternating quiet and loud.
    let raw: Vec<i16> = (0..40).map(|i| if i % 2 == 0 { 0 } else { 32_767 }).collect();
    store.push_frames(&raw, 0);
    let mut image = WaveformImage::new(1);
    image.update_dimensions(10, 1, 100, 64);
    image.render(&store, 0, 40);
    assert_eq!(image.lower, 0);
    assert_eq!(image.upper, 40);
    let cols = image.get_image();
    assert_eq!(cols.len(), 4);
    for col in cols.iter() {
        assert_eq!(col.min, norm(32_767));
        assert_eq!(col.max, norm(0));
    }
}

#[test]
fn incremental_render_matches_full() {
    // The overlap of an incremental render and a fresh full render
    // holds identical columns.
    let mut store = mono_store(1);
    let first: Vec<i16> = (0..400).map(|i| (i * 37 % 2000 - 1000) as i16).collect();
    store.push_frames(&first, 0);

    let mut incremental = WaveformImage::new(1);
    incremental.update_dimensions(10, 1, 100, 64);
    incremental.render(&store, 0, 400);
    assert_eq!(incremental.get_image().len(), 40);

    let second: Vec<i16> = (400..900).map(|i| (i * 53 % 2000 - 1000) as i16).collect();
    store.push_frames(&second, 0);
    // Scroll forward: reuse the tail of the previous image.
    incremental.render(&store, 200, 900);

    let mut full = WaveformImage::new(2);
    full.update_dimensions(10, 1, 100, 64);
    full.render(&store, 200, 900);

    assert_eq!(incremental.lower, full.lower);
    assert_eq!(incremental.upper, full.upper);
    let a = incremental.get_image();
    let b = full.get_image();
    assert_eq!(a.len(), b.len());
    for (ca, cb) in a.iter().zip(b.iter()) {
        assert_eq!(ca, cb);
    }
}

#[test]
fn render_skips_below_one_step() {
    let mut store = mono_store(1);
    store.push_frames(&vec![5i16; 6], 0);
    let mut image = WaveformImage::new(1);
    image.update_dimensions(10, 1, 100, 64);
    image.render(&store, 0, 6);
    assert!(!image.is_ready);
    assert_eq!(image.get_image().len(), 0);
}

#[test]
fn double_buffer_swaps_identities() {
    // The two extractors always partition the same identity pair;
    // each extraction swaps which one is exposed.
    let mut dbl = DoubleWaveformBuffer::new(NS);
    dbl.set_caps(48_000, 1);
    dbl.set_conditions(WaveformConditions::new(20_000_000_000, 40, 64));
    assert_eq!(dbl.exposed_buffer.image.id, 1);
    assert_eq!(dbl.working_buffer.image.id, 2);
    dbl.extract_samples();
    assert_eq!(dbl.exposed_buffer.image.id, 2);
    assert_eq!(dbl.working_buffer.image.id, 1);
    dbl.extract_samples();
    assert_eq!(dbl.exposed_buffer.image.id, 1);
    assert_eq!(dbl.working_buffer.image.id, 2);
    assert_ne!(dbl.exposed_buffer.image.id, dbl.working_buffer.image.id);
}

#[test]
fn seek_lock_holds_window_then_releases() {
    // Scenario: one second buffered at 48 kHz, 20 ms per pixel, a
    // 40-pixel raster; a seek while playing pins the window origin
    // until the cursor comes within one step of the window center.
    let dur = NS / 48_000; // 20833 ns per sample
    let mut dbl = DoubleWaveformBuffer::new(NS);
    dbl.set_caps(48_000, 1);
    dbl.set_conditions(WaveformConditions::new(20_000_000_000, 40, 64));
    assert_eq!(dbl.exposed_buffer.sample_step, 960);
    assert_eq!(dbl.exposed_buffer.req_sample_window, 38_400);

    let chunk: Vec<i16> = vec![100i16; 4800];
    for _ in 0..10 {
        dbl.push_frames(&chunk);
    }
    dbl.extract_samples();
    assert_eq!(dbl.exposed_buffer.image.lower, 0);
    assert_eq!(dbl.exposed_buffer.image.upper, 48_000);

    // Establish a window at the stream start.
    let positions = dbl.get_image(Some(0)).unwrap();
    assert_eq!(positions.first.timestamp, 0);
    assert_eq!(dbl.exposed_buffer.first_visible_sample, Some(0));

    // Seek to sample 24000 while playing: the target is inside the
    // window, so the origin is locked instead of scrolling.
    dbl.seek(24_000 * dur, true);
    assert_eq!(dbl.exposed_buffer.first_visible_sample_lock, Some((0, false)));
    assert_eq!(dbl.exposed_buffer.cursor_sample, 24_000);

    // The next frame keeps the origin although the cursor jumped.
    let positions = dbl.get_image(Some(24_000 * dur)).unwrap();
    assert_eq!(positions.first.timestamp, 0);
    assert_eq!(dbl.exposed_buffer.first_visible_sample, Some(0));
    assert!(dbl.exposed_buffer.first_visible_sample_lock.is_some());

    // Once the cursor is within one step of the window center, the
    // lock releases and the window recenters.
    let near_center = 19_200 + 960;
    let positions = dbl.get_image(Some(near_center * dur)).unwrap();
    assert_eq!(dbl.exposed_buffer.first_visible_sample_lock, None);
    assert_eq!(dbl.exposed_buffer.first_visible_sample, Some(960));
    assert_eq!(positions.first.timestamp, 960 * dur);
}

#[test]
fn repeated_extraction_keeps_first_visible() {
    // Extracting again without new samples, cursor moves or
    // condition changes leaves the window origin untouched.
    let mut dbl = DoubleWaveformBuffer::new(NS);
    dbl.set_caps(48_000, 1);
    dbl.set_conditions(WaveformConditions::new(20_000_000_000, 40, 64));
    let chunk: Vec<i16> = vec![100i16; 4800];
    for _ in 0..10 {
        dbl.push_frames(&chunk);
    }
    dbl.extract_samples();
    let dur = NS / 48_000;
    let pos = 24_000 * dur;
    dbl.get_image(Some(pos));
    let first = dbl.exposed_buffer.first_visible_sample;
    assert!(first.is_some());
    for _ in 0..3 {
        dbl.extract_samples();
        dbl.get_image(Some(pos));
        assert_eq!(dbl.exposed_buffer.first_visible_sample, first);
    }
}

#[test]
fn eos_pins_image_upper() {
    // After end of stream, with the retained range inside the
    // window, repeated extractions keep the image pinned to the end.
    let mut dbl = DoubleWaveformBuffer::new(NS);
    dbl.set_caps(48_000, 1);
    dbl.set_conditions(WaveformConditions::new(20_000_000_000, 40, 64));
    let chunk: Vec<i16> = vec![100i16; 4800];
    for _ in 0..5 {
        dbl.push_frames(&chunk);
    }
    dbl.handle_eos();
    assert!(dbl.audio_buffer.eos);
    let pinned = dbl.exposed_buffer.image.upper;
    assert_eq!(pinned, 24_000);
    assert!(dbl.exposed_buffer.image.contains_eos);
    for _ in 0..4 {
        dbl.extract_samples();
        assert_eq!(dbl.exposed_buffer.image.upper, pinned);
        assert!(dbl.exposed_buffer.image.contains_eos);
    }
}

#[test]
fn ignore_eos_defers_handling() {
    let mut dbl = DoubleWaveformBuffer::new(NS);
    dbl.set_caps(48_000, 1);
    dbl.set_conditions(WaveformConditions::new(20_000_000_000, 40, 64));
    dbl.push_frames(&vec![100i16; 4800]);
    dbl.ignore_eos();
    dbl.handle_eos();
    assert!(!dbl.audio_buffer.eos);
    dbl.accept_eos();
    dbl.handle_eos();
    assert!(dbl.audio_buffer.eos);
}

#[test]
fn get_position_at_maps_pixels_to_time() {
    let dur = NS / 48_000;
    let mut dbl = DoubleWaveformBuffer::new(NS);
    dbl.set_caps(48_000, 1);
    dbl.set_conditions(WaveformConditions::new(20_000_000_000, 40, 64));
    let chunk: Vec<i16> = vec![100i16; 4800];
    for _ in 0..10 {
        dbl.push_frames(&chunk);
    }
    dbl.extract_samples();
    dbl.get_image(Some(0));
    // Window starts at sample 0; each pixel is one 960-sample column.
    assert_eq!(dbl.get_position_at(0), Some(0));
    assert_eq!(dbl.get_position_at(10), Some(9_600 * dur));
}

#[test]
fn segment_start_bounds_merges() {
    let mut store = mono_store(1);
    store.push_frames(&vec![1i16; 1000], 0);
    store.on_segment_start();
    assert_eq!(store.segment_lower, 1000);
    store.push_frames(&vec![2i16; 500], 0);
    assert_eq!(store.segment_lower, 1000);
    assert_eq!(store.upper, 1500);
}

#[test]
fn cleanup_resets_session() {
    let mut dbl = DoubleWaveformBuffer::new(NS);
    dbl.set_caps(48_000, 1);
    dbl.set_conditions(WaveformConditions::new(20_000_000_000, 40, 64));
    dbl.push_frames(&vec![100i16; 4800]);
    dbl.cleanup();
    assert_eq!(dbl.audio_buffer.upper, 0);
    assert!(!dbl.audio_buffer.eos);
    assert_eq!(dbl.exposed_buffer.req_sample_window, 0);
    assert!(!dbl.exposed_buffer.image.is_ready);
}

#[test]
fn zoomed_in_uses_pixel_steps() {
    // 10 ms per 1000 px at 48 kHz is less than a sample per pixel:
    // the resolution flips to whole pixels per sample.
    let mut dbl = DoubleWaveformBuffer::new(NS);
    dbl.set_caps(48_000, 1);
    dbl.set_conditions(WaveformConditions::new(10_000_000, 1000, 64));
    assert_eq!(dbl.exposed_buffer.sample_step, 1);
    assert_eq!(dbl.exposed_buffer.x_step, 3);
}

#[test]
fn refresh_with_conditions_rerenders() {
    // A zoom change re-derives the resolution on both extractors and
    // re-renders the exposed image under it without new samples.
    let mut dbl = DoubleWaveformBuffer::new(NS);
    dbl.set_caps(48_000, 1);
    dbl.set_conditions(WaveformConditions::new(20_000_000_000, 40, 64));
    let chunk: Vec<i16> = vec![100i16; 4800];
    for _ in 0..10 {
        dbl.push_frames(&chunk);
    }
    dbl.extract_samples();
    assert_eq!(dbl.exposed_buffer.sample_step, 960);

    // Halve the zoom: 10 ms per pixel over the same raster.
    dbl.refresh_with_conditions(WaveformConditions::new(10_000_000_000, 40, 64), false);
    assert_eq!(dbl.exposed_buffer.sample_step, 480);
    assert_eq!(dbl.working_buffer.sample_step, 480);
    assert_eq!(dbl.exposed_buffer.req_sample_window, 19_200);
    assert!(dbl.exposed_buffer.image.is_ready);
    // The rendered range is aligned to the new resolution.
    assert_eq!(dbl.exposed_buffer.image.lower % 480, 0);
    assert_eq!(dbl.exposed_buffer.image.upper % 480, 0);
    assert!(dbl.exposed_buffer.sought_sample.is_none());
}

#[test]
fn eos_reaches_both_extractors() {
    // Handling end of stream extracts twice, so the exposed and the
    // working copy both observe the end-adjusted window.
    let mut dbl = DoubleWaveformBuffer::new(NS);
    dbl.set_caps(48_000, 1);
    dbl.set_conditions(WaveformConditions::new(20_000_000_000, 40, 64));
    let chunk: Vec<i16> = vec![100i16; 4800];
    for _ in 0..5 {
        dbl.push_frames(&chunk);
    }
    dbl.handle_eos();
    assert!(dbl.exposed_buffer.image.contains_eos);
    assert!(dbl.working_buffer.image.contains_eos);
    assert_eq!(dbl.exposed_buffer.image.upper, 24_000);
    assert_eq!(dbl.working_buffer.image.upper, 24_000);
}

#[test]
fn stale_position_detected() {
    // The cached cursor is stale exactly when it leaves the retained
    // range, the cue to query the position source again.
    let mut dbl = DoubleWaveformBuffer::new(NS);
    dbl.set_caps(48_000, 1);
    dbl.set_conditions(WaveformConditions::new(20_000_000_000, 40, 64));
    let chunk: Vec<i16> = vec![7i16; 4800];
    for _ in 0..10 {
        dbl.push_frames(&chunk);
    }
    let dur = NS / 48_000;
    dbl.get_image(Some(24_000 * dur));
    assert!(!dbl.position_is_stale());
    // A seek far past the buffered data leaves the cursor outside.
    dbl.seek(20_000_000 * dur, true);
    dbl.get_image(Some(20_000_000 * dur));
    assert!(dbl.position_is_stale());
}
