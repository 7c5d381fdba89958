//! Checks of the timestamp decomposition, the export format registry
//! and the configuration state.

use media_toc_core::configuration::Config;
use media_toc_core::configuration::GlobalConfig;
use media_toc_core::context::ContextMessage;
use media_toc_core::metadata::Factory;
use media_toc_core::metadata::Format;
use media_toc_core::timestamp::Timestamp;
use media_toc_core::toc::CueSheetFormat;

#[test]
fn timestamp_decomposition() {
    let t = Timestamp::from_nano(3_661_000_500_123);
    assert_eq!(t.h, 1);
    assert_eq!(t.m, 1);
    assert_eq!(t.s, 1);
    assert_eq!(t.ms, 0);
    assert_eq!(t.us, 500);
    assert_eq!(t.nano, 123);
    assert_eq!(t.nano_total, 3_661_000_500_123);

    let zero = Timestamp::from_nano(0);
    assert_eq!((zero.h, zero.m, zero.s, zero.ms, zero.us, zero.nano), (0, 0, 0, 0, 0, 0));
}

#[test]
fn cue_frame_numbers() {
    // 75 frames per second: a 40 ms offset is frame 3.
    let t = Timestamp::from_nano(40_000_000);
    assert_eq!(t.sub_second_frame(), 3);
    // Rounded to the nearest frame.
    let t = Timestamp::from_nano(6_666_667);
    assert_eq!(t.sub_second_frame(), 1);
    let t = Timestamp::from_nano(999_999_999);
    assert_eq!(t.sub_second_frame(), 75);
}

#[test]
fn cue_index_fields() {
    let start = Timestamp::from_nano(3_661_040_000_000);
    let (minutes, seconds, frames) = CueSheetFormat::index_fields(&start);
    assert_eq!(minutes, 61);
    assert_eq!(seconds, 1);
    assert_eq!(frames, 3);
}

#[test]
fn format_extensions() {
    assert_eq!(Factory::get_extension(&Format::CueSheet, false), "cue");
    assert_eq!(Factory::get_extension(&Format::Flac, false), "flac");
    assert_eq!(Factory::get_extension(&Format::Matroska, false), "toc.mkv");
    assert_eq!(Factory::get_extension(&Format::Matroska, true), "toc.mka");
    assert_eq!(Factory::get_extension(&Format::MKVMergeText, false), "txt");
    assert_eq!(Factory::get_extension(&Format::MP3, false), "mp3");
    assert_eq!(Factory::get_extension(&Format::Opus, false), "opus");
    assert_eq!(Factory::get_extension(&Format::Vorbis, false), "oga");
    assert_eq!(Factory::get_extension(&Format::Wave, false), "wave");
    assert_eq!(CueSheetFormat::get_extension(), "cue");
    assert_eq!(media_toc_core::metadata::CueSheetFormat::get_extension(), "cue");
}

#[test]
fn readable_formats() {
    let readers = Factory::get_extensions();
    assert_eq!(readers.len(), 1);
    assert_eq!(readers[0].0, "txt");
    assert_eq!(readers[0].1, Format::MKVMergeText);
}

#[test]
fn config_tracks_pending_saves() {
    let mut config = Config::new(None);
    assert!(!config.save_needed());
    let mut values: GlobalConfig = config.get();
    values.ui.width = 1280;
    values.ui.height = 720;
    config.set(values);
    assert!(config.save_needed());
    config.mark_saved();
    assert!(!config.save_needed());
    assert_eq!(config.get().ui.width, 1280);

    let reloaded = Config::new(Some(values));
    assert!(!reloaded.save_needed());
    assert_eq!(reloaded.get().ui.height, 720);
}

#[test]
fn context_messages_conclude_opening() {
    assert!(ContextMessage::InitDone.concludes_opening());
    assert!(ContextMessage::FailedToOpenMedia.concludes_opening());
    assert!(!ContextMessage::Eos.concludes_opening());
    assert!(!ContextMessage::AsyncDone.concludes_opening());
}
