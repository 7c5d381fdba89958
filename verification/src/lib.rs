//! Core engine of an audio waveform visualizer for a media player.
//!
//! Decoded audio samples accumulate in a bounded, evictable [`AudioBuffer`];
//! a pair of [`WaveformBuffer`] extractors, orchestrated by a
//! [`DoubleAudioBuffer`], renders them incrementally into a reusable column
//! image that a UI thread can present while the decoder keeps pushing.

pub mod audio_buffer;
pub mod configuration;
pub mod context;
pub mod dbl_audio_buffer;
pub mod metadata;
pub mod sample_extractor;
pub mod timestamp;
pub mod toc;
pub mod waveform_buffer;
pub mod waveform_image;

pub use audio_buffer::AudioBuffer;
pub use configuration::Config;
pub use configuration::GlobalConfig;
pub use context::ContextMessage;
pub use dbl_audio_buffer::DoubleAudioBuffer;
pub use dbl_audio_buffer::DoubleWaveformBuffer;
pub use dbl_audio_buffer::WaveformConditions;
pub use audio_buffer::SAMPLES_NORM;
pub use sample_extractor::SamplesExtractionState;
pub use timestamp::Timestamp;
pub use waveform_buffer::WaveformBuffer;
pub use waveform_image::WaveformImage;
