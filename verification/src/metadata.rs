//! Export formats for tables of contents and audio.

use vstd::prelude::*;

verus! {

/// The formats the exporter knows of.
#[derive(Clone, Copy, PartialEq, Eq, Structural, Debug)]
pub enum Format {
    CueSheet,
    Flac,
    Matroska,
    MKVMergeText,
    MP3,
    Opus,
    Vorbis,
    Wave,
}

/// The cue sheet table-of-contents format.
pub struct CueSheetFormat {}

impl CueSheetFormat {
    pub fn get_extension() -> (r: &'static str)
        ensures
            r@ == "cue"@,
    {
        "cue"
    }

    pub fn new_as_boxed() -> (r: Box<CueSheetFormat>)
    {
        Box::new(CueSheetFormat {  })
    }
}

/// The mkvmerge simple chapter text format.
pub struct MKVMergeTextFormat {}

impl MKVMergeTextFormat {
    pub fn get_extension() -> (r: &'static str)
        ensures
            r@ == "txt"@,
    {
        "txt"
    }

    pub fn new_as_boxed() -> (r: Box<MKVMergeTextFormat>)
    {
        Box::new(MKVMergeTextFormat {  })
    }
}

/// The Matroska container with an embedded table of contents.
pub struct MatroskaTocFormat {}

impl MatroskaTocFormat {
    pub fn get_extension() -> (r: &'static str)
        ensures
            r@ == "toc.mkv"@,
    {
        "toc.mkv"
    }

    pub fn get_audio_extension() -> (r: &'static str)
        ensures
            r@ == "toc.mka"@,
    {
        "toc.mka"
    }
}

/// Hands out the format implementations and their file extensions.
pub struct Factory {}

impl Factory {
    /// The formats a table of contents can be read from, with their
    /// extensions.
    pub fn get_extensions() -> (r: Vec<(&'static str, Format)>)
        ensures
            r@.len() == 1,
            r@[0].0@ == "txt"@,
            r@[0].1 == Format::MKVMergeText,
    {
        let mut result = Vec::<(&'static str, Format)>::new();
        result.push((MKVMergeTextFormat::get_extension(), Format::MKVMergeText));
        result
    }

    /// The file extension used when exporting in a format; audio-only
    /// Matroska exports get the audio container extension.
    pub fn get_extension(format: &Format, is_audio_only: bool) -> (r: &'static str)
        ensures
            *format == Format::CueSheet ==> r@ == "cue"@,
            *format == Format::Flac ==> r@ == "flac"@,
            (*format == Format::Matroska && !is_audio_only) ==> r@ == "toc.mkv"@,
            (*format == Format::Matroska && is_audio_only) ==> r@ == "toc.mka"@,
            *format == Format::MKVMergeText ==> r@ == "txt"@,
            *format == Format::MP3 ==> r@ == "mp3"@,
            *format == Format::Opus ==> r@ == "opus"@,
            *format == Format::Vorbis ==> r@ == "oga"@,
            *format == Format::Wave ==> r@ == "wave"@,
    {
        match *format {
            Format::CueSheet => CueSheetFormat::get_extension(),
            Format::Flac => "flac",
            Format::Matroska => {
                if !is_audio_only {
                    MatroskaTocFormat::get_extension()
                } else {
                    MatroskaTocFormat::get_audio_extension()
                }
            },
            Format::MKVMergeText => MKVMergeTextFormat::get_extension(),
            Format::MP3 => "mp3",
            Format::Opus => "opus",
            Format::Vorbis => "oga",
            Format::Wave => "wave",
        }
    }
}

} // verus!
