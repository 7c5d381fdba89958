//! Table-of-contents writing helpers.
//!
//! The cue sheet writer itself streams text to a file, which is the
//! shell's concern; the format's fixed values and the frame arithmetic
//! of its track indices live here.

use vstd::prelude::*;

use crate::timestamp::Timestamp;

verus! {

/// The cue sheet table-of-contents format, as written by the exporter.
pub struct CueSheetFormat {}

impl CueSheetFormat {
    pub fn get_extension() -> (r: &'static str)
        ensures
            r@ == "cue"@,
    {
        "cue"
    }

    pub fn new_as_boxed() -> (r: Box<CueSheetFormat>)
    {
        Box::new(CueSheetFormat {  })
    }

    /// The three numbers of a track's `INDEX 01` line: total minutes,
    /// seconds within the minute, and the frame within the second on
    /// the cue sheet's 75-frames-per-second grid.
    pub fn index_fields(start: &Timestamp) -> (r: (u64, u64, u64))
        requires
            start.h * 60 + start.m * 1 <= 0xffff_ffff_ffff_ffff,
            start.ms < 1_000,
            start.us < 1_000,
            start.nano < 1_000,
        ensures
            r.0 == start.h * 60 + start.m,
            r.1 == start.s,
            r.2 == (start.spec_sub_second_nano() * 75 + 500_000_000) / 1_000_000_000,
    {
        (start.h * 60 + start.m, start.s, start.sub_second_frame())
    }
}

} // verus!
