//! Clock-style decomposition of a nanosecond timestamp.

use vstd::prelude::*;

verus! {

/// A timestamp split into hours, minutes, seconds and sub-second parts,
/// as needed when labelling positions on the rendered waveform or when
/// exporting chapter starts.
#[derive(Clone, Copy, PartialEq, Eq, Structural, Debug)]
pub struct Timestamp {
    pub nano_total: u64,
    pub h: u64,
    pub m: u64,
    pub s: u64,
    pub ms: u64,
    pub us: u64,
    pub nano: u64,
}

impl Timestamp {
    /// Decomposes a duration in nanoseconds into clock fields.
    pub fn from_nano(nano_total: u64) -> (r: Timestamp)
        ensures
            r.nano_total == nano_total,
            r.h == nano_total / 3_600_000_000_000,
            r.m == (nano_total / 60_000_000_000) % 60,
            r.s == (nano_total / 1_000_000_000) % 60,
            r.ms == (nano_total / 1_000_000) % 1_000,
            r.us == (nano_total / 1_000) % 1_000,
            r.nano == nano_total % 1_000,
    {
        Timestamp {
            nano_total,
            h: nano_total / 3_600_000_000_000,
            m: (nano_total / 60_000_000_000) % 60,
            s: (nano_total / 1_000_000_000) % 60,
            ms: (nano_total / 1_000_000) % 1_000,
            us: (nano_total / 1_000) % 1_000,
            nano: nano_total % 1_000,
        }
    }

    /// Nanoseconds elapsed within the current second.
    pub open spec fn spec_sub_second_nano(self) -> int {
        (self.ms * 1_000_000 + self.us * 1_000 + self.nano) as int
    }

    /// Frame number within the current second on a 75-frames-per-second
    /// grid (the granularity of cue sheet track indices), rounded to the
    /// nearest frame.
    pub fn sub_second_frame(&self) -> (r: u64)
        requires
            self.ms < 1_000,
            self.us < 1_000,
            self.nano < 1_000,
        ensures
            r == (self.spec_sub_second_nano() * 75 + 500_000_000) / 1_000_000_000,
            r <= 75,
    {
        let sub_ns: u64 = self.ms * 1_000_000 + self.us * 1_000 + self.nano;
        (sub_ns * 75 + 500_000_000) / 1_000_000_000
    }
}

} // verus!
