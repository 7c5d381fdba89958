//! Messages a playback context reports to its listener.

use vstd::prelude::*;

verus! {

/// What the media pipeline tells the interface loop: an asynchronous
/// state change completed, the stream ended, the media could not be
/// opened, or the stream geometry and tags are fully known.
#[derive(Clone, Copy, PartialEq, Eq, Structural, Debug)]
pub enum ContextMessage {
    AsyncDone,
    Eos,
    FailedToOpenMedia,
    InitDone,
}

impl ContextMessage {
    /// Whether the message ends the wait for a newly opened media.
    pub fn concludes_opening(&self) -> (r: bool)
        ensures
            r == (*self == ContextMessage::InitDone || *self
                == ContextMessage::FailedToOpenMedia),
    {
        match self {
            ContextMessage::InitDone => true,
            ContextMessage::FailedToOpenMedia => true,
            _ => false,
        }
    }
}

} // verus!
