//! Application configuration state.
//!
//! The configuration tracks the last persisted values beside the
//! current ones, so a save is only due when something changed; reading
//! and writing the file is the shell's concern.

use vstd::prelude::*;

verus! {

/// Window-related settings.
#[derive(Clone, Copy, PartialEq, Eq, Structural, Debug)]
pub struct UI {
    pub width: i32,
    pub height: i32,
    pub is_chapters_list_hidden: bool,
}

impl Default for UI {
    fn default() -> (r: UI)
        ensures
            r == (UI { width: 0, height: 0, is_chapters_list_hidden: false }),
    {
        UI { width: 0, height: 0, is_chapters_list_hidden: false }
    }
}

/// Media pipeline settings.
#[derive(Clone, Copy, PartialEq, Eq, Structural, Debug)]
pub struct Media {
    pub is_gl_disable: bool,
}

impl Default for Media {
    fn default() -> (r: Media)
        ensures
            r == (Media { is_gl_disable: false }),
    {
        Media { is_gl_disable: false }
    }
}

/// Everything the application persists between sessions.
#[derive(Clone, Copy, PartialEq, Eq, Structural, Debug)]
pub struct GlobalConfig {
    pub ui: UI,
    pub media: Media,
}

impl Default for GlobalConfig {
    fn default() -> (r: GlobalConfig)
        ensures
            r == (GlobalConfig {
                ui: UI { width: 0, height: 0, is_chapters_list_hidden: false },
                media: Media { is_gl_disable: false },
            }),
    {
        GlobalConfig {
            ui: UI { width: 0, height: 0, is_chapters_list_hidden: false },
            media: Media { is_gl_disable: false },
        }
    }
}

/// The live configuration: what was last persisted and what the user
/// has set since.
#[derive(Clone, Copy, PartialEq, Eq, Structural, Debug)]
pub struct Config {
    /// The values as last persisted.
    pub last: GlobalConfig,
    /// The values currently in effect.
    pub current: GlobalConfig,
}

impl Config {
    /// Starts from the values loaded from disk, or from the defaults
    /// when no saved configuration was found.
    pub fn new(loaded: Option<GlobalConfig>) -> (r: Config)
        ensures
            r.current == r.last,
            loaded matches Some(g) ==> r.last == g,
            loaded is None ==> r.last == (GlobalConfig {
                ui: UI { width: 0, height: 0, is_chapters_list_hidden: false },
                media: Media { is_gl_disable: false },
            }),
    {
        let last = match loaded {
            Some(g) => g,
            None => GlobalConfig::default(),
        };
        Config { last, current: last }
    }

    /// The values currently in effect.
    pub fn get(&self) -> (r: GlobalConfig)
        ensures
            r == self.current,
    {
        self.current
    }

    /// Replaces the values in effect; they become due for a save when
    /// they differ from the persisted ones.
    pub fn set(&mut self, current: GlobalConfig)
        ensures
            *final(self) == (Config { current, ..*old(self) }),
    {
        self.current = current;
    }

    /// Whether the values in effect differ from what was persisted —
    /// exactly then is a save due.
    pub fn save_needed(&self) -> (r: bool)
        ensures
            r == (self.current != self.last),
    {
        !(self.current == self.last)
    }

    /// Records that the values in effect were persisted.
    pub fn mark_saved(&mut self)
        ensures
            *final(self) == (Config { last: old(self).current, ..*old(self) }),
            !final(self).save_needed_spec(),
    {
        self.last = self.current;
    }

    /// Whether a save is due, for specifications.
    pub open spec fn save_needed_spec(self) -> bool {
        self.current != self.last
    }
}

} // verus!
