//! Configuration read once at startup: whether the alternate widget source
//! supplies the online approximation, an optional delay before querying it,
//! and the optional member allow-list.

use vstd::prelude::*;

verus! {

/// Configuration for the tracker. An empty `include_only` list means every
/// member's events are processed.
pub struct Settings {
    pub use_widget: bool,
    pub sleep_time: u64,
    pub include_only: Vec<u64>,
}

impl Settings {
    /// The defaults written on first run: widget source enabled, no delay,
    /// no member restriction.
    pub fn new() -> (s: Settings)
        ensures
            s.use_widget == true,
            s.sleep_time == 0,
            s.include_only@ == Seq::<u64>::empty(),
    {
        Settings { use_widget: true, sleep_time: 0, include_only: vec![] }
    }
}

} // verus!
