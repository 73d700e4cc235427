//! Playback times, kept in whole milliseconds, and their clock labels.

use crate::text::{push_two_digits, two_digits};
use vstd::prelude::*;
use vstd::string::*;

verus! {

/// Milliseconds in one second.
pub const MILLIS_PER_SECOND: u64 = 1000;

/// Seconds in one minute.
pub const SECONDS_PER_MINUTE: u64 = 60;

/// Where playback stands in the current track, and how long that track is.
/// Both are in milliseconds.
#[derive(Copy, Clone, Debug, PartialEq, Eq, Structural)]
pub struct TrackTime {
    pub position: u64,
    pub length: u64,
}

/// The label `MM:SS` of a time of `millis` milliseconds: whole minutes, then
/// the whole seconds left over, each padded to two digits. Fractions of a
/// second are dropped, and minutes beyond 99 keep all their digits.
pub open spec fn clock_text(millis: u64) -> Seq<char> {
    let seconds = millis as nat / 1000;
    two_digits(seconds / 60) + seq![':'] + two_digits(seconds % 60)
}

/// Writes the clock label of `millis`.
pub fn format_clock(millis: u64) -> (label: String)
    ensures
        label@ == clock_text(millis),
{
    let seconds = millis / MILLIS_PER_SECOND;
    let mut label = String::new();
    push_two_digits(&mut label, seconds / SECONDS_PER_MINUTE);
    proof {
        reveal_strlit(":");
    }
    label.append(":");
    push_two_digits(&mut label, seconds % SECONDS_PER_MINUTE);
    assert(label@ =~= clock_text(millis));
    label
}

impl TrackTime {
    /// The time before anything was played.
    pub fn new() -> (time: TrackTime)
        ensures
            time == (TrackTime { position: 0, length: 0 }),
    {
        TrackTime { position: 0, length: 0 }
    }

    /// The clock label of the position.
    pub fn format_pos(&self) -> (label: String)
        ensures
            label@ == clock_text(self.position),
    {
        format_clock(self.position)
    }
}

impl Default for TrackTime {
    fn default() -> (time: TrackTime)
        ensures
            time == (TrackTime { position: 0, length: 0 }),
    {
        TrackTime::new()
    }
}

} // verus!
