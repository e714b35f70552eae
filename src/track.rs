//! The snapshot of what the current player is playing.
use vstd::prelude::*;

verus! {

/// Microseconds in one second.
pub const MICROS_PER_SECOND: u128 = 1_000_000;

/// One immutable snapshot of the current track; replaced wholesale on each
/// successful poll. Times are whole seconds.
#[derive(Debug, Clone, PartialEq, Eq)]
pub struct TrackInfo {
    pub title: Option<String>,
    pub artist: Option<String>,
    pub album: Option<String>,
    pub position: u64,
    pub duration: u64,
    pub is_playing: bool,
    pub cover_url: Option<String>,
}

impl TrackInfo {
    /// The all-default snapshot: nothing known, nothing playing.
    pub open spec fn blank() -> TrackInfo {
        TrackInfo {
            title: None,
            artist: None,
            album: None,
            position: 0,
            duration: 0,
            is_playing: false,
            cover_url: None,
        }
    }

    /// Played share of the track in whole percent, capped at 100.
    pub open spec fn percent_spec(&self) -> int {
        if self.duration == 0 {
            0
        } else if self.position >= self.duration {
            100
        } else {
            (self.position * 100) as int / self.duration as int
        }
    }

    /// The share of the track played so far, in whole percent (truncated).
    /// A track of unknown length shows no progress.
    pub fn progress_percent(&self) -> (r: u16)
        ensures
            r == self.percent_spec(),
            self.duration == 0 ==> r == 0,
            r <= 100,
    {
        if self.duration == 0 {
            0
        } else if self.position >= self.duration {
            100
        } else {
            let scaled: u128 = (self.position as u128) * 100;
            let p: u128 = scaled / (self.duration as u128);
            assert(p < 100) by (nonlinear_arith)
                requires
                    p == scaled / (self.duration as u128),
                    scaled == self.position * 100,
                    self.position < self.duration,
            ;
            p as u16
        }
    }
}

impl Default for TrackInfo {
    fn default() -> (r: TrackInfo)
        ensures
            r == TrackInfo::blank(),
    {
        TrackInfo {
            title: None,
            artist: None,
            album: None,
            position: 0,
            duration: 0,
            is_playing: false,
            cover_url: None,
        }
    }
}

/// `floor(micros / 1_000_000)`, saturated at `u64::MAX`.
pub open spec fn whole_seconds(micros: u128) -> u64 {
    if micros / 1_000_000 <= u64::MAX {
        (micros / 1_000_000) as u64
    } else {
        u64::MAX
    }
}

/// Whole seconds in a span given in microseconds, sub-second part truncated.
/// A span whose seconds do not fit in `u64` saturates.
pub fn seconds_from_micros(micros: u128) -> (r: u64)
    ensures
        r == whole_seconds(micros),
        micros / 1_000_000 <= u64::MAX ==> r == micros / 1_000_000,
{
    let s: u128 = micros / MICROS_PER_SECOND;
    if s > u64::MAX as u128 {
        u64::MAX
    } else {
        s as u64
    }
}

/// Splits whole seconds into minutes and the seconds left over, for a
/// `mm:ss` display.
pub fn minutes_and_seconds(seconds: u64) -> (r: (u64, u64))
    ensures
        r.0 == seconds / 60,
        r.1 == seconds % 60,
        r.1 < 60,
        r.0 * 60 + r.1 == seconds,
{
    (seconds / 60, seconds % 60)
}

} // verus!
