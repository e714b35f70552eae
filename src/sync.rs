//! The playback-state synchronizer: a rate-limited poller that reconciles what
//! the player source reports into one current player and one track snapshot.
//!
//! The source itself (enumerating players, querying one, sending commands) is
//! driven by the caller. One poll runs as: `update` says whether a pass is due
//! and stamps the poll time; `select_player` takes the enumeration and names
//! the player to query; `record_report` takes that query's outcome.
use vstd::prelude::*;
use crate::track::{TrackInfo, whole_seconds, seconds_from_micros};

verus! {

/// Minimum time between two reconciliation passes, in milliseconds.
pub const POLL_INTERVAL_MS: u64 = 2000;

/// What a player says about its playback.
#[derive(Debug, Clone, Copy, PartialEq, Eq, Structural)]
pub enum PlaybackStatus {
    Playing,
    Paused,
    Stopped,
}

/// A command addressed to the current player.
#[derive(Debug, Clone, Copy, PartialEq, Eq, Structural)]
pub enum PlayerCommand {
    PlayPause,
    Next,
    Previous,
}

/// The outcome of one successful query of a player: its status, its metadata
/// and its position, in the source's own units (microseconds).
#[derive(Debug, Clone)]
pub struct PlayerReport {
    pub status: PlaybackStatus,
    pub title: Option<String>,
    pub artists: Option<Vec<String>>,
    pub album: Option<String>,
    pub length_micros: Option<u128>,
    pub position_micros: u128,
    pub art_url: Option<String>,
}

/// The first listed artist, if any.
pub open spec fn first_artist(artists: Option<Vec<String>>) -> Option<String> {
    match artists {
        Some(v) => if v@.len() > 0 {
            Some(v@[0])
        } else {
            None
        },
        None => None,
    }
}

impl PlayerReport {
    /// The snapshot that a report stands for.
    pub open spec fn track_spec(self) -> TrackInfo {
        TrackInfo {
            title: self.title,
            artist: first_artist(self.artists),
            album: self.album,
            position: whole_seconds(self.position_micros),
            duration: match self.length_micros {
                Some(m) => whole_seconds(m),
                None => 0,
            },
            is_playing: self.status == PlaybackStatus::Playing,
            cover_url: self.art_url,
        }
    }

    /// Turns a report into a track snapshot: times truncated to whole
    /// seconds, a missing length read as zero, only the first artist kept.
    pub fn into_track(self) -> (t: TrackInfo)
        ensures
            t == self.track_spec(),
    {
        let artist = match self.artists {
            Some(mut v) => {
                if v.len() > 0 {
                    Some(v.remove(0))
                } else {
                    None
                }
            },
            None => None,
        };
        let duration = match self.length_micros {
            Some(m) => seconds_from_micros(m),
            None => 0,
        };
        TrackInfo {
            title: self.title,
            artist,
            album: self.album,
            position: seconds_from_micros(self.position_micros),
            duration,
            is_playing: self.status == PlaybackStatus::Playing,
            cover_url: self.art_url,
        }
    }
}

/// The synchronizer's state as the contracts see it.
pub ghost struct SyncView {
    pub track: TrackInfo,
    pub player: Option<Seq<char>>,
    pub last_poll: u64,
}

/// The names of an enumeration; a failed enumeration counts as none.
pub open spec fn enumerated_names(enumerated: Option<Vec<String>>) -> Seq<Seq<char>> {
    match enumerated {
        Some(v) => v@.map_values(|s: String| s@),
        None => Seq::empty(),
    }
}

impl SyncView {
    /// Whether a reconciliation pass is due at `now`.
    pub open spec fn due_at(self, now: u64) -> bool {
        now >= self.last_poll && now - self.last_poll >= POLL_INTERVAL_MS
    }

    /// The state once a pass has been stamped at `now`.
    pub open spec fn stamped(self, now: u64) -> SyncView {
        SyncView { last_poll: now, ..self }
    }

    /// The player kept or chosen from an enumeration: the current one while it
    /// is still listed, else the first listed, else none.
    pub open spec fn chosen(self, names: Seq<Seq<char>>) -> Option<Seq<char>> {
        if names.len() == 0 {
            None
        } else if self.player is Some && names.contains(self.player->0) {
            self.player
        } else {
            Some(names[0])
        }
    }

    /// The state after the enumeration step of a pass: with no players the
    /// selection and the track are cleared; otherwise the track is kept.
    pub open spec fn reconciled(self, names: Seq<Seq<char>>) -> SyncView {
        SyncView {
            player: self.chosen(names),
            track: if names.len() == 0 {
                TrackInfo::blank()
            } else {
                self.track
            },
            ..self
        }
    }

    /// The state after the query step of a pass: a successful query replaces
    /// the track wholesale; a failed one leaves it.
    pub open spec fn reported(self, report: Option<PlayerReport>) -> SyncView {
        match report {
            Some(r) => SyncView { track: r.track_spec(), ..self },
            None => self,
        }
    }
}

/// The playback-state synchronizer: the current player, the current track and
/// the time of the last reconciliation pass.
pub struct MusicPlayer {
    current_track: TrackInfo,
    current_player: Option<String>,
    last_update: u64,
}

impl View for MusicPlayer {
    type V = SyncView;

    closed spec fn view(&self) -> SyncView {
        SyncView {
            track: self.current_track,
            player: match self.current_player {
                Some(s) => Some(s@),
                None => None,
            },
            last_poll: self.last_update,
        }
    }
}

impl MusicPlayer {
    /// A synchronizer with no player and a blank track, whose first pass is
    /// due one poll interval after `now_ms`.
    pub fn new(now_ms: u64) -> (r: MusicPlayer)
        ensures
            r@.track == TrackInfo::blank(),
            r@.player is None,
            r@.last_poll == now_ms,
    {
        MusicPlayer { current_track: TrackInfo::default(), current_player: None, last_update: now_ms }
    }

    /// Whether a reconciliation pass is due at `now_ms`.
    pub fn poll_due(&self, now_ms: u64) -> (r: bool)
        ensures
            r == self@.due_at(now_ms),
    {
        now_ms >= self.last_update && now_ms - self.last_update >= POLL_INTERVAL_MS
    }

    /// Starts a reconciliation pass if one is due at `now_ms`: stamps the poll
    /// time, whatever the pass will bring, and returns `true`. Otherwise does
    /// nothing and returns `false`.
    pub fn update(&mut self, now_ms: u64) -> (due: bool)
        ensures
            due == old(self)@.due_at(now_ms),
            due ==> final(self)@ == old(self)@.stamped(now_ms),
            !due ==> final(self)@ == old(self)@,
    {
        if self.poll_due(now_ms) {
            self.last_update = now_ms;
            true
        } else {
            false
        }
    }

    /// The enumeration step of a pass. `enumerated` holds the display names of
    /// the players found, in the source's order, or `None` where enumeration
    /// failed. Returns the index of the player to query next: the current one
    /// (its first listing) while it is still listed, else the first; `None`
    /// where no player is listed, in which case the state is reset.
    pub fn select_player(&mut self, enumerated: Option<Vec<String>>) -> (r: Option<usize>)
        ensures
            final(self)@ == old(self)@.reconciled(enumerated_names(enumerated)),
            r is None <==> enumerated_names(enumerated).len() == 0,
            r matches Some(i) ==> i < enumerated_names(enumerated).len()
                && Some(enumerated_names(enumerated)[i as int]) == final(self)@.player,
            r matches Some(i) ==> forall|j: int|
                0 <= j < i ==> enumerated_names(enumerated)[j] != enumerated_names(enumerated)[i as int],
    {
        let ghost names = enumerated_names(enumerated);
        let list = match enumerated {
            Some(v) => v,
            None => Vec::new(),
        };
        assert(list@.map_values(|s: String| s@) =~= names);
        if list.len() == 0 {
            self.current_player = None;
            self.current_track = TrackInfo::default();
            return None;
        }
        let mut found: Option<usize> = None;
        match &self.current_player {
            Some(cur) => {
                let mut i: usize = 0;
                while i < list.len()
                    invariant_except_break
                        found is None,
                    invariant
                        i <= list@.len(),
                        list@.map_values(|s: String| s@) == names,
                        forall|j: int| 0 <= j < i ==> names[j] != cur@,
                    ensures
                        found is None ==> i == list@.len(),
                        found matches Some(k) ==> k == i && i < list@.len() && names[k as int]
                            == cur@,
                    decreases list@.len() - i,
                {
                    assert(names[i as int] == list@[i as int]@);
                    if list[i] == *cur {
                        found = Some(i);
                        break;
                    }
                    i = i + 1;
                }
            },
            None => {},
        }
        match found {
            Some(i) => Some(i),
            None => {
                let first = list[0].clone();
                self.current_player = Some(first);
                Some(0)
            },
        }
    }

    /// The query step of a pass: a report replaces the track; `None`, a failed
    /// query, keeps the previous track and the selection.
    pub fn record_report(&mut self, report: Option<PlayerReport>)
        ensures
            final(self)@ == old(self)@.reported(report),
    {
        match report {
            Some(r) => {
                self.current_track = r.into_track();
            },
            None => {},
        }
    }

    /// The current track snapshot.
    pub fn get_current_track(&self) -> (r: &TrackInfo)
        ensures
            *r == self@.track,
    {
        &self.current_track
    }

    /// The display name of the current player, if one is selected.
    pub fn get_current_player(&self) -> (r: Option<&String>)
        ensures
            r is None <==> self@.player is None,
            r matches Some(s) ==> self@.player == Some(s@),
    {
        self.current_player.as_ref()
    }

    /// Whether a player is selected.
    pub fn is_connected(&self) -> (r: bool)
        ensures
            r == self@.player is Some,
    {
        self.current_player.is_some()
    }

    /// The command to send to the current player for play/pause; none
    /// where no player is selected.
    pub fn toggle_play_pause(&self) -> (r: Option<PlayerCommand>)
        ensures
            r == if self@.player is Some {
                Some(PlayerCommand::PlayPause)
            } else {
                None
            },
    {
        self.command_for(PlayerCommand::PlayPause)
    }

    /// The command to send to the current player to skip ahead; none where
    /// no player is selected.
    pub fn next(&self) -> (r: Option<PlayerCommand>)
        ensures
            r == if self@.player is Some {
                Some(PlayerCommand::Next)
            } else {
                None
            },
    {
        self.command_for(PlayerCommand::Next)
    }

    /// The command to send to the current player to go back; none where no
    /// player is selected.
    pub fn previous(&self) -> (r: Option<PlayerCommand>)
        ensures
            r == if self@.player is Some {
                Some(PlayerCommand::Previous)
            } else {
                None
            },
    {
        self.command_for(PlayerCommand::Previous)
    }

    fn command_for(&self, c: PlayerCommand) -> (r: Option<PlayerCommand>)
        ensures
            r == if self@.player is Some {
                Some(c)
            } else {
                None
            },
    {
        if self.current_player.is_some() {
            Some(c)
        } else {
            None
        }
    }
}

/// Two calls of `update` less than a poll interval apart start at most one
/// reconciliation pass between them; exactly one where the first call was due.
pub proof fn lemma_update_rate_limited(s: SyncView, t1: u64, t2: u64)
    requires
        t1 <= t2,
        t2 - t1 < POLL_INTERVAL_MS,
    ensures
        ({
            let after = if s.due_at(t1) {
                s.stamped(t1)
            } else {
                s
            };
            &&& !(s.due_at(t1) && after.due_at(t2))
            &&& s.due_at(t1) ==> !after.due_at(t2)
        }),
{
}

/// When the selected player is no longer listed, the enumeration step selects
/// the first listed player, or, with none listed, clears the selection and
/// resets the track to its defaults.
pub proof fn lemma_vanished_player_replaced(s: SyncView, names: Seq<Seq<char>>)
    requires
        s.player is Some,
        !names.contains(s.player->0),
    ensures
        names.len() > 0 ==> s.reconciled(names).player == Some(names[0]),
        names.len() == 0 ==> s.reconciled(names).player is None
            && s.reconciled(names).track == TrackInfo::blank(),
{
}

} // verus!
