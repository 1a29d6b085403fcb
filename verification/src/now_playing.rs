//! The now-playing panel's state: current song, playback state mirror,
//! position and duration in seconds, volume, shuffle and repeat flags, and
//! the once-per-track scrobble trigger.

use vstd::prelude::*;

use crate::action::{PlayerState, RepeatMode};
use crate::models::Song;
use crate::text::{clock_rep, u64_to_clock};

verus! {

/// Whether the scrobble trigger is due: the track has not been scrobbled
/// yet, the position has reached half the duration or four minutes,
/// whichever comes first, and the position has passed the 30-second floor,
/// so a trivially short play never scrobbles.
pub open spec fn scrobble_due(scrobbled: bool, position: u32, duration: u32) -> bool {
    let threshold = if duration / 2 < 240 {
        duration / 2
    } else {
        240u32
    };
    &&& !scrobbled
    &&& position >= threshold
    &&& position > 30
}

/// How many times the trigger fires over a sequence of observed positions,
/// marking the track scrobbled at the first firing.
pub open spec fn scrobble_fire_count(scrobbled: bool, duration: u32, positions: Seq<u32>) -> nat
    decreases positions.len(),
{
    if positions.len() == 0 {
        0
    } else if scrobble_due(scrobbled, positions[0], duration) {
        1 + scrobble_fire_count(true, duration, positions.subrange(1, positions.len() as int))
    } else {
        scrobble_fire_count(scrobbled, duration, positions.subrange(1, positions.len() as int))
    }
}

/// Law: a marked track never fires again, whatever positions follow.
pub proof fn lemma_scrobble_never_after_mark(duration: u32, positions: Seq<u32>)
    ensures
        scrobble_fire_count(true, duration, positions) == 0,
    decreases positions.len(),
{
    if positions.len() > 0 {
        lemma_scrobble_never_after_mark(duration, positions.subrange(1, positions.len() as int));
    }
}

/// Law: over any sequence of observed positions, an unscrobbled track fires
/// exactly once when some position meets the trigger, and never otherwise.
pub proof fn lemma_scrobble_fires_exactly_once(duration: u32, positions: Seq<u32>)
    ensures
        scrobble_fire_count(false, duration, positions) == if exists|i: int|
            0 <= i < positions.len() && scrobble_due(false, positions[i], duration) {
            1nat
        } else {
            0nat
        },
    decreases positions.len(),
{
    if positions.len() > 0 {
        let rest = positions.subrange(1, positions.len() as int);
        if scrobble_due(false, positions[0], duration) {
            lemma_scrobble_never_after_mark(duration, rest);
        } else {
            lemma_scrobble_fires_exactly_once(duration, rest);
            assert forall|i: int|
                0 <= i < positions.len() && scrobble_due(
                    false,
                    positions[i],
                    duration,
                ) implies exists|j: int|
                0 <= j < rest.len() && scrobble_due(false, rest[j], duration) by {
                assert(rest[i - 1] == positions[i]);
            }
            assert forall|j: int|
                0 <= j < rest.len() && scrobble_due(false, rest[j], duration) implies exists|i: int|
                0 <= i < positions.len() && scrobble_due(false, positions[i], duration) by {
                assert(positions[j + 1] == rest[j]);
            }
        }
    }
}

/// Law: the 30-second floor: at or below 30 seconds the trigger is never
/// due, whatever the duration, so a track that plays 10 of its 20 seconds
/// does not scrobble even though that is half its duration.
pub proof fn lemma_scrobble_floor(scrobbled: bool, position: u32, duration: u32)
    requires
        position <= 30,
    ensures
        !scrobble_due(scrobbled, position, duration),
{
}

/// Now playing state.
#[derive(Debug)]
pub struct NowPlayingState {
    /// Currently playing song.
    pub current_song: Option<Song>,
    /// Player state.
    pub state: PlayerState,
    /// Current position in seconds.
    pub position: u32,
    /// Total duration in seconds.
    pub duration: u32,
    /// Volume, 0 to 100.
    pub volume: u8,
    /// Shuffle enabled.
    pub shuffle: bool,
    /// Repeat mode.
    pub repeat: RepeatMode,
    /// Identity of the cover art currently loaded, if any.
    pub album_art_id: Option<String>,
    /// Whether the scrobble was sent for the current track.
    pub scrobbled: bool,
}

impl NowPlayingState {
    /// The initial state: nothing playing, at 80 percent volume.
    pub fn new() -> (np: NowPlayingState)
        ensures
            np.current_song is None,
            np.state == PlayerState::Stopped,
            np.position == 0,
            np.duration == 0,
            np.volume == 80,
            !np.shuffle,
            np.repeat == RepeatMode::Off,
            np.album_art_id is None,
            !np.scrobbled,
    {
        NowPlayingState {
            current_song: None,
            state: PlayerState::Stopped,
            position: 0,
            duration: 0,
            volume: 80,
            shuffle: false,
            repeat: RepeatMode::Off,
            album_art_id: None,
            scrobbled: false,
        }
    }

    /// Playback progress as a ratio in per-mille, clamped to full: zero when
    /// no duration is known.
    pub fn progress(&self) -> (r: u32)
        ensures
            self.duration == 0 ==> r == 0,
            self.duration > 0 ==> r == if self.position * 1000 / (self.duration as int) <= 1000 {
                self.position * 1000 / (self.duration as int)
            } else {
                1000int
            },
    {
        if self.duration == 0 {
            0
        } else {
            let raw = (self.position as u64) * 1000 / (self.duration as u64);
            if raw <= 1000 {
                raw as u32
            } else {
                1000
            }
        }
    }

    /// The position as an `M:SS` clock.
    pub fn position_string(&self) -> (s: String)
        ensures
            s@ == clock_rep(self.position as nat),
    {
        u64_to_clock(self.position as u64)
    }

    /// The duration as an `M:SS` clock.
    pub fn duration_string(&self) -> (s: String)
        ensures
            s@ == clock_rep(self.duration as nat),
    {
        u64_to_clock(self.duration as u64)
    }

    /// Play/pause symbol for the current state.
    pub fn state_symbol(&self) -> (r: &'static str)
        ensures
            self.state == PlayerState::Playing ==> r@ == ""@,
            self.state == PlayerState::Paused ==> r@ == ""@,
            self.state == PlayerState::Stopped ==> r@ == ""@,
            self.state == PlayerState::Buffering ==> r@ == "󰔟"@,
    {
        match self.state {
            PlayerState::Playing => "",
            PlayerState::Paused => "",
            PlayerState::Stopped => "",
            PlayerState::Buffering => "󰔟",
        }
    }

    /// Shuffle symbol.
    pub fn shuffle_symbol(&self) -> (r: &'static str)
        ensures
            self.shuffle ==> r@ == "󰒟"@,
            !self.shuffle ==> r@ == "󰒞"@,
    {
        if self.shuffle {
            "󰒟"
        } else {
            "󰒞"
        }
    }

    /// Volume symbol for the current level.
    pub fn volume_symbol(&self) -> (r: &'static str)
        ensures
            self.volume == 0 ==> r@ == "󰝟"@,
            0 < self.volume < 30 ==> r@ == "󰕿"@,
            30 <= self.volume < 70 ==> r@ == "󰖀"@,
            self.volume >= 70 ==> r@ == "󰕾"@,
    {
        if self.volume == 0 {
            "󰝟"
        } else if self.volume < 30 {
            "󰕿"
        } else if self.volume < 70 {
            "󰖀"
        } else {
            "󰕾"
        }
    }

    /// Repeat symbol for the current mode.
    pub fn repeat_symbol(&self) -> (r: &'static str)
        ensures
            self.repeat == RepeatMode::Off ==> r@ == "󰑗"@,
            self.repeat == RepeatMode::All ==> r@ == "󰑖"@,
            self.repeat == RepeatMode::One ==> r@ == "󰑘"@,
    {
        match self.repeat {
            RepeatMode::Off => "󰑗",
            RepeatMode::All => "󰑖",
            RepeatMode::One => "󰑘",
        }
    }

    /// Load a new song: its declared duration is taken over (a missing or
    /// nonsensical negative one reads as zero), the position rewinds, the
    /// scrobble trigger re-arms, and the cover art reference is replaced.
    pub fn set_song(&mut self, song: Song)
        ensures
            final(self).current_song == Some(song),
            final(self).duration == match song.duration {
                Some(d) => if d >= 0 {
                    d as u32
                } else {
                    0u32
                },
                None => 0u32,
            },
            final(self).position == 0,
            !final(self).scrobbled,
            final(self).album_art_id == song.cover_art,
            final(self).state == old(self).state,
            final(self).volume == old(self).volume,
            final(self).shuffle == old(self).shuffle,
            final(self).repeat == old(self).repeat,
    {
        self.duration = match song.duration {
            Some(d) => if d >= 0 {
                d as u32
            } else {
                0
            },
            None => 0,
        };
        self.position = 0;
        self.scrobbled = false;
        let new_art_id = match &song.cover_art {
            Some(id) => Some(id.clone()),
            None => None,
        };
        self.album_art_id = new_art_id;
        self.current_song = Some(song);
    }

    /// Whether the scrobble should fire now.
    pub fn should_scrobble(&self) -> (r: bool)
        ensures
            r == scrobble_due(self.scrobbled, self.position, self.duration),
    {
        if self.scrobbled {
            return false;
        }
        let half_duration = self.duration / 2;
        let four_minutes: u32 = 240;
        let threshold = if half_duration < four_minutes {
            half_duration
        } else {
            four_minutes
        };
        self.position >= threshold && self.position > 30
    }

    /// Mark the current track as scrobbled.
    pub fn mark_scrobbled(&mut self)
        ensures
            *final(self) == (NowPlayingState { scrobbled: true, ..*old(self) }),
    {
        self.scrobbled = true;
    }

    /// Clear the current song and rewind.
    pub fn clear(&mut self)
        ensures
            final(self).current_song is None,
            final(self).position == 0,
            final(self).duration == 0,
            final(self).state == PlayerState::Stopped,
            final(self).album_art_id is None,
            !final(self).scrobbled,
            final(self).volume == old(self).volume,
            final(self).shuffle == old(self).shuffle,
            final(self).repeat == old(self).repeat,
    {
        self.current_song = None;
        self.position = 0;
        self.duration = 0;
        self.state = PlayerState::Stopped;
        self.album_art_id = None;
        self.scrobbled = false;
    }
}

} // verus!
