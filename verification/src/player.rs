//! The playback actor's state machine.
//!
//! The actor owns the audio output and is the sole mutator of playback
//! state. Its loop alternates outside work (fetching bytes, driving the
//! sink) with decisions; the decisions live here as a pure state machine
//! over [`PlayerCore`], taking each outside outcome as an argument, and the
//! loop around it only performs the actions.

use vstd::prelude::*;

use crate::action::PlayerState;
use crate::models::Song;

verus! {

/// Commands sent to the player actor. Volume is a percentage of the linear
/// slider (0 to 100); seek positions are in milliseconds.
#[derive(Debug)]
pub enum PlayerCommand {
    Play(String, Song),
    Pause,
    Resume,
    Stop,
    SetVolume(u8),
    Seek(u64),
}

/// Events emitted by the player actor. Positions and durations are in
/// milliseconds.
#[derive(Debug)]
pub enum PlayerEvent {
    StateChanged(PlayerState),
    Progress { position_ms: u64, duration_ms: u64 },
    TrackEnded,
    Error(String),
}

impl Clone for PlayerEvent {
    /// A clone carries the event over unchanged, so an event can be fanned
    /// out to several consumers.
    fn clone(&self) -> (r: Self)
        ensures
            r == *self,
    {
        match self {
            PlayerEvent::StateChanged(s) => PlayerEvent::StateChanged(*s),
            PlayerEvent::Progress { position_ms, duration_ms } => PlayerEvent::Progress {
                position_ms: *position_ms,
                duration_ms: *duration_ms,
            },
            PlayerEvent::TrackEnded => PlayerEvent::TrackEnded,
            PlayerEvent::Error(msg) => PlayerEvent::Error(msg.clone()),
        }
    }
}

/// How an attempt to start playback went: the audio was fetched and the
/// sink accepted the decoded source; the fetch failed; or the fetch
/// succeeded and the decode or the sink failed.
#[derive(Debug)]
pub enum PlayOutcome {
    Started,
    FetchFailed(String),
    StartFailed(String),
}

/// How rebuilding the sink for a seek went.
#[derive(Debug)]
pub enum SeekOutcome {
    Restarted,
    Failed(String),
}

/// The declared duration of a song in milliseconds: the external metadata
/// the actor reports, never the decoder's own estimate. A nonsensical
/// negative duration reads as zero.
pub open spec fn song_duration_ms(song: Song) -> Option<u64> {
    match song.duration {
        Some(d) => if d >= 0 {
            Some((d * 1000) as u64)
        } else {
            Some(0u64)
        },
        None => None,
    }
}

/// The playback actor's state: the playing flag and wall-clock position
/// estimate mirrored to readers, the declared duration, the volume as a
/// percentage, whether audio is loaded, the one-iteration seek guard, and
/// whether a wall-clock reference point is held.
#[derive(Debug, Clone, Copy, PartialEq, Eq)]
pub struct PlayerCore {
    pub is_playing: bool,
    pub position_ms: u64,
    pub duration_ms: Option<u64>,
    pub volume: u8,
    pub has_audio: bool,
    pub is_seeking: bool,
    pub has_tick_ref: bool,
}

/// State after a `Play` command: the declared duration is stored whatever
/// happens; playback state changes only when the sink actually started.
pub open spec fn play_step(c: PlayerCore, song: Song, outcome: PlayOutcome) -> PlayerCore {
    let with_duration = PlayerCore { duration_ms: song_duration_ms(song), ..c };
    match outcome {
        PlayOutcome::Started => PlayerCore {
            has_audio: true,
            is_playing: true,
            position_ms: 0,
            has_tick_ref: true,
            ..with_duration
        },
        PlayOutcome::FetchFailed(msg) => with_duration,
        PlayOutcome::StartFailed(msg) => PlayerCore { has_audio: true, ..with_duration },
    }
}

/// The event a `Play` command emits: a state change on success, the error
/// otherwise.
pub open spec fn play_event(outcome: PlayOutcome) -> PlayerEvent {
    match outcome {
        PlayOutcome::Started => PlayerEvent::StateChanged(PlayerState::Playing),
        PlayOutcome::FetchFailed(msg) => PlayerEvent::Error(msg),
        PlayOutcome::StartFailed(msg) => PlayerEvent::Error(msg),
    }
}

/// State after `Pause`: playback and the clock reference stop.
pub open spec fn pause_step(c: PlayerCore) -> PlayerCore {
    PlayerCore { is_playing: false, has_tick_ref: false, ..c }
}

/// State after `Resume`: playback continues from a fresh clock reference.
pub open spec fn resume_step(c: PlayerCore) -> PlayerCore {
    PlayerCore { is_playing: true, has_tick_ref: true, ..c }
}

/// State after `Stop`: audio is discarded and the position rewinds.
pub open spec fn stop_step(c: PlayerCore) -> PlayerCore {
    PlayerCore {
        has_audio: false,
        is_playing: false,
        position_ms: 0,
        has_tick_ref: false,
        ..c
    }
}

/// State after a `Seek`: ignored without audio; otherwise the seek guard is
/// raised for the one iteration in which the sink is stopped and recreated,
/// and the pre-seek playing/paused state is preserved.
pub open spec fn seek_step(c: PlayerCore, position_ms: u64, outcome: SeekOutcome) -> PlayerCore {
    if !c.has_audio {
        c
    } else {
        match outcome {
            SeekOutcome::Failed(msg) => PlayerCore { is_seeking: true, ..c },
            SeekOutcome::Restarted => if c.is_playing {
                PlayerCore { is_seeking: true, position_ms, has_tick_ref: true, ..c }
            } else {
                PlayerCore {
                    is_seeking: true,
                    position_ms,
                    is_playing: false,
                    has_tick_ref: false,
                    ..c
                }
            },
        }
    }
}

/// The event a `Seek` emits: nothing without audio, the error on failure,
/// and the preserved state otherwise.
pub open spec fn seek_event(c: PlayerCore, outcome: SeekOutcome) -> Option<PlayerEvent> {
    if !c.has_audio {
        None
    } else {
        match outcome {
            SeekOutcome::Failed(msg) => Some(PlayerEvent::Error(msg)),
            SeekOutcome::Restarted => if c.is_playing {
                Some(PlayerEvent::StateChanged(PlayerState::Playing))
            } else {
                Some(PlayerEvent::StateChanged(PlayerState::Paused))
            },
        }
    }
}

/// Whether the end-of-track check fires: the sink drained while the actor
/// believed it was playing, and no seek is in flight.
pub open spec fn end_check_emits(c: PlayerCore, sink_empty: bool) -> bool {
    !c.is_seeking && sink_empty && c.is_playing
}

/// State after the end-of-track check: the seek guard is always lowered
/// again, and a fired check stops the playing flag.
pub open spec fn end_check_step(c: PlayerCore, sink_empty: bool) -> PlayerCore {
    if end_check_emits(c, sink_empty) {
        PlayerCore { is_playing: false, is_seeking: false, ..c }
    } else {
        PlayerCore { is_seeking: false, ..c }
    }
}

/// State after a progress tick: while playing, elapsed wall-clock time is
/// added to the position estimate (establishing a reference point first if
/// none is held); paused or stopped, nothing moves.
pub open spec fn tick_step(c: PlayerCore, elapsed_ms: u64) -> PlayerCore {
    if c.is_playing {
        if c.has_tick_ref {
            let advanced = if c.position_ms + elapsed_ms <= u64::MAX {
                (c.position_ms + elapsed_ms) as u64
            } else {
                u64::MAX
            };
            PlayerCore { position_ms: advanced, ..c }
        } else {
            PlayerCore { has_tick_ref: true, ..c }
        }
    } else {
        c
    }
}

/// Whether a progress tick reports progress: only while playing with a
/// reference point held and a known duration.
pub open spec fn tick_emits(c: PlayerCore) -> bool {
    c.is_playing && c.has_tick_ref && c.duration_ms is Some
}

impl PlayerCore {
    /// The actor's initial state: stopped, rewound, at 80 percent volume.
    pub fn new() -> (c: PlayerCore)
        ensures
            c == (PlayerCore {
                is_playing: false,
                position_ms: 0,
                duration_ms: None,
                volume: 80,
                has_audio: false,
                is_seeking: false,
                has_tick_ref: false,
            }),
    {
        PlayerCore {
            is_playing: false,
            position_ms: 0,
            duration_ms: None,
            volume: 80,
            has_audio: false,
            is_seeking: false,
            has_tick_ref: false,
        }
    }

    /// Handle a `Play` command, given how the fetch and sink start went.
    /// The declared duration of the song is stored in every case; on
    /// failure the prior playback state is kept and the error is reported,
    /// so the listener can retry without losing their place.
    pub fn on_play(&mut self, song: &Song, outcome: PlayOutcome) -> (ev: PlayerEvent)
        ensures
            *final(self) == play_step(*old(self), *song, outcome),
            ev == play_event(outcome),
    {
        self.duration_ms = match song.duration {
            Some(d) => if d >= 0 {
                Some((d as u64) * 1000)
            } else {
                Some(0)
            },
            None => None,
        };
        match outcome {
            PlayOutcome::Started => {
                self.has_audio = true;
                self.is_playing = true;
                self.position_ms = 0;
                self.has_tick_ref = true;
                PlayerEvent::StateChanged(PlayerState::Playing)
            },
            PlayOutcome::FetchFailed(msg) => PlayerEvent::Error(msg),
            PlayOutcome::StartFailed(msg) => {
                self.has_audio = true;
                PlayerEvent::Error(msg)
            },
        }
    }

    /// Handle `Pause`.
    pub fn on_pause(&mut self) -> (ev: PlayerEvent)
        ensures
            *final(self) == pause_step(*old(self)),
            ev == PlayerEvent::StateChanged(PlayerState::Paused),
    {
        self.is_playing = false;
        self.has_tick_ref = false;
        PlayerEvent::StateChanged(PlayerState::Paused)
    }

    /// Handle `Resume`.
    pub fn on_resume(&mut self) -> (ev: PlayerEvent)
        ensures
            *final(self) == resume_step(*old(self)),
            ev == PlayerEvent::StateChanged(PlayerState::Playing),
    {
        self.is_playing = true;
        self.has_tick_ref = true;
        PlayerEvent::StateChanged(PlayerState::Playing)
    }

    /// Handle `Stop`.
    pub fn on_stop(&mut self) -> (ev: PlayerEvent)
        ensures
            *final(self) == stop_step(*old(self)),
            ev == PlayerEvent::StateChanged(PlayerState::Stopped),
    {
        self.has_audio = false;
        self.is_playing = false;
        self.position_ms = 0;
        self.has_tick_ref = false;
        PlayerEvent::StateChanged(PlayerState::Stopped)
    }

    /// Handle `SetVolume`: the percentage is recorded, clamped to 100, and
    /// playback state does not change.
    pub fn on_set_volume(&mut self, volume: u8)
        ensures
            *final(self) == (PlayerCore {
                volume: if volume <= 100 {
                    volume
                } else {
                    100
                },
                ..*old(self)
            }),
    {
        self.volume = if volume <= 100 {
            volume
        } else {
            100
        };
    }

    /// Handle a `Seek`, given how rebuilding the sink went. Without loaded
    /// audio the command is ignored. Otherwise the seek guard is raised, and
    /// the pre-seek playing/paused state is preserved and re-announced.
    pub fn on_seek(&mut self, position_ms: u64, outcome: SeekOutcome) -> (ev: Option<PlayerEvent>)
        ensures
            *final(self) == seek_step(*old(self), position_ms, outcome),
            ev == seek_event(*old(self), outcome),
    {
        if !self.has_audio {
            return None;
        }
        self.is_seeking = true;
        match outcome {
            SeekOutcome::Failed(msg) => Some(PlayerEvent::Error(msg)),
            SeekOutcome::Restarted => {
                self.position_ms = position_ms;
                if self.is_playing {
                    self.has_tick_ref = true;
                    Some(PlayerEvent::StateChanged(PlayerState::Playing))
                } else {
                    self.is_playing = false;
                    self.has_tick_ref = false;
                    Some(PlayerEvent::StateChanged(PlayerState::Paused))
                }
            },
        }
    }

    /// The per-iteration end-of-track check, given whether the sink reports
    /// empty. The seek guard suppresses the check for exactly the one
    /// iteration in which the sink was stopped and recreated, and is lowered
    /// afterwards either way. This check is the sole source of `TrackEnded`.
    pub fn check_track_end(&mut self, sink_empty: bool) -> (ev: Option<PlayerEvent>)
        ensures
            *final(self) == end_check_step(*old(self), sink_empty),
            ev == if end_check_emits(*old(self), sink_empty) {
                Some(PlayerEvent::TrackEnded)
            } else {
                None::<PlayerEvent>
            },
    {
        let fired = !self.is_seeking && sink_empty && self.is_playing;
        self.is_seeking = false;
        if fired {
            self.is_playing = false;
            Some(PlayerEvent::TrackEnded)
        } else {
            None
        }
    }

    /// The per-iteration progress estimate: while playing, add the elapsed
    /// wall-clock time to the position and report it against the declared
    /// duration; establish a reference point first when none is held.
    pub fn tick_progress(&mut self, elapsed_ms: u64) -> (ev: Option<PlayerEvent>)
        ensures
            *final(self) == tick_step(*old(self), elapsed_ms),
            ev == if tick_emits(*old(self)) {
                Some(PlayerEvent::Progress {
                    position_ms: tick_step(*old(self), elapsed_ms).position_ms,
                    duration_ms: old(self).duration_ms->0,
                })
            } else {
                None::<PlayerEvent>
            },
    {
        if !self.is_playing {
            return None;
        }
        if !self.has_tick_ref {
            self.has_tick_ref = true;
            return None;
        }
        self.position_ms = if elapsed_ms <= u64::MAX - self.position_ms {
            self.position_ms + elapsed_ms
        } else {
            u64::MAX
        };
        match self.duration_ms {
            Some(duration_ms) => Some(
                PlayerEvent::Progress { position_ms: self.position_ms, duration_ms },
            ),
            None => None,
        }
    }
}

/// One seek iteration as the actor's loop performs it: the seek itself,
/// then the end-of-track check of the same iteration, with the sink
/// emptiness that iteration happened to observe.
pub open spec fn seek_iteration(c: PlayerCore, step: (u64, SeekOutcome, bool)) -> PlayerCore {
    end_check_step(seek_step(c, step.0, step.1), step.2)
}

/// A whole sequence of seek iterations.
pub open spec fn run_seek_iterations(c: PlayerCore, steps: Seq<(u64, SeekOutcome, bool)>) -> PlayerCore
    decreases steps.len(),
{
    if steps.len() == 0 {
        c
    } else {
        run_seek_iterations(seek_iteration(c, steps[0]), steps.subrange(1, steps.len() as int))
    }
}

/// Whether any iteration of the sequence emitted `TrackEnded`.
pub open spec fn any_track_end(c: PlayerCore, steps: Seq<(u64, SeekOutcome, bool)>) -> bool
    decreases steps.len(),
{
    if steps.len() == 0 {
        false
    } else {
        end_check_emits(seek_step(c, steps[0].0, steps[0].1), steps[0].2) || any_track_end(
            seek_iteration(c, steps[0]),
            steps.subrange(1, steps.len() as int),
        )
    }
}

/// Law: any sequence of seeks issued while paused leaves the actor paused;
/// it never silently resumes, whatever each seek's outcome and whatever the
/// sink reported in between.
pub proof fn lemma_seeks_preserve_paused(c: PlayerCore, steps: Seq<(u64, SeekOutcome, bool)>)
    requires
        !c.is_playing,
    ensures
        !run_seek_iterations(c, steps).is_playing,
    decreases steps.len(),
{
    if steps.len() > 0 {
        lemma_seeks_preserve_paused(seek_iteration(c, steps[0]), steps.subrange(1, steps.len() as int));
    }
}

/// Law: any sequence of seeks issued while playing with audio loaded leaves
/// the actor playing, and no `TrackEnded` is emitted during any seek's
/// stop-and-recreate window, even when the momentarily empty sink was
/// observed.
pub proof fn lemma_seeks_preserve_playing(c: PlayerCore, steps: Seq<(u64, SeekOutcome, bool)>)
    requires
        c.is_playing,
        c.has_audio,
    ensures
        run_seek_iterations(c, steps).is_playing,
        run_seek_iterations(c, steps).has_audio,
        !any_track_end(c, steps),
    decreases steps.len(),
{
    if steps.len() > 0 {
        lemma_seeks_preserve_playing(seek_iteration(c, steps[0]), steps.subrange(1, steps.len() as int));
    }
}

} // verus!
