//! The playback orchestrator: pure decision logic choosing the next track
//! when one ends, keyed by repeat mode, together with the glue that applies
//! player events to the now-playing state.

use vstd::arithmetic::div_mod::{
    lemma_fundamental_div_mod, lemma_fundamental_div_mod_converse_mod,
};
use vstd::prelude::*;

use crate::action::{Action, PlayerState, RepeatMode};
use crate::models::Song;
use crate::now_playing::NowPlayingState;
use crate::player::PlayerEvent;
use crate::queue::{next_index, QueueState, QueueView};

verus! {

/// Where the cursor stands after a track ends. `One` leaves it in place;
/// `All` advances and wraps to the front when the end is passed; `Off`
/// advances but stays put at the end, and never wraps.
pub open spec fn track_end_cursor(q: QueueView, repeat: RepeatMode) -> Option<int> {
    match repeat {
        RepeatMode::One => q.current_index,
        RepeatMode::All => if q.songs.len() == 0 {
            q.current_index
        } else {
            match next_index(q) {
                Some(i) => Some(i),
                None => Some(0int),
            }
        },
        RepeatMode::Off => match next_index(q) {
            Some(i) => Some(i),
            None => q.current_index,
        },
    }
}

/// Which song plays after a track ends, as an index: `One` replays the
/// current one, `All` the advanced-or-wrapped one, `Off` only a genuine
/// next one.
pub open spec fn track_end_play(q: QueueView, repeat: RepeatMode) -> Option<int> {
    match repeat {
        RepeatMode::One => match q.current_index {
            Some(i) => if i < q.songs.len() {
                Some(i)
            } else {
                None
            },
            None => None,
        },
        RepeatMode::All => if q.songs.len() == 0 {
            None
        } else {
            match next_index(q) {
                Some(i) => Some(i),
                None => Some(0int),
            }
        },
        RepeatMode::Off => next_index(q),
    }
}

/// Decide what to do when the current track ends: move the queue's cursor
/// as the repeat mode dictates and return the song to play, or nothing when
/// playback should stop.
pub fn handle_track_ended(queue: &mut QueueState, repeat: RepeatMode) -> (r: Option<Song>)
    requires
        old(queue)@.wf(),
    ensures
        final(queue)@.songs == old(queue)@.songs,
        final(queue)@.selected == old(queue)@.selected,
        final(queue)@.visible == old(queue)@.visible,
        final(queue)@.current_index == track_end_cursor(old(queue)@, repeat),
        r == match track_end_play(old(queue)@, repeat) {
            Some(i) => Some(old(queue)@.songs[i]),
            None => None::<Song>,
        },
        final(queue)@.wf(),
{
    match repeat {
        RepeatMode::One => match queue.current_song() {
            Some(song) => Some(song.clone()),
            None => None,
        },
        RepeatMode::All => match queue.advance() {
            Some(song) => Some(song),
            None => queue.play_index(0),
        },
        RepeatMode::Off => queue.advance(),
    }
}

/// The queue after `k` consecutive track ends: only the cursor moves.
pub open spec fn after_track_ends(q: QueueView, repeat: RepeatMode, k: nat) -> QueueView
    decreases k,
{
    if k == 0 {
        q
    } else {
        let prev = after_track_ends(q, repeat, (k - 1) as nat);
        QueueView { current_index: track_end_cursor(prev, repeat), ..prev }
    }
}

/// Law: with repeat off, a queue of length `n` playing from the front never
/// advances past index `n - 1` and never wraps: after `k` consecutive track
/// ends the cursor stands at `k`, capped at the last index.
pub proof fn lemma_repeat_off_stops_at_end(q: QueueView, k: nat)
    requires
        q.songs.len() > 0,
        q.current_index == Some(0int),
    ensures
        after_track_ends(q, RepeatMode::Off, k).songs == q.songs,
        after_track_ends(q, RepeatMode::Off, k).current_index == Some(
            if k <= q.songs.len() - 1 {
                k as int
            } else {
                q.songs.len() - 1
            },
        ),
    decreases k,
{
    if k > 0 {
        lemma_repeat_off_stops_at_end(q, (k - 1) as nat);
    }
}

/// Law: with repeat all, a queue of length `n` playing from the front
/// cycles: after `k` consecutive track ends the cursor stands at `k % n`.
/// In particular the track end that follows the last index wraps to 0.
pub proof fn lemma_repeat_all_wraps(q: QueueView, k: nat)
    requires
        q.songs.len() > 0,
        q.current_index == Some(0int),
    ensures
        after_track_ends(q, RepeatMode::All, k).songs == q.songs,
        after_track_ends(q, RepeatMode::All, k).current_index == Some(
            k as int % q.songs.len() as int,
        ),
    decreases k,
{
    let n = q.songs.len() as int;
    if k == 0 {
        lemma_fundamental_div_mod_converse_mod(0, n, 0, 0);
    } else {
        lemma_repeat_all_wraps(q, (k - 1) as nat);
        let m = (k - 1) as int % n;
        lemma_fundamental_div_mod((k - 1) as int, n);
        let quotient = (k - 1) as int / n;
        if m + 1 < n {
            lemma_fundamental_div_mod_converse_mod(k as int, n, quotient, m + 1);
        } else {
            assert(k as int == (quotient + 1) * n + 0) by (nonlinear_arith)
                requires
                    k - 1 == quotient * n + m,
                    m + 1 == n,
            ;
            lemma_fundamental_div_mod_converse_mod(k as int, n, quotient + 1, 0);
        }
    }
}

/// Law: with repeat one, any number of track ends replays the same track
/// without moving the cursor.
pub proof fn lemma_repeat_one_replays(q: QueueView, k: nat)
    ensures
        after_track_ends(q, RepeatMode::One, k) == q,
        track_end_play(after_track_ends(q, RepeatMode::One, k), RepeatMode::One) == track_end_play(
            q,
            RepeatMode::One,
        ),
    decreases k,
{
    if k > 0 {
        lemma_repeat_one_replays(q, (k - 1) as nat);
        assert(after_track_ends(q, RepeatMode::One, k) =~= q);
    }
}

/// What the application does with a player event: possibly a song to start
/// playing, possibly an error message to show.
pub struct EventOutcome {
    pub play: Option<Song>,
    pub error: Option<String>,
}

/// Apply a player event: state changes and progress mirror into the
/// now-playing state; a track end runs the orchestrator over the queue and,
/// with repeat off and nothing left, stops; an error is handed back for
/// display without touching playback state.
pub fn handle_player_event(
    np: &mut NowPlayingState,
    queue: &mut QueueState,
    event: PlayerEvent,
) -> (r: EventOutcome)
    requires
        old(queue)@.wf(),
    ensures
        final(queue)@.wf(),
        match event {
            PlayerEvent::StateChanged(s) => {
                &&& *final(np) == (NowPlayingState { state: s, ..*old(np) })
                &&& *final(queue) == *old(queue)
                &&& r.play is None && r.error is None
            },
            PlayerEvent::Progress { position_ms, duration_ms } => {
                &&& *final(np) == (NowPlayingState {
                    position: (position_ms / 1000) as u32,
                    duration: (duration_ms / 1000) as u32,
                    ..*old(np)
                })
                &&& *final(queue) == *old(queue)
                &&& r.play is None && r.error is None
            },
            PlayerEvent::TrackEnded => {
                &&& final(queue)@.songs == old(queue)@.songs
                &&& final(queue)@.selected == old(queue)@.selected
                &&& final(queue)@.visible == old(queue)@.visible
                &&& final(queue)@.current_index == track_end_cursor(old(queue)@, old(np).repeat)
                &&& r.play == match track_end_play(old(queue)@, old(np).repeat) {
                    Some(i) => Some(old(queue)@.songs[i]),
                    None => None::<Song>,
                }
                &&& *final(np) == (NowPlayingState {
                    state: if old(np).repeat == RepeatMode::Off && next_index(old(queue)@)
                        is None {
                        PlayerState::Stopped
                    } else {
                        old(np).state
                    },
                    ..*old(np)
                })
                &&& r.error is None
            },
            PlayerEvent::Error(msg) => {
                &&& *final(np) == *old(np)
                &&& *final(queue) == *old(queue)
                &&& r.play is None && r.error == Some(msg)
            },
        },
{
    match event {
        PlayerEvent::StateChanged(s) => {
            np.state = s;
            EventOutcome { play: None, error: None }
        },
        PlayerEvent::Progress { position_ms, duration_ms } => {
            let position_secs = position_ms / 1000;
            let duration_secs = duration_ms / 1000;
            np.position = position_secs as u32;
            np.duration = duration_secs as u32;
            EventOutcome { play: None, error: None }
        },
        PlayerEvent::TrackEnded => {
            let repeat = np.repeat;
            let play = handle_track_ended(queue, repeat);
            if play.is_none() && matches!(repeat, RepeatMode::Off) {
                np.state = PlayerState::Stopped;
            }
            EventOutcome { play, error: None }
        },
        PlayerEvent::Error(msg) => EventOutcome { play: None, error: Some(msg) },
    }
}

/// What the play/pause toggle asks the player to do.
pub enum ToggleAction {
    SendPause,
    SendResume,
    StartPlay(Song),
    Nothing,
}

/// Toggle play/pause: pause when playing, resume when paused; when stopped,
/// start the queue's current song, or advance into the queue when no cursor
/// is set; buffering ignores the toggle.
pub fn toggle_play_pause(np: &mut NowPlayingState, queue: &mut QueueState) -> (r: ToggleAction)
    requires
        old(queue)@.wf(),
    ensures
        final(queue)@.wf(),
        final(queue)@.songs == old(queue)@.songs,
        final(queue)@.selected == old(queue)@.selected,
        final(queue)@.visible == old(queue)@.visible,
        old(np).state == PlayerState::Playing ==> {
            &&& *final(np) == (NowPlayingState { state: PlayerState::Paused, ..*old(np) })
            &&& *final(queue) == *old(queue)
            &&& r == ToggleAction::SendPause
        },
        old(np).state == PlayerState::Paused ==> {
            &&& *final(np) == (NowPlayingState { state: PlayerState::Playing, ..*old(np) })
            &&& *final(queue) == *old(queue)
            &&& r == ToggleAction::SendResume
        },
        old(np).state == PlayerState::Stopped ==> {
            &&& *final(np) == *old(np)
            &&& match old(queue)@.current_index {
                Some(i) => if i < old(queue)@.songs.len() {
                    r == ToggleAction::StartPlay(old(queue)@.songs[i])
                        && *final(queue) == *old(queue)
                } else {
                    r == ToggleAction::Nothing && *final(queue) == *old(queue)
                },
                None => match next_index(old(queue)@) {
                    Some(i) => r == ToggleAction::StartPlay(old(queue)@.songs[i])
                        && final(queue)@.current_index == Some(i),
                    None => r == ToggleAction::Nothing && final(queue)@ == old(queue)@,
                },
            }
        },
        old(np).state == PlayerState::Buffering ==> {
            &&& *final(np) == *old(np)
            &&& *final(queue) == *old(queue)
            &&& r == ToggleAction::Nothing
        },
{
    match np.state {
        PlayerState::Playing => {
            np.state = PlayerState::Paused;
            ToggleAction::SendPause
        },
        PlayerState::Paused => {
            np.state = PlayerState::Playing;
            ToggleAction::SendResume
        },
        PlayerState::Stopped => {
            let has_current = match queue.current_song() {
                Some(_) => true,
                None => false,
            };
            if has_current {
                match queue.current_song() {
                    Some(song) => ToggleAction::StartPlay(song.clone()),
                    None => ToggleAction::Nothing,
                }
            } else {
                match queue.advance() {
                    Some(song) => ToggleAction::StartPlay(song),
                    None => ToggleAction::Nothing,
                }
            }
        },
        PlayerState::Buffering => ToggleAction::Nothing,
    }
}

/// What the application must ask the player to do after a playback-control
/// action.
#[derive(Debug, PartialEq)]
pub enum PlayerRequest {
    SendPause,
    SendResume,
    SendStop,
    StartPlay(Song),
    SendSeekSecs(u32),
    SendVolume(u8),
    Nothing,
}

/// The actions this dispatcher decides; every other action is left to the
/// caller untouched.
pub open spec fn is_playback_action(action: Action) -> bool {
    ||| action is PlayPause
    ||| action is Stop
    ||| action is NextTrack
    ||| action is PreviousTrack
    ||| action is SeekForward
    ||| action is SeekBackward
    ||| action is SeekForwardLarge
    ||| action is SeekBackwardLarge
    ||| action is SeekTo
    ||| action is VolumeUp
    ||| action is VolumeDown
    ||| action is SetVolume
    ||| action is ToggleShuffle
    ||| action is CycleRepeat
    ||| action is SetRepeat
}

/// Apply a playback-control action: toggle, stop, track stepping, seeks
/// with their clamping, volume stepping in fives, shuffle and repeat. The
/// returned request is what the caller sends to the player.
pub fn apply_playback_action(
    np: &mut NowPlayingState,
    queue: &mut QueueState,
    action: Action,
) -> (r: PlayerRequest)
    requires
        old(queue)@.wf(),
    ensures
        final(queue)@.wf(),
        !is_playback_action(action) ==> *final(np) == *old(np) && *final(queue) == *old(queue) && r
            == PlayerRequest::Nothing,
        action is PlayPause ==> {
            &&& (old(np).state == PlayerState::Playing ==> *final(np) == (NowPlayingState {
                state: PlayerState::Paused,
                ..*old(np)
            }) && *final(queue) == *old(queue) && r == PlayerRequest::SendPause)
            &&& (old(np).state == PlayerState::Paused ==> *final(np) == (NowPlayingState {
                state: PlayerState::Playing,
                ..*old(np)
            }) && *final(queue) == *old(queue) && r == PlayerRequest::SendResume)
            &&& (old(np).state == PlayerState::Stopped ==> *final(np) == *old(np) && final(queue)@.songs == old(queue)@.songs && match old(queue)@.current_index {
                Some(i) => r == PlayerRequest::StartPlay(old(queue)@.songs[i]) && *final(queue)
                    == *old(queue),
                None => match next_index(old(queue)@) {
                    Some(i) => r == PlayerRequest::StartPlay(old(queue)@.songs[i]) && final(queue)@.current_index == Some(i),
                    None => r == PlayerRequest::Nothing && final(queue)@ == old(queue)@,
                },
            })
            &&& (old(np).state == PlayerState::Buffering ==> *final(np) == *old(np) && *final(queue) == *old(queue) && r == PlayerRequest::Nothing)
        },
        action is Stop ==> {
            &&& final(np).current_song is None
            &&& final(np).position == 0
            &&& final(np).duration == 0
            &&& final(np).state == PlayerState::Stopped
            &&& !final(np).scrobbled
            &&& final(np).volume == old(np).volume
            &&& final(np).shuffle == old(np).shuffle
            &&& final(np).repeat == old(np).repeat
            &&& *final(queue) == *old(queue)
            &&& r == PlayerRequest::SendStop
        },
        action is NextTrack ==> {
            &&& *final(np) == *old(np)
            &&& final(queue)@.songs == old(queue)@.songs
            &&& match next_index(old(queue)@) {
                Some(i) => final(queue)@.current_index == Some(i) && r
                    == PlayerRequest::StartPlay(old(queue)@.songs[i]),
                None => final(queue)@.current_index == old(queue)@.current_index && r
                    == PlayerRequest::Nothing,
            }
        },
        action is PreviousTrack ==> {
            &&& *final(np) == *old(np)
            &&& final(queue)@.songs == old(queue)@.songs
            &&& match crate::queue::previous_index(old(queue)@) {
                Some(i) => final(queue)@.current_index == Some(i) && r
                    == PlayerRequest::StartPlay(old(queue)@.songs[i]),
                None => final(queue)@.current_index == old(queue)@.current_index && r
                    == PlayerRequest::Nothing,
            }
        },
        (action is SeekForward || action is SeekBackward || action is SeekForwardLarge || action
            is SeekBackwardLarge || action is SeekTo) ==> {
            &&& *final(queue) == *old(queue)
            &&& ({
                let target = match action {
                    Action::SeekForward => old(np).position + 10,
                    Action::SeekBackward => old(np).position - 10,
                    Action::SeekForwardLarge => old(np).position + 60,
                    Action::SeekBackwardLarge => old(np).position - 60,
                    Action::SeekTo(pos) => pos as int,
                    _ => 0int,
                };
                let clamped = if target < 0 {
                    0int
                } else if action is SeekBackward || action is SeekBackwardLarge {
                    target
                } else if target <= old(np).duration {
                    target
                } else {
                    old(np).duration as int
                };
                *final(np) == (NowPlayingState { position: clamped as u32, ..*old(np) }) && r
                    == PlayerRequest::SendSeekSecs(clamped as u32)
            })
        },
        action is VolumeUp ==> {
            let stepped = if old(np).volume + 5 <= 100 {
                old(np).volume + 5
            } else {
                100int
            };
            &&& *final(queue) == *old(queue)
            &&& *final(np) == (NowPlayingState { volume: stepped as u8, ..*old(np) })
            &&& r == PlayerRequest::SendVolume(stepped as u8)
        },
        action is VolumeDown ==> {
            let stepped = if old(np).volume >= 5 {
                old(np).volume - 5
            } else {
                0int
            };
            &&& *final(queue) == *old(queue)
            &&& *final(np) == (NowPlayingState { volume: stepped as u8, ..*old(np) })
            &&& r == PlayerRequest::SendVolume(stepped as u8)
        },
        action is SetVolume ==> {
            let clamped = if action->SetVolume_0 <= 100 {
                action->SetVolume_0 as int
            } else {
                100int
            };
            &&& *final(queue) == *old(queue)
            &&& *final(np) == (NowPlayingState { volume: clamped as u8, ..*old(np) })
            &&& r == PlayerRequest::SendVolume(clamped as u8)
        },
        action is ToggleShuffle ==> {
            &&& final(np).shuffle == !old(np).shuffle
            &&& final(np).repeat == old(np).repeat
            &&& final(np).position == old(np).position
            &&& final(np).state == old(np).state
            &&& final(queue)@.songs.to_multiset() == old(queue)@.songs.to_multiset()
            &&& final(queue)@.songs.len() == old(queue)@.songs.len()
            &&& (old(np).shuffle ==> *final(queue) == *old(queue))
            &&& (!old(np).shuffle && old(queue)@.current_index is Some && old(queue)@.songs.len()
                > 1 ==> final(queue)@.current_index == Some(0int) && final(queue)@.songs[0] == old(queue)@.songs[old(queue)@.current_index->0])
            &&& r == PlayerRequest::Nothing
        },
        action is CycleRepeat ==> {
            &&& *final(np) == (NowPlayingState {
                repeat: match old(np).repeat {
                    RepeatMode::Off => RepeatMode::All,
                    RepeatMode::All => RepeatMode::One,
                    RepeatMode::One => RepeatMode::Off,
                },
                ..*old(np)
            })
            &&& *final(queue) == *old(queue)
            &&& r == PlayerRequest::Nothing
        },
        action is SetRepeat ==> {
            &&& *final(np) == (NowPlayingState { repeat: action->SetRepeat_0, ..*old(np) })
            &&& *final(queue) == *old(queue)
            &&& r == PlayerRequest::Nothing
        },
{
    match action {
        Action::PlayPause => match toggle_play_pause(np, queue) {
            ToggleAction::SendPause => PlayerRequest::SendPause,
            ToggleAction::SendResume => PlayerRequest::SendResume,
            ToggleAction::StartPlay(song) => PlayerRequest::StartPlay(song),
            ToggleAction::Nothing => PlayerRequest::Nothing,
        },
        Action::Stop => {
            np.clear();
            PlayerRequest::SendStop
        },
        Action::NextTrack => match queue.advance() {
            Some(song) => PlayerRequest::StartPlay(song),
            None => PlayerRequest::Nothing,
        },
        Action::PreviousTrack => match queue.go_back() {
            Some(song) => PlayerRequest::StartPlay(song),
            None => PlayerRequest::Nothing,
        },
        Action::SeekForward => PlayerRequest::SendSeekSecs(seek_relative(np, 10)),
        Action::SeekBackward => PlayerRequest::SendSeekSecs(seek_relative(np, -10)),
        Action::SeekForwardLarge => PlayerRequest::SendSeekSecs(seek_relative(np, 60)),
        Action::SeekBackwardLarge => PlayerRequest::SendSeekSecs(seek_relative(np, -60)),
        Action::SeekTo(pos_secs) => {
            let new_pos = if pos_secs <= np.duration {
                pos_secs
            } else {
                np.duration
            };
            np.position = new_pos;
            PlayerRequest::SendSeekSecs(new_pos)
        },
        Action::VolumeUp => {
            let new_vol = if np.volume <= 95 {
                np.volume + 5
            } else {
                100
            };
            np.volume = new_vol;
            PlayerRequest::SendVolume(new_vol)
        },
        Action::VolumeDown => {
            let new_vol = if np.volume >= 5 {
                np.volume - 5
            } else {
                0
            };
            np.volume = new_vol;
            PlayerRequest::SendVolume(new_vol)
        },
        Action::SetVolume(vol) => {
            let new_vol = if vol <= 100 {
                vol
            } else {
                100
            };
            np.volume = new_vol;
            PlayerRequest::SendVolume(new_vol)
        },
        Action::ToggleShuffle => {
            np.shuffle = !np.shuffle;
            if np.shuffle {
                queue.shuffle();
            }
            PlayerRequest::Nothing
        },
        Action::CycleRepeat => {
            np.repeat = np.repeat.next();
            PlayerRequest::Nothing
        },
        Action::SetRepeat(mode) => {
            np.repeat = mode;
            PlayerRequest::Nothing
        },
        _ => PlayerRequest::Nothing,
    }
}

/// Seek relative to the current position: backwards saturates at the start,
/// forwards is capped at the track's duration. Returns the new position in
/// seconds, which the caller hands to the player as a seek target.
pub fn seek_relative(np: &mut NowPlayingState, delta_secs: i32) -> (new_pos: u32)
    requires
        delta_secs > i32::MIN,
    ensures
        *final(np) == (NowPlayingState { position: new_pos, ..*old(np) }),
        delta_secs < 0 ==> new_pos == if old(np).position + delta_secs >= 0 {
            old(np).position + delta_secs
        } else {
            0int
        },
        delta_secs >= 0 ==> new_pos == if old(np).position + delta_secs <= old(np).duration {
            old(np).position + delta_secs
        } else {
            old(np).duration as int
        },
{
    let new_pos: u32 = if delta_secs < 0 {
        let back = (-delta_secs) as u32;
        if np.position >= back {
            np.position - back
        } else {
            0
        }
    } else {
        let forward = delta_secs as u32;
        if np.position <= np.duration && np.duration - np.position >= forward {
            np.position + forward
        } else {
            np.duration
        }
    };
    np.position = new_pos;
    new_pos
}

} // verus!
