//! Tests for the track-end orchestration, play/pause toggling, event
//! handling and relative seeking.

use subsonic_tui::action::{Action, PlayerState, RepeatMode};
use subsonic_tui::models::Song;
use subsonic_tui::now_playing::NowPlayingState;
use subsonic_tui::orchestrator::{
    apply_playback_action, handle_player_event, handle_track_ended, seek_relative,
    toggle_play_pause, PlayerRequest, ToggleAction,
};
use subsonic_tui::player::PlayerEvent;
use subsonic_tui::queue::QueueState;

fn song(id: &str) -> Song {
    Song::with_title(id.to_string(), format!("Title {id}"))
}

fn queue_of(n: usize) -> QueueState {
    let mut q = QueueState::new();
    for i in 0..n {
        q.add(song(&i.to_string()));
    }
    q
}

#[test]
fn repeat_off_advances_then_stops_without_wrapping() {
    let mut q = queue_of(3);
    q.play_index(0);
    // Two track ends walk to the last index.
    assert_eq!(handle_track_ended(&mut q, RepeatMode::Off).unwrap().id, "1");
    assert_eq!(handle_track_ended(&mut q, RepeatMode::Off).unwrap().id, "2");
    // The third and any further end of track stop advancing: no wrap.
    assert!(handle_track_ended(&mut q, RepeatMode::Off).is_none());
    assert_eq!(q.current_index, Some(2));
    assert!(handle_track_ended(&mut q, RepeatMode::Off).is_none());
    assert_eq!(q.current_index, Some(2));
}

#[test]
fn repeat_all_wraps_to_front() {
    let mut q = queue_of(3);
    q.play_index(0);
    assert_eq!(handle_track_ended(&mut q, RepeatMode::All).unwrap().id, "1");
    assert_eq!(handle_track_ended(&mut q, RepeatMode::All).unwrap().id, "2");
    // After the last track, the next end of track wraps to index 0.
    assert_eq!(handle_track_ended(&mut q, RepeatMode::All).unwrap().id, "0");
    assert_eq!(q.current_index, Some(0));
}

#[test]
fn repeat_one_replays_without_moving() {
    let mut q = queue_of(3);
    q.play_index(1);
    for _ in 0..5 {
        assert_eq!(handle_track_ended(&mut q, RepeatMode::One).unwrap().id, "1");
        assert_eq!(q.current_index, Some(1));
    }
}

#[test]
fn track_end_on_empty_queue_plays_nothing() {
    let mut q = QueueState::new();
    assert!(handle_track_ended(&mut q, RepeatMode::Off).is_none());
    assert!(handle_track_ended(&mut q, RepeatMode::All).is_none());
    assert!(handle_track_ended(&mut q, RepeatMode::One).is_none());
}

#[test]
fn state_change_event_mirrors_state() {
    let mut np = NowPlayingState::new();
    let mut q = QueueState::new();
    let out = handle_player_event(&mut np, &mut q, PlayerEvent::StateChanged(PlayerState::Paused));
    assert_eq!(np.state, PlayerState::Paused);
    assert!(out.play.is_none());
    assert!(out.error.is_none());
}

#[test]
fn progress_event_mirrors_seconds() {
    let mut np = NowPlayingState::new();
    let mut q = QueueState::new();
    let out = handle_player_event(
        &mut np,
        &mut q,
        PlayerEvent::Progress {
            position_ms: 65_700,
            duration_ms: 300_000,
        },
    );
    assert_eq!(np.position, 65);
    assert_eq!(np.duration, 300);
    assert!(out.play.is_none());
}

#[test]
fn track_ended_event_with_repeat_off_at_end_stops() {
    let mut np = NowPlayingState::new();
    np.state = PlayerState::Playing;
    np.repeat = RepeatMode::Off;
    let mut q = queue_of(2);
    q.play_index(1);
    let out = handle_player_event(&mut np, &mut q, PlayerEvent::TrackEnded);
    assert!(out.play.is_none());
    assert_eq!(np.state, PlayerState::Stopped);
}

#[test]
fn track_ended_event_advances_when_possible() {
    let mut np = NowPlayingState::new();
    np.state = PlayerState::Playing;
    np.repeat = RepeatMode::Off;
    let mut q = queue_of(2);
    q.play_index(0);
    let out = handle_player_event(&mut np, &mut q, PlayerEvent::TrackEnded);
    assert_eq!(out.play.unwrap().id, "1");
    assert_eq!(np.state, PlayerState::Playing);
}

#[test]
fn error_event_is_reported_and_state_kept() {
    let mut np = NowPlayingState::new();
    np.state = PlayerState::Playing;
    let mut q = QueueState::new();
    let out = handle_player_event(&mut np, &mut q, PlayerEvent::Error("boom".to_string()));
    assert_eq!(out.error.as_deref(), Some("boom"));
    assert_eq!(np.state, PlayerState::Playing);
}

#[test]
fn toggle_pauses_and_resumes() {
    let mut np = NowPlayingState::new();
    np.state = PlayerState::Playing;
    let mut q = QueueState::new();
    assert!(matches!(
        toggle_play_pause(&mut np, &mut q),
        ToggleAction::SendPause
    ));
    assert_eq!(np.state, PlayerState::Paused);
    assert!(matches!(
        toggle_play_pause(&mut np, &mut q),
        ToggleAction::SendResume
    ));
    assert_eq!(np.state, PlayerState::Playing);
}

#[test]
fn toggle_from_stopped_starts_current_or_first() {
    let mut np = NowPlayingState::new();
    let mut q = queue_of(2);
    q.play_index(1);
    match toggle_play_pause(&mut np, &mut q) {
        ToggleAction::StartPlay(s) => assert_eq!(s.id, "1"),
        _ => panic!("expected a song to start"),
    }
    // Without a cursor, the toggle advances into the queue.
    let mut np = NowPlayingState::new();
    let mut q = queue_of(2);
    match toggle_play_pause(&mut np, &mut q) {
        ToggleAction::StartPlay(s) => assert_eq!(s.id, "0"),
        _ => panic!("expected a song to start"),
    }
    assert_eq!(q.current_index, Some(0));
}

#[test]
fn toggle_on_empty_stopped_queue_does_nothing() {
    let mut np = NowPlayingState::new();
    let mut q = QueueState::new();
    assert!(matches!(
        toggle_play_pause(&mut np, &mut q),
        ToggleAction::Nothing
    ));
}

#[test]
fn volume_actions_step_in_fives_and_clamp() {
    let mut np = NowPlayingState::new();
    let mut q = QueueState::new();
    np.volume = 98;
    assert_eq!(
        apply_playback_action(&mut np, &mut q, Action::VolumeUp),
        PlayerRequest::SendVolume(100)
    );
    assert_eq!(np.volume, 100);
    np.volume = 3;
    assert_eq!(
        apply_playback_action(&mut np, &mut q, Action::VolumeDown),
        PlayerRequest::SendVolume(0)
    );
    assert_eq!(np.volume, 0);
    assert_eq!(
        apply_playback_action(&mut np, &mut q, Action::SetVolume(250)),
        PlayerRequest::SendVolume(100)
    );
    assert_eq!(
        apply_playback_action(&mut np, &mut q, Action::SetVolume(42)),
        PlayerRequest::SendVolume(42)
    );
}

#[test]
fn seek_actions_clamp_to_the_track() {
    let mut np = NowPlayingState::new();
    let mut q = QueueState::new();
    np.position = 5;
    np.duration = 100;
    assert_eq!(
        apply_playback_action(&mut np, &mut q, Action::SeekBackward),
        PlayerRequest::SendSeekSecs(0)
    );
    assert_eq!(
        apply_playback_action(&mut np, &mut q, Action::SeekForwardLarge),
        PlayerRequest::SendSeekSecs(60)
    );
    assert_eq!(
        apply_playback_action(&mut np, &mut q, Action::SeekForwardLarge),
        PlayerRequest::SendSeekSecs(100)
    );
    assert_eq!(
        apply_playback_action(&mut np, &mut q, Action::SeekTo(250)),
        PlayerRequest::SendSeekSecs(100)
    );
    assert_eq!(
        apply_playback_action(&mut np, &mut q, Action::SeekTo(30)),
        PlayerRequest::SendSeekSecs(30)
    );
    assert_eq!(np.position, 30);
}

#[test]
fn repeat_and_shuffle_actions_update_state() {
    let mut np = NowPlayingState::new();
    let mut q = queue_of(3);
    q.play_index(1);
    assert_eq!(
        apply_playback_action(&mut np, &mut q, Action::CycleRepeat),
        PlayerRequest::Nothing
    );
    assert_eq!(np.repeat, RepeatMode::All);
    apply_playback_action(&mut np, &mut q, Action::SetRepeat(RepeatMode::One));
    assert_eq!(np.repeat, RepeatMode::One);

    apply_playback_action(&mut np, &mut q, Action::ToggleShuffle);
    assert!(np.shuffle);
    // Turning shuffle on shuffles the queue with the playing song in front.
    assert_eq!(q.current_index, Some(0));
    assert_eq!(q.songs[0].id, "1");
    apply_playback_action(&mut np, &mut q, Action::ToggleShuffle);
    assert!(!np.shuffle);
}

#[test]
fn stop_action_clears_and_asks_the_player_to_stop() {
    let mut np = NowPlayingState::new();
    let mut q = queue_of(1);
    np.set_song(song("x"));
    assert_eq!(
        apply_playback_action(&mut np, &mut q, Action::Stop),
        PlayerRequest::SendStop
    );
    assert!(np.current_song.is_none());
    assert_eq!(np.state, PlayerState::Stopped);
}

#[test]
fn track_stepping_actions_start_songs() {
    let mut np = NowPlayingState::new();
    let mut q = queue_of(2);
    match apply_playback_action(&mut np, &mut q, Action::NextTrack) {
        PlayerRequest::StartPlay(s) => assert_eq!(s.id, "0"),
        _ => panic!("expected a song to start"),
    }
    match apply_playback_action(&mut np, &mut q, Action::NextTrack) {
        PlayerRequest::StartPlay(s) => assert_eq!(s.id, "1"),
        _ => panic!("expected a song to start"),
    }
    assert_eq!(
        apply_playback_action(&mut np, &mut q, Action::NextTrack),
        PlayerRequest::Nothing
    );
    match apply_playback_action(&mut np, &mut q, Action::PreviousTrack) {
        PlayerRequest::StartPlay(s) => assert_eq!(s.id, "0"),
        _ => panic!("expected a song to start"),
    }
}

#[test]
fn unrelated_actions_do_nothing() {
    let mut np = NowPlayingState::new();
    let mut q = queue_of(1);
    assert_eq!(
        apply_playback_action(&mut np, &mut q, Action::ShowHelp),
        PlayerRequest::Nothing
    );
    assert_eq!(q.len(), 1);
}

#[test]
fn seek_relative_saturates_at_start_and_caps_at_duration() {
    let mut np = NowPlayingState::new();
    np.position = 10;
    np.duration = 300;
    assert_eq!(seek_relative(&mut np, -30), 0);
    assert_eq!(np.position, 0);
    assert_eq!(seek_relative(&mut np, 40), 40);
    assert_eq!(seek_relative(&mut np, 1000), 300);
    assert_eq!(np.position, 300);
}
