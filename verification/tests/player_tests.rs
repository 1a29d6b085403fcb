//! Tests for the playback actor's state machine and the volume curve.

use subsonic_tui::action::PlayerState;
use subsonic_tui::models::Song;
use subsonic_tui::player::{PlayOutcome, PlayerCore, PlayerEvent, SeekOutcome};
use subsonic_tui::volume::volume_curve;

fn song_with_duration(secs: i32) -> Song {
    let mut s = Song::with_title("id".to_string(), "title".to_string());
    s.duration = Some(secs);
    s
}

fn playing_core() -> PlayerCore {
    let mut core = PlayerCore::new();
    let ev = core.on_play(&song_with_duration(300), PlayOutcome::Started);
    assert!(matches!(ev, PlayerEvent::StateChanged(PlayerState::Playing)));
    core
}

#[test]
fn initial_state_is_stopped() {
    let core = PlayerCore::new();
    assert!(!core.is_playing);
    assert_eq!(core.position_ms, 0);
    assert_eq!(core.duration_ms, None);
    assert_eq!(core.volume, 80);
    assert!(!core.has_audio);
    assert!(!core.is_seeking);
}

#[test]
fn play_started_resets_position_and_reports() {
    let core = playing_core();
    assert!(core.is_playing);
    assert!(core.has_audio);
    assert_eq!(core.position_ms, 0);
    assert_eq!(core.duration_ms, Some(300_000));
}

#[test]
fn fetch_failure_keeps_prior_state_and_reports_error() {
    let mut core = playing_core();
    let ev = core.on_play(
        &song_with_duration(10),
        PlayOutcome::FetchFailed("no route to host".to_string()),
    );
    match ev {
        PlayerEvent::Error(msg) => assert_eq!(msg, "no route to host"),
        _ => panic!("expected an error event"),
    }
    // Still believed playing: the failure must not flip the state.
    assert!(core.is_playing);
    assert_eq!(core.duration_ms, Some(10_000));
}

#[test]
fn decode_failure_keeps_prior_state_and_reports_error() {
    let mut core = PlayerCore::new();
    let ev = core.on_play(
        &song_with_duration(10),
        PlayOutcome::StartFailed("bad container".to_string()),
    );
    assert!(matches!(ev, PlayerEvent::Error(_)));
    assert!(!core.is_playing);
    assert!(core.has_audio);
}

#[test]
fn pause_resume_cycle() {
    let mut core = playing_core();
    let ev = core.on_pause();
    assert!(matches!(ev, PlayerEvent::StateChanged(PlayerState::Paused)));
    assert!(!core.is_playing);
    let ev = core.on_resume();
    assert!(matches!(ev, PlayerEvent::StateChanged(PlayerState::Playing)));
    assert!(core.is_playing);
}

#[test]
fn stop_discards_audio_and_rewinds() {
    let mut core = playing_core();
    core.tick_progress(5_000);
    let ev = core.on_stop();
    assert!(matches!(ev, PlayerEvent::StateChanged(PlayerState::Stopped)));
    assert!(!core.is_playing);
    assert!(!core.has_audio);
    assert_eq!(core.position_ms, 0);
}

#[test]
fn seek_while_paused_stays_paused() {
    let mut core = playing_core();
    core.on_pause();
    for target in [10_000u64, 90_000, 250_000] {
        let ev = core.on_seek(target, SeekOutcome::Restarted);
        assert!(matches!(
            ev,
            Some(PlayerEvent::StateChanged(PlayerState::Paused))
        ));
        assert!(!core.is_playing);
        assert_eq!(core.position_ms, target);
        // The end-of-track check of the same iteration sees an empty sink.
        let ev = core.check_track_end(true);
        assert!(ev.is_none());
        assert!(!core.is_playing);
    }
}

#[test]
fn seek_while_playing_stays_playing_without_track_end() {
    let mut core = playing_core();
    for target in [10_000u64, 90_000, 250_000] {
        let ev = core.on_seek(target, SeekOutcome::Restarted);
        assert!(matches!(
            ev,
            Some(PlayerEvent::StateChanged(PlayerState::Playing))
        ));
        assert!(core.is_playing);
        assert_eq!(core.position_ms, target);
        // The momentarily empty sink must not read as a natural track end.
        let ev = core.check_track_end(true);
        assert!(ev.is_none());
        assert!(core.is_playing);
    }
}

#[test]
fn seek_without_audio_is_ignored() {
    let mut core = PlayerCore::new();
    let ev = core.on_seek(5_000, SeekOutcome::Restarted);
    assert!(ev.is_none());
    assert_eq!(core.position_ms, 0);
    assert!(!core.is_seeking);
}

#[test]
fn seek_failure_reports_error_and_keeps_position() {
    let mut core = playing_core();
    core.tick_progress(7_000);
    let before = core.position_ms;
    let ev = core.on_seek(60_000, SeekOutcome::Failed("seek failed".to_string()));
    assert!(matches!(ev, Some(PlayerEvent::Error(_))));
    assert_eq!(core.position_ms, before);
    assert!(core.is_playing);
}

#[test]
fn track_end_fires_once_when_sink_drains() {
    let mut core = playing_core();
    let ev = core.check_track_end(true);
    assert!(matches!(ev, Some(PlayerEvent::TrackEnded)));
    assert!(!core.is_playing);
    // A second check finds the actor no longer playing.
    let ev = core.check_track_end(true);
    assert!(ev.is_none());
}

#[test]
fn track_end_does_not_fire_while_sink_has_audio() {
    let mut core = playing_core();
    let ev = core.check_track_end(false);
    assert!(ev.is_none());
    assert!(core.is_playing);
}

#[test]
fn progress_accumulates_elapsed_time() {
    let mut core = playing_core();
    match core.tick_progress(100) {
        Some(PlayerEvent::Progress {
            position_ms,
            duration_ms,
        }) => {
            assert_eq!(position_ms, 100);
            assert_eq!(duration_ms, 300_000);
        }
        _ => panic!("expected progress"),
    }
    core.tick_progress(250);
    assert_eq!(core.position_ms, 350);
}

#[test]
fn progress_stands_still_while_paused() {
    let mut core = playing_core();
    core.tick_progress(500);
    core.on_pause();
    let ev = core.tick_progress(500);
    assert!(ev.is_none());
    assert_eq!(core.position_ms, 500);
}

#[test]
fn set_volume_clamps_to_100() {
    let mut core = PlayerCore::new();
    core.on_set_volume(30);
    assert_eq!(core.volume, 30);
    core.on_set_volume(200);
    assert_eq!(core.volume, 100);
}

#[test]
fn volume_curve_boundaries() {
    assert_eq!(volume_curve(0), 0);
    assert_eq!(volume_curve(100), 1_000_000);
    // Values above the slider range clamp to full scale.
    assert_eq!(volume_curve(255), 1_000_000);
}

#[test]
fn volume_curve_midpoint_feels_quieter() {
    // At half slider the amplitude is about 17.7 percent of full scale:
    // 50 * 50 * isqrt(50_000_000) / 100 with isqrt(50_000_000) = 7071.
    assert_eq!(volume_curve(50), 176_775);
}

#[test]
fn volume_curve_is_non_decreasing() {
    let mut last = 0u32;
    for v in 0..=100u8 {
        let amp = volume_curve(v);
        assert!(amp >= last);
        last = amp;
    }
}
