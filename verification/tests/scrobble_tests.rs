//! Tests for the once-per-track scrobble trigger.

use subsonic_tui::models::Song;
use subsonic_tui::now_playing::NowPlayingState;

fn track_of(secs: i32) -> Song {
    let mut s = Song::with_title("id".to_string(), "title".to_string());
    s.duration = Some(secs);
    s
}

#[test]
fn long_track_scrobbles_at_four_minutes_exactly_once() {
    let mut np = NowPlayingState::new();
    np.set_song(track_of(500));
    // Not before four minutes: half of 500 is capped at 240.
    np.position = 239;
    assert!(!np.should_scrobble());
    // At 240 the trigger is due.
    np.position = 240;
    assert!(np.should_scrobble());
    np.mark_scrobbled();
    // Never again, not per tick.
    for pos in 240..260 {
        np.position = pos;
        assert!(!np.should_scrobble());
    }
}

#[test]
fn short_track_never_scrobbles_under_the_floor() {
    let mut np = NowPlayingState::new();
    np.set_song(track_of(20));
    // Half the duration is reached at 10, but 10 is not past the 30-second
    // floor, so the trigger must not fire at all.
    for pos in 0..=20 {
        np.position = pos;
        assert!(!np.should_scrobble());
    }
}

#[test]
fn medium_track_scrobbles_at_half() {
    let mut np = NowPlayingState::new();
    np.set_song(track_of(120));
    np.position = 59;
    assert!(!np.should_scrobble());
    np.position = 60;
    assert!(np.should_scrobble());
}

#[test]
fn new_track_rearms_the_trigger() {
    let mut np = NowPlayingState::new();
    np.set_song(track_of(500));
    np.position = 240;
    assert!(np.should_scrobble());
    np.mark_scrobbled();
    assert!(!np.should_scrobble());
    np.set_song(track_of(500));
    assert_eq!(np.position, 0);
    np.position = 240;
    assert!(np.should_scrobble());
}

#[test]
fn set_song_takes_duration_and_art() {
    let mut np = NowPlayingState::new();
    let mut s = track_of(321);
    s.cover_art = Some("art-1".to_string());
    np.set_song(s);
    assert_eq!(np.duration, 321);
    assert_eq!(np.album_art_id.as_deref(), Some("art-1"));
    assert!(!np.scrobbled);
}

#[test]
fn clear_resets_the_panel() {
    let mut np = NowPlayingState::new();
    np.set_song(track_of(100));
    np.position = 50;
    np.mark_scrobbled();
    np.clear();
    assert!(np.current_song.is_none());
    assert_eq!(np.position, 0);
    assert_eq!(np.duration, 0);
    assert!(!np.scrobbled);
}
