//! Tests for the media-control bridge: inbound translation and outbound
//! diffing.

use subsonic_tui::action::{Action, PlayerState, RepeatMode};
use subsonic_tui::bridge::{
    mpris_event_to_action, sync_mpris_state, MprisCommand, MprisEvent, MprisState,
};
use subsonic_tui::models::Song;
use subsonic_tui::now_playing::NowPlayingState;

fn song(id: &str) -> Song {
    Song::with_title(id.to_string(), format!("Title {id}"))
}

#[test]
fn transport_events_translate_one_to_one() {
    assert_eq!(
        mpris_event_to_action(MprisEvent::PlayPause, false),
        Action::PlayPause
    );
    assert_eq!(
        mpris_event_to_action(MprisEvent::Play, false),
        Action::PlayPause
    );
    assert_eq!(
        mpris_event_to_action(MprisEvent::Pause, false),
        Action::PlayPause
    );
    assert_eq!(mpris_event_to_action(MprisEvent::Stop, false), Action::Stop);
    assert_eq!(
        mpris_event_to_action(MprisEvent::Next, false),
        Action::NextTrack
    );
    assert_eq!(
        mpris_event_to_action(MprisEvent::Previous, false),
        Action::PreviousTrack
    );
    assert_eq!(mpris_event_to_action(MprisEvent::Quit, false), Action::Quit);
    assert_eq!(mpris_event_to_action(MprisEvent::Raise, false), Action::Noop);
}

#[test]
fn seek_events_pick_a_direction_and_position() {
    assert_eq!(
        mpris_event_to_action(MprisEvent::Seek(5_000_000), false),
        Action::SeekForward
    );
    assert_eq!(
        mpris_event_to_action(MprisEvent::Seek(-5_000_000), false),
        Action::SeekBackward
    );
    assert_eq!(
        mpris_event_to_action(MprisEvent::SetPosition(65_000_000), false),
        Action::SeekTo(65)
    );
}

#[test]
fn volume_and_loop_events_carry_their_values() {
    assert_eq!(
        mpris_event_to_action(MprisEvent::SetVolume(40), false),
        Action::SetVolume(40)
    );
    assert_eq!(
        mpris_event_to_action(MprisEvent::SetLoopStatus(RepeatMode::One), false),
        Action::SetRepeat(RepeatMode::One)
    );
}

#[test]
fn shuffle_event_toggles_only_on_change() {
    assert_eq!(
        mpris_event_to_action(MprisEvent::SetShuffle(true), false),
        Action::ToggleShuffle
    );
    assert_eq!(
        mpris_event_to_action(MprisEvent::SetShuffle(true), true),
        Action::Noop
    );
}

#[test]
fn first_sync_publishes_changed_fields() {
    let mut np = NowPlayingState::new();
    np.volume = 80;
    let mut st = MprisState::new();
    let commands = sync_mpris_state(&np, false, &mut st);
    // Nothing playing and no track: only the volume differs from the
    // bridge's zeroed memory.
    assert_eq!(commands, vec![MprisCommand::SetVolume(80)]);
}

#[test]
fn unchanged_state_publishes_nothing() {
    let mut np = NowPlayingState::new();
    let mut st = MprisState::new();
    sync_mpris_state(&np, false, &mut st);
    np.position = np.position; // nothing changes between the two ticks
    let commands = sync_mpris_state(&np, false, &mut st);
    assert!(commands.is_empty());
}

#[test]
fn track_change_publishes_metadata_once() {
    let mut np = NowPlayingState::new();
    let mut st = MprisState::new();
    sync_mpris_state(&np, false, &mut st);

    let mut s = song("42");
    s.artist = Some("Someone".to_string());
    s.duration = Some(200);
    np.set_song(s);
    np.state = PlayerState::Playing;
    let commands = sync_mpris_state(&np, true, &mut st);
    assert!(commands.iter().any(|c| matches!(
        c,
        MprisCommand::SetMetadata { track_id, duration, .. }
            if track_id == "42" && *duration == Some(200)
    )));
    assert!(commands.contains(&MprisCommand::SetPlaybackStatus(PlayerState::Playing)));
    assert!(commands.contains(&MprisCommand::SetCanGoNext(true)));
    assert!(commands.contains(&MprisCommand::SetCanGoPrevious(true)));

    // The same track again publishes no second metadata.
    let commands = sync_mpris_state(&np, true, &mut st);
    assert!(commands.is_empty());
}

#[test]
fn position_and_repeat_changes_publish() {
    let mut np = NowPlayingState::new();
    let mut st = MprisState::new();
    sync_mpris_state(&np, false, &mut st);

    np.position = 17;
    np.repeat = RepeatMode::All;
    np.shuffle = true;
    let commands = sync_mpris_state(&np, false, &mut st);
    assert_eq!(
        commands,
        vec![
            MprisCommand::SetPosition(17),
            MprisCommand::SetShuffle(true),
            MprisCommand::SetLoopStatus(RepeatMode::All),
        ]
    );
}
