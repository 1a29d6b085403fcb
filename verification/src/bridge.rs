//! The media-control bridge's contract with the engine: inbound transport
//! events translated one-to-one into application intents, and outbound
//! state publications diffed against the last published value, so the
//! external transport is only notified of genuine changes.
//!
//! The transport itself (the D-Bus plumbing) is outside the library; only
//! the command/event contract lives here.

use vstd::prelude::*;

use crate::action::{Action, PlayerState, RepeatMode};
use crate::models::Song;
use crate::now_playing::NowPlayingState;

verus! {

/// Inbound events from the system media-control transport. Seek offsets and
/// absolute positions are in microseconds, as the transport sends them;
/// volume is a percentage.
#[derive(Debug, Clone, PartialEq)]
pub enum MprisEvent {
    PlayPause,
    Play,
    Pause,
    Stop,
    Next,
    Previous,
    Seek(i64),
    SetPosition(u64),
    SetVolume(u8),
    SetLoopStatus(RepeatMode),
    SetShuffle(bool),
    Raise,
    Quit,
}

/// Outbound commands to the media-control transport. Positions are in
/// seconds; volume is a percentage.
#[derive(Debug, Clone, PartialEq)]
pub enum MprisCommand {
    SetPlaybackStatus(PlayerState),
    SetMetadata {
        track_id: String,
        title: String,
        artist: Option<String>,
        album: Option<String>,
        duration: Option<u32>,
        cover_art_url: Option<String>,
    },
    SetPosition(u32),
    SetVolume(u8),
    SetLoopStatus(RepeatMode),
    SetShuffle(bool),
    Seeked(u32),
    SetCanGoNext(bool),
    SetCanGoPrevious(bool),
    Shutdown,
}

/// The bridge's memory of what it last published, diffed against before
/// publishing again.
#[derive(Debug)]
pub struct MprisState {
    pub track_id: Option<String>,
    pub player_state: PlayerState,
    pub position: u32,
    pub volume: u8,
    pub shuffle: bool,
    pub repeat: RepeatMode,
    pub can_go_next: bool,
    pub can_go_previous: bool,
}

impl MprisState {
    /// The bridge's initial memory: nothing published yet.
    pub fn new() -> (st: MprisState)
        ensures
            st.track_id is None,
            st.player_state == PlayerState::Stopped,
            st.position == 0,
            st.volume == 0,
            !st.shuffle,
            st.repeat == RepeatMode::Off,
            !st.can_go_next,
            !st.can_go_previous,
    {
        MprisState {
            track_id: None,
            player_state: PlayerState::Stopped,
            position: 0,
            volume: 0,
            shuffle: false,
            repeat: RepeatMode::Off,
            can_go_next: false,
            can_go_previous: false,
        }
    }
}

/// Translate an inbound transport event into the application's own intent,
/// one-to-one. A play/pause toggle maps to the same single intent whatever
/// the current state; a shuffle request only toggles when it differs from
/// the current flag.
pub fn mpris_event_to_action(event: MprisEvent, current_shuffle: bool) -> (r: Action)
    ensures
        r == mpris_action(event, current_shuffle),
{
    match event {
        MprisEvent::PlayPause => Action::PlayPause,
        MprisEvent::Play => Action::PlayPause,
        MprisEvent::Pause => Action::PlayPause,
        MprisEvent::Stop => Action::Stop,
        MprisEvent::Next => Action::NextTrack,
        MprisEvent::Previous => Action::PreviousTrack,
        MprisEvent::Seek(offset_us) => if offset_us >= 0 {
            Action::SeekForward
        } else {
            Action::SeekBackward
        },
        MprisEvent::SetPosition(pos_us) => {
            let pos_secs = pos_us / 1_000_000;
            let clamped: u32 = if pos_secs <= u32::MAX as u64 {
                pos_secs as u32
            } else {
                u32::MAX
            };
            Action::SeekTo(clamped)
        },
        MprisEvent::SetVolume(vol) => Action::SetVolume(vol),
        MprisEvent::SetLoopStatus(mode) => Action::SetRepeat(mode),
        MprisEvent::SetShuffle(shuffle) => if shuffle != current_shuffle {
            Action::ToggleShuffle
        } else {
            Action::Noop
        },
        MprisEvent::Raise => Action::Noop,
        MprisEvent::Quit => Action::Quit,
    }
}

/// The intent an inbound transport event maps to, as a specification.
pub open spec fn mpris_action(event: MprisEvent, current_shuffle: bool) -> Action {
    match event {
        MprisEvent::PlayPause => Action::PlayPause,
        MprisEvent::Play => Action::PlayPause,
        MprisEvent::Pause => Action::PlayPause,
        MprisEvent::Stop => Action::Stop,
        MprisEvent::Next => Action::NextTrack,
        MprisEvent::Previous => Action::PreviousTrack,
        MprisEvent::Seek(offset_us) => if offset_us >= 0 {
            Action::SeekForward
        } else {
            Action::SeekBackward
        },
        MprisEvent::SetPosition(pos_us) => Action::SeekTo(
            if pos_us / 1_000_000 <= u32::MAX as u64 {
                (pos_us / 1_000_000) as u32
            } else {
                u32::MAX
            },
        ),
        MprisEvent::SetVolume(vol) => Action::SetVolume(vol),
        MprisEvent::SetLoopStatus(mode) => Action::SetRepeat(mode),
        MprisEvent::SetShuffle(shuffle) => if shuffle != current_shuffle {
            Action::ToggleShuffle
        } else {
            Action::Noop
        },
        MprisEvent::Raise => Action::Noop,
        MprisEvent::Quit => Action::Quit,
    }
}

/// The metadata publication for a song: its declared duration clamped at
/// zero, and no cover art URL.
pub open spec fn metadata_command(song: Song) -> MprisCommand {
    MprisCommand::SetMetadata {
        track_id: song.id,
        title: song.title,
        artist: song.artist,
        album: song.album,
        duration: match song.duration {
            Some(d) => Some(
                if d >= 0 {
                    d as u32
                } else {
                    0u32
                },
            ),
            None => None,
        },
        cover_art_url: None,
    }
}

/// The metadata publication of one synchronisation: the new song's
/// metadata, exactly when the current track differs from the last
/// published one.
pub open spec fn metadata_segment(np: NowPlayingState, st: MprisState) -> Seq<MprisCommand> {
    let track_changed = match (np.current_song, st.track_id) {
        (Some(song), Some(id)) => song.id@ != id@,
        (Some(song), None) => true,
        (None, Some(id)) => true,
        (None, None) => false,
    };
    if track_changed {
        match np.current_song {
            Some(song) => seq![metadata_command(song)],
            None => Seq::<MprisCommand>::empty(),
        }
    } else {
        Seq::<MprisCommand>::empty()
    }
}

/// The commands one synchronisation publishes: for each mirrored field, a
/// publication exactly when it differs from the last published value.
pub open spec fn sync_commands(
    np: NowPlayingState,
    queue_non_empty: bool,
    st: MprisState,
) -> Seq<MprisCommand> {
    let metadata = metadata_segment(np, st);
    let status = if np.state != st.player_state {
        seq![MprisCommand::SetPlaybackStatus(np.state)]
    } else {
        Seq::<MprisCommand>::empty()
    };
    let position = if np.position != st.position {
        seq![MprisCommand::SetPosition(np.position)]
    } else {
        Seq::<MprisCommand>::empty()
    };
    let volume = if np.volume != st.volume {
        seq![MprisCommand::SetVolume(np.volume)]
    } else {
        Seq::<MprisCommand>::empty()
    };
    let shuffle = if np.shuffle != st.shuffle {
        seq![MprisCommand::SetShuffle(np.shuffle)]
    } else {
        Seq::<MprisCommand>::empty()
    };
    let repeat = if np.repeat != st.repeat {
        seq![MprisCommand::SetLoopStatus(np.repeat)]
    } else {
        Seq::<MprisCommand>::empty()
    };
    let can_next = if queue_non_empty != st.can_go_next {
        seq![MprisCommand::SetCanGoNext(queue_non_empty)]
    } else {
        Seq::<MprisCommand>::empty()
    };
    let can_previous = if queue_non_empty != st.can_go_previous {
        seq![MprisCommand::SetCanGoPrevious(queue_non_empty)]
    } else {
        Seq::<MprisCommand>::empty()
    };
    metadata + status + position + volume + shuffle + repeat + can_next + can_previous
}

/// Append one publication when the mirrored field changed.
fn push_if(commands: &mut Vec<MprisCommand>, changed: bool, command: MprisCommand)
    ensures
        final(commands)@ == old(commands)@ + (if changed {
            seq![command]
        } else {
            Seq::<MprisCommand>::empty()
        }),
{
    if changed {
        commands.push(command);
    }
    proof {
        if !changed {
            assert(final(commands)@ =~= old(commands)@ + Seq::<MprisCommand>::empty());
        }
    }
}

/// Synchronise the now-playing state out to the media-control transport:
/// publish exactly the fields that changed since the last synchronisation,
/// and remember what was published. Called once per application tick.
#[verifier::rlimit(100)]
#[verifier::spinoff_prover]
pub fn sync_mpris_state(
    np: &NowPlayingState,
    queue_non_empty: bool,
    st: &mut MprisState,
) -> (commands: Vec<MprisCommand>)
    ensures
        commands@ == sync_commands(*np, queue_non_empty, *old(st)),
        final(st).track_id is Some <==> np.current_song is Some,
        np.current_song is Some ==> final(st).track_id->0@ == np.current_song->0.id@,
        final(st).player_state == np.state,
        final(st).position == np.position,
        final(st).volume == np.volume,
        final(st).shuffle == np.shuffle,
        final(st).repeat == np.repeat,
        final(st).can_go_next == queue_non_empty,
        final(st).can_go_previous == queue_non_empty,
{
    let ghost seg_metadata = metadata_segment(*np, *old(st));

    let mut commands: Vec<MprisCommand> = Vec::new();

    let track_changed = match (&np.current_song, &st.track_id) {
        (Some(song), Some(id)) => song.id != *id,
        (Some(_), None) => true,
        (None, Some(_)) => true,
        (None, None) => false,
    };
    match &np.current_song {
        Some(song) => {
            let duration: Option<u32> = match song.duration {
                Some(d) => Some(
                    if d >= 0 {
                        d as u32
                    } else {
                        0
                    },
                ),
                None => None,
            };
            let artist = match &song.artist {
                Some(a) => Some(a.clone()),
                None => None,
            };
            let album = match &song.album {
                Some(a) => Some(a.clone()),
                None => None,
            };
            let metadata = MprisCommand::SetMetadata {
                track_id: song.id.clone(),
                title: song.title.clone(),
                artist,
                album,
                duration,
                cover_art_url: None,
            };
            push_if(&mut commands, track_changed, metadata);
        },
        None => {},
    }
    st.track_id = match &np.current_song {
        Some(song) => Some(song.id.clone()),
        None => None,
    };
    proof {
        assert(commands@ =~= seg_metadata);
    }

    let status_changed = np.state != st.player_state;
    push_if(&mut commands, status_changed, MprisCommand::SetPlaybackStatus(np.state));
    st.player_state = np.state;

    let position_changed = np.position != st.position;
    push_if(&mut commands, position_changed, MprisCommand::SetPosition(np.position));
    st.position = np.position;

    let volume_changed = np.volume != st.volume;
    push_if(&mut commands, volume_changed, MprisCommand::SetVolume(np.volume));
    st.volume = np.volume;

    let shuffle_changed = np.shuffle != st.shuffle;
    push_if(&mut commands, shuffle_changed, MprisCommand::SetShuffle(np.shuffle));
    st.shuffle = np.shuffle;

    let repeat_changed = np.repeat != st.repeat;
    push_if(&mut commands, repeat_changed, MprisCommand::SetLoopStatus(np.repeat));
    st.repeat = np.repeat;

    let can_next_changed = queue_non_empty != st.can_go_next;
    push_if(&mut commands, can_next_changed, MprisCommand::SetCanGoNext(queue_non_empty));
    st.can_go_next = queue_non_empty;

    let can_previous_changed = queue_non_empty != st.can_go_previous;
    push_if(&mut commands, can_previous_changed, MprisCommand::SetCanGoPrevious(queue_non_empty));
    st.can_go_previous = queue_non_empty;

    proof {
        assert(commands@ =~= sync_commands(*np, queue_non_empty, *old(st)));
    }
    commands
}

} // verus!
