//! Playback state, repeat mode and tab enumerations shared across the player.

use vstd::prelude::*;

use crate::models::{Album, Artist, Genre, Playlist, Song, StructuredLyrics};

verus! {

/// Actions dispatched to update application state. Progress is carried in
/// milliseconds.
#[derive(Debug, Clone, PartialEq)]
pub enum Action {
    // Application lifecycle
    Quit,
    Tick,
    Render,
    Resize(u16, u16),
    // Navigation
    NavigateUp,
    NavigateDown,
    NavigateLeft,
    NavigateRight,
    Select,
    Back,
    SwitchTab(Tab),
    NextTab,
    PrevTab,
    // Mouse: coordinates, and scroll amount (positive is down)
    MouseClick(u16, u16),
    MouseScroll(i16),
    // Search
    OpenSearch,
    CloseSearch,
    SearchInput(char),
    SearchBackspace,
    SearchSubmit,
    // Playback controls
    PlayPause,
    Stop,
    NextTrack,
    PreviousTrack,
    SeekForward,
    SeekBackward,
    SeekForwardLarge,
    SeekBackwardLarge,
    SeekTo(u32),
    VolumeUp,
    VolumeDown,
    SetVolume(u8),
    ToggleShuffle,
    CycleRepeat,
    SetRepeat(RepeatMode),
    // Queue management
    AddToQueue(Song),
    AddAlbumToQueue(Vec<Song>),
    AppendToQueue,
    ClearQueue,
    RemoveFromQueue(usize),
    RemoveSelectedFromQueue,
    PlayFromQueue(usize),
    MoveQueueItem(usize, isize),
    // Library actions
    LoadArtists,
    LoadAlbums,
    LoadAlbum(String),
    LoadArtist(String),
    LoadPlaylists,
    LoadPlaylist(String),
    LoadSongs,
    LoadGenres,
    LoadGenreAlbums(String),
    LoadFavorites,
    RefreshLibrary,
    // API responses
    ArtistsLoaded(Vec<Artist>),
    AlbumsLoaded(Vec<Album>),
    AlbumLoaded(Album, Vec<Song>),
    ArtistLoaded(Artist, Vec<Album>),
    PlaylistsLoaded(Vec<Playlist>),
    PlaylistLoaded(Playlist, Vec<Song>),
    SongsLoaded(Vec<Song>),
    GenresLoaded(Vec<Genre>),
    GenreAlbumsLoaded(String, Vec<Album>),
    FavoritesLoaded { artists: Vec<Artist>, albums: Vec<Album>, songs: Vec<Song> },
    SearchResults { artists: Vec<Artist>, albums: Vec<Album>, songs: Vec<Song> },
    // Media annotation
    ToggleStar,
    Scrobble,
    // Lyrics
    ToggleLyrics,
    LoadLyrics(String),
    LyricsLoaded(String, Vec<StructuredLyrics>),
    // Navigation enhancements
    JumpToTop,
    JumpToBottom,
    JumpToCurrentTrack,
    ScrollHalfPageDown,
    ScrollHalfPageUp,
    // Overlays
    ShowHelp,
    HideHelp,
    ShowTrackInfo,
    HideTrackInfo,
    // Album art
    LoadAlbumArt(String),
    AlbumArtLoaded(String, Vec<u8>),
    // Player state updates
    PlayerProgress(u64),
    PlayerStateChanged(PlayerState),
    TrackEnded,
    // Errors
    Error(String),
    ClearError,
    // No-op
    Noop,
}

/// Current playback state. `Buffering` is reserved for streaming-stall
/// reporting and is not produced by any transition today.
#[derive(Debug, Clone, Copy, PartialEq, Eq, Structural)]
pub enum PlayerState {
    Stopped,
    Playing,
    Paused,
    Buffering,
}

impl Default for PlayerState {
    fn default() -> (r: Self)
        ensures
            r == PlayerState::Stopped,
    {
        PlayerState::Stopped
    }
}

/// Repeat mode for playback, cycled Off -> All -> One -> Off.
#[derive(Debug, Clone, Copy, PartialEq, Eq, Structural)]
pub enum RepeatMode {
    Off,
    All,
    One,
}

impl Default for RepeatMode {
    fn default() -> (r: Self)
        ensures
            r == RepeatMode::Off,
    {
        RepeatMode::Off
    }
}

impl RepeatMode {
    /// The cyclic successor of this mode.
    pub fn next(self) -> (r: Self)
        ensures
            self == RepeatMode::Off ==> r == RepeatMode::All,
            self == RepeatMode::All ==> r == RepeatMode::One,
            self == RepeatMode::One ==> r == RepeatMode::Off,
    {
        match self {
            Self::Off => Self::All,
            Self::All => Self::One,
            Self::One => Self::Off,
        }
    }

    /// Status-line symbol for this mode.
    pub fn symbol(&self) -> (r: &'static str)
        ensures
            *self == RepeatMode::Off ==> r@ == "  "@,
            *self == RepeatMode::All ==> r@ == "󰑖 "@,
            *self == RepeatMode::One ==> r@ == "󰑘 "@,
    {
        match self {
            Self::Off => "  ",
            Self::All => "󰑖 ",
            Self::One => "󰑘 ",
        }
    }
}

/// Library view tabs.
#[derive(Debug, Clone, Copy, PartialEq, Eq, Structural)]
pub enum Tab {
    Artists,
    Albums,
    Songs,
    Playlists,
    Genres,
    Favorites,
}

impl Default for Tab {
    fn default() -> (r: Self)
        ensures
            r == Tab::Artists,
    {
        Tab::Artists
    }
}

impl Tab {
    /// All tabs, in display order.
    pub fn all() -> (r: Vec<Tab>)
        ensures
            r@ == seq![
                Tab::Artists,
                Tab::Albums,
                Tab::Songs,
                Tab::Playlists,
                Tab::Genres,
                Tab::Favorites,
            ],
    {
        let v: Vec<Tab> = vec![
            Tab::Artists,
            Tab::Albums,
            Tab::Songs,
            Tab::Playlists,
            Tab::Genres,
            Tab::Favorites,
        ];
        proof {
            assert(v@ =~= seq![
                Tab::Artists,
                Tab::Albums,
                Tab::Songs,
                Tab::Playlists,
                Tab::Genres,
                Tab::Favorites,
            ]);
        }
        v
    }

    /// Display title of the tab.
    pub fn title(&self) -> (r: &'static str)
        ensures
            *self == Tab::Artists ==> r@ == "Artists"@,
            *self == Tab::Albums ==> r@ == "Albums"@,
            *self == Tab::Songs ==> r@ == "Songs"@,
            *self == Tab::Playlists ==> r@ == "Playlists"@,
            *self == Tab::Genres ==> r@ == "Genres"@,
            *self == Tab::Favorites ==> r@ == "Favorites"@,
    {
        match self {
            Self::Artists => "Artists",
            Self::Albums => "Albums",
            Self::Songs => "Songs",
            Self::Playlists => "Playlists",
            Self::Genres => "Genres",
            Self::Favorites => "Favorites",
        }
    }

    /// Position of the tab in display order.
    pub fn index(&self) -> (r: usize)
        ensures
            r == self.spec_index(),
    {
        match self {
            Self::Artists => 0,
            Self::Albums => 1,
            Self::Songs => 2,
            Self::Playlists => 3,
            Self::Genres => 4,
            Self::Favorites => 5,
        }
    }

    /// Position of the tab in display order, as a specification.
    pub open spec fn spec_index(self) -> usize {
        match self {
            Tab::Artists => 0usize,
            Tab::Albums => 1usize,
            Tab::Songs => 2usize,
            Tab::Playlists => 3usize,
            Tab::Genres => 4usize,
            Tab::Favorites => 5usize,
        }
    }

    /// The next tab, wrapping around.
    pub fn next(&self) -> (r: Tab)
        ensures
            r.spec_index() == (self.spec_index() + 1) % 6,
    {
        match self {
            Self::Artists => Self::Albums,
            Self::Albums => Self::Songs,
            Self::Songs => Self::Playlists,
            Self::Playlists => Self::Genres,
            Self::Genres => Self::Favorites,
            Self::Favorites => Self::Artists,
        }
    }

    /// The previous tab, wrapping around.
    pub fn prev(&self) -> (r: Tab)
        ensures
            r.spec_index() == (self.spec_index() + 5) % 6,
    {
        match self {
            Self::Artists => Self::Favorites,
            Self::Albums => Self::Artists,
            Self::Songs => Self::Albums,
            Self::Playlists => Self::Songs,
            Self::Genres => Self::Playlists,
            Self::Favorites => Self::Genres,
        }
    }
}

} // verus!
