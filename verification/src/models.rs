//! Data model of the OpenSubsonic API: songs, albums, artists, playlists,
//! genres, lyrics, and the response envelopes the server wraps them in.
//!
//! These are plain data carriers. The process that fills them from the wire
//! lives outside the library; the playback logic here only reads them.

use vstd::prelude::*;

use crate::text::{clock_rep, dec_rep, u64_to_clock, u64_to_dec};

verus! {

/// Root response wrapper for all API responses.
#[derive(Debug, Clone)]
pub struct SubsonicResponse<T> {
    pub subsonic_response: ResponseBody<T>,
}

/// Response body containing status and data.
#[derive(Debug, Clone)]
pub struct ResponseBody<T> {
    pub status: String,
    pub version: String,
    pub server_type: Option<String>,
    pub server_version: Option<String>,
    pub open_subsonic: Option<bool>,
    pub error: Option<ApiError>,
    pub data: Option<T>,
}

/// API error response.
#[derive(Debug, Clone)]
pub struct ApiError {
    pub code: i32,
    pub message: Option<String>,
}

/// The error message of an [`ApiError`], as a specification.
pub open spec fn api_error_rep(e: ApiError) -> Seq<char> {
    let msg = if e.message is Some {
        e.message->0@
    } else {
        "Unknown error"@
    };
    let code = if e.code >= 0 {
        dec_rep(e.code as nat)
    } else {
        seq!['-'] + dec_rep((-(e.code as int)) as nat)
    };
    "API Error "@ + code + ": "@ + msg
}

impl ApiError {
    /// A human-readable description of the error.
    pub fn describe(&self) -> (s: String)
        ensures
            s@ == api_error_rep(*self),
    {
        let mut s = String::from_str("API Error ");
        if self.code >= 0 {
            let code = u64_to_dec(self.code as u64);
            s.append(code.as_str());
        } else {
            s.append("-");
            let code = u64_to_dec((-(self.code as i64)) as u64);
            s.append(code.as_str());
            proof {
                reveal_strlit("-");
                assert("-"@ =~= seq!['-']);
            }
        }
        s.append(": ");
        match &self.message {
            Some(m) => s.append(m.as_str()),
            None => s.append("Unknown error"),
        }
        proof {
            assert(s@ =~= api_error_rep(*self));
        }
        s
    }
}

/// Response for the artist-list endpoint.
#[derive(Debug, Clone)]
pub struct ArtistsResponse {
    pub artists: ArtistsData,
}

/// Indexed artist list.
#[derive(Debug, Clone)]
pub struct ArtistsData {
    pub index: Vec<ArtistIndex>,
    pub ignored_articles: Option<String>,
}

/// One alphabetical bucket of artists.
#[derive(Debug, Clone)]
pub struct ArtistIndex {
    pub name: String,
    pub artist: Vec<Artist>,
}

/// Artist (tag-based).
#[derive(Debug, Clone, PartialEq)]
pub struct Artist {
    pub id: String,
    pub name: String,
    pub cover_art: Option<String>,
    pub artist_image_url: Option<String>,
    pub album_count: Option<i32>,
    pub starred: Option<String>,
    pub music_brainz_id: Option<String>,
    pub sort_name: Option<String>,
}

/// Response for the single-artist endpoint.
#[derive(Debug, Clone)]
pub struct ArtistResponse {
    pub artist: ArtistWithAlbums,
}

/// An artist together with their albums.
#[derive(Debug, Clone)]
pub struct ArtistWithAlbums {
    pub artist: Artist,
    pub album: Vec<Album>,
}

/// Response for the album-list endpoint.
#[derive(Debug, Clone)]
pub struct AlbumListResponse {
    pub album_list2: AlbumListData,
}

/// A page of albums.
#[derive(Debug, Clone)]
pub struct AlbumListData {
    pub album: Vec<Album>,
}

/// Album (tag-based).
#[derive(Debug, Clone, PartialEq)]
pub struct Album {
    pub id: String,
    pub name: String,
    pub artist: Option<String>,
    pub artist_id: Option<String>,
    pub cover_art: Option<String>,
    pub song_count: Option<i32>,
    pub duration: Option<i32>,
    pub play_count: Option<i64>,
    pub created: Option<String>,
    pub starred: Option<String>,
    pub year: Option<i32>,
    pub genre: Option<String>,
    pub music_brainz_id: Option<String>,
    pub genres: Vec<ItemGenre>,
    pub release_date: Option<ItemDate>,
    pub is_compilation: Option<bool>,
    pub sort_name: Option<String>,
    pub display_artist: Option<String>,
}

/// Clone an optional string, field by field, so the result is known equal.
fn clone_opt_string(o: &Option<String>) -> (r: Option<String>)
    ensures
        r == *o,
{
    match o {
        Some(s) => Some(s.clone()),
        None => None,
    }
}

/// Song (a "child" entry). Holds the metadata the player reads; the
/// duration is in whole seconds as the server reports it.
#[derive(Debug, PartialEq)]
pub struct Song {
    pub id: String,
    pub title: String,
    pub album: Option<String>,
    pub artist: Option<String>,
    pub track: Option<i32>,
    pub year: Option<i32>,
    pub genre: Option<String>,
    pub cover_art: Option<String>,
    pub size: Option<i64>,
    pub duration: Option<i32>,
    pub bit_rate: Option<i32>,
    pub starred: Option<String>,
    pub album_id: Option<String>,
    pub artist_id: Option<String>,
}

impl Clone for Song {
    /// A clone carries every field over unchanged.
    fn clone(&self) -> (r: Self)
        ensures
            r == *self,
    {
        Song {
            id: self.id.clone(),
            title: self.title.clone(),
            album: clone_opt_string(&self.album),
            artist: clone_opt_string(&self.artist),
            track: self.track,
            year: self.year,
            genre: clone_opt_string(&self.genre),
            cover_art: clone_opt_string(&self.cover_art),
            size: self.size,
            duration: self.duration,
            bit_rate: self.bit_rate,
            starred: clone_opt_string(&self.starred),
            album_id: clone_opt_string(&self.album_id),
            artist_id: clone_opt_string(&self.artist_id),
        }
    }
}

impl Song {
    /// A song with the given identity and title and no other metadata.
    pub fn with_title(id: String, title: String) -> (s: Song)
        ensures
            s.id == id,
            s.title == title,
            s.album is None,
            s.artist is None,
            s.track is None,
            s.year is None,
            s.genre is None,
            s.cover_art is None,
            s.size is None,
            s.duration is None,
            s.bit_rate is None,
            s.starred is None,
            s.album_id is None,
            s.artist_id is None,
    {
        Song {
            id,
            title,
            album: None,
            artist: None,
            track: None,
            year: None,
            genre: None,
            cover_art: None,
            size: None,
            duration: None,
            bit_rate: None,
            starred: None,
            album_id: None,
            artist_id: None,
        }
    }

    /// Display-friendly duration: an `M:SS` clock, or `--:--` when the
    /// server gave none. A nonsensical negative duration reads as zero.
    pub fn duration_string(&self) -> (s: String)
        ensures
            self.duration is Some && self.duration->0 >= 0 ==> s@ == clock_rep(
                self.duration->0 as nat,
            ),
            self.duration is Some && self.duration->0 < 0 ==> s@ == clock_rep(0),
            self.duration is None ==> s@ == "--:--"@,
    {
        match self.duration {
            Some(secs) => {
                let clamped: u64 = if secs >= 0 {
                    secs as u64
                } else {
                    0
                };
                u64_to_clock(clamped)
            },
            None => String::from_str("--:--"),
        }
    }

    /// Display artist, falling back to "Unknown Artist".
    pub fn display_artist(&self) -> (r: &str)
        ensures
            self.artist is Some ==> r@ == self.artist->0@,
            self.artist is None ==> r@ == "Unknown Artist"@,
    {
        match &self.artist {
            Some(a) => a.as_str(),
            None => "Unknown Artist",
        }
    }

    /// Display album, falling back to "Unknown Album".
    pub fn display_album(&self) -> (r: &str)
        ensures
            self.album is Some ==> r@ == self.album->0@,
            self.album is None ==> r@ == "Unknown Album"@,
    {
        match &self.album {
            Some(a) => a.as_str(),
            None => "Unknown Album",
        }
    }
}

/// Response for the playlists endpoint.
#[derive(Debug, Clone)]
pub struct PlaylistsResponse {
    pub playlists: PlaylistsData,
}

/// The playlists themselves.
#[derive(Debug, Clone)]
pub struct PlaylistsData {
    pub playlist: Vec<Playlist>,
}

/// Playlist.
#[derive(Debug, Clone, PartialEq)]
pub struct Playlist {
    pub id: String,
    pub name: String,
    pub comment: Option<String>,
    pub owner: Option<String>,
    pub public: Option<bool>,
    pub song_count: Option<i32>,
    pub duration: Option<i32>,
    pub created: Option<String>,
    pub changed: Option<String>,
    pub cover_art: Option<String>,
}

/// Response for the ping endpoint.
#[derive(Debug, Clone)]
pub struct PingResponse {}

/// Response for the extensions endpoint.
#[derive(Debug, Clone)]
pub struct ExtensionsResponse {
    pub open_subsonic_extensions: Vec<OpenSubsonicExtension>,
}

/// One OpenSubsonic extension with its supported versions.
#[derive(Debug, Clone)]
pub struct OpenSubsonicExtension {
    pub name: String,
    pub versions: Vec<i32>,
}

/// Genre item on a song or album.
#[derive(Debug, Clone, PartialEq)]
pub struct ItemGenre {
    pub name: String,
}

/// Date item.
#[derive(Debug, Clone, PartialEq)]
pub struct ItemDate {
    pub year: Option<i32>,
    pub month: Option<i32>,
    pub day: Option<i32>,
}

/// Response for the genres endpoint.
#[derive(Debug, Clone)]
pub struct GenresResponse {
    pub genres: GenresData,
}

/// The genres themselves.
#[derive(Debug, Clone)]
pub struct GenresData {
    pub genre: Vec<Genre>,
}

/// Genre with counts.
#[derive(Debug, Clone, PartialEq)]
pub struct Genre {
    pub value: String,
    pub song_count: Option<i32>,
    pub album_count: Option<i32>,
}

/// Response for the lyrics endpoint.
#[derive(Debug, Clone)]
pub struct LyricsResponse {
    pub lyrics_list: LyricsList,
}

/// All lyric variants for one song.
#[derive(Debug, Clone)]
pub struct LyricsList {
    pub structured_lyrics: Vec<StructuredLyrics>,
}

/// Structured lyrics with optional sync.
#[derive(Debug, Clone, PartialEq)]
pub struct StructuredLyrics {
    pub display_artist: Option<String>,
    pub display_title: Option<String>,
    pub lang: String,
    pub synced: bool,
    pub offset: i64,
    pub line: Vec<LyricLine>,
}

/// A single line of lyrics, with its start time in milliseconds when synced.
#[derive(Debug, Clone, PartialEq)]
pub struct LyricLine {
    pub start: Option<i64>,
    pub value: String,
}

} // verus!
