//! Application configuration: server connection, player and UI settings.
//!
//! Reading and writing the configuration file is outside the library; the
//! rules on what makes a configuration usable live here.

use vstd::prelude::*;

verus! {

/// The default volume percentage.
pub fn default_volume() -> (v: u8)
    ensures
        v == 80,
{
    80
}

/// The default for the flags that are on unless configured off.
pub fn default_true() -> (v: bool)
    ensures
        v,
{
    true
}

/// Server connection configuration.
#[derive(Debug, Clone)]
pub struct ServerConfig {
    /// Server URL, such as `https://music.example.com`.
    pub url: String,
    /// Username for authentication.
    pub username: String,
    /// Password; prompted for when absent.
    pub password: Option<String>,
    /// API key for OpenSubsonic servers.
    pub api_key: Option<String>,
}

/// Player configuration.
#[derive(Debug, Clone)]
pub struct PlayerConfig {
    /// Volume level, 0 to 100.
    pub volume: u8,
    /// Enable gapless playback.
    pub gapless: bool,
    /// Preferred audio format for streaming.
    pub format: Option<String>,
    /// Maximum bitrate for streaming; zero means no limit.
    pub max_bitrate: u32,
}

impl Default for PlayerConfig {
    fn default() -> (c: Self)
        ensures
            c.volume == 80,
            c.gapless,
            c.format is None,
            c.max_bitrate == 0,
    {
        PlayerConfig { volume: default_volume(), gapless: true, format: None, max_bitrate: 0 }
    }
}

/// UI configuration.
#[derive(Debug, Clone)]
pub struct UiConfig {
    /// Show the queue panel.
    pub show_queue: bool,
    /// Show album art, where the terminal supports it.
    pub show_album_art: bool,
    /// Colour theme name.
    pub theme: String,
}

impl Default for UiConfig {
    fn default() -> (c: Self)
        ensures
            c.show_queue,
            c.show_album_art,
            c.theme@ == "default"@,
    {
        UiConfig { show_queue: true, show_album_art: true, theme: String::from_str("default") }
    }
}

/// Application configuration.
#[derive(Debug, Clone)]
pub struct Config {
    /// Server configuration.
    pub server: ServerConfig,
    /// Player configuration.
    pub player: PlayerConfig,
    /// UI configuration.
    pub ui: UiConfig,
}

impl Default for Config {
    fn default() -> (c: Self)
        ensures
            c.server.url@ == Seq::<char>::empty(),
            c.server.username@ == Seq::<char>::empty(),
            c.server.password is None,
            c.server.api_key is None,
            c.player.volume == 80,
            c.ui.show_queue,
    {
        Config {
            server: ServerConfig {
                url: String::new(),
                username: String::new(),
                password: None,
                api_key: None,
            },
            player: PlayerConfig::default(),
            ui: UiConfig::default(),
        }
    }
}

/// Whether `prefix` starts the character sequence `s`.
pub open spec fn has_prefix(s: Seq<char>, prefix: Seq<char>) -> bool {
    prefix.len() <= s.len() && s.subrange(0, prefix.len() as int) == prefix
}

/// Whether the string starts with the given ASCII prefix.
fn starts_with_ascii(s: &str, prefix: &str) -> (r: bool)
    requires
        prefix.is_ascii(),
    ensures
        r == has_prefix(s@, prefix@),
{
    let s_len = s.unicode_len();
    let p_len = prefix.unicode_len();
    if p_len > s_len {
        proof {
            assert(!has_prefix(s@, prefix@));
        }
        return false;
    }
    let mut i: usize = 0;
    while i < p_len
        invariant
            i <= p_len <= s_len,
            s_len == s@.len(),
            p_len == prefix@.len(),
            prefix.is_ascii(),
            forall|j: int| 0 <= j < i ==> s@[j] == prefix@[j],
        decreases p_len - i,
    {
        if s.get_char(i) != prefix.get_char(i) {
            proof {
                assert(s@.subrange(0, p_len as int)[i as int] != prefix@[i as int]);
            }
            return false;
        }
        i += 1;
    }
    proof {
        assert(s@.subrange(0, p_len as int) =~= prefix@);
    }
    true
}

/// The configuration suffices to connect: the URL is present with an
/// `http://` or `https://` scheme, and either a non-empty API key or a
/// username together with a non-empty password is given.
pub open spec fn spec_is_valid(c: Config) -> bool {
    let valid_url = c.server.url@.len() > 0 && (has_prefix(c.server.url@, "http://"@) || has_prefix(
        c.server.url@,
        "https://"@,
    ));
    let key_auth = c.server.api_key is Some && c.server.api_key->0@.len() > 0;
    let password_auth = c.server.username@.len() > 0 && c.server.password is Some
        && c.server.password->0@.len() > 0;
    valid_url && (key_auth || password_auth)
}

impl Config {
    /// Whether the configuration is valid for connecting.
    pub fn is_valid(&self) -> (r: bool)
        ensures
            r == spec_is_valid(*self),
    {
        proof {
            reveal_strlit("http://");
            reveal_strlit("https://");
        }
        let url = self.server.url.as_str();
        let valid_url = url.unicode_len() > 0 && (starts_with_ascii(url, "http://")
            || starts_with_ascii(url, "https://"));

        let key_auth = match &self.server.api_key {
            Some(k) => k.as_str().unicode_len() > 0,
            None => false,
        };
        let password_auth = self.server.username.as_str().unicode_len() > 0 && match &self
            .server
            .password {
            Some(p) => p.as_str().unicode_len() > 0,
            None => false,
        };

        valid_url && (key_auth || password_auth)
    }
}

} // verus!
