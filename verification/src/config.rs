//! Server settings and their built-in defaults.
//!
//! [`Settings`] is the layered configuration of the whole server. This core
//! owns the baseline layer: [`Settings::new`] yields the validated defaults
//! every deployment starts from. Overlaying configuration files and
//! environment variables on top of it is I/O and belongs to the binary
//! around this library.

use vstd::prelude::*;

verus! {

/// Listener address of the control protocol.
pub struct Server {
    pub port: u16,
    pub address: String,
}

/// Which remote audio sources a deployment accepts.
pub struct JukeboxSources {
    pub youtube: bool,
    pub bandcamp: bool,
    pub soundcloud: bool,
    pub twitch: bool,
    pub vimeo: bool,
    pub http: bool,
    pub local: bool,
}

/// Rate-limit handling towards remote sources.
pub struct JukeboxRatelimit {
    pub ip_blocks: Option<Vec<String>>,
    pub excluded_ips: Option<Vec<String>>,
    pub strategy: String,
    pub search_triggers_fail: bool,
    pub retry_limit: i8,
}

/// Behaviour of the playback server itself.
pub struct JukeboxServer {
    pub password: Option<String>,
    pub sources: JukeboxSources,
    pub buffer_duration_ms: u32,
    pub youtube_playlist_load_limit: u8,
    pub player_update_interval: u8,
    pub youtube_search_enabled: bool,
    pub soundcloud_search_enabled: bool,
    pub ratelimit: JukeboxRatelimit,
}

/// The playback section of the configuration.
pub struct Jukebox {
    pub server: JukeboxServer,
}

/// Log levels per component.
pub struct LoggingLevel {
    pub root: String,
    pub lavalink: String,
}

/// Where and how verbosely to log.
pub struct Logging {
    pub path: Option<String>,
    pub level: LoggingLevel,
}

/// The whole server configuration.
pub struct Settings {
    pub server: Server,
    pub lavalink: Jukebox,
    pub logging: Logging,
}

/// The built-in baseline configuration, field by field.
pub open spec fn spec_is_default(s: Settings) -> bool {
    &&& s.server.port == 2333
    &&& s.server.address@ == "0.0.0.0"@
    &&& s.lavalink.server.password matches Some(p) && p@ == "youshallnotpass"@
    &&& s.lavalink.server.sources.youtube
    &&& s.lavalink.server.sources.bandcamp
    &&& s.lavalink.server.sources.soundcloud
    &&& s.lavalink.server.sources.twitch
    &&& s.lavalink.server.sources.vimeo
    &&& s.lavalink.server.sources.http
    &&& !s.lavalink.server.sources.local
    &&& s.lavalink.server.buffer_duration_ms == 400
    &&& s.lavalink.server.youtube_playlist_load_limit == 6
    &&& s.lavalink.server.player_update_interval == 5
    &&& s.lavalink.server.youtube_search_enabled
    &&& s.lavalink.server.soundcloud_search_enabled
    &&& s.lavalink.server.ratelimit.ip_blocks is None
    &&& s.lavalink.server.ratelimit.excluded_ips is None
    &&& s.lavalink.server.ratelimit.strategy@ == "RotateOnBan"@
    &&& s.lavalink.server.ratelimit.search_triggers_fail
    &&& s.lavalink.server.ratelimit.retry_limit == -1
    &&& s.logging.path is None
    &&& s.logging.level.root@ == "INFO"@
    &&& s.logging.level.lavalink@ == "INFO"@
}

impl Default for Settings {
    /// The baseline every deployment starts from.
    fn default() -> (r: Self)
        ensures
            spec_is_default(r),
    {
        Settings {
            server: Server { port: 2333, address: "0.0.0.0".to_owned() },
            lavalink: Jukebox {
                server: JukeboxServer {
                    password: Some("youshallnotpass".to_owned()),
                    sources: JukeboxSources {
                        youtube: true,
                        bandcamp: true,
                        soundcloud: true,
                        twitch: true,
                        vimeo: true,
                        http: true,
                        local: false,
                    },
                    buffer_duration_ms: 400,
                    youtube_playlist_load_limit: 6,
                    player_update_interval: 5,
                    youtube_search_enabled: true,
                    soundcloud_search_enabled: true,
                    ratelimit: JukeboxRatelimit {
                        ip_blocks: None,
                        excluded_ips: None,
                        strategy: "RotateOnBan".to_owned(),
                        search_triggers_fail: true,
                        retry_limit: -1,
                    },
                },
            },
            logging: Logging {
                path: None,
                level: LoggingLevel { root: "INFO".to_owned(), lavalink: "INFO".to_owned() },
            },
        }
    }
}

impl Settings {
    /// The validated baseline configuration. The binary around this library
    /// overlays configuration files and environment variables on top.
    pub fn new() -> (r: Settings)
        ensures
            spec_is_default(r),
    {
        Settings::default()
    }
}

} // verus!
