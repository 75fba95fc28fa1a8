//! The command line as data: global flags and the subcommand tree. Parsing
//! the arguments is done by the program around this library.
use vstd::prelude::*;

use std::path::PathBuf;

verus! {

#[derive(Debug)]
pub struct Cli {
    /// Search query; launches the TUI with this search already running.
    pub query: Vec<String>,
    /// Output JSON instead of tables.
    pub json: bool,
    /// Path to the config file.
    pub config: Option<PathBuf>,
    pub command: Option<Commands>,
}

#[derive(Debug)]
#[allow(inconsistent_fields)]
pub enum Commands {
    /// Manage cliarr configuration.
    Config { cmd: ConfigCmd },
    /// Movies (Radarr).
    Movie { cmd: MovieCmd },
    /// TV series (Sonarr).
    Series { cmd: SeriesCmd },
    /// Radarr/Sonarr download queues.
    Queue { cmd: Option<QueueCmd>, service: ArrService },
    /// Upcoming releases from Radarr and Sonarr, `days` ahead.
    Calendar { days: i64 },
    /// Wanted/missing items.
    Missing { service: ArrService },
    /// qBittorrent torrents.
    Torrents { cmd: Option<TorrentsCmd> },
    /// NZBGet downloads.
    Nzb { cmd: Option<NzbCmd> },
    /// Plex server status.
    Plex { cmd: PlexCmd },
}

#[derive(Debug, Clone, Copy, PartialEq, Eq, Structural)]
pub enum ConfigCmd {
    Init,
    Show,
    Test,
}

#[derive(Debug)]
#[allow(inconsistent_fields)]
pub enum MovieCmd {
    Search { query: String },
    Add {
        tmdb_id: i64,
        profile: Option<String>,
        root: Option<String>,
        no_search: bool,
        unmonitored: bool,
    },
    List { filter: Option<LibraryFilter> },
    Remove { id: i64, delete_files: bool, exclude: bool },
    SearchMissing,
    Refresh { id: Option<i64> },
}

#[derive(Debug)]
#[allow(inconsistent_fields)]
pub enum SeriesCmd {
    Search { query: String },
    Add {
        tvdb_id: i64,
        profile: Option<String>,
        root: Option<String>,
        no_search: bool,
        unmonitored: bool,
        no_season_folders: bool,
    },
    List { filter: Option<LibraryFilter> },
    Remove { id: i64, delete_files: bool, exclude: bool },
    SearchMissing,
    Refresh { id: Option<i64> },
}

#[derive(Debug)]
pub enum QueueCmd {
    List,
    Remove { id: i64, service: ArrServiceOne, blocklist: bool, remove_from_client: bool },
}

#[derive(Debug)]
pub enum TorrentsCmd {
    List { filter: Option<String> },
    Pause { hashes: Vec<String> },
    Resume { hashes: Vec<String> },
    Delete { hashes: Vec<String>, delete_files: bool },
}

#[derive(Debug)]
pub enum NzbCmd {
    List,
    Pause { ids: Vec<i64> },
    Resume { ids: Vec<i64> },
    Delete { ids: Vec<i64> },
}

#[derive(Debug, Clone, Copy, PartialEq, Eq, Structural)]
pub enum PlexCmd {
    Status,
}

#[derive(Debug, Clone, Copy, PartialEq, Eq, Structural)]
pub enum ArrService {
    Radarr,
    Sonarr,
    All,
}

#[derive(Debug, Clone, Copy, PartialEq, Eq, Structural)]
pub enum ArrServiceOne {
    Radarr,
    Sonarr,
}

#[derive(Debug, Clone, Copy, PartialEq, Eq, Structural)]
pub enum LibraryFilter {
    Missing,
    Monitored,
    Unmonitored,
}

impl ArrService {
    /// Whether the queue/missing listing includes Radarr.
    pub fn includes_radarr(self) -> (r: bool)
        ensures
            r <==> (self == ArrService::Radarr || self == ArrService::All),
    {
        matches!(self, ArrService::Radarr | ArrService::All)
    }

    /// Whether the queue/missing listing includes Sonarr.
    pub fn includes_sonarr(self) -> (r: bool)
        ensures
            r <==> (self == ArrService::Sonarr || self == ArrService::All),
    {
        matches!(self, ArrService::Sonarr | ArrService::All)
    }

    /// Which of Radarr and Sonarr a listing reads, given which are
    /// configured: `all` reads the configured ones, and naming a service
    /// that is not configured is an error.
    pub fn sources(self, radarr: bool, sonarr: bool) -> (r: crate::error::Result<(bool, bool)>)
        ensures
            self == ArrService::All ==> r == Ok::<(bool, bool), crate::error::CliarrError>(
                (radarr, sonarr),
            ),
            self == ArrService::Radarr ==> (if radarr {
                r == Ok::<(bool, bool), crate::error::CliarrError>((true, false))
            } else {
                r matches Err(crate::error::CliarrError::NotConfigured(n)) && n == "radarr"
            }),
            self == ArrService::Sonarr ==> (if sonarr {
                r == Ok::<(bool, bool), crate::error::CliarrError>((false, true))
            } else {
                r matches Err(crate::error::CliarrError::NotConfigured(n)) && n == "sonarr"
            }),
    {
        match self {
            ArrService::All => Ok((radarr, sonarr)),
            ArrService::Radarr => if radarr {
                Ok((true, false))
            } else {
                Err(crate::error::CliarrError::NotConfigured("radarr"))
            },
            ArrService::Sonarr => if sonarr {
                Ok((false, true))
            } else {
                Err(crate::error::CliarrError::NotConfigured("sonarr"))
            },
        }
    }
}

} // verus!
