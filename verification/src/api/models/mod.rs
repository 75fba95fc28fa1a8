pub mod arr;
pub mod nzbget;
pub mod plex;
pub mod radarr;
pub mod sonarr;
