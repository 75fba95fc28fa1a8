//! Terminal client for a home media stack (Radarr, Sonarr, Plex,
//! qBittorrent, NZBGet): the data model, request shaping, response
//! interpretation and screen-state rules, each with its contract.
pub mod api;
pub mod cache;
pub mod cli;
pub mod commands;
pub mod config;
pub mod error;
pub mod order;
pub mod text;
pub mod tui;
pub mod update;
