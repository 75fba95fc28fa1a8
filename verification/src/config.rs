//! Service credentials and UI settings, and the rules for locating and
//! displaying them.
use vstd::prelude::*;

use crate::error::{CliarrError, Result};
use crate::text::{chars_of, push_chars, push_str, string_of, sub_chars};

verus! {

#[derive(Debug, Clone)]
pub struct Config {
    pub radarr: Option<ApiKeyService>,
    pub sonarr: Option<ApiKeyService>,
    pub plex: Option<TokenService>,
    pub qbittorrent: Option<UserPassService>,
    pub nzbget: Option<UserPassService>,
    pub ui: UiConfig,
}

#[derive(Debug, Clone)]
pub struct ApiKeyService {
    pub url: String,
    pub api_key: String,
}

#[derive(Debug, Clone)]
pub struct TokenService {
    pub url: String,
    pub token: String,
}

#[derive(Debug, Clone)]
pub struct UserPassService {
    pub url: String,
    pub username: String,
    pub password: String,
}

#[derive(Debug, Clone, Copy)]
pub struct UiConfig {
    pub poster_protocol: PosterProtocol,
}

#[derive(Debug, Clone, Copy, PartialEq, Eq, Structural)]
pub enum PosterProtocol {
    Auto,
    Kitty,
    Iterm2,
    Sixel,
    Halfblocks,
    Off,
}

impl Default for PosterProtocol {
    fn default() -> (p: Self)
        ensures
            p == PosterProtocol::Auto,
    {
        PosterProtocol::Auto
    }
}

impl Default for UiConfig {
    fn default() -> (u: Self)
        ensures
            u.poster_protocol == PosterProtocol::Auto,
    {
        UiConfig { poster_protocol: PosterProtocol::Auto }
    }
}

impl Default for Config {
    fn default() -> (c: Self)
        ensures
            c.radarr is None,
            c.sonarr is None,
            c.plex is None,
            c.qbittorrent is None,
            c.nzbget is None,
            c.ui.poster_protocol == PosterProtocol::Auto,
    {
        Config {
            radarr: None,
            sonarr: None,
            plex: None,
            qbittorrent: None,
            nzbget: None,
            ui: UiConfig { poster_protocol: PosterProtocol::Auto },
        }
    }
}

/// std's borrowed file-system path, carried opaquely.
#[verifier::external_type_specification]
#[verifier::external_body]
pub struct ExPath(std::path::Path);

/// std's owned file-system path, carried opaquely.
#[verifier::external_type_specification]
#[verifier::external_body]
pub struct ExPathBuf(std::path::PathBuf);

/// The platform directories of the `directories` crate, carried opaquely.
#[verifier::external_type_specification]
#[verifier::external_body]
pub struct ExProjectDirs(directories::ProjectDirs);

/// `directories::ProjectDirs::from(qualifier, organization, application)`:
/// the platform's directories for the application; None when the home
/// directory is unknown. Depends on the environment, so nothing is claimed
/// of the outcome.
#[verifier::external_body]
pub(crate) fn project_dirs(qualifier: &str, organization: &str, application: &str) -> Option<
    directories::ProjectDirs,
> {
    directories::ProjectDirs::from(qualifier, organization, application)
}

/// `ProjectDirs::config_dir`.
#[verifier::external_body]
pub(crate) fn config_dir(dirs: &directories::ProjectDirs) -> &std::path::Path {
    dirs.config_dir()
}

/// The path `Path::join` makes of a directory and a relative name.
pub uninterp spec fn joined_path_of(dir: &std::path::Path, name: Seq<char>) -> std::path::PathBuf;

/// `Path::join`, named by `joined_path_of`.
#[verifier::external_body]
pub(crate) fn path_join(dir: &std::path::Path, name: &str) -> (r: std::path::PathBuf)
    ensures
        r == joined_path_of(dir, name@),
{
    dir.join(name)
}

/// The application name the platform directories are looked up under.
pub const APP_NAME: &'static str = "cliarr";

/// The config file's name inside the config directory.
pub const CONFIG_FILE_NAME: &'static str = "config.toml";

/// A path naming `config.toml` inside some directory.
pub open spec fn is_config_file_path(p: std::path::PathBuf) -> bool {
    exists|d: &std::path::Path| p == joined_path_of(d, CONFIG_FILE_NAME@)
}

/// The first four characters followed by four asterisks; short secrets are
/// replaced entirely.
pub open spec fn mask_spec(s: Seq<char>) -> Seq<char> {
    if s.len() <= 4 {
        "****"@
    } else {
        s.take(4) + "****"@
    }
}

pub fn mask(s: &str) -> (m: String)
    ensures
        m@ == mask_spec(s@),
{
    let cs = chars_of(s);
    let stars = chars_of("****");
    if cs.len() <= 4 {
        string_of(&stars)
    } else {
        let mut head = sub_chars(&cs, 0, 4);
        push_chars(&mut head, &stars);
        string_of(&head)
    }
}

pub open spec fn api_key_redacted(o: Option<ApiKeyService>, r: Option<ApiKeyService>) -> bool {
    match (o, r) {
        (None, None) => true,
        (Some(a), Some(b)) => b.url@ == a.url@ && b.api_key@ == mask_spec(a.api_key@),
        _ => false,
    }
}

pub open spec fn user_pass_redacted(o: Option<UserPassService>, r: Option<UserPassService>) -> bool {
    match (o, r) {
        (None, None) => true,
        (Some(a), Some(b)) => b.url@ == a.url@ && b.username@ == a.username@ && b.password@
            == mask_spec(a.password@),
        _ => false,
    }
}

pub open spec fn token_redacted(o: Option<TokenService>, r: Option<TokenService>) -> bool {
    match (o, r) {
        (None, None) => true,
        (Some(a), Some(b)) => b.url@ == a.url@ && b.token@ == mask_spec(a.token@),
        _ => false,
    }
}

fn redact_api_key(o: &Option<ApiKeyService>) -> (r: Option<ApiKeyService>)
    ensures
        api_key_redacted(*o, r),
{
    match o {
        None => None,
        Some(a) => Some(
            ApiKeyService {
                url: string_of(&chars_of(a.url.as_str())),
                api_key: mask(a.api_key.as_str()),
            },
        ),
    }
}

fn redact_user_pass(o: &Option<UserPassService>) -> (r: Option<UserPassService>)
    ensures
        user_pass_redacted(*o, r),
{
    match o {
        None => None,
        Some(a) => Some(
            UserPassService {
                url: string_of(&chars_of(a.url.as_str())),
                username: string_of(&chars_of(a.username.as_str())),
                password: mask(a.password.as_str()),
            },
        ),
    }
}

/// Why there is no default config location.
pub open spec fn no_config_dir_message() -> Seq<char> {
    "cannot determine config directory"@
}

/// What reading the config file gave: its text, or why it could not be
/// read (the file is not there, or any other failure).
pub enum ConfigRead {
    Text(String),
    NotFound(String),
    Failed(String),
}

/// The message for a config file that could not be read; the plain load
/// also says how to create one.
pub open spec fn read_failure_message(path: Seq<char>, reason: Seq<char>, missing_is_default: bool) -> Seq<
    char,
> {
    if missing_is_default {
        "cannot read "@ + path + " ("@ + reason + ")"@
    } else {
        "cannot read "@ + path + " ("@ + reason + "); run `cliarr config init` to create it"@
    }
}

/// The text to parse after reading the config file at `path`. A plain load
/// (`missing_is_default` false) fails on any read failure. A load that
/// defaults (`missing_is_default` true) answers `None`, the defaults, when
/// the file is not there, and still fails on any other read failure, so a
/// broken config is never silently replaced by a fresh one.
pub fn config_text(path: &str, read: ConfigRead, missing_is_default: bool) -> (r: Result<
    Option<String>,
>)
    ensures
        match read {
            ConfigRead::Text(t) => r matches Ok(Some(x)) && x@ == t@,
            ConfigRead::NotFound(e) => if missing_is_default {
                r matches Ok(None)
            } else {
                r matches Err(CliarrError::Config(m)) && m@ == read_failure_message(path@, e@, false)
            },
            ConfigRead::Failed(e) => r matches Err(CliarrError::Config(m)) && m@
                == read_failure_message(path@, e@, missing_is_default),
        },
{
    let reason = match read {
        ConfigRead::Text(t) => return Ok(Some(t)),
        ConfigRead::NotFound(e) => {
            if missing_is_default {
                return Ok(None);
            }
            e
        },
        ConfigRead::Failed(e) => e,
    };
    let mut m: Vec<char> = Vec::new();
    push_str(&mut m, "cannot read ");
    push_str(&mut m, path);
    push_str(&mut m, " (");
    push_str(&mut m, reason.as_str());
    if missing_is_default {
        push_str(&mut m, ")");
    } else {
        push_str(&mut m, "); run `cliarr config init` to create it");
    }
    Err(CliarrError::Config(string_of(&m)))
}

impl Config {
    /// The default location: `config.toml` in the platform config directory.
    /// Fails only when the platform has no such directory (no home
    /// directory), with the message `cannot determine config directory`.
    pub fn default_path() -> (r: Result<std::path::PathBuf>)
        ensures
            r matches Ok(p) ==> is_config_file_path(p),
            r matches Err(e) ==> e matches CliarrError::Config(m) && m@ == no_config_dir_message(),
    {
        match project_dirs("", "", APP_NAME) {
            Some(dirs) => {
                let p = path_join(config_dir(&dirs), CONFIG_FILE_NAME);
                Ok(p)
            },
            None => Err(
                CliarrError::Config(string_of(&chars_of("cannot determine config directory"))),
            ),
        }
    }

    /// The override when one is given, else the default location.
    pub fn path(override_path: Option<std::path::PathBuf>) -> (r: Result<std::path::PathBuf>)
        ensures
            override_path matches Some(p) ==> r == Ok::<std::path::PathBuf, CliarrError>(p),
            override_path is None ==> (r matches Ok(p) ==> is_config_file_path(p)),
            r matches Err(e) ==> e matches CliarrError::Config(m) && m@ == no_config_dir_message(),
    {
        match override_path {
            Some(p) => Ok(p),
            None => Self::default_path(),
        }
    }

    /// Copy for `config show`: every secret masked, everything else kept.
    pub fn redacted(&self) -> (c: Self)
        ensures
            api_key_redacted(self.radarr, c.radarr),
            api_key_redacted(self.sonarr, c.sonarr),
            token_redacted(self.plex, c.plex),
            user_pass_redacted(self.qbittorrent, c.qbittorrent),
            user_pass_redacted(self.nzbget, c.nzbget),
            c.ui == self.ui,
    {
        let plex = match &self.plex {
            None => None,
            Some(p) => Some(
                TokenService {
                    url: string_of(&chars_of(p.url.as_str())),
                    token: mask(p.token.as_str()),
                },
            ),
        };
        Config {
            radarr: redact_api_key(&self.radarr),
            sonarr: redact_api_key(&self.sonarr),
            plex,
            qbittorrent: redact_user_pass(&self.qbittorrent),
            nzbget: redact_user_pass(&self.nzbget),
            ui: self.ui,
        }
    }
}

} // verus!
