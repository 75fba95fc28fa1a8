pub mod arr_core;
pub mod http;
pub mod models;
pub mod nzbget;
pub mod plex;
pub mod qbittorrent;
pub mod radarr;
pub mod sonarr;

use vstd::prelude::*;

use std::sync::Arc;

use crate::config::Config;
use crate::error::{CliarrError, Result};

verus! {

/// Bundle of clients for the configured services. Unconfigured services are
/// None; accessors return a typed NotConfigured error.
pub struct Clients {
    pub radarr: Option<Arc<radarr::RadarrClient>>,
    pub sonarr: Option<Arc<sonarr::SonarrClient>>,
    pub plex: Option<Arc<plex::PlexClient>>,
    pub qbit: Option<Arc<qbittorrent::QbitClient>>,
    pub nzbget: Option<Arc<nzbget::NzbgetClient>>,
}

impl Clients {
    /// One client per configured service, all sharing one HTTP client.
    pub fn from_config(config: &Config) -> (c: Self)
        ensures
            c.radarr is Some <==> config.radarr is Some,
            c.sonarr is Some <==> config.sonarr is Some,
            c.plex is Some <==> config.plex is Some,
            c.qbit is Some <==> config.qbittorrent is Some,
            c.nzbget is Some <==> config.nzbget is Some,
            c.radarr matches Some(r) ==> ({
                let k = config.radarr->Some_0;
                &&& r.core_spec().service_spec() == "radarr"
                &&& r.core_spec().base_spec() == k.url@
                &&& r.core_spec().key_spec() == k.api_key@
            }),
            c.sonarr matches Some(s) ==> ({
                let k = config.sonarr->Some_0;
                &&& s.core_spec().service_spec() == "sonarr"
                &&& s.core_spec().base_spec() == k.url@
                &&& s.core_spec().key_spec() == k.api_key@
            }),
            c.plex matches Some(p) ==> ({
                let k = config.plex->Some_0;
                &&& p.base_spec() == k.url@
                &&& p.token_spec() == k.token@
            }),
            c.qbit matches Some(q) ==> ({
                let k = config.qbittorrent->Some_0;
                &&& q.base_spec() == k.url@
                &&& q.username_spec() == k.username@
                &&& q.password_spec() == k.password@
            }),
            c.nzbget matches Some(n) ==> ({
                let k = config.nzbget->Some_0;
                &&& n.base_spec() == k.url@
                &&& n.username_spec() == k.username@
                &&& n.password_spec() == k.password@
            }),
    {
        let built = http::build_client();
        let http = built.client();
        let radarr = match &config.radarr {
            Some(c) => Some(Arc::new(radarr::RadarrClient::new(c, arr_core::share_client(http)))),
            None => None,
        };
        let sonarr = match &config.sonarr {
            Some(c) => Some(Arc::new(sonarr::SonarrClient::new(c, arr_core::share_client(http)))),
            None => None,
        };
        let plex = match &config.plex {
            Some(c) => Some(Arc::new(plex::PlexClient::new(c, arr_core::share_client(http)))),
            None => None,
        };
        let qbit = match &config.qbittorrent {
            Some(c) => Some(
                Arc::new(qbittorrent::QbitClient::new(c, arr_core::share_client(http))),
            ),
            None => None,
        };
        let nzbget = match &config.nzbget {
            Some(c) => Some(Arc::new(nzbget::NzbgetClient::new(c, arr_core::share_client(http)))),
            None => None,
        };
        Clients { radarr, sonarr, plex, qbit, nzbget }
    }

    pub fn radarr(&self) -> (r: Result<&radarr::RadarrClient>)
        ensures
            self.radarr matches Some(c) ==> r == Ok::<_, CliarrError>(&*c),
            self.radarr is None ==> r == Err::<&radarr::RadarrClient, _>(
                CliarrError::NotConfigured("radarr"),
            ),
    {
        match &self.radarr {
            Some(c) => Ok(&**c),
            None => Err(CliarrError::NotConfigured("radarr")),
        }
    }

    pub fn sonarr(&self) -> (r: Result<&sonarr::SonarrClient>)
        ensures
            self.sonarr matches Some(c) ==> r == Ok::<_, CliarrError>(&*c),
            self.sonarr is None ==> r == Err::<&sonarr::SonarrClient, _>(
                CliarrError::NotConfigured("sonarr"),
            ),
    {
        match &self.sonarr {
            Some(c) => Ok(&**c),
            None => Err(CliarrError::NotConfigured("sonarr")),
        }
    }

    pub fn plex(&self) -> (r: Result<&plex::PlexClient>)
        ensures
            self.plex matches Some(c) ==> r == Ok::<_, CliarrError>(&*c),
            self.plex is None ==> r == Err::<&plex::PlexClient, _>(
                CliarrError::NotConfigured("plex"),
            ),
    {
        match &self.plex {
            Some(c) => Ok(&**c),
            None => Err(CliarrError::NotConfigured("plex")),
        }
    }

    pub fn qbit(&self) -> (r: Result<&qbittorrent::QbitClient>)
        ensures
            self.qbit matches Some(c) ==> r == Ok::<_, CliarrError>(&*c),
            self.qbit is None ==> r == Err::<&qbittorrent::QbitClient, _>(
                CliarrError::NotConfigured("qbittorrent"),
            ),
    {
        match &self.qbit {
            Some(c) => Ok(&**c),
            None => Err(CliarrError::NotConfigured("qbittorrent")),
        }
    }

    pub fn nzbget(&self) -> (r: Result<&nzbget::NzbgetClient>)
        ensures
            self.nzbget matches Some(c) ==> r == Ok::<_, CliarrError>(&*c),
            self.nzbget is None ==> r == Err::<&nzbget::NzbgetClient, _>(
                CliarrError::NotConfigured("nzbget"),
            ),
    {
        match &self.nzbget {
            Some(c) => Ok(&**c),
            None => Err(CliarrError::NotConfigured("nzbget")),
        }
    }
}

} // verus!
