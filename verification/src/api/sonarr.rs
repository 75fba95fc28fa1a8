use vstd::prelude::*;

use crate::api::arr_core::ArrCore;
use crate::config::ApiKeyService;

verus! {

pub struct SonarrClient {
    core: ArrCore,
}

impl SonarrClient {
    pub fn new(cfg: &ApiKeyService, http: reqwest::Client) -> (c: Self)
        ensures
            c.core_spec().service_spec() == "sonarr",
            c.core_spec().base_spec() == cfg.url@,
            c.core_spec().key_spec() == cfg.api_key@,
    {
        SonarrClient { core: ArrCore::new("sonarr", cfg.url.as_str(), cfg.api_key.as_str(), http) }
    }

    pub closed spec fn core_spec(&self) -> ArrCore {
        self.core
    }

    /// The shared Radarr/Sonarr connection (system status, profiles, root
    /// folders, queue removal and commands go through it).
    pub fn arr_core(&self) -> (c: &ArrCore)
        ensures
            *c == self.core_spec(),
    {
        &self.core
    }
}

} // verus!
