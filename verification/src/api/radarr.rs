use vstd::prelude::*;

use crate::api::arr_core::ArrCore;
use crate::config::ApiKeyService;

verus! {

pub struct RadarrClient {
    core: ArrCore,
}

impl RadarrClient {
    pub fn new(cfg: &ApiKeyService, http: reqwest::Client) -> (c: Self)
        ensures
            c.core_spec().service_spec() == "radarr",
            c.core_spec().base_spec() == cfg.url@,
            c.core_spec().key_spec() == cfg.api_key@,
    {
        RadarrClient { core: ArrCore::new("radarr", cfg.url.as_str(), cfg.api_key.as_str(), http) }
    }

    pub closed spec fn core_spec(&self) -> ArrCore {
        self.core
    }

    pub fn arr_core(&self) -> (c: &ArrCore)
        ensures
            *c == self.core_spec(),
    {
        &self.core
    }
}

} // verus!
