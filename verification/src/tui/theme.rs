//! Per-service identity used across screens (the colours live with the
//! renderer).
use vstd::prelude::*;

verus! {

#[derive(Debug, Clone, Copy, PartialEq, Eq, Structural)]
pub enum Service {
    Radarr,
    Sonarr,
    Plex,
    Qbit,
    Nzbget,
}

pub open spec fn service_label(s: Service) -> Seq<char> {
    match s {
        Service::Radarr => "RADARR"@,
        Service::Sonarr => "SONARR"@,
        Service::Plex => "PLEX"@,
        Service::Qbit => "QBIT"@,
        Service::Nzbget => "NZBGET"@,
    }
}

impl Service {
    /// The upper-case tag shown on cards and rows.
    pub fn label(self) -> (r: &'static str)
        ensures
            r@ == service_label(self),
    {
        match self {
            Service::Radarr => "RADARR",
            Service::Sonarr => "SONARR",
            Service::Plex => "PLEX",
            Service::Qbit => "QBIT",
            Service::Nzbget => "NZBGET",
        }
    }
}

} // verus!
