//! Models shared between Radarr and Sonarr (their v3 APIs mirror each other).
use vstd::prelude::*;

verus! {

#[derive(Debug, Clone)]
pub struct SystemStatus {
    pub app_name: Option<String>,
    pub version: String,
    pub instance_name: Option<String>,
}

#[derive(Debug, Clone)]
pub struct Image {
    pub cover_type: String,
    pub url: Option<String>,
    pub remote_url: Option<String>,
}

#[derive(Debug, Clone)]
pub struct QualityProfile {
    pub id: i64,
    pub name: String,
}

#[derive(Debug, Clone)]
pub struct RootFolder {
    pub id: i64,
    pub path: String,
    pub free_space: Option<i64>,
    pub accessible: Option<bool>,
}

#[derive(Debug, Clone)]
pub struct Paged<T> {
    pub page: i64,
    pub page_size: i64,
    pub total_records: i64,
    pub records: Vec<T>,
}

} // verus!
