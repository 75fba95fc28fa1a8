use vstd::prelude::*;

verus! {

/// One entry from NZBGet's `listgroups` RPC.
#[derive(Debug, Clone)]
pub struct NzbGroup {
    pub id: i64,
    pub name: String,
    pub status: String,
    pub file_size_mb: i64,
    pub remaining_size_mb: i64,
    pub downloaded_size_mb: i64,
    pub category: String,
}

/// Subset of NZBGet's `status` RPC result.
#[derive(Debug, Clone)]
pub struct NzbStatus {
    pub download_rate: i64,
    pub remaining_size_mb: i64,
    pub download_paused: bool,
}

} // verus!
