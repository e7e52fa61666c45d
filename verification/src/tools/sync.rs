//! Parameters of the sync tools.
use vstd::prelude::*;

verus! {

#[derive(Debug, Clone)]
pub struct SyncOrgParams {
    /// Sync mode: "full" or "incremental" (default: "incremental")
    pub mode: Option<String>,
}

#[derive(Debug, Clone)]
pub struct SyncRepoParams {
    /// Name of the repository to sync
    pub repo: String,
}

} // verus!
