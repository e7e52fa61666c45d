//! The graph's indices.
use vstd::prelude::*;

use crate::graph::queries;
use crate::text::{contains, contains_str};

verus! {

/// The index creations that set up the schema, in the order they are run.
pub fn schema_indices() -> (r: Vec<&'static str>)
    ensures
        r@ == seq![
            queries::CREATE_REPO_INDEX,
            queries::CREATE_REPO_NAME_INDEX,
            queries::CREATE_LANG_INDEX,
            queries::CREATE_DEP_INDEX,
            queries::CREATE_TOPIC_INDEX,
            queries::CREATE_TEAM_INDEX,
            queries::CREATE_ORG_INDEX,
        ],
{
    let r = vec![
        queries::CREATE_REPO_INDEX,
        queries::CREATE_REPO_NAME_INDEX,
        queries::CREATE_LANG_INDEX,
        queries::CREATE_DEP_INDEX,
        queries::CREATE_TOPIC_INDEX,
        queries::CREATE_TEAM_INDEX,
        queries::CREATE_ORG_INDEX,
    ];
    r
}

/// Whether a failed index creation only reports an index that exists
/// already (which leaves the schema as wanted).
pub fn is_existing_index_error(message: &str) -> (b: bool)
    ensures
        b == (contains(message@, "already exists"@) || contains(message@, "Already indexed"@)),
{
    contains_str(message, "already exists") || contains_str(message, "Already indexed")
}

} // verus!
