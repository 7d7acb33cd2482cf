//! How the data API is reached: by API key, or with the login on behalf of
//! a project, always in one region.

use vstd::prelude::*;

verus! {

/// The credentials and region a data client is made with.
#[derive(PartialEq, Eq, Debug)]
pub enum DataAccess {
    /// An API key, in a region.
    ApiKey { api_key: String, region: String },
    /// The login, for a project, in a region.
    Project { project_id: String, region: String },
}

/// The error when no region is given.
pub open spec fn region_required() -> Seq<char> {
    "--region is required (or set TOPK_REGION). List available regions at https://docs.topk.io/regions"@
}

/// The error when both an API key and a project are given.
pub open spec fn key_with_project() -> Seq<char> {
    "--project-id cannot be combined with an API key (--api-key or TOPK_API_KEY). Unset TOPK_API_KEY to use your login, or drop --project-id to use the API key."@
}

/// A text that is present and not empty.
pub open spec fn given(o: Option<String>) -> bool {
    o matches Some(s) && s@.len() > 0
}

/// Chooses the credentials of the data client. The region must be given
/// and not empty; then an API key (ignored when empty) or a project id is
/// used, never both and never neither.
pub fn data_access(api_key: Option<String>, project_id: Option<String>, region: Option<String>) -> (r: Result<DataAccess, String>)
    ensures
        !given(region) ==> (r matches Err(m) && m@ == region_required()),
        given(region) && given(api_key) && project_id is Some ==> (r matches Err(m) && m@ == key_with_project()),
        given(region) && given(api_key) && project_id is None ==> r == Ok::<DataAccess, String>(DataAccess::ApiKey { api_key: api_key->0, region: region->0 }),
        given(region) && !given(api_key) && project_id is Some ==> r == Ok::<DataAccess, String>(DataAccess::Project { project_id: project_id->0, region: region->0 }),
        given(region) && !given(api_key) && project_id is None ==> (r matches Err(m) && m@ == "--project-id is required"@),
{
    let region = match region {
        Some(r) => if r.unicode_len() == 0 {
            return Err("--region is required (or set TOPK_REGION). List available regions at https://docs.topk.io/regions".to_owned());
        } else {
            r
        },
        None => {
            return Err("--region is required (or set TOPK_REGION). List available regions at https://docs.topk.io/regions".to_owned());
        },
    };
    let key = match api_key {
        Some(k) => if k.unicode_len() == 0 { None } else { Some(k) },
        None => None,
    };
    match (key, project_id) {
        (Some(_), Some(_)) => Err("--project-id cannot be combined with an API key (--api-key or TOPK_API_KEY). Unset TOPK_API_KEY to use your login, or drop --project-id to use the API key.".to_owned()),
        (Some(api_key), None) => Ok(DataAccess::ApiKey { api_key, region }),
        (None, Some(project_id)) => Ok(DataAccess::Project { project_id, region }),
        (None, None) => Err("--project-id is required".to_owned()),
    }
}

} // verus!
