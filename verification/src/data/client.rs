//! The credentials of the import tool's data client.

use vstd::prelude::*;
use crate::client::{DataAccess, region_required};

verus! {

/// Chooses the credentials of the import tool's data client: the region
/// must be given; then exactly one of an API key and a project id.
pub fn data_client_access(api_key: Option<String>, project_id: Option<String>, region: Option<String>) -> (r: Result<DataAccess, String>)
    ensures
        region is None ==> (r matches Err(m) && m@ == region_required()),
        region is Some && api_key is Some && project_id is Some ==> (r matches Err(m) && m@ == "--project-id cannot be combined with an API key"@),
        region is Some && api_key is None && project_id is None ==> (r matches Err(m) && m@ == "--api-key (or set TOPK_API_KEY) or --project-id is required"@),
        region is Some && api_key is Some && project_id is None ==> r == Ok::<DataAccess, String>(DataAccess::ApiKey { api_key: api_key->0, region: region->0 }),
        region is Some && api_key is None && project_id is Some ==> r == Ok::<DataAccess, String>(DataAccess::Project { project_id: project_id->0, region: region->0 }),
{
    let region = match region {
        Some(r) => r,
        None => {
            return Err("--region is required (or set TOPK_REGION). List available regions at https://docs.topk.io/regions".to_owned());
        },
    };
    match (api_key, project_id) {
        (Some(_), Some(_)) => Err("--project-id cannot be combined with an API key".to_owned()),
        (None, None) => Err("--api-key (or set TOPK_API_KEY) or --project-id is required".to_owned()),
        (Some(api_key), None) => Ok(DataAccess::ApiKey { api_key, region }),
        (None, Some(project_id)) => Ok(DataAccess::Project { project_id, region }),
    }
}

} // verus!
