//! The search endpoint: typed search requests over dashboards and
//! folders, and the identifier projection of their answers.

use vstd::prelude::*;

verus! {

/// The search type naming dashboards.
pub const DASH_DB_TYPE: &'static str = "dash-db";

/// The search type naming folders.
pub const DASH_FOLDER_TYPE: &'static str = "dash-folder";

/// The panel type that scoped annotation fan-out targets.
pub const TIME_SERIES_PANEL_TYPE: &'static str = "timeseries";

/// A search over dashboards and folders. An absent filter field is
/// omitted from the query rather than sent empty. The wire field `type`
/// is named `kind` here.
pub struct SearchDashTypeRequest {
    pub kind: Option<String>,
    pub query: Option<String>,
    pub folder_uids: Option<Vec<String>>,
    pub dashboard_uids: Option<Vec<String>>,
}

impl SearchDashTypeRequest {
    /// A search filtering on one resource type and one name pattern.
    pub fn type_query(kind: String, query: String) -> (r: Self)
        ensures
            r.kind == Some(kind),
            r.query == Some(query),
            r.folder_uids is None,
            r.dashboard_uids is None,
    {
        Self { kind: Some(kind), query: Some(query), folder_uids: None, dashboard_uids: None }
    }
}

/// One search hit. The wire field `type` is named `kind` here; the folder
/// fields are present only for hits nested within a folder.
#[derive(Clone)]
pub struct DashTypeResponse {
    pub id: u32,
    pub uid: String,
    pub title: String,
    pub uri: String,
    pub url: String,
    pub slug: String,
    pub kind: String,
    pub tags: Vec<String>,
    pub is_starred: bool,
    pub sort_meta: u16,
    pub folder_id: Option<u32>,
    pub folder_uid: Option<String>,
    pub folder_title: Option<String>,
    pub folder_url: Option<String>,
}

/// The unique identifiers of search hits, in the order the service
/// reported them.
pub fn get_dash_type_uids(responses: &Vec<DashTypeResponse>) -> (r: Vec<String>)
    ensures
        r@ == responses@.map_values(|d: DashTypeResponse| d.uid),
{
    let mut uids: Vec<String> = Vec::new();
    let mut i: usize = 0;
    while i < responses.len()
        invariant
            i <= responses@.len(),
            uids@ == responses@.subrange(0, i as int).map_values(|d: DashTypeResponse| d.uid),
        decreases responses@.len() - i,
    {
        uids.push(responses[i].uid.clone());
        proof {
            assert(uids@ =~= responses@.subrange(0, i + 1 as int).map_values(
                |d: DashTypeResponse| d.uid,
            ));
        }
        i = i + 1;
    }
    proof {
        assert(responses@.subrange(0, responses@.len() as int) =~= responses@);
    }
    uids
}

} // verus!
