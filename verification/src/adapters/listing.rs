use vstd::prelude::*;

use crate::adapters::segment;
use crate::http::encode_query_value;
use crate::json::{json_quoted, json_string, nat_decimal};
use crate::text::decimal_text;

verus! {

// ---------------------------------------------------------------------------
// Paginated listing routes
// ---------------------------------------------------------------------------

/// The JSON filter of a Skill listing: the project, the project-with-
/// marketplace scope and the name as search text, keys in sorted order.
pub open spec fn skill_filter_text(project: Seq<char>, name: Seq<char>) -> Seq<char> {
    "{\"project\":"@ + json_quoted(project) + ",\"scope\":\"project_with_marketplace\",\"search\":"@
        + json_quoted(name) + "}"@
}

/// The route of one page of the Skill listing for a name within a project.
pub open spec fn skill_list_path_text(project: Seq<char>, name: Seq<char>, page: nat) -> Seq<char> {
    "/v1/skills?filters="@ + segment(skill_filter_text(project, name)) + "&page="@ + nat_decimal(page)
        + "&per_page=100"@
}

/// The route of one page of the Skill listing for a name within a project.
pub fn skill_list_path(project: &str, name: &str, page: u32) -> (path: String)
    ensures
        path@ == skill_list_path_text(project@, name@, page as nat),
{
    let mut filter = String::from_str("{\"project\":");
    filter.append(json_string(project).as_str());
    filter.append(",\"scope\":\"project_with_marketplace\",\"search\":");
    filter.append(json_string(name).as_str());
    filter.append("}");
    let mut path = String::from_str("/v1/skills?filters=");
    path.append(encode_query_value(filter.as_str()).as_str());
    path.append("&page=");
    path.append(decimal_text(page as u64).as_str());
    path.append("&per_page=100");
    proof {
        reveal_strlit("{\"project\":");
        reveal_strlit(",\"scope\":\"project_with_marketplace\",\"search\":");
        reveal_strlit("}");
        reveal_strlit("/v1/skills?filters=");
        reveal_strlit("&page=");
        reveal_strlit("&per_page=100");
        assert(filter@ == skill_filter_text(project@, name@));
    }
    path
}

/// The JSON filter of a Datasource listing: the project alone.
pub open spec fn datasource_filter_text(project: Seq<char>) -> Seq<char> {
    "{\"project\":"@ + json_quoted(project) + "}"@
}

/// The route of one page of a project's full Datasource listing.
pub open spec fn datasource_list_path_text(project: Seq<char>, page: nat) -> Seq<char> {
    "/v1/index?full_response=true&page="@ + nat_decimal(page) + "&per_page=100&filters="@ + segment(
        datasource_filter_text(project),
    )
}

/// The route of one page of a project's full Datasource listing.
pub fn datasource_list_path(project: &str, page: u32) -> (path: String)
    ensures
        path@ == datasource_list_path_text(project@, page as nat),
{
    let mut filter = String::from_str("{\"project\":");
    filter.append(json_string(project).as_str());
    filter.append("}");
    let mut path = String::from_str("/v1/index?full_response=true&page=");
    path.append(decimal_text(page as u64).as_str());
    path.append("&per_page=100&filters=");
    path.append(encode_query_value(filter.as_str()).as_str());
    proof {
        reveal_strlit("{\"project\":");
        reveal_strlit("}");
        reveal_strlit("/v1/index?full_response=true&page=");
        reveal_strlit("&per_page=100&filters=");
        assert(filter@ == datasource_filter_text(project@));
    }
    path
}

/// The route of one page of the full Workflow listing, in the default scope
/// or the named one.
pub open spec fn workflow_list_path_text(page: nat, scope: Option<Seq<char>>) -> Seq<char> {
    let base = "/v1/workflows?minimal_response=false&page="@ + nat_decimal(page) + "&per_page=100"@;
    match scope {
        None => base,
        Some(s) => base + "&scope="@ + segment(s),
    }
}

/// The route of one page of the full Workflow listing, in the default scope
/// or the named one.
pub fn workflow_list_path(page: u32, scope: Option<&str>) -> (path: String)
    ensures
        path@ == workflow_list_path_text(
            page as nat,
            match scope {
                Some(s) => Some(s@),
                None => None,
            },
        ),
{
    let mut path = String::from_str("/v1/workflows?minimal_response=false&page=");
    path.append(decimal_text(page as u64).as_str());
    path.append("&per_page=100");
    proof {
        reveal_strlit("/v1/workflows?minimal_response=false&page=");
        reveal_strlit("&per_page=100");
    }
    match scope {
        Some(s) => {
            path.append("&scope=");
            path.append(encode_query_value(s).as_str());
            proof {
                reveal_strlit("&scope=");
            }
        },
        None => {},
    }
    path
}

/// The route of one Workflow's detail, by its server identifier.
pub open spec fn workflow_detail_path_text(id: Seq<char>) -> Seq<char> {
    "/v1/workflows/id/"@ + segment(id)
}

/// The route of one Workflow's detail, by its server identifier.
pub fn workflow_detail_path(id: &str) -> (path: String)
    ensures
        path@ == workflow_detail_path_text(id@),
{
    let mut path = String::from_str("/v1/workflows/id/");
    path.append(encode_query_value(id).as_str());
    proof {
        reveal_strlit("/v1/workflows/id/");
    }
    path
}

} // verus!
