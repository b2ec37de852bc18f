use vstd::prelude::*;

use crate::domain::ServerId;
use crate::error::{AppError, exit_code_of};
use crate::http::{ExactProjectVisibility, encode_query_value, form_encoded};
use crate::kind::EntityKind;
use crate::projection::{RequestBody, WritePlan};
use crate::json_value::JsonValue;
use crate::text::same_text;
use vstd::utf8::encode_utf8;

pub mod datasource;
pub mod workflow;
pub mod skill;
pub mod assistant;
pub mod references;
pub mod listing;

verus! {

/// What a successful apply did.
#[derive(Debug, Clone, Copy, PartialEq, Eq, Structural)]
pub enum ApplyAction {
    Created,
    Updated,
}

/// The result of a successful single-entity apply: the action and the
/// non-empty server identifier of the written entity.
#[derive(Debug)]
pub struct ApplyResult {
    action: ApplyAction,
    server_id: ServerId,
}

impl ApplyResult {
    /// The action taken.
    pub closed spec fn action_spec(&self) -> ApplyAction {
        self.action
    }

    /// The server identifier.
    pub closed spec fn server_id_spec(&self) -> Seq<char> {
        self.server_id.text()
    }

    /// Accepts a successful write response; an empty server identifier is an
    /// incompatible answer.
    pub fn from_server_response(action: ApplyAction, server_id: String) -> (r: Result<ApplyResult, AppError>)
        ensures
            r is Ok <==> server_id@.len() > 0,
            r is Ok ==> r->Ok_0.action_spec() == action && r->Ok_0.server_id_spec() == server_id@,
            r is Err ==> r->Err_0 is ApiIncompatible,
    {
        match ServerId::try_from(server_id) {
            Ok(id) => Ok(ApplyResult { action, server_id: id }),
            Err(_) => Err(
                AppError::ApiIncompatible("successful response contains an empty server ID".to_owned()),
            ),
        }
    }

    /// The action taken.
    pub fn action(&self) -> (a: ApplyAction)
        ensures
            a == self.action_spec(),
    {
        self.action
    }

    /// The server identifier (never written to output).
    pub fn server_id(&self) -> (s: &str)
        ensures
            s@ == self.server_id_spec(),
            s@.len() > 0,
    {
        self.server_id.as_str()
    }
}

// ---------------------------------------------------------------------------
// Resolution evidence
// ---------------------------------------------------------------------------

/// The identity-resolution outcome a projected request must be linked to.
#[derive(Debug, Clone, PartialEq, Eq)]
pub enum ResolutionTarget {
    Create,
    Update { server_id: String },
}

/// Whether a plan writes what the resolution found: a create for an absent
/// identity, an update of the same server entity for a present one.
pub open spec fn target_matches_plan(target: ResolutionTarget, plan: WritePlan) -> bool {
    match (target, plan) {
        (ResolutionTarget::Create, WritePlan::Create { .. }) => true,
        (
            ResolutionTarget::Update { server_id: evidence },
            WritePlan::Update { server_id, .. },
        ) => evidence@ == server_id@,
        _ => false,
    }
}

impl ResolutionTarget {
    /// Whether the plan writes what the resolution found.
    pub fn matches_plan(&self, plan: &WritePlan) -> (r: bool)
        ensures
            r == target_matches_plan(*self, *plan),
    {
        match (self, plan) {
            (ResolutionTarget::Create, WritePlan::Create { .. }) => true,
            (
                ResolutionTarget::Update { server_id: evidence },
                WritePlan::Update { server_id, .. },
            ) => same_text(evidence.as_str(), server_id.as_str()),
            _ => false,
        }
    }

    /// The action an apply of this target reports: created for a create,
    /// updated for an update.
    pub fn action(&self) -> (a: ApplyAction)
        ensures
            a == action_for(*self),
    {
        match self {
            ResolutionTarget::Create => ApplyAction::Created,
            ResolutionTarget::Update { .. } => ApplyAction::Updated,
        }
    }
}

/// The action an apply of a target reports.
pub open spec fn action_for(target: ResolutionTarget) -> ApplyAction {
    match target {
        ResolutionTarget::Create => ApplyAction::Created,
        ResolutionTarget::Update { .. } => ApplyAction::Updated,
    }
}

/// A target as the server identifier it updates, or nothing for a create.
pub open spec fn target_view(target: ResolutionTarget) -> Option<Seq<char>> {
    match target {
        ResolutionTarget::Create => None,
        ResolutionTarget::Update { server_id } => Some(server_id@),
    }
}

/// How the exact server matches of a declared identity resolve, each match
/// given by its server identifier and whether it grants `write`: no match
/// creates (`Ok(None)`), one writable match is updated (`Ok(Some(id))`),
/// several matches need manual reconciliation (`Err(true)`), and one match
/// without `write` is unauthorized (`Err(false)`).
pub open spec fn match_resolution(matches: Seq<(Seq<char>, bool)>) -> Result<Option<Seq<char>>, bool> {
    if matches.len() == 0 {
        Ok(None)
    } else if matches.len() > 1 {
        Err(true)
    } else if matches[0].1 {
        Ok(Some(matches[0].0))
    } else {
        Err(false)
    }
}

/// The write an apply makes, by the number of exact server matches of its
/// declared identity. With no match the write is a create (a POST) and the
/// apply reports `created`. With one writable match the write is an update
/// (a PUT) of that match and the apply reports `updated`, whether or not
/// anything changed, so applying a declaration again after it was created
/// updates it and is never a no-op. With several matches the apply is
/// refused as a reconciliation failure, which exits with code 1, before any
/// plan is released.
pub proof fn law_apply_write_by_match_count(
    matches: Seq<(Seq<char>, bool)>,
    target: ResolutionTarget,
    plan: WritePlan,
    refusal: AppError,
)
    ensures
        matches.len() == 0 ==> match_resolution(matches) == Ok::<Option<Seq<char>>, bool>(None),
        matches.len() == 1 && matches[0].1 ==> match_resolution(matches) == Ok::<Option<Seq<char>>, bool>(
            Some(matches[0].0),
        ),
        matches.len() > 1 ==> match_resolution(matches) == Err::<Option<Seq<char>>, bool>(true),
        (match_resolution(matches) is Ok && target_view(target) == match_resolution(matches)->Ok_0
            && target_matches_plan(target, plan)) ==> {
            &&& matches.len() == 0 ==> (plan_method(plan) == ModificationMethod::Post && plan_server_id(plan)
                is None && action_for(target) == ApplyAction::Created)
            &&& matches.len() == 1 ==> (plan_method(plan) == ModificationMethod::Put && plan_server_id(plan)
                == Some(matches[0].0) && action_for(target) == ApplyAction::Updated)
        },
        refusal is Reconciliation ==> exit_code_of(refusal) == 1,
{
}

/// Evidence that the matched row exposes the `write` ability: the number of
/// abilities it listed, which is never zero.
#[derive(Debug, Clone, Copy)]
pub struct WriteAbilityEvidence {
    decoded_ability_count: usize,
}

impl WriteAbilityEvidence {
    /// The number of abilities the row listed.
    pub closed spec fn count_spec(&self) -> usize {
        self.decoded_ability_count
    }

    /// The number of abilities the row listed.
    pub fn ability_count(&self) -> (n: usize)
        ensures
            n > 0,
            n == self.count_spec(),
    {
        proof {
            use_type_invariant(self);
        }
        self.decoded_ability_count
    }

    #[verifier::type_invariant]
    spec fn counted(self) -> bool {
        self.decoded_ability_count > 0
    }
}

/// Whether `write` is one of the abilities.
pub open spec fn lists_write(abilities: Seq<String>) -> bool {
    exists|i: int| 0 <= i < abilities.len() && #[trigger] abilities[i]@ == "write"@
}

/// Requires the matched row to expose the `write` ability; otherwise the
/// principal is not authorized to update it.
pub fn prove_write(abilities: &Vec<String>, entity: &str) -> (r: Result<WriteAbilityEvidence, AppError>)
    ensures
        r is Ok <==> lists_write(abilities@),
        r is Ok ==> r->Ok_0.count_spec() == abilities.len(),
        r is Err ==> (r->Err_0 is Authorization && r->Err_0->Authorization_0@ == entity@
            + " target does not expose write capability"@),
{
    let mut found = false;
    let mut index: usize = 0;
    while index < abilities.len()
        invariant
            0 <= index <= abilities.len(),
            found == (exists|i: int| 0 <= i < index && #[trigger] abilities@[i]@ == "write"@),
        decreases abilities.len() - index,
    {
        if same_text(abilities[index].as_str(), "write") {
            found = true;
        }
        index = index + 1;
    }
    if found {
        Ok(WriteAbilityEvidence { decoded_ability_count: abilities.len() })
    } else {
        let mut message = String::from_str(entity);
        message.append(" target does not expose write capability");
        Err(AppError::Authorization(message))
    }
}

// ---------------------------------------------------------------------------
// Routes
// ---------------------------------------------------------------------------

/// The form-encoded spelling of a route segment.
pub open spec fn segment(s: Seq<char>) -> Seq<char> {
    form_encoded(encode_utf8(s))
}

/// The create route of a Datasource kind: the project's index route for
/// `git` and `svn`, the knowledge-base route of the kind otherwise.
pub open spec fn datasource_create_path(kind: Seq<char>, project: Seq<char>) -> Seq<char> {
    if kind == "git"@ {
        "/v1/application/"@ + segment(project) + "/index"@
    } else if kind == "svn"@ {
        "/v1/application/"@ + segment(project) + "/index/svn"@
    } else {
        "/v1/index/knowledge_base/"@ + segment(kind)
    }
}

/// The update route of a Datasource kind: the repository's index route for
/// `git` and `svn`, the knowledge-base route of the kind otherwise.
pub open spec fn datasource_update_path(kind: Seq<char>, project: Seq<char>, repo_name: Seq<char>) -> Seq<char> {
    if kind == "git"@ {
        "/v1/application/"@ + segment(project) + "/index/"@ + segment(repo_name)
    } else if kind == "svn"@ {
        "/v1/application/"@ + segment(project) + "/index/svn/"@ + segment(repo_name)
    } else {
        "/v1/index/knowledge_base/"@ + segment(kind)
    }
}

/// The create route of a Datasource kind.
pub fn datasource_create_route(kind: &str, project: &str) -> (path: String)
    ensures
        path@ == datasource_create_path(kind@, project@),
{
    if same_text(kind, "git") {
        let mut path = String::from_str("/v1/application/");
        path.append(encode_query_value(project).as_str());
        path.append("/index");
        path
    } else if same_text(kind, "svn") {
        let mut path = String::from_str("/v1/application/");
        path.append(encode_query_value(project).as_str());
        path.append("/index/svn");
        path
    } else {
        let mut path = String::from_str("/v1/index/knowledge_base/");
        path.append(encode_query_value(kind).as_str());
        path
    }
}

/// The update route of a Datasource kind.
pub fn datasource_update_route(kind: &str, project: &str, repo_name: &str) -> (path: String)
    ensures
        path@ == datasource_update_path(kind@, project@, repo_name@),
{
    if same_text(kind, "git") {
        let mut path = String::from_str("/v1/application/");
        path.append(encode_query_value(project).as_str());
        path.append("/index/");
        path.append(encode_query_value(repo_name).as_str());
        path
    } else if same_text(kind, "svn") {
        let mut path = String::from_str("/v1/application/");
        path.append(encode_query_value(project).as_str());
        path.append("/index/svn/");
        path.append(encode_query_value(repo_name).as_str());
        path
    } else {
        let mut path = String::from_str("/v1/index/knowledge_base/");
        path.append(encode_query_value(kind).as_str());
        path
    }
}

/// The collection route of the Assistant, Workflow and Skill kinds.
pub open spec fn collection_path(kind: EntityKind) -> Seq<char> {
    match kind {
        EntityKind::Assistant => "/v1/assistants"@,
        EntityKind::Workflow => "/v1/workflows"@,
        _ => "/v1/skills"@,
    }
}

/// The route of a modifying request: the kind's collection for a create, the
/// entity under it for an update; a Datasource takes its own routes.
pub open spec fn write_path(kind: EntityKind, server_id: Option<Seq<char>>, evidence: ResolutionEvidence) -> Seq<char> {
    match kind {
        EntityKind::Datasource => match server_id {
            None => datasource_create_path(evidence.index_type@, evidence.effective_project@),
            Some(_) => datasource_update_path(
                evidence.index_type@,
                evidence.effective_project@,
                evidence.repo_name@,
            ),
        },
        _ => match server_id {
            None => collection_path(kind),
            Some(id) => collection_path(kind) + "/"@ + segment(id),
        },
    }
}

/// Completed read evidence of one kind-specific resolution: the effective
/// project, the target it found and, for a Datasource, the repository name
/// and kind spelling it resolved.
#[derive(Debug, Clone)]
pub struct ResolutionEvidence {
    pub kind: EntityKind,
    pub effective_project: String,
    pub target: ResolutionTarget,
    pub repo_name: String,
    pub index_type: String,
}

/// The modifying methods of the transport.
#[derive(Debug, Clone, Copy, PartialEq, Eq, Structural)]
pub enum ModificationMethod {
    Post,
    Put,
}

/// A fully projected modifying request.
#[derive(Debug)]
pub enum PreparedRequest {
    Json {
        method: ModificationMethod,
        path: String,
        body: JsonValue,
        conflict_is_resolution_signal: bool,
    },
    Multipart {
        method: ModificationMethod,
        path: String,
        query_params: Vec<(String, String)>,
        file_parts: Vec<(String, Vec<u8>)>,
    },
}

/// A write sealed to its evidence: visibility of the effective project,
/// completed resolution, the linked plan and (for File Datasource) the read
/// file bytes.
pub struct PreparedWrite {
    visibility: ExactProjectVisibility,
    resolution: ResolutionEvidence,
    plan: WritePlan,
    file_parts: Option<Vec<(String, Vec<u8>)>>,
}

/// Whether a query already names `key`.
pub open spec fn names_key(query: Seq<(String, String)>, key: Seq<char>) -> bool {
    exists|i: int| 0 <= i < query.len() && #[trigger] query[i].0@ == key
}

/// The texts of query parameters.
pub open spec fn query_view(query: Seq<(String, String)>) -> Seq<(Seq<char>, Seq<char>)> {
    query.map_values(|p: (String, String)| (p.0@, p.1@))
}

/// The method of a plan: POST for a create, PUT for an update.
pub open spec fn plan_method(plan: WritePlan) -> ModificationMethod {
    match plan {
        WritePlan::Create { .. } => ModificationMethod::Post,
        WritePlan::Update { .. } => ModificationMethod::Put,
    }
}

/// The server identifier an update plan names.
pub open spec fn plan_server_id(plan: WritePlan) -> Option<Seq<char>> {
    match plan {
        WritePlan::Create { .. } => None,
        WritePlan::Update { server_id, .. } => Some(server_id@),
    }
}

/// The body of a plan.
pub open spec fn plan_body(plan: WritePlan) -> RequestBody {
    match plan {
        WritePlan::Create { request } => request,
        WritePlan::Update { request, .. } => request,
    }
}

/// Whether `request` is what consuming a prepared write releases: the plan's
/// method, the kind's route, the plan's body; a create of a Skill or a
/// Datasource treats a conflict as a resolution signal; a multipart update
/// names the repository when its query does not.
pub open spec fn released_request(
    resolution: ResolutionEvidence,
    plan: WritePlan,
    file_parts: Option<Vec<(String, Vec<u8>)>>,
    request: PreparedRequest,
) -> bool {
    let method = plan_method(plan);
    let path = write_path(resolution.kind, plan_server_id(plan), resolution);
    match plan_body(plan) {
        RequestBody::Json(json) => {
            &&& request is Json
            &&& request->Json_method == method
            &&& request->Json_path@ == path
            &&& request->Json_body == json
            &&& request->Json_conflict_is_resolution_signal == ((resolution.kind == EntityKind::Skill
                || resolution.kind == EntityKind::Datasource) && method == ModificationMethod::Post)
        },
        RequestBody::FileMultipart { query_params } => {
            &&& request is Multipart
            &&& request->Multipart_method == method
            &&& request->Multipart_path@ == path
            &&& file_parts is Some
            &&& request->Multipart_file_parts == file_parts->0
            &&& query_view(request->Multipart_query_params@) == if method == ModificationMethod::Put
                && !names_key(query_params@, "name"@) {
                query_view(query_params@).push(("name"@, resolution.repo_name@))
            } else {
                query_view(query_params@)
            }
        },
    }
}

/// Whether a prepared write can be released: a JSON body owns no file
/// bytes; a multipart body belongs to a Datasource and owns its file bytes.
pub open spec fn releasable(resolution: ResolutionEvidence, plan: WritePlan, file_parts: Option<Vec<(String, Vec<u8>)>>) -> bool {
    match plan_body(plan) {
        RequestBody::Json(_) => file_parts is None,
        RequestBody::FileMultipart { .. } => resolution.kind == EntityKind::Datasource
            && file_parts is Some,
    }
}

impl PreparedWrite {
    #[verifier::type_invariant]
    spec fn sealed(self) -> bool {
        &&& self.visibility.project_spec() == self.resolution.effective_project@
        &&& self.resolution.effective_project@.len() > 0
        &&& target_matches_plan(self.resolution.target, self.plan)
    }

    /// The resolution evidence.
    pub closed spec fn resolution_spec(&self) -> ResolutionEvidence {
        self.resolution
    }

    /// The linked plan.
    pub closed spec fn plan_spec(&self) -> WritePlan {
        self.plan
    }

    /// The read file bytes.
    pub closed spec fn file_parts_spec(&self) -> Option<Vec<(String, Vec<u8>)>> {
        self.file_parts
    }

    /// Seals a write whose visibility proof is bound to the resolution's
    /// effective project; the project must be non-empty and the plan must
    /// write what the resolution found.
    pub fn visible(
        visibility: ExactProjectVisibility,
        resolution: ResolutionEvidence,
        plan: WritePlan,
        file_parts: Option<Vec<(String, Vec<u8>)>>,
    ) -> (r: Result<PreparedWrite, AppError>)
        ensures
            r is Ok <==> (visibility.project_spec() == resolution.effective_project@
                && resolution.effective_project@.len() > 0 && target_matches_plan(
                resolution.target,
                plan,
            )),
            r is Err ==> r->Err_0 is Internal,
            r is Ok ==> (r->Ok_0.resolution_spec() == resolution && r->Ok_0.plan_spec() == plan
                && r->Ok_0.file_parts_spec() == file_parts),
    {
        if !visibility.matches(resolution.effective_project.as_str()) {
            return Err(
                AppError::Internal("visibility proof project does not match prepared write".to_owned()),
            );
        }
        if resolution.effective_project.as_str().is_empty() {
            return Err(
                AppError::Internal("prepared write requires a non-empty effective project".to_owned()),
            );
        }
        if !resolution.target.matches_plan(&plan) {
            return Err(
                AppError::Internal(
                    "projected request is not linked to completed resolution evidence".to_owned(),
                ),
            );
        }
        Ok(PreparedWrite { visibility, resolution, plan, file_parts })
    }

    /// Consumes the seal and releases the one request it allows.
    pub fn into_request(self) -> (r: Result<PreparedRequest, AppError>)
        ensures
            r is Ok <==> releasable(self.resolution_spec(), self.plan_spec(), self.file_parts_spec()),
            r is Err ==> r->Err_0 is Internal,
            r is Ok ==> released_request(
                self.resolution_spec(),
                self.plan_spec(),
                self.file_parts_spec(),
                r->Ok_0,
            ),
    {
        proof {
            use_type_invariant(&self);
        }
        let PreparedWrite { visibility, resolution, plan, file_parts } = self;
        if !visibility.matches(resolution.effective_project.as_str()) {
            return Err(
                AppError::Internal(
                    "prepared write evidence does not match its entity kind or project".to_owned(),
                ),
            );
        }
        if !resolution.target.matches_plan(&plan) {
            return Err(
                AppError::Internal("prepared write plan no longer matches resolution evidence".to_owned()),
            );
        }
        let ghost plan0 = plan;
        let (method, server_id, request) = match plan {
            WritePlan::Create { request } => (ModificationMethod::Post, None, request),
            WritePlan::Update { server_id, request } => (ModificationMethod::Put, Some(server_id), request),
        };
        let path = match &server_id {
            None => match resolution.kind {
                EntityKind::Assistant => String::from_str("/v1/assistants"),
                EntityKind::Workflow => String::from_str("/v1/workflows"),
                EntityKind::Skill => String::from_str("/v1/skills"),
                EntityKind::Datasource => datasource_create_route(
                    resolution.index_type.as_str(),
                    resolution.effective_project.as_str(),
                ),
            },
            Some(id) => match resolution.kind {
                EntityKind::Datasource => datasource_update_route(
                    resolution.index_type.as_str(),
                    resolution.effective_project.as_str(),
                    resolution.repo_name.as_str(),
                ),
                kind => {
                    let mut path = match kind {
                        EntityKind::Assistant => String::from_str("/v1/assistants"),
                        EntityKind::Workflow => String::from_str("/v1/workflows"),
                        _ => String::from_str("/v1/skills"),
                    };
                    path.append("/");
                    path.append(encode_query_value(id.as_str()).as_str());
                    path
                },
            },
        };
        proof {
            let sid = match server_id {
                Some(id) => Some(id@),
                None => None::<Seq<char>>,
            };
            assert(sid == plan_server_id(plan0));
            assert(path@ == write_path(resolution.kind, sid, resolution));
        }
        match request {
            RequestBody::Json(body) => {
                if file_parts.is_some() {
                    return Err(
                        AppError::Internal(
                            "JSON prepared write unexpectedly owns multipart bytes".to_owned(),
                        ),
                    );
                }
                let conflict = (match resolution.kind {
                    EntityKind::Skill | EntityKind::Datasource => true,
                    _ => false,
                }) && (match method {
                    ModificationMethod::Post => true,
                    ModificationMethod::Put => false,
                });
                Ok(PreparedRequest::Json { method, path, body, conflict_is_resolution_signal: conflict })
            },
            RequestBody::FileMultipart { query_params } => {
                match resolution.kind {
                    EntityKind::Datasource => {},
                    _ => {
                        return Err(
                            AppError::Internal(
                                "multipart projection is valid only for Datasource".to_owned(),
                            ),
                        );
                    },
                }
                let mut query_params = query_params;
                let is_put = match method {
                    ModificationMethod::Put => true,
                    ModificationMethod::Post => false,
                };
                if is_put && !query_names_key(&query_params, "name") {
                    let ghost before = query_params@;
                    query_params.push((String::from_str("name"), resolution.repo_name.clone()));
                    proof {
                        assert(query_view(query_params@) =~= query_view(before).push(
                            ("name"@, resolution.repo_name@),
                        ));
                    }
                }
                match file_parts {
                    Some(parts) => Ok(
                        PreparedRequest::Multipart { method, path, query_params, file_parts: parts },
                    ),
                    None => Err(
                        AppError::Internal(
                            "multipart prepared write requires successfully read file bytes".to_owned(),
                        ),
                    ),
                }
            },
        }
    }
}

/// Whether a query already names `key`.
fn query_names_key(query: &Vec<(String, String)>, key: &str) -> (r: bool)
    ensures
        r == names_key(query@, key@),
{
    let mut index: usize = 0;
    while index < query.len()
        invariant
            0 <= index <= query.len(),
            forall|j: int| 0 <= j < index ==> query@[j].0@ != key@,
        decreases query.len() - index,
    {
        if same_text(query[index].0.as_str(), key) {
            return true;
        }
        index = index + 1;
    }
    false
}

} // verus!
