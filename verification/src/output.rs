use vstd::prelude::*;

use crate::json::json_quoted;
use crate::kind::{kind_text, EntityKind};
use crate::render::{EntityKey, Renderer, member_text, string_member, string_member_text};
use crate::text::same_text;

verus! {

/// Output mode selected by `--output`.
#[derive(Debug, Clone, Copy, PartialEq, Eq, Structural, Hash)]
pub enum OutputMode {
    Text,
    Json,
}

impl Default for OutputMode {
    /// Text is the default output mode.
    fn default() -> (mode: Self)
        ensures
            mode == OutputMode::Text,
    {
        OutputMode::Text
    }
}

/// Refusal of an unknown `--output` value; holds the message shown to the user.
#[derive(Debug, Clone)]
pub struct OutputModeParseError(pub String);

impl OutputModeParseError {
    /// The message naming the refused value and the accepted ones.
    pub fn message(&self) -> (text: &str)
        ensures
            text@ == self.0@,
    {
        self.0.as_str()
    }
}

/// The message for an unknown output mode.
pub open spec fn unknown_mode_message(value: Seq<char>) -> Seq<char> {
    "unknown output mode '"@ + value + "'; expected 'text' or 'json'"@
}

/// Parses the `--output` value: exactly `text` or `json`.
pub fn parse_output_mode(value: &str) -> (r: Result<OutputMode, OutputModeParseError>)
    ensures
        value@ == "text"@ ==> r == Ok::<OutputMode, OutputModeParseError>(OutputMode::Text),
        value@ == "json"@ ==> r == Ok::<OutputMode, OutputModeParseError>(OutputMode::Json),
        value@ != "text"@ && value@ != "json"@ ==> (r is Err && r->Err_0.0@
            == unknown_mode_message(value@)),
{
    proof {
        reveal_strlit("text");
        reveal_strlit("json");
        assert("text"@[0] != "json"@[0]);
    }
    if same_text(value, "text") {
        Ok(OutputMode::Text)
    } else if same_text(value, "json") {
        Ok(OutputMode::Json)
    } else {
        let mut message = String::new();
        message.append("unknown output mode '");
        message.append(value);
        message.append("'; expected 'text' or 'json'");
        Err(OutputModeParseError(message))
    }
}

impl std::str::FromStr for OutputMode {
    type Err = OutputModeParseError;

    fn from_str(s: &str) -> (r: Result<Self, Self::Err>)
        ensures
            s@ == "text"@ ==> r == Ok::<OutputMode, OutputModeParseError>(OutputMode::Text),
            s@ == "json"@ ==> r == Ok::<OutputMode, OutputModeParseError>(OutputMode::Json),
            s@ != "text"@ && s@ != "json"@ ==> (r is Err && r->Err_0.0@ == unknown_mode_message(s@)),
    {
        parse_output_mode(s)
    }
}

/// The fixed set of success actions.
#[derive(Debug, Clone, Copy, PartialEq, Eq, Structural, Hash)]
pub enum Action {
    Valid,
    Created,
    Updated,
    Saved,
}

/// The spelling of each action in output.
pub open spec fn action_text(action: Action) -> Seq<char> {
    match action {
        Action::Valid => "valid"@,
        Action::Created => "created"@,
        Action::Updated => "updated"@,
        Action::Saved => "saved"@,
    }
}

impl Action {
    /// The output spelling of the action.
    pub fn as_str(self) -> (text: &'static str)
        ensures
            text@ == action_text(self),
    {
        match self {
            Action::Valid => "valid",
            Action::Created => "created",
            Action::Updated => "updated",
            Action::Saved => "saved",
        }
    }
}

/// The identity part of an outcome: the kind, its project and natural key.
#[derive(Debug, Clone)]
pub enum OutcomeIdentity {
    Assistant { project: String, slug: String },
    Workflow { project: String, slug: String },
    Skill { project: String, name: String },
    Datasource { project: String, repo_name: String },
}

impl OutcomeIdentity {
    /// The kind of the identity.
    pub open spec fn kind_spec(&self) -> EntityKind {
        match self {
            OutcomeIdentity::Assistant { .. } => EntityKind::Assistant,
            OutcomeIdentity::Workflow { .. } => EntityKind::Workflow,
            OutcomeIdentity::Skill { .. } => EntityKind::Skill,
            OutcomeIdentity::Datasource { .. } => EntityKind::Datasource,
        }
    }

    /// The project of the identity.
    pub open spec fn project_spec(&self) -> Seq<char> {
        match self {
            OutcomeIdentity::Assistant { project, .. } => project@,
            OutcomeIdentity::Workflow { project, .. } => project@,
            OutcomeIdentity::Skill { project, .. } => project@,
            OutcomeIdentity::Datasource { project, .. } => project@,
        }
    }

    /// The natural key value of the identity.
    pub open spec fn key_spec(&self) -> Seq<char> {
        match self {
            OutcomeIdentity::Assistant { slug, .. } => slug@,
            OutcomeIdentity::Workflow { slug, .. } => slug@,
            OutcomeIdentity::Skill { name, .. } => name@,
            OutcomeIdentity::Datasource { repo_name, .. } => repo_name@,
        }
    }

    /// The JSON field name of the natural key.
    pub open spec fn key_field_spec(&self) -> Seq<char> {
        match self {
            OutcomeIdentity::Assistant { .. } | OutcomeIdentity::Workflow { .. } => "slug"@,
            OutcomeIdentity::Skill { .. } => "name"@,
            OutcomeIdentity::Datasource { .. } => "repo_name"@,
        }
    }
}

/// A closed success outcome: an action, an identity and, for a saved
/// Workflow, whether adoption is required on apply.
#[derive(Debug, Clone)]
pub struct Outcome {
    pub action: Action,
    pub identity: OutcomeIdentity,
    pub adoption_required: Option<bool>,
}

/// One `"name":value` member of a JSON object.
pub open spec fn json_member(name: Seq<char>, value: Seq<char>) -> Seq<char> {
    json_quoted(name) + ":"@ + value
}

/// `,"adoptionRequired":<flag>` for a present flag, nothing otherwise.
pub open spec fn adoption_flag_member(flag: Option<bool>) -> Seq<char> {
    match flag {
        Some(f) => ","@ + json_member(
            "adoptionRequired"@,
            if f {
                "true"@
            } else {
                "false"@
            },
        ),
        None => Seq::empty(),
    }
}

/// The serialized form of an outcome: members in the order action, kind,
/// project, natural key, and `adoptionRequired` when present.
pub open spec fn outcome_json(o: Outcome) -> Seq<char> {
    "{"@ + string_member("action"@, action_text(o.action)) + ","@ + string_member(
        "kind"@,
        kind_text(o.identity.kind_spec()),
    ) + ","@ + string_member("project"@, o.identity.project_spec()) + ","@ + string_member(
        o.identity.key_field_spec(),
        o.identity.key_spec(),
    ) + adoption_flag_member(o.adoption_required) + "}"@
}

/// The outcome's natural key as a render key.
pub open spec fn identity_key(identity: OutcomeIdentity) -> EntityKey {
    match identity {
        OutcomeIdentity::Assistant { slug, .. } => EntityKey::Slug(slug),
        OutcomeIdentity::Workflow { slug, .. } => EntityKey::Slug(slug),
        OutcomeIdentity::Skill { name, .. } => EntityKey::Name(name),
        OutcomeIdentity::Datasource { repo_name, .. } => EntityKey::RepoName(repo_name),
    }
}

impl Outcome {
    /// An Assistant outcome (natural key: `slug`).
    pub fn assistant(action: Action, project: String, slug: String) -> (o: Self)
        ensures
            o == (Outcome {
                action,
                identity: OutcomeIdentity::Assistant { project, slug },
                adoption_required: None,
            }),
    {
        Outcome { action, identity: OutcomeIdentity::Assistant { project, slug }, adoption_required: None }
    }

    /// A Workflow outcome (natural key: `slug`).
    pub fn workflow(action: Action, project: String, slug: String) -> (o: Self)
        ensures
            o == (Outcome {
                action,
                identity: OutcomeIdentity::Workflow { project, slug },
                adoption_required: None,
            }),
    {
        Outcome { action, identity: OutcomeIdentity::Workflow { project, slug }, adoption_required: None }
    }

    /// A Skill outcome (natural key: `name`).
    pub fn new_skill(action: Action, project: String, name: String) -> (o: Self)
        ensures
            o == (Outcome {
                action,
                identity: OutcomeIdentity::Skill { project, name },
                adoption_required: None,
            }),
    {
        Outcome { action, identity: OutcomeIdentity::Skill { project, name }, adoption_required: None }
    }

    /// A Datasource outcome (natural key: `repo_name`).
    pub fn new_datasource(action: Action, project: String, repo_name: String) -> (o: Self)
        ensures
            o == (Outcome {
                action,
                identity: OutcomeIdentity::Datasource { project, repo_name },
                adoption_required: None,
            }),
    {
        Outcome {
            action,
            identity: OutcomeIdentity::Datasource { project, repo_name },
            adoption_required: None,
        }
    }

    /// A saved Workflow; the adoption flag is present only when adoption is required.
    pub fn saved_workflow(project: String, slug: String, adoption_required: bool) -> (o: Self)
        ensures
            o == (Outcome {
                action: Action::Saved,
                identity: OutcomeIdentity::Workflow { project, slug },
                adoption_required: if adoption_required {
                    Some(true)
                } else {
                    None
                },
            }),
    {
        let flag = if adoption_required {
            Some(true)
        } else {
            None
        };
        Outcome { action: Action::Saved, identity: OutcomeIdentity::Workflow { project, slug }, adoption_required: flag }
    }

    /// An outcome for a kind given by its schema spelling; the natural key is
    /// the kind's own key field.
    pub fn new(action: Action, kind: String, project: String, slug: String) -> (o: Self)
        requires
            kind@ == "Assistant"@ || kind@ == "Workflow"@ || kind@ == "Skill"@ || kind@
                == "Datasource"@,
        ensures
            o.action == action,
            kind_text(o.identity.kind_spec()) == kind@,
            o.identity.project_spec() == project@,
            o.identity.key_spec() == slug@,
            o.adoption_required is None,
    {
        let identity = if same_text(kind.as_str(), "Assistant") {
            OutcomeIdentity::Assistant { project, slug }
        } else if same_text(kind.as_str(), "Workflow") {
            OutcomeIdentity::Workflow { project, slug }
        } else if same_text(kind.as_str(), "Skill") {
            OutcomeIdentity::Skill { project, name: slug }
        } else {
            OutcomeIdentity::Datasource { project, repo_name: slug }
        };
        Outcome { action, identity, adoption_required: None }
    }

    /// The schema spelling of the outcome's kind.
    pub fn kind(&self) -> (text: &'static str)
        ensures
            text@ == kind_text(self.identity.kind_spec()),
    {
        self.render_identity().0.as_str()
    }

    /// The kind, project and natural key that the renderer takes.
    pub fn render_identity(&self) -> (r: (EntityKind, &str, EntityKey))
        ensures
            r.0 == self.identity.kind_spec(),
            r.1@ == self.identity.project_spec(),
            r.2 == identity_key(self.identity),
    {
        match &self.identity {
            OutcomeIdentity::Assistant { project, slug } => (
                EntityKind::Assistant,
                project.as_str(),
                EntityKey::Slug(slug.clone()),
            ),
            OutcomeIdentity::Workflow { project, slug } => (
                EntityKind::Workflow,
                project.as_str(),
                EntityKey::Slug(slug.clone()),
            ),
            OutcomeIdentity::Skill { project, name } => (
                EntityKind::Skill,
                project.as_str(),
                EntityKey::Name(name.clone()),
            ),
            OutcomeIdentity::Datasource { project, repo_name } => (
                EntityKind::Datasource,
                project.as_str(),
                EntityKey::RepoName(repo_name.clone()),
            ),
        }
    }

    /// The serialized outcome object.
    pub fn to_json(&self) -> (text: String)
        ensures
            text@ == outcome_json(*self),
    {
        let (kind, project, key) = self.render_identity();
        let mut text = String::from_str("{");
        text.append(string_member_text("action", self.action.as_str()).as_str());
        text.append(",");
        text.append(string_member_text("kind", kind.as_str()).as_str());
        text.append(",");
        text.append(string_member_text("project", project).as_str());
        text.append(",");
        text.append(string_member_text(key.field_name(), key.value()).as_str());
        let flag = match self.adoption_required {
            Some(f) => {
                let mut flag = String::from_str(",");
                let value = if f {
                    "true"
                } else {
                    "false"
                };
                flag.append(member_text("adoptionRequired", value).as_str());
                flag
            },
            None => String::new(),
        };
        text.append(flag.as_str());
        text.append("}");
        text
    }

    /// Renders the outcome to the renderer's stdout; a required adoption is
    /// marked on the line.
    pub fn render(&self, renderer: &mut Renderer) -> (r: Result<(), std::io::Error>)
        ensures
            r is Ok,
            final(renderer).stderr@ == old(renderer).stderr@,
            final(renderer).mode == old(renderer).mode,
            final(renderer).stdout@ == old(renderer).stdout@ + vstd::utf8::encode_utf8(
                crate::render::outcome_line(
                    old(renderer).mode,
                    self.action,
                    self.identity.kind_spec(),
                    self.identity.project_spec(),
                    identity_key(self.identity),
                    self.adoption_required == Some(true),
                ),
            ),
    {
        let (kind, project, key) = self.render_identity();
        let adoption = match self.adoption_required {
            Some(flag) => flag,
            None => false,
        };
        renderer.emit_outcome_with_adoption(self.action, kind, project, &key, adoption)
    }
}

} // verus!
