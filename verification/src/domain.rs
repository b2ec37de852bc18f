use vstd::prelude::*;

use crate::error::AppError;
use crate::kind::{kind_text, EntityKind};
use crate::output::{Action, Outcome, OutcomeIdentity};
use crate::text::same_text;

verus! {

// ---------------------------------------------------------------------------
// Workflow IDs
// ---------------------------------------------------------------------------

/// A lower-case hexadecimal digit.
pub open spec fn is_lower_hex(c: char) -> bool {
    ('0' <= c && c <= '9') || ('a' <= c && c <= 'f')
}

/// Whether position `i` of a hyphenated UUID holds a hyphen.
pub open spec fn is_uuid_hyphen_position(i: int) -> bool {
    i == 8 || i == 13 || i == 18 || i == 23
}

/// The canonical hyphenated lower-case UUID spelling
/// `xxxxxxxx-xxxx-xxxx-xxxx-xxxxxxxxxxxx`.
pub open spec fn is_canonical_uuid(s: Seq<char>) -> bool {
    s.len() == 36 && forall|i: int|
        0 <= i < 36 ==> if is_uuid_hyphen_position(i) {
            #[trigger] s[i] == '-'
        } else {
            is_lower_hex(s[i])
        }
}

/// The hyphenated spelling that `uuid` gives of a parsed UUID, or `None`
/// where `Uuid::parse_str` refuses the text.
pub uninterp spec fn uuid_hyphenated_text(value: Seq<char>) -> Option<Seq<char>>;

/// `uuid::Uuid::parse_str` followed by `hyphenated().to_string()`.
///
/// Claims: the result is the named parse-and-respell result of the text; a
/// respelled UUID is canonical (the hyphenated formatter writes lower-case
/// hexadecimal digits in 8-4-4-4-12 groups); and a text already in canonical
/// form parses (the 36-byte hyphenated shape) and respells to itself.
#[verifier::external_body]
fn uuid_hyphenated(value: &str) -> (r: Option<String>)
    ensures
        r is Some <==> uuid_hyphenated_text(value@) is Some,
        r is Some ==> r->0@ == uuid_hyphenated_text(value@)->0,
        r is Some ==> is_canonical_uuid(r->0@),
        is_canonical_uuid(value@) ==> (r is Some && r->0@ == value@),
{
    match uuid::Uuid::parse_str(value) {
        Ok(parsed) => Some(parsed.hyphenated().to_string()),
        Err(_) => None,
    }
}

/// A workflow ID that is not a canonical hyphenated UUID.
#[derive(Debug, Clone, Copy, PartialEq, Eq, Structural)]
pub struct InvalidWorkflowId;

/// Canonical server workflow identifier: the canonical hyphenated lower-case
/// UUID spelling; simple, braced, URN and upper-case forms are refused.
#[derive(Debug, Clone, PartialEq, Eq, Hash)]
pub struct WorkflowId(String);

impl WorkflowId {
    /// The identifier text.
    pub closed spec fn text(&self) -> Seq<char> {
        self.0@
    }

    /// Accepts exactly the canonical hyphenated UUID spellings.
    pub fn parse(value: &str) -> (r: Result<WorkflowId, InvalidWorkflowId>)
        ensures
            r is Ok <==> is_canonical_uuid(value@),
            r is Ok ==> r->Ok_0.text() == value@,
    {
        match uuid_hyphenated(value) {
            Some(text) => {
                if same_text(text.as_str(), value) {
                    Ok(WorkflowId(value.to_owned()))
                } else {
                    Err(InvalidWorkflowId)
                }
            },
            None => Err(InvalidWorkflowId),
        }
    }

    /// The identifier text.
    pub fn as_str(&self) -> (s: &str)
        ensures
            s@ == self.text(),
    {
        self.0.as_str()
    }
}

impl std::str::FromStr for WorkflowId {
    type Err = InvalidWorkflowId;

    fn from_str(value: &str) -> (r: Result<Self, Self::Err>)
        ensures
            r is Ok <==> is_canonical_uuid(value@),
            r is Ok ==> r->Ok_0.text() == value@,
    {
        WorkflowId::parse(value)
    }
}

// ---------------------------------------------------------------------------
// Server IDs
// ---------------------------------------------------------------------------

/// An empty server ID.
#[derive(Debug, Clone, Copy, PartialEq, Eq, Structural)]
pub struct InvalidServerId;

/// Non-empty server-owned entity identifier.
#[derive(Debug)]
pub struct ServerId(String);

impl ServerId {
    /// The identifier text.
    pub closed spec fn text(&self) -> Seq<char> {
        self.0@
    }

    /// Accepts exactly the non-empty identifiers.
    pub fn try_from(value: String) -> (r: Result<ServerId, InvalidServerId>)
        ensures
            r is Ok <==> value@.len() > 0,
            r is Ok ==> r->Ok_0.text() == value@,
    {
        if value.as_str().is_empty() {
            Err(InvalidServerId)
        } else {
            Ok(ServerId(value))
        }
    }

    /// The identifier text.
    pub fn as_str(&self) -> (s: &str)
        ensures
            s@ == self.text(),
            s@.len() > 0,
    {
        proof {
            use_type_invariant(self);
        }
        self.0.as_str()
    }

    #[verifier::type_invariant]
    spec fn non_empty(self) -> bool {
        self.0@.len() > 0
    }
}

// ---------------------------------------------------------------------------
// Identity constraints
// ---------------------------------------------------------------------------

/// C0 and C1 controls and the Unicode bidirectional controls
/// U+202A..U+202E and U+2066..U+2069.
pub open spec fn is_excluded_char(c: char) -> bool {
    let code = c as u32;
    code <= 0x1f || (0x7f <= code && code <= 0x9f) || (0x202a <= code && code <= 0x202e) || (
    0x2066 <= code && code <= 0x2069)
}

/// No control or bidirectional control character.
pub open spec fn no_excluded_chars(s: Seq<char>) -> bool {
    forall|i: int| 0 <= i < s.len() ==> !is_excluded_char(#[trigger] s[i])
}

/// `metadata.project` and `metadata.slug`: 1 to 100 characters, no control
/// or bidirectional control character.
pub open spec fn valid_project_text(s: Seq<char>) -> bool {
    1 <= s.len() <= 100 && no_excluded_chars(s)
}

/// A lower-case ASCII letter or digit.
pub open spec fn is_lower_alnum(c: char) -> bool {
    ('a' <= c && c <= 'z') || ('0' <= c && c <= '9')
}

/// An ASCII letter or digit.
pub open spec fn is_ascii_alnum(c: char) -> bool {
    ('a' <= c && c <= 'z') || ('A' <= c && c <= 'Z') || ('0' <= c && c <= '9')
}

/// `metadata.name` of a Skill: `[a-z0-9][a-z0-9-]{1,62}[a-z0-9]`.
pub open spec fn valid_skill_name(s: Seq<char>) -> bool {
    &&& 3 <= s.len() <= 64
    &&& is_lower_alnum(s[0])
    &&& is_lower_alnum(s[s.len() - 1])
    &&& forall|i: int| 0 <= i < s.len() ==> is_lower_alnum(#[trigger] s[i]) || s[i] == '-'
}

/// `metadata.repo_name` of a Datasource: 4 to 50 characters, an ASCII letter
/// or digit first, then letters, digits, `_` or `-`.
pub open spec fn valid_repository_name(s: Seq<char>) -> bool {
    &&& 4 <= s.len() <= 50
    &&& is_ascii_alnum(s[0])
    &&& forall|i: int|
        0 <= i < s.len() ==> is_ascii_alnum(#[trigger] s[i]) || s[i] == '_' || s[i] == '-'
}

/// A repository name is accepted exactly when it has 4 to 50 characters,
/// each an ASCII letter, an ASCII digit, `_` or `-`, and the first is
/// neither `_` nor `-`; so ASCII digits are allowed at every position, and
/// a name stays accepted when any character of it is replaced by a digit.
pub proof fn law_repository_name_characters(s: Seq<char>, i: int, d: char)
    ensures
        valid_repository_name(s) <==> ({
            &&& 4 <= s.len() <= 50
            &&& s[0] != '_' && s[0] != '-'
            &&& forall|k: int| 0 <= k < s.len() ==> {
                let c = #[trigger] s[k];
                ('0' <= c && c <= '9') || ('a' <= c && c <= 'z') || ('A' <= c && c <= 'Z') || c == '_' || c == '-'
            }
        }),
        valid_repository_name(s) && 0 <= i < s.len() && '0' <= d && d <= '9' ==> valid_repository_name(
            s.update(i, d),
        ),
{
    if 4 <= s.len() <= 50 {
        assert(s[0] == s[0]);
    }
    if valid_repository_name(s) && 0 <= i < s.len() && '0' <= d && d <= '9' {
        let t = s.update(i, d);
        assert(t[0] == s[0] || t[0] == d);
        assert forall|k: int| 0 <= k < t.len() implies is_ascii_alnum(#[trigger] t[k]) || t[k] == '_' || t[k] == '-' by {
            if k != i {
                assert(t[k] == s[k]);
            }
        }
    }
}

/// A Skill name is accepted exactly when it has 3 to 64 characters, each a
/// lower-case ASCII letter, an ASCII digit or `-`, and neither the first
/// nor the last is `-`; upper-case letters and `_` are refused. Replacing
/// any character of an accepted name by a digit keeps it accepted.
pub proof fn law_skill_name_characters(s: Seq<char>, i: int, d: char)
    ensures
        valid_skill_name(s) <==> ({
            &&& 3 <= s.len() <= 64
            &&& s[0] != '-' && s[s.len() - 1] != '-'
            &&& forall|k: int| 0 <= k < s.len() ==> {
                let c = #[trigger] s[k];
                ('0' <= c && c <= '9') || ('a' <= c && c <= 'z') || c == '-'
            }
        }),
        valid_skill_name(s) && 0 <= i < s.len() && '0' <= d && d <= '9' ==> valid_skill_name(s.update(i, d)),
{
    if 3 <= s.len() <= 64 {
        assert(s[0] == s[0] && s[s.len() - 1] == s[s.len() - 1]);
    }
    if valid_skill_name(s) && 0 <= i < s.len() && '0' <= d && d <= '9' {
        let t = s.update(i, d);
        assert(t[0] == s[0] || t[0] == d);
        assert(t[t.len() - 1] == s[s.len() - 1] || t[t.len() - 1] == d);
        assert forall|k: int| 0 <= k < t.len() implies is_lower_alnum(#[trigger] t[k]) || t[k] == '-' by {
            if k != i {
                assert(t[k] == s[k]);
            }
        }
    }
}

/// A project or slug text is accepted exactly when it has 1 to 100
/// characters and none is a C0 control (below U+0020), DEL or a C1 control
/// (U+007F to U+009F), or a bidirectional control (U+202A to U+202E,
/// U+2066 to U+2069); any other character, non-ASCII ones included, is
/// allowed, so replacing a character of an accepted text by one such keeps
/// it accepted.
pub proof fn law_project_text_characters(s: Seq<char>, i: int, c: char)
    ensures
        valid_project_text(s) <==> ({
            &&& 1 <= s.len() <= 100
            &&& forall|k: int| 0 <= k < s.len() ==> {
                let n = #[trigger] s[k] as u32;
                !(n < 32 || (127 <= n && n <= 159) || (8234 <= n && n <= 8238) || (8294 <= n && n <= 8297))
            }
        }),
        valid_project_text(s) && 0 <= i < s.len() && (c as u32) >= 160 && !((8234 <= (c as u32) && (c as u32)
            <= 8238) || (8294 <= (c as u32) && (c as u32) <= 8297)) ==> valid_project_text(s.update(i, c)),
{
    if valid_project_text(s) && 0 <= i < s.len() && (c as u32) >= 160 && !((8234 <= (c as u32) && (c as u32)
        <= 8238) || (8294 <= (c as u32) && (c as u32) <= 8297)) {
        let t = s.update(i, c);
        assert forall|k: int| 0 <= k < t.len() implies !is_excluded_char(#[trigger] t[k]) by {
            if k != i {
                assert(t[k] == s[k]);
            }
        }
    }
}

/// A workflow ID is canonical exactly when it has 36 characters with `-` at
/// positions 8, 13, 18 and 23 and one of `0`-`9`, `a`-`f` everywhere else;
/// so an upper-case hexadecimal digit is never canonical.
pub proof fn law_canonical_uuid_characters(s: Seq<char>)
    ensures
        is_canonical_uuid(s) <==> ({
            &&& s.len() == 36
            &&& s[8] == '-' && s[13] == '-' && s[18] == '-' && s[23] == '-'
            &&& forall|k: int| 0 <= k < 36 && k != 8 && k != 13 && k != 18 && k != 23 ==> {
                let c = #[trigger] s[k];
                ('0' <= c && c <= '9') || ('a' <= c && c <= 'f')
            }
        }),
        is_canonical_uuid(s) ==> forall|k: int| 0 <= k < 36 ==> !('A' <= #[trigger] s[k] && s[k] <= 'Z'),
{
    if s.len() == 36 && s[8] == '-' && s[13] == '-' && s[18] == '-' && s[23] == '-' && (forall|k: int|
        0 <= k < 36 && k != 8 && k != 13 && k != 18 && k != 23 ==> {
            let c = #[trigger] s[k];
            ('0' <= c && c <= '9') || ('a' <= c && c <= 'f')
        }) {
        assert forall|k: int| 0 <= k < 36 implies if is_uuid_hyphen_position(k) {
            #[trigger] s[k] == '-'
        } else {
            is_lower_hex(s[k])
        } by {}
    }
    if is_canonical_uuid(s) {
        assert(s[8] == '-' && s[13] == '-' && s[18] == '-' && s[23] == '-');
    }
}

/// The accepted `spec.index_type` spellings are exactly `git`, `svn`,
/// `confluence`, `jira`, `xray`, `file`, `google`, `azure_devops_wiki`,
/// `azure_devops_work_item` and `sharepoint`.
pub proof fn law_datasource_kind_spellings(t: Seq<char>)
    ensures
        (exists|k: DatasourceKind| #[trigger] datasource_kind_text(k) == t) <==> (t == "git"@ || t == "svn"@
            || t == "confluence"@ || t == "jira"@ || t == "xray"@ || t == "file"@ || t == "google"@ || t
            == "azure_devops_wiki"@ || t == "azure_devops_work_item"@ || t == "sharepoint"@),
{
    if t == "git"@ { assert(datasource_kind_text(DatasourceKind::Git) == t); }
    if t == "svn"@ { assert(datasource_kind_text(DatasourceKind::Svn) == t); }
    if t == "confluence"@ { assert(datasource_kind_text(DatasourceKind::Confluence) == t); }
    if t == "jira"@ { assert(datasource_kind_text(DatasourceKind::Jira) == t); }
    if t == "xray"@ { assert(datasource_kind_text(DatasourceKind::Xray) == t); }
    if t == "file"@ { assert(datasource_kind_text(DatasourceKind::File) == t); }
    if t == "google"@ { assert(datasource_kind_text(DatasourceKind::Google) == t); }
    if t == "azure_devops_wiki"@ { assert(datasource_kind_text(DatasourceKind::AzureDevopsWiki) == t); }
    if t == "azure_devops_work_item"@ { assert(datasource_kind_text(DatasourceKind::AzureDevopsWorkItem) == t); }
    if t == "sharepoint"@ { assert(datasource_kind_text(DatasourceKind::Sharepoint) == t); }
}

/// Whether the text holds no control or bidirectional control character.
pub fn has_no_controls(value: &str) -> (r: bool)
    ensures
        r == no_excluded_chars(value@),
{
    let mut clean = true;
    for c in it: value.chars()
        invariant
            it.seq() == value@,
            clean == (forall|i: int| 0 <= i < it.index() ==> !is_excluded_char(#[trigger] value@[i])),
    {
        let code = c as u32;
        if code <= 0x1f || (0x7f <= code && code <= 0x9f) || (0x202a <= code && code <= 0x202e)
            || (0x2066 <= code && code <= 0x2069) {
            clean = false;
        }
    }
    clean
}

/// Whether the number of characters lies within `min..=max`.
fn char_count_within(value: &str, min: usize, max: usize) -> (r: bool)
    requires
        max < usize::MAX,
    ensures
        r == (min <= value@.len() <= max),
{
    let mut count: usize = 0;
    for c in it: value.chars()
        invariant
            it.seq() == value@,
            0 <= it.index() <= value@.len(),
            max < usize::MAX,
            count == (if it.index() <= max + 1 {
                it.index() as int
            } else {
                max + 1
            }),
    {
        if count <= max {
            count = count + 1;
        }
    }
    min <= count && count <= max
}

/// `metadata.project`: 1 to 100 characters, no controls.
pub fn project(value: &str) -> (r: bool)
    ensures
        r == valid_project_text(value@),
{
    char_count_within(value, 1, 100) && has_no_controls(value)
}

/// `metadata.slug`: 1 to 100 characters, no controls.
pub fn slug(value: &str) -> (r: bool)
    ensures
        r == valid_project_text(value@),
{
    char_count_within(value, 1, 100) && has_no_controls(value)
}

/// `metadata.name` of a Skill.
pub fn skill_name(value: &str) -> (r: bool)
    ensures
        r == valid_skill_name(value@),
{
    if !char_count_within(value, 3, 64) {
        return false;
    }
    let mut all_allowed = true;
    let mut first_ok = false;
    let mut last_ok = false;
    let mut first = true;
    for c in it: value.chars()
        invariant
            it.seq() == value@,
            3 <= value@.len() <= 64,
            first == (it.index() == 0),
            it.index() > 0 ==> first_ok == is_lower_alnum(value@[0]),
            it.index() > 0 ==> last_ok == is_lower_alnum(value@[it.index() - 1]),
            all_allowed == (forall|i: int|
                0 <= i < it.index() ==> is_lower_alnum(#[trigger] value@[i]) || value@[i] == '-'),
    {
        let lower_alnum = ('a' <= c && c <= 'z') || ('0' <= c && c <= '9');
        if first {
            first_ok = lower_alnum;
            first = false;
        }
        last_ok = lower_alnum;
        if !lower_alnum && c != '-' {
            all_allowed = false;
        }
    }
    all_allowed && first_ok && last_ok
}

/// `metadata.repo_name` of a Datasource.
pub fn repository_name(value: &str) -> (r: bool)
    ensures
        r == valid_repository_name(value@),
{
    if !char_count_within(value, 4, 50) {
        return false;
    }
    let mut all_allowed = true;
    let mut first_ok = false;
    let mut first = true;
    for c in it: value.chars()
        invariant
            it.seq() == value@,
            4 <= value@.len() <= 50,
            first == (it.index() == 0),
            it.index() > 0 ==> first_ok == is_ascii_alnum(value@[0]),
            all_allowed == (forall|i: int|
                0 <= i < it.index() ==> is_ascii_alnum(#[trigger] value@[i]) || value@[i] == '_'
                    || value@[i] == '-'),
    {
        let alnum = ('a' <= c && c <= 'z') || ('A' <= c && c <= 'Z') || ('0' <= c && c <= '9');
        if first {
            first_ok = alnum;
            first = false;
        }
        if !alnum && c != '_' && c != '-' {
            all_allowed = false;
        }
    }
    all_allowed && first_ok
}

/// An identity field that breaks its constraint; names the field.
#[derive(Debug, Clone, Copy, PartialEq, Eq, Structural)]
pub struct InvalidIdentityField {
    pub field: IdentityField,
}

/// The validated identity fields.
#[derive(Debug, Clone, Copy, PartialEq, Eq, Structural)]
pub enum IdentityField {
    Project,
    Slug,
    SkillName,
    RepositoryName,
}

/// The message naming an invalid identity field.
pub open spec fn identity_field_message(field: IdentityField) -> Seq<char> {
    match field {
        IdentityField::Project => "project is invalid"@,
        IdentityField::Slug => "slug is invalid"@,
        IdentityField::SkillName => "skill name is invalid"@,
        IdentityField::RepositoryName => "repository name is invalid"@,
    }
}

impl InvalidIdentityField {
    /// The message naming the field.
    pub fn message(&self) -> (text: &'static str)
        ensures
            text@ == identity_field_message(self.field),
    {
        match self.field {
            IdentityField::Project => "project is invalid",
            IdentityField::Slug => "slug is invalid",
            IdentityField::SkillName => "skill name is invalid",
            IdentityField::RepositoryName => "repository name is invalid",
        }
    }
}

/// A validated `metadata.project`.
#[derive(Debug, Clone, PartialEq, Eq, Hash)]
pub struct ProjectName(String);

impl ProjectName {
    /// The project text.
    pub closed spec fn text(&self) -> Seq<char> {
        self.0@
    }

    /// Accepts exactly the texts of `valid_project_text`.
    pub fn try_from(value: String) -> (r: Result<ProjectName, InvalidIdentityField>)
        ensures
            r is Ok <==> valid_project_text(value@),
            r is Ok ==> r->Ok_0.text() == value@,
            r is Err ==> r->Err_0.field == IdentityField::Project,
    {
        if project(value.as_str()) {
            Ok(ProjectName(value))
        } else {
            Err(InvalidIdentityField { field: IdentityField::Project })
        }
    }

    /// The project text.
    pub fn as_str(&self) -> (s: &str)
        ensures
            s@ == self.text(),
    {
        self.0.as_str()
    }
}

/// A validated `metadata.slug`.
#[derive(Debug, Clone, PartialEq, Eq, Hash)]
pub struct Slug(String);

impl Slug {
    /// The slug text.
    pub closed spec fn text(&self) -> Seq<char> {
        self.0@
    }

    /// Accepts exactly the texts of `valid_project_text`.
    pub fn try_from(value: String) -> (r: Result<Slug, InvalidIdentityField>)
        ensures
            r is Ok <==> valid_project_text(value@),
            r is Ok ==> r->Ok_0.text() == value@,
            r is Err ==> r->Err_0.field == IdentityField::Slug,
    {
        if slug(value.as_str()) {
            Ok(Slug(value))
        } else {
            Err(InvalidIdentityField { field: IdentityField::Slug })
        }
    }

    /// The slug text.
    pub fn as_str(&self) -> (s: &str)
        ensures
            s@ == self.text(),
    {
        self.0.as_str()
    }
}

/// A validated Skill `metadata.name`.
#[derive(Debug, Clone, PartialEq, Eq, Hash)]
pub struct SkillName(String);

impl SkillName {
    /// The name text.
    pub closed spec fn text(&self) -> Seq<char> {
        self.0@
    }

    /// Accepts exactly the texts of `valid_skill_name`.
    pub fn try_from(value: String) -> (r: Result<SkillName, InvalidIdentityField>)
        ensures
            r is Ok <==> valid_skill_name(value@),
            r is Ok ==> r->Ok_0.text() == value@,
            r is Err ==> r->Err_0.field == IdentityField::SkillName,
    {
        if skill_name(value.as_str()) {
            Ok(SkillName(value))
        } else {
            Err(InvalidIdentityField { field: IdentityField::SkillName })
        }
    }

    /// The name text.
    pub fn as_str(&self) -> (s: &str)
        ensures
            s@ == self.text(),
    {
        self.0.as_str()
    }
}

/// A validated Datasource `metadata.repo_name`.
#[derive(Debug, Clone, PartialEq, Eq, Hash)]
pub struct RepositoryName(String);

impl RepositoryName {
    /// The name text.
    pub closed spec fn text(&self) -> Seq<char> {
        self.0@
    }

    /// Accepts exactly the texts of `valid_repository_name`.
    pub fn try_from(value: String) -> (r: Result<RepositoryName, InvalidIdentityField>)
        ensures
            r is Ok <==> valid_repository_name(value@),
            r is Ok ==> r->Ok_0.text() == value@,
            r is Err ==> r->Err_0.field == IdentityField::RepositoryName,
    {
        if repository_name(value.as_str()) {
            Ok(RepositoryName(value))
        } else {
            Err(InvalidIdentityField { field: IdentityField::RepositoryName })
        }
    }

    /// The name text.
    pub fn as_str(&self) -> (s: &str)
        ensures
            s@ == self.text(),
    {
        self.0.as_str()
    }
}

// ---------------------------------------------------------------------------
// Datasource kinds
// ---------------------------------------------------------------------------

/// The supported datasource kinds.
#[derive(Debug, Clone, Copy, PartialEq, Eq, Structural, Hash)]
pub enum DatasourceKind {
    Git,
    Svn,
    Confluence,
    Jira,
    Xray,
    File,
    Google,
    AzureDevopsWiki,
    AzureDevopsWorkItem,
    Sharepoint,
}

/// The `spec.index_type` spelling of each kind.
pub open spec fn datasource_kind_text(kind: DatasourceKind) -> Seq<char> {
    match kind {
        DatasourceKind::Git => "git"@,
        DatasourceKind::Svn => "svn"@,
        DatasourceKind::Confluence => "confluence"@,
        DatasourceKind::Jira => "jira"@,
        DatasourceKind::Xray => "xray"@,
        DatasourceKind::File => "file"@,
        DatasourceKind::Google => "google"@,
        DatasourceKind::AzureDevopsWiki => "azure_devops_wiki"@,
        DatasourceKind::AzureDevopsWorkItem => "azure_devops_work_item"@,
        DatasourceKind::Sharepoint => "sharepoint"@,
    }
}

/// An unsupported `spec.index_type`.
#[derive(Debug, Clone, Copy, PartialEq, Eq, Structural)]
pub struct InvalidDatasourceKind;

impl DatasourceKind {
    /// The `spec.index_type` spelling of the kind.
    pub fn as_str(self) -> (text: &'static str)
        ensures
            text@ == datasource_kind_text(self),
    {
        match self {
            DatasourceKind::Git => "git",
            DatasourceKind::Svn => "svn",
            DatasourceKind::Confluence => "confluence",
            DatasourceKind::Jira => "jira",
            DatasourceKind::Xray => "xray",
            DatasourceKind::File => "file",
            DatasourceKind::Google => "google",
            DatasourceKind::AzureDevopsWiki => "azure_devops_wiki",
            DatasourceKind::AzureDevopsWorkItem => "azure_devops_work_item",
            DatasourceKind::Sharepoint => "sharepoint",
        }
    }

    /// The kind spelled `value`, if any.
    pub fn parse(value: &str) -> (r: Result<DatasourceKind, InvalidDatasourceKind>)
        ensures
            r is Ok ==> datasource_kind_text(r->Ok_0) == value@,
            r is Err ==> forall|k: DatasourceKind| datasource_kind_text(k) != value@,
    {
        if same_text(value, "git") {
            Ok(DatasourceKind::Git)
        } else if same_text(value, "svn") {
            Ok(DatasourceKind::Svn)
        } else if same_text(value, "confluence") {
            Ok(DatasourceKind::Confluence)
        } else if same_text(value, "jira") {
            Ok(DatasourceKind::Jira)
        } else if same_text(value, "xray") {
            Ok(DatasourceKind::Xray)
        } else if same_text(value, "file") {
            Ok(DatasourceKind::File)
        } else if same_text(value, "google") {
            Ok(DatasourceKind::Google)
        } else if same_text(value, "azure_devops_wiki") {
            Ok(DatasourceKind::AzureDevopsWiki)
        } else if same_text(value, "azure_devops_work_item") {
            Ok(DatasourceKind::AzureDevopsWorkItem)
        } else if same_text(value, "sharepoint") {
            Ok(DatasourceKind::Sharepoint)
        } else {
            proof {
                assert forall|k: DatasourceKind| datasource_kind_text(k) != value@ by {
                    match k {
                        DatasourceKind::Git => {},
                        DatasourceKind::Svn => {},
                        DatasourceKind::Confluence => {},
                        DatasourceKind::Jira => {},
                        DatasourceKind::Xray => {},
                        DatasourceKind::File => {},
                        DatasourceKind::Google => {},
                        DatasourceKind::AzureDevopsWiki => {},
                        DatasourceKind::AzureDevopsWorkItem => {},
                        DatasourceKind::Sharepoint => {},
                    }
                }
            }
            Err(InvalidDatasourceKind)
        }
    }
}

impl std::str::FromStr for DatasourceKind {
    type Err = InvalidDatasourceKind;

    fn from_str(value: &str) -> (r: Result<Self, Self::Err>)
        ensures
            r is Ok ==> datasource_kind_text(r->Ok_0) == value@,
            r is Err ==> forall|k: DatasourceKind| datasource_kind_text(k) != value@,
    {
        DatasourceKind::parse(value)
    }
}

// ---------------------------------------------------------------------------
// Natural identity
// ---------------------------------------------------------------------------

/// The validated natural identity fields of one declaration, by kind.
#[derive(Debug, Clone, PartialEq, Eq)]
pub enum NaturalIdentityValue {
    Assistant { project: ProjectName, slug: Slug },
    Workflow { project: ProjectName, slug: Slug },
    Skill { project: ProjectName, name: SkillName },
    Datasource { project: ProjectName, repo_name: RepositoryName, index_type: DatasourceKind },
}

/// Validated natural identity of one declaration; kind and selector shape
/// cannot disagree.
#[derive(Debug, Clone, PartialEq, Eq)]
pub struct NaturalIdentity(pub NaturalIdentityValue);

/// The unvalidated natural identity fields read from a declaration.
#[derive(Debug, Clone, PartialEq, Eq)]
pub enum ParsedNaturalIdentity {
    Assistant { project: String, slug: String },
    Workflow { project: String, slug: String },
    Skill { project: String, name: String },
    Datasource { project: String, repository: String, index_type: String },
}

impl NaturalIdentity {
    /// The kind of the identity.
    pub open spec fn kind_spec(&self) -> EntityKind {
        match self.0 {
            NaturalIdentityValue::Assistant { .. } => EntityKind::Assistant,
            NaturalIdentityValue::Workflow { .. } => EntityKind::Workflow,
            NaturalIdentityValue::Skill { .. } => EntityKind::Skill,
            NaturalIdentityValue::Datasource { .. } => EntityKind::Datasource,
        }
    }

    /// The project of the identity.
    pub open spec fn project_spec(&self) -> Seq<char> {
        match self.0 {
            NaturalIdentityValue::Assistant { project, .. } => project.text(),
            NaturalIdentityValue::Workflow { project, .. } => project.text(),
            NaturalIdentityValue::Skill { project, .. } => project.text(),
            NaturalIdentityValue::Datasource { project, .. } => project.text(),
        }
    }

    /// The kind-specific selector: slug, skill name or repository name.
    pub open spec fn selector_spec(&self) -> Seq<char> {
        match self.0 {
            NaturalIdentityValue::Assistant { slug, .. } => slug.text(),
            NaturalIdentityValue::Workflow { slug, .. } => slug.text(),
            NaturalIdentityValue::Skill { name, .. } => name.text(),
            NaturalIdentityValue::Datasource { repo_name, .. } => repo_name.text(),
        }
    }

    /// The kind of the identity.
    pub fn kind(&self) -> (k: EntityKind)
        ensures
            k == self.kind_spec(),
    {
        match self.0 {
            NaturalIdentityValue::Assistant { .. } => EntityKind::Assistant,
            NaturalIdentityValue::Workflow { .. } => EntityKind::Workflow,
            NaturalIdentityValue::Skill { .. } => EntityKind::Skill,
            NaturalIdentityValue::Datasource { .. } => EntityKind::Datasource,
        }
    }

    /// The project of the identity.
    pub fn project(&self) -> (s: &str)
        ensures
            s@ == self.project_spec(),
    {
        match &self.0 {
            NaturalIdentityValue::Assistant { project, .. } => project.as_str(),
            NaturalIdentityValue::Workflow { project, .. } => project.as_str(),
            NaturalIdentityValue::Skill { project, .. } => project.as_str(),
            NaturalIdentityValue::Datasource { project, .. } => project.as_str(),
        }
    }

    /// The kind-specific selector.
    pub fn selector(&self) -> (s: &str)
        ensures
            s@ == self.selector_spec(),
    {
        match &self.0 {
            NaturalIdentityValue::Assistant { slug, .. } => slug.as_str(),
            NaturalIdentityValue::Workflow { slug, .. } => slug.as_str(),
            NaturalIdentityValue::Skill { name, .. } => name.as_str(),
            NaturalIdentityValue::Datasource { repo_name, .. } => repo_name.as_str(),
        }
    }

    /// The datasource kind spelling, for a Datasource identity only.
    pub fn datasource_index_type(&self) -> (r: Option<&'static str>)
        ensures
            r is Some <==> self.0 is Datasource,
            self.0 is Datasource ==> r->0@ == datasource_kind_text(self.0->index_type),
    {
        match &self.0 {
            NaturalIdentityValue::Datasource { index_type, .. } => Some(index_type.as_str()),
            _ => None,
        }
    }

    /// The success outcome of a completed apply of this identity.
    pub fn success_outcome(&self, action: crate::adapters::ApplyAction) -> (o: Outcome)
        ensures
            o.action == (match action {
                crate::adapters::ApplyAction::Created => Action::Created,
                crate::adapters::ApplyAction::Updated => Action::Updated,
            }),
            o.identity.kind_spec() == self.kind_spec(),
            o.identity.project_spec() == self.project_spec(),
            o.identity.key_spec() == self.selector_spec(),
            o.adoption_required is None,
    {
        let action = match action {
            crate::adapters::ApplyAction::Created => Action::Created,
            crate::adapters::ApplyAction::Updated => Action::Updated,
        };
        let project = self.project().to_owned();
        let selector = self.selector().to_owned();
        match self.kind() {
            EntityKind::Assistant => Outcome::assistant(action, project, selector),
            EntityKind::Workflow => Outcome::workflow(action, project, selector),
            EntityKind::Skill => Outcome::new_skill(action, project, selector),
            EntityKind::Datasource => Outcome::new_datasource(action, project, selector),
        }
    }

    /// Validates the parsed identity fields: the project, then the selector,
    /// then (for a Datasource) the kind; the first invalid field is the
    /// schema error.
    pub fn try_from_parsed(parsed: ParsedNaturalIdentity) -> (r: Result<NaturalIdentity, AppError>)
        ensures
            r is Ok <==> natural_identity_valid(parsed),
            r is Err ==> r->Err_0 is Schema,
            r is Ok ==> natural_identity_matches(r->Ok_0, parsed),
    {
        let value = match parsed {
            ParsedNaturalIdentity::Assistant { project, slug } => {
                let project = identity_field(ProjectName::try_from(project))?;
                let slug = identity_field(Slug::try_from(slug))?;
                NaturalIdentityValue::Assistant { project, slug }
            },
            ParsedNaturalIdentity::Workflow { project, slug } => {
                let project = identity_field(ProjectName::try_from(project))?;
                let slug = identity_field(Slug::try_from(slug))?;
                NaturalIdentityValue::Workflow { project, slug }
            },
            ParsedNaturalIdentity::Skill { project, name } => {
                let project = identity_field(ProjectName::try_from(project))?;
                let name = identity_field(SkillName::try_from(name))?;
                NaturalIdentityValue::Skill { project, name }
            },
            ParsedNaturalIdentity::Datasource { project, repository, index_type } => {
                let project = identity_field(ProjectName::try_from(project))?;
                let repo_name = identity_field(RepositoryName::try_from(repository))?;
                let index_type = match DatasourceKind::parse(index_type.as_str()) {
                    Ok(k) => k,
                    Err(_) => {
                        return Err(AppError::Schema("datasource kind is unsupported".to_owned()));
                    },
                };
                NaturalIdentityValue::Datasource { project, repo_name, index_type }
            },
        };
        Ok(NaturalIdentity(value))
    }
}

/// Whether every parsed identity field meets its constraint.
pub open spec fn natural_identity_valid(parsed: ParsedNaturalIdentity) -> bool {
    match parsed {
        ParsedNaturalIdentity::Assistant { project, slug } => valid_project_text(project@)
            && valid_project_text(slug@),
        ParsedNaturalIdentity::Workflow { project, slug } => valid_project_text(project@)
            && valid_project_text(slug@),
        ParsedNaturalIdentity::Skill { project, name } => valid_project_text(project@)
            && valid_skill_name(name@),
        ParsedNaturalIdentity::Datasource { project, repository, index_type } => valid_project_text(
            project@,
        ) && valid_repository_name(repository@) && exists|k: DatasourceKind|
            datasource_kind_text(k) == index_type@,
    }
}

/// Whether a validated identity carries exactly the parsed fields.
pub open spec fn natural_identity_matches(id: NaturalIdentity, parsed: ParsedNaturalIdentity) -> bool {
    match parsed {
        ParsedNaturalIdentity::Assistant { project, slug } => id.0 is Assistant
            && id.project_spec() == project@ && id.selector_spec() == slug@,
        ParsedNaturalIdentity::Workflow { project, slug } => id.0 is Workflow && id.project_spec()
            == project@ && id.selector_spec() == slug@,
        ParsedNaturalIdentity::Skill { project, name } => id.0 is Skill && id.project_spec()
            == project@ && id.selector_spec() == name@,
        ParsedNaturalIdentity::Datasource { project, repository, index_type } => id.0 is Datasource
            && id.project_spec() == project@ && id.selector_spec() == repository@
            && datasource_kind_text(id.0->index_type) == index_type@,
    }
}

/// Maps an invalid identity field to the schema error naming it.
pub fn identity_field<T>(result: Result<T, InvalidIdentityField>) -> (r: Result<T, AppError>)
    ensures
        result is Ok ==> r == Ok::<T, AppError>(result->Ok_0),
        result is Err ==> (r is Err && r->Err_0 is Schema && r->Err_0->Schema_0@
            == identity_field_message(result->Err_0.field)),
{
    match result {
        Ok(value) => Ok(value),
        Err(error) => Err(AppError::Schema(error.message().to_owned())),
    }
}

} // verus!
