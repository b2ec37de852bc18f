//! What the projections send, field by field, for each declaration kind:
//! the laws a changed field rule table would break.

use vstd::prelude::*;

use crate::json_value::{JsonValue, json_text, member_value};
use crate::parse::nested_text;
use crate::projection::rules;
use crate::projection::{
    Presence, RequestBody, Section, When, applies, body_view, datasource_request, datasource_table, declaration_sections,
    lemma_fold_never_sends, lemma_fold_sends_field, lemma_fold_sends_null, lemma_query_fold_never_sends,
    lemma_query_fold_sends_field, projected_body, projected_query, query_fold, query_text, query_view, rules_fold, scalar_text,
    section_of, QueryKind,
};

verus! {

/// The field rules each JSON Datasource kind is projected with.
proof fn lemma_datasource_tables(kind: Seq<char>)
    ensures
        kind == "git"@ ==> datasource_table(kind) == Some(rules::git_rule_table()),
        kind == "svn"@ ==> datasource_table(kind) == Some(rules::svn_rule_table()),
        kind == "confluence"@ ==> datasource_table(kind) == Some(rules::confluence_rule_table()),
        kind == "jira"@ ==> datasource_table(kind) == Some(rules::jira_rule_table()),
        kind == "xray"@ ==> datasource_table(kind) == Some(rules::xray_rule_table()),
        kind == "google"@ ==> datasource_table(kind) == Some(rules::google_rule_table()),
        kind == "azure_devops_wiki"@ ==> datasource_table(kind) == Some(rules::azure_devops_wiki_rule_table()),
        kind == "azure_devops_work_item"@ ==> datasource_table(kind) == Some(rules::azure_devops_work_item_rule_table()),
        kind == "sharepoint"@ ==> datasource_table(kind) == Some(rules::sharepoint_rule_table()),
{
    reveal_strlit("azure_devops_wiki");
    reveal_strlit("azure_devops_work_item");
    reveal_strlit("confluence");
    reveal_strlit("file");
    reveal_strlit("git");
    reveal_strlit("google");
    reveal_strlit("jira");
    reveal_strlit("sharepoint");
    reveal_strlit("svn");
    reveal_strlit("xray");
    if kind == "git"@ {
    }
    if kind == "svn"@ {
        assert("svn"@[0] != "git"@[0]);
    }
    if kind == "confluence"@ {
        assert("confluence"@.len() != "git"@.len());
        assert("confluence"@.len() != "svn"@.len());
    }
    if kind == "jira"@ {
        assert("jira"@.len() != "git"@.len());
        assert("jira"@.len() != "svn"@.len());
        assert("jira"@.len() != "confluence"@.len());
    }
    if kind == "xray"@ {
        assert("xray"@.len() != "git"@.len());
        assert("xray"@.len() != "svn"@.len());
        assert("xray"@.len() != "confluence"@.len());
        assert("xray"@[0] != "jira"@[0]);
    }
    if kind == "google"@ {
        assert("google"@.len() != "git"@.len());
        assert("google"@.len() != "svn"@.len());
        assert("google"@.len() != "confluence"@.len());
        assert("google"@.len() != "jira"@.len());
        assert("google"@.len() != "xray"@.len());
    }
    if kind == "azure_devops_wiki"@ {
        assert("azure_devops_wiki"@.len() != "git"@.len());
        assert("azure_devops_wiki"@.len() != "svn"@.len());
        assert("azure_devops_wiki"@.len() != "confluence"@.len());
        assert("azure_devops_wiki"@.len() != "jira"@.len());
        assert("azure_devops_wiki"@.len() != "xray"@.len());
        assert("azure_devops_wiki"@.len() != "google"@.len());
    }
    if kind == "azure_devops_work_item"@ {
        assert("azure_devops_work_item"@.len() != "git"@.len());
        assert("azure_devops_work_item"@.len() != "svn"@.len());
        assert("azure_devops_work_item"@.len() != "confluence"@.len());
        assert("azure_devops_work_item"@.len() != "jira"@.len());
        assert("azure_devops_work_item"@.len() != "xray"@.len());
        assert("azure_devops_work_item"@.len() != "google"@.len());
        assert("azure_devops_work_item"@.len() != "azure_devops_wiki"@.len());
    }
    if kind == "sharepoint"@ {
        assert("sharepoint"@.len() != "git"@.len());
        assert("sharepoint"@.len() != "svn"@.len());
        assert("sharepoint"@[0] != "confluence"@[0]);
        assert("sharepoint"@.len() != "jira"@.len());
        assert("sharepoint"@.len() != "xray"@.len());
        assert("sharepoint"@.len() != "google"@.len());
        assert("sharepoint"@.len() != "azure_devops_wiki"@.len());
        assert("sharepoint"@.len() != "azure_devops_work_item"@.len());
    }
}

/// The members a Git and SVN Datasource body sends: (section, declared field,
/// sent name, whether only a create sends it).
pub open spec fn git_datasource_field(section: Section, from: Seq<char>, to: Seq<char>, create_only: bool) -> bool {
    ||| (section == Section::Metadata && from == "repo_name"@ && to == "name"@ && create_only)
    ||| (section == Section::Spec && from == "description"@ && to == "description"@ && !create_only)
    ||| (section == Section::Spec && from == "branch"@ && to == "branch"@ && !create_only)
    ||| (section == Section::Spec && from == "link"@ && to == "link"@ && !create_only)
    ||| (section == Section::Spec && from == "projectSpaceVisible"@ && to == "projectSpaceVisible"@ && !create_only)
    ||| (section == Section::Spec && from == "prompt"@ && to == "prompt"@ && !create_only)
    ||| (section == Section::Spec && from == "embeddingsModel"@ && to == "embeddingsModel"@ && !create_only)
    ||| (section == Section::Spec && from == "docsGeneration"@ && to == "docsGeneration"@ && !create_only)
    ||| (section == Section::Spec && from == "filesFilter"@ && to == "filesFilter"@ && !create_only)
    ||| (section == Section::Spec && from == "setting_id"@ && to == "setting_id"@ && !create_only)
    ||| (section == Section::Spec && from == "guardrail_assignments"@ && to == "guardrail_assignments"@ && !create_only)
    ||| (section == Section::Spec && from == "cron_expression"@ && to == "cron_expression"@ && !create_only)
    ||| (section == Section::Spec && from == "timezone"@ && to == "timezone"@ && !create_only)
    ||| (section == Section::Spec && from == "indexType"@ && to == "indexType"@ && create_only)
    ||| (section == Section::Spec && from == "summarizationModel"@ && to == "summarizationModel"@ && create_only)
}

/// On every write of a git Datasource the body sends each declared field
/// under its name, and a create-only field is sent on a create and never
/// on an update.
pub proof fn law_git_datasource_body(
    v: JsonValue,
    is_update: bool,
    request: RequestBody,
    section: Section,
    from: Seq<char>,
    to: Seq<char>,
    create_only: bool,
    value: JsonValue,
)
    requires
        git_datasource_field(section, from, to, create_only),
        nested_text(v, "spec"@, "index_type"@) == Some("git"@),
        datasource_request(v, is_update, request) == Some(true),
    ensures
        request is Json,
        request->Json_0 is Object,
        member_value(section_of(declaration_sections(v)->0, section), from) == Some(value) && !(value is Null)
            && !(create_only && is_update) ==> exists|i: int|
            0 <= i < request->Json_0->Object_0@.len() && #[trigger] body_view(request->Json_0->Object_0@)[i] == (to, value),
        create_only && is_update ==> forall|i: int|
            0 <= i < request->Json_0->Object_0@.len() ==> #[trigger] body_view(request->Json_0->Object_0@)[i].0 != to,
{
    reveal_strlit("file");
    reveal_strlit("git");
    assert("git"@ != "file"@) by {
        assert("git"@.len() != "file"@.len());
    }
    lemma_datasource_tables("git"@);
    reveal_strlit("branch");
    reveal_strlit("cron_expression");
    reveal_strlit("description");
    reveal_strlit("docsGeneration");
    reveal_strlit("embeddingsModel");
    reveal_strlit("filesFilter");
    reveal_strlit("guardrail_assignments");
    reveal_strlit("indexType");
    reveal_strlit("link");
    reveal_strlit("name");
    reveal_strlit("projectSpaceVisible");
    reveal_strlit("prompt");
    reveal_strlit("repo_name");
    reveal_strlit("setting_id");
    reveal_strlit("summarizationModel");
    reveal_strlit("timezone");
    let t = rules::git_rule_table();
    let s = declaration_sections(v)->0;
    let b = body_view(request->Json_0->Object_0@);
    assert(projected_body(v, t, is_update) == Some(b));
    if section == Section::Metadata && from == "repo_name"@ && to == "name"@ && create_only {
        assert(t[0] == (Section::Metadata, "repo_name"@, "name"@, Presence::Required, When::CreateOnly));
        if member_value(section_of(s, section), from) == Some(value) && !(value is Null) && !(create_only && is_update) {
            assert forall|j: int| 0 <= j < 0 implies #[trigger] t[j].0 != t[0].0 || t[j].1 != t[0].1 by {
            }
            lemma_fold_sends_field(s, t, is_update, 0, value);
        }
        if is_update {
            assert forall|j: int| 0 <= j < t.len() && applies(t[j].4, is_update) implies #[trigger] t[j].2 != to by {
                if j == 1 { assert("description"@.len() != "name"@.len());
                } else if j == 2 { assert("branch"@.len() != "name"@.len());
                } else if j == 3 { assert("link"@[0] != "name"@[0]);
                } else if j == 4 { assert("projectSpaceVisible"@.len() != "name"@.len());
                } else if j == 5 { assert("prompt"@.len() != "name"@.len());
                } else if j == 6 { assert("embeddingsModel"@.len() != "name"@.len());
                } else if j == 7 { assert("docsGeneration"@.len() != "name"@.len());
                } else if j == 8 { assert("filesFilter"@.len() != "name"@.len());
                } else if j == 9 { assert("setting_id"@.len() != "name"@.len());
                } else if j == 10 { assert("guardrail_assignments"@.len() != "name"@.len());
                } else if j == 11 { assert("cron_expression"@.len() != "name"@.len());
                } else if j == 12 { assert("timezone"@.len() != "name"@.len());
                }
            }
            lemma_fold_never_sends(s, t, is_update, to);
        }
    } else if section == Section::Spec && from == "description"@ && to == "description"@ && !create_only {
        assert(t[1] == (Section::Spec, "description"@, "description"@, Presence::Required, When::Always));
        if member_value(section_of(s, section), from) == Some(value) && !(value is Null) && !(create_only && is_update) {
            assert forall|j: int| 0 <= j < 1 implies #[trigger] t[j].0 != t[1].0 || t[j].1 != t[1].1 by {
            }
            lemma_fold_sends_field(s, t, is_update, 1, value);
        }
    } else if section == Section::Spec && from == "branch"@ && to == "branch"@ && !create_only {
        assert(t[2] == (Section::Spec, "branch"@, "branch"@, Presence::Required, When::Always));
        if member_value(section_of(s, section), from) == Some(value) && !(value is Null) && !(create_only && is_update) {
            assert forall|j: int| 0 <= j < 2 implies #[trigger] t[j].0 != t[2].0 || t[j].1 != t[2].1 by {
                if j == 1 { assert("description"@.len() != "branch"@.len());
                }
            }
            lemma_fold_sends_field(s, t, is_update, 2, value);
        }
    } else if section == Section::Spec && from == "link"@ && to == "link"@ && !create_only {
        assert(t[3] == (Section::Spec, "link"@, "link"@, Presence::Required, When::Always));
        if member_value(section_of(s, section), from) == Some(value) && !(value is Null) && !(create_only && is_update) {
            assert forall|j: int| 0 <= j < 3 implies #[trigger] t[j].0 != t[3].0 || t[j].1 != t[3].1 by {
                if j == 1 { assert("description"@.len() != "link"@.len());
                } else if j == 2 { assert("branch"@.len() != "link"@.len());
                }
            }
            lemma_fold_sends_field(s, t, is_update, 3, value);
        }
    } else if section == Section::Spec && from == "projectSpaceVisible"@ && to == "projectSpaceVisible"@ && !create_only {
        assert(t[4] == (Section::Spec, "projectSpaceVisible"@, "projectSpaceVisible"@, Presence::Required, When::Always));
        if member_value(section_of(s, section), from) == Some(value) && !(value is Null) && !(create_only && is_update) {
            assert forall|j: int| 0 <= j < 4 implies #[trigger] t[j].0 != t[4].0 || t[j].1 != t[4].1 by {
                if j == 1 { assert("description"@.len() != "projectSpaceVisible"@.len());
                } else if j == 2 { assert("branch"@.len() != "projectSpaceVisible"@.len());
                } else if j == 3 { assert("link"@.len() != "projectSpaceVisible"@.len());
                }
            }
            lemma_fold_sends_field(s, t, is_update, 4, value);
        }
    } else if section == Section::Spec && from == "prompt"@ && to == "prompt"@ && !create_only {
        assert(t[5] == (Section::Spec, "prompt"@, "prompt"@, Presence::IfPresent, When::Always));
        if member_value(section_of(s, section), from) == Some(value) && !(value is Null) && !(create_only && is_update) {
            assert forall|j: int| 0 <= j < 5 implies #[trigger] t[j].0 != t[5].0 || t[j].1 != t[5].1 by {
                if j == 1 { assert("description"@.len() != "prompt"@.len());
                } else if j == 2 { assert("branch"@[0] != "prompt"@[0]);
                } else if j == 3 { assert("link"@.len() != "prompt"@.len());
                } else if j == 4 { assert("projectSpaceVisible"@.len() != "prompt"@.len());
                }
            }
            lemma_fold_sends_field(s, t, is_update, 5, value);
        }
    } else if section == Section::Spec && from == "embeddingsModel"@ && to == "embeddingsModel"@ && !create_only {
        assert(t[6] == (Section::Spec, "embeddingsModel"@, "embeddingsModel"@, Presence::IfPresent, When::Always));
        if member_value(section_of(s, section), from) == Some(value) && !(value is Null) && !(create_only && is_update) {
            assert forall|j: int| 0 <= j < 6 implies #[trigger] t[j].0 != t[6].0 || t[j].1 != t[6].1 by {
                if j == 1 { assert("description"@.len() != "embeddingsModel"@.len());
                } else if j == 2 { assert("branch"@.len() != "embeddingsModel"@.len());
                } else if j == 3 { assert("link"@.len() != "embeddingsModel"@.len());
                } else if j == 4 { assert("projectSpaceVisible"@.len() != "embeddingsModel"@.len());
                } else if j == 5 { assert("prompt"@.len() != "embeddingsModel"@.len());
                }
            }
            lemma_fold_sends_field(s, t, is_update, 6, value);
        }
    } else if section == Section::Spec && from == "docsGeneration"@ && to == "docsGeneration"@ && !create_only {
        assert(t[7] == (Section::Spec, "docsGeneration"@, "docsGeneration"@, Presence::IfPresent, When::Always));
        if member_value(section_of(s, section), from) == Some(value) && !(value is Null) && !(create_only && is_update) {
            assert forall|j: int| 0 <= j < 7 implies #[trigger] t[j].0 != t[7].0 || t[j].1 != t[7].1 by {
                if j == 1 { assert("description"@.len() != "docsGeneration"@.len());
                } else if j == 2 { assert("branch"@.len() != "docsGeneration"@.len());
                } else if j == 3 { assert("link"@.len() != "docsGeneration"@.len());
                } else if j == 4 { assert("projectSpaceVisible"@.len() != "docsGeneration"@.len());
                } else if j == 5 { assert("prompt"@.len() != "docsGeneration"@.len());
                } else if j == 6 { assert("embeddingsModel"@.len() != "docsGeneration"@.len());
                }
            }
            lemma_fold_sends_field(s, t, is_update, 7, value);
        }
    } else if section == Section::Spec && from == "filesFilter"@ && to == "filesFilter"@ && !create_only {
        assert(t[8] == (Section::Spec, "filesFilter"@, "filesFilter"@, Presence::IfPresent, When::Always));
        if member_value(section_of(s, section), from) == Some(value) && !(value is Null) && !(create_only && is_update) {
            assert forall|j: int| 0 <= j < 8 implies #[trigger] t[j].0 != t[8].0 || t[j].1 != t[8].1 by {
                if j == 1 { assert("description"@[0] != "filesFilter"@[0]);
                } else if j == 2 { assert("branch"@.len() != "filesFilter"@.len());
                } else if j == 3 { assert("link"@.len() != "filesFilter"@.len());
                } else if j == 4 { assert("projectSpaceVisible"@.len() != "filesFilter"@.len());
                } else if j == 5 { assert("prompt"@.len() != "filesFilter"@.len());
                } else if j == 6 { assert("embeddingsModel"@.len() != "filesFilter"@.len());
                } else if j == 7 { assert("docsGeneration"@.len() != "filesFilter"@.len());
                }
            }
            lemma_fold_sends_field(s, t, is_update, 8, value);
        }
    } else if section == Section::Spec && from == "setting_id"@ && to == "setting_id"@ && !create_only {
        assert(t[9] == (Section::Spec, "setting_id"@, "setting_id"@, Presence::IfPresent, When::Always));
        if member_value(section_of(s, section), from) == Some(value) && !(value is Null) && !(create_only && is_update) {
            assert forall|j: int| 0 <= j < 9 implies #[trigger] t[j].0 != t[9].0 || t[j].1 != t[9].1 by {
                if j == 1 { assert("description"@.len() != "setting_id"@.len());
                } else if j == 2 { assert("branch"@.len() != "setting_id"@.len());
                } else if j == 3 { assert("link"@.len() != "setting_id"@.len());
                } else if j == 4 { assert("projectSpaceVisible"@.len() != "setting_id"@.len());
                } else if j == 5 { assert("prompt"@.len() != "setting_id"@.len());
                } else if j == 6 { assert("embeddingsModel"@.len() != "setting_id"@.len());
                } else if j == 7 { assert("docsGeneration"@.len() != "setting_id"@.len());
                } else if j == 8 { assert("filesFilter"@.len() != "setting_id"@.len());
                }
            }
            lemma_fold_sends_field(s, t, is_update, 9, value);
        }
    } else if section == Section::Spec && from == "guardrail_assignments"@ && to == "guardrail_assignments"@ && !create_only {
        assert(t[10] == (Section::Spec, "guardrail_assignments"@, "guardrail_assignments"@, Presence::IfPresent, When::Always));
        if member_value(section_of(s, section), from) == Some(value) && !(value is Null) && !(create_only && is_update) {
            assert forall|j: int| 0 <= j < 10 implies #[trigger] t[j].0 != t[10].0 || t[j].1 != t[10].1 by {
                if j == 1 { assert("description"@.len() != "guardrail_assignments"@.len());
                } else if j == 2 { assert("branch"@.len() != "guardrail_assignments"@.len());
                } else if j == 3 { assert("link"@.len() != "guardrail_assignments"@.len());
                } else if j == 4 { assert("projectSpaceVisible"@.len() != "guardrail_assignments"@.len());
                } else if j == 5 { assert("prompt"@.len() != "guardrail_assignments"@.len());
                } else if j == 6 { assert("embeddingsModel"@.len() != "guardrail_assignments"@.len());
                } else if j == 7 { assert("docsGeneration"@.len() != "guardrail_assignments"@.len());
                } else if j == 8 { assert("filesFilter"@.len() != "guardrail_assignments"@.len());
                } else if j == 9 { assert("setting_id"@.len() != "guardrail_assignments"@.len());
                }
            }
            lemma_fold_sends_field(s, t, is_update, 10, value);
        }
    } else if section == Section::Spec && from == "cron_expression"@ && to == "cron_expression"@ && !create_only {
        assert(t[11] == (Section::Spec, "cron_expression"@, "cron_expression"@, Presence::IfPresent, When::Always));
        if member_value(section_of(s, section), from) == Some(value) && !(value is Null) && !(create_only && is_update) {
            assert forall|j: int| 0 <= j < 11 implies #[trigger] t[j].0 != t[11].0 || t[j].1 != t[11].1 by {
                if j == 1 { assert("description"@.len() != "cron_expression"@.len());
                } else if j == 2 { assert("branch"@.len() != "cron_expression"@.len());
                } else if j == 3 { assert("link"@.len() != "cron_expression"@.len());
                } else if j == 4 { assert("projectSpaceVisible"@.len() != "cron_expression"@.len());
                } else if j == 5 { assert("prompt"@.len() != "cron_expression"@.len());
                } else if j == 6 { assert("embeddingsModel"@[0] != "cron_expression"@[0]);
                } else if j == 7 { assert("docsGeneration"@.len() != "cron_expression"@.len());
                } else if j == 8 { assert("filesFilter"@.len() != "cron_expression"@.len());
                } else if j == 9 { assert("setting_id"@.len() != "cron_expression"@.len());
                } else if j == 10 { assert("guardrail_assignments"@.len() != "cron_expression"@.len());
                }
            }
            lemma_fold_sends_field(s, t, is_update, 11, value);
        }
    } else if section == Section::Spec && from == "timezone"@ && to == "timezone"@ && !create_only {
        assert(t[12] == (Section::Spec, "timezone"@, "timezone"@, Presence::IfPresent, When::Always));
        if member_value(section_of(s, section), from) == Some(value) && !(value is Null) && !(create_only && is_update) {
            assert forall|j: int| 0 <= j < 12 implies #[trigger] t[j].0 != t[12].0 || t[j].1 != t[12].1 by {
                if j == 1 { assert("description"@.len() != "timezone"@.len());
                } else if j == 2 { assert("branch"@.len() != "timezone"@.len());
                } else if j == 3 { assert("link"@.len() != "timezone"@.len());
                } else if j == 4 { assert("projectSpaceVisible"@.len() != "timezone"@.len());
                } else if j == 5 { assert("prompt"@.len() != "timezone"@.len());
                } else if j == 6 { assert("embeddingsModel"@.len() != "timezone"@.len());
                } else if j == 7 { assert("docsGeneration"@.len() != "timezone"@.len());
                } else if j == 8 { assert("filesFilter"@.len() != "timezone"@.len());
                } else if j == 9 { assert("setting_id"@.len() != "timezone"@.len());
                } else if j == 10 { assert("guardrail_assignments"@.len() != "timezone"@.len());
                } else if j == 11 { assert("cron_expression"@.len() != "timezone"@.len());
                }
            }
            lemma_fold_sends_field(s, t, is_update, 12, value);
        }
    } else if section == Section::Spec && from == "indexType"@ && to == "indexType"@ && create_only {
        assert(t[13] == (Section::Spec, "indexType"@, "indexType"@, Presence::Required, When::CreateOnly));
        if member_value(section_of(s, section), from) == Some(value) && !(value is Null) && !(create_only && is_update) {
            assert forall|j: int| 0 <= j < 13 implies #[trigger] t[j].0 != t[13].0 || t[j].1 != t[13].1 by {
                if j == 1 { assert("description"@.len() != "indexType"@.len());
                } else if j == 2 { assert("branch"@.len() != "indexType"@.len());
                } else if j == 3 { assert("link"@.len() != "indexType"@.len());
                } else if j == 4 { assert("projectSpaceVisible"@.len() != "indexType"@.len());
                } else if j == 5 { assert("prompt"@.len() != "indexType"@.len());
                } else if j == 6 { assert("embeddingsModel"@.len() != "indexType"@.len());
                } else if j == 7 { assert("docsGeneration"@.len() != "indexType"@.len());
                } else if j == 8 { assert("filesFilter"@.len() != "indexType"@.len());
                } else if j == 9 { assert("setting_id"@.len() != "indexType"@.len());
                } else if j == 10 { assert("guardrail_assignments"@.len() != "indexType"@.len());
                } else if j == 11 { assert("cron_expression"@.len() != "indexType"@.len());
                } else if j == 12 { assert("timezone"@.len() != "indexType"@.len());
                }
            }
            lemma_fold_sends_field(s, t, is_update, 13, value);
        }
        if is_update {
            assert forall|j: int| 0 <= j < t.len() && applies(t[j].4, is_update) implies #[trigger] t[j].2 != to by {
                if j == 1 { assert("description"@.len() != "indexType"@.len());
                } else if j == 2 { assert("branch"@.len() != "indexType"@.len());
                } else if j == 3 { assert("link"@.len() != "indexType"@.len());
                } else if j == 4 { assert("projectSpaceVisible"@.len() != "indexType"@.len());
                } else if j == 5 { assert("prompt"@.len() != "indexType"@.len());
                } else if j == 6 { assert("embeddingsModel"@.len() != "indexType"@.len());
                } else if j == 7 { assert("docsGeneration"@.len() != "indexType"@.len());
                } else if j == 8 { assert("filesFilter"@.len() != "indexType"@.len());
                } else if j == 9 { assert("setting_id"@.len() != "indexType"@.len());
                } else if j == 10 { assert("guardrail_assignments"@.len() != "indexType"@.len());
                } else if j == 11 { assert("cron_expression"@.len() != "indexType"@.len());
                } else if j == 12 { assert("timezone"@.len() != "indexType"@.len());
                }
            }
            lemma_fold_never_sends(s, t, is_update, to);
        }
    } else if section == Section::Spec && from == "summarizationModel"@ && to == "summarizationModel"@ && create_only {
        assert(t[14] == (Section::Spec, "summarizationModel"@, "summarizationModel"@, Presence::IfPresent, When::CreateOnly));
        if member_value(section_of(s, section), from) == Some(value) && !(value is Null) && !(create_only && is_update) {
            assert forall|j: int| 0 <= j < 14 implies #[trigger] t[j].0 != t[14].0 || t[j].1 != t[14].1 by {
                if j == 1 { assert("description"@.len() != "summarizationModel"@.len());
                } else if j == 2 { assert("branch"@.len() != "summarizationModel"@.len());
                } else if j == 3 { assert("link"@.len() != "summarizationModel"@.len());
                } else if j == 4 { assert("projectSpaceVisible"@.len() != "summarizationModel"@.len());
                } else if j == 5 { assert("prompt"@.len() != "summarizationModel"@.len());
                } else if j == 6 { assert("embeddingsModel"@.len() != "summarizationModel"@.len());
                } else if j == 7 { assert("docsGeneration"@.len() != "summarizationModel"@.len());
                } else if j == 8 { assert("filesFilter"@.len() != "summarizationModel"@.len());
                } else if j == 9 { assert("setting_id"@.len() != "summarizationModel"@.len());
                } else if j == 10 { assert("guardrail_assignments"@.len() != "summarizationModel"@.len());
                } else if j == 11 { assert("cron_expression"@.len() != "summarizationModel"@.len());
                } else if j == 12 { assert("timezone"@.len() != "summarizationModel"@.len());
                } else if j == 13 { assert("indexType"@.len() != "summarizationModel"@.len());
                }
            }
            lemma_fold_sends_field(s, t, is_update, 14, value);
        }
        if is_update {
            assert forall|j: int| 0 <= j < t.len() && applies(t[j].4, is_update) implies #[trigger] t[j].2 != to by {
                if j == 1 { assert("description"@.len() != "summarizationModel"@.len());
                } else if j == 2 { assert("branch"@.len() != "summarizationModel"@.len());
                } else if j == 3 { assert("link"@.len() != "summarizationModel"@.len());
                } else if j == 4 { assert("projectSpaceVisible"@.len() != "summarizationModel"@.len());
                } else if j == 5 { assert("prompt"@.len() != "summarizationModel"@.len());
                } else if j == 6 { assert("embeddingsModel"@.len() != "summarizationModel"@.len());
                } else if j == 7 { assert("docsGeneration"@.len() != "summarizationModel"@.len());
                } else if j == 8 { assert("filesFilter"@.len() != "summarizationModel"@.len());
                } else if j == 9 { assert("setting_id"@.len() != "summarizationModel"@.len());
                } else if j == 10 { assert("guardrail_assignments"@.len() != "summarizationModel"@.len());
                } else if j == 11 { assert("cron_expression"@.len() != "summarizationModel"@.len());
                } else if j == 12 { assert("timezone"@.len() != "summarizationModel"@.len());
                }
            }
            lemma_fold_never_sends(s, t, is_update, to);
        }
    }
    if member_value(section_of(s, section), from) == Some(value) && !(value is Null) && !(create_only && is_update) {
        let fb = rules_fold(s, Seq::empty(), t, is_update)->Ok_0.1;
        let i = choose|i: int| 0 <= i < fb.len() && #[trigger] fb[i] == (to, value);
        assert(0 <= i < request->Json_0->Object_0@.len() && body_view(request->Json_0->Object_0@)[i] == (to, value));
    }
}

/// On every write of a svn Datasource the body sends each declared field
/// under its name, and a create-only field is sent on a create and never
/// on an update.
pub proof fn law_svn_datasource_body(
    v: JsonValue,
    is_update: bool,
    request: RequestBody,
    section: Section,
    from: Seq<char>,
    to: Seq<char>,
    create_only: bool,
    value: JsonValue,
)
    requires
        git_datasource_field(section, from, to, create_only),
        nested_text(v, "spec"@, "index_type"@) == Some("svn"@),
        datasource_request(v, is_update, request) == Some(true),
    ensures
        request is Json,
        request->Json_0 is Object,
        member_value(section_of(declaration_sections(v)->0, section), from) == Some(value) && !(value is Null)
            && !(create_only && is_update) ==> exists|i: int|
            0 <= i < request->Json_0->Object_0@.len() && #[trigger] body_view(request->Json_0->Object_0@)[i] == (to, value),
        create_only && is_update ==> forall|i: int|
            0 <= i < request->Json_0->Object_0@.len() ==> #[trigger] body_view(request->Json_0->Object_0@)[i].0 != to,
{
    reveal_strlit("file");
    reveal_strlit("svn");
    assert("svn"@ != "file"@) by {
        assert("svn"@.len() != "file"@.len());
    }
    lemma_datasource_tables("svn"@);
    reveal_strlit("branch");
    reveal_strlit("cron_expression");
    reveal_strlit("description");
    reveal_strlit("docsGeneration");
    reveal_strlit("embeddingsModel");
    reveal_strlit("filesFilter");
    reveal_strlit("guardrail_assignments");
    reveal_strlit("indexType");
    reveal_strlit("link");
    reveal_strlit("name");
    reveal_strlit("projectSpaceVisible");
    reveal_strlit("prompt");
    reveal_strlit("repo_name");
    reveal_strlit("setting_id");
    reveal_strlit("summarizationModel");
    reveal_strlit("timezone");
    let t = rules::git_rule_table();
    let s = declaration_sections(v)->0;
    let b = body_view(request->Json_0->Object_0@);
    assert(projected_body(v, t, is_update) == Some(b));
    if section == Section::Metadata && from == "repo_name"@ && to == "name"@ && create_only {
        assert(t[0] == (Section::Metadata, "repo_name"@, "name"@, Presence::Required, When::CreateOnly));
        if member_value(section_of(s, section), from) == Some(value) && !(value is Null) && !(create_only && is_update) {
            assert forall|j: int| 0 <= j < 0 implies #[trigger] t[j].0 != t[0].0 || t[j].1 != t[0].1 by {
            }
            lemma_fold_sends_field(s, t, is_update, 0, value);
        }
        if is_update {
            assert forall|j: int| 0 <= j < t.len() && applies(t[j].4, is_update) implies #[trigger] t[j].2 != to by {
                if j == 1 { assert("description"@.len() != "name"@.len());
                } else if j == 2 { assert("branch"@.len() != "name"@.len());
                } else if j == 3 { assert("link"@[0] != "name"@[0]);
                } else if j == 4 { assert("projectSpaceVisible"@.len() != "name"@.len());
                } else if j == 5 { assert("prompt"@.len() != "name"@.len());
                } else if j == 6 { assert("embeddingsModel"@.len() != "name"@.len());
                } else if j == 7 { assert("docsGeneration"@.len() != "name"@.len());
                } else if j == 8 { assert("filesFilter"@.len() != "name"@.len());
                } else if j == 9 { assert("setting_id"@.len() != "name"@.len());
                } else if j == 10 { assert("guardrail_assignments"@.len() != "name"@.len());
                } else if j == 11 { assert("cron_expression"@.len() != "name"@.len());
                } else if j == 12 { assert("timezone"@.len() != "name"@.len());
                }
            }
            lemma_fold_never_sends(s, t, is_update, to);
        }
    } else if section == Section::Spec && from == "description"@ && to == "description"@ && !create_only {
        assert(t[1] == (Section::Spec, "description"@, "description"@, Presence::Required, When::Always));
        if member_value(section_of(s, section), from) == Some(value) && !(value is Null) && !(create_only && is_update) {
            assert forall|j: int| 0 <= j < 1 implies #[trigger] t[j].0 != t[1].0 || t[j].1 != t[1].1 by {
            }
            lemma_fold_sends_field(s, t, is_update, 1, value);
        }
    } else if section == Section::Spec && from == "branch"@ && to == "branch"@ && !create_only {
        assert(t[2] == (Section::Spec, "branch"@, "branch"@, Presence::Required, When::Always));
        if member_value(section_of(s, section), from) == Some(value) && !(value is Null) && !(create_only && is_update) {
            assert forall|j: int| 0 <= j < 2 implies #[trigger] t[j].0 != t[2].0 || t[j].1 != t[2].1 by {
                if j == 1 { assert("description"@.len() != "branch"@.len());
                }
            }
            lemma_fold_sends_field(s, t, is_update, 2, value);
        }
    } else if section == Section::Spec && from == "link"@ && to == "link"@ && !create_only {
        assert(t[3] == (Section::Spec, "link"@, "link"@, Presence::Required, When::Always));
        if member_value(section_of(s, section), from) == Some(value) && !(value is Null) && !(create_only && is_update) {
            assert forall|j: int| 0 <= j < 3 implies #[trigger] t[j].0 != t[3].0 || t[j].1 != t[3].1 by {
                if j == 1 { assert("description"@.len() != "link"@.len());
                } else if j == 2 { assert("branch"@.len() != "link"@.len());
                }
            }
            lemma_fold_sends_field(s, t, is_update, 3, value);
        }
    } else if section == Section::Spec && from == "projectSpaceVisible"@ && to == "projectSpaceVisible"@ && !create_only {
        assert(t[4] == (Section::Spec, "projectSpaceVisible"@, "projectSpaceVisible"@, Presence::Required, When::Always));
        if member_value(section_of(s, section), from) == Some(value) && !(value is Null) && !(create_only && is_update) {
            assert forall|j: int| 0 <= j < 4 implies #[trigger] t[j].0 != t[4].0 || t[j].1 != t[4].1 by {
                if j == 1 { assert("description"@.len() != "projectSpaceVisible"@.len());
                } else if j == 2 { assert("branch"@.len() != "projectSpaceVisible"@.len());
                } else if j == 3 { assert("link"@.len() != "projectSpaceVisible"@.len());
                }
            }
            lemma_fold_sends_field(s, t, is_update, 4, value);
        }
    } else if section == Section::Spec && from == "prompt"@ && to == "prompt"@ && !create_only {
        assert(t[5] == (Section::Spec, "prompt"@, "prompt"@, Presence::IfPresent, When::Always));
        if member_value(section_of(s, section), from) == Some(value) && !(value is Null) && !(create_only && is_update) {
            assert forall|j: int| 0 <= j < 5 implies #[trigger] t[j].0 != t[5].0 || t[j].1 != t[5].1 by {
                if j == 1 { assert("description"@.len() != "prompt"@.len());
                } else if j == 2 { assert("branch"@[0] != "prompt"@[0]);
                } else if j == 3 { assert("link"@.len() != "prompt"@.len());
                } else if j == 4 { assert("projectSpaceVisible"@.len() != "prompt"@.len());
                }
            }
            lemma_fold_sends_field(s, t, is_update, 5, value);
        }
    } else if section == Section::Spec && from == "embeddingsModel"@ && to == "embeddingsModel"@ && !create_only {
        assert(t[6] == (Section::Spec, "embeddingsModel"@, "embeddingsModel"@, Presence::IfPresent, When::Always));
        if member_value(section_of(s, section), from) == Some(value) && !(value is Null) && !(create_only && is_update) {
            assert forall|j: int| 0 <= j < 6 implies #[trigger] t[j].0 != t[6].0 || t[j].1 != t[6].1 by {
                if j == 1 { assert("description"@.len() != "embeddingsModel"@.len());
                } else if j == 2 { assert("branch"@.len() != "embeddingsModel"@.len());
                } else if j == 3 { assert("link"@.len() != "embeddingsModel"@.len());
                } else if j == 4 { assert("projectSpaceVisible"@.len() != "embeddingsModel"@.len());
                } else if j == 5 { assert("prompt"@.len() != "embeddingsModel"@.len());
                }
            }
            lemma_fold_sends_field(s, t, is_update, 6, value);
        }
    } else if section == Section::Spec && from == "docsGeneration"@ && to == "docsGeneration"@ && !create_only {
        assert(t[7] == (Section::Spec, "docsGeneration"@, "docsGeneration"@, Presence::IfPresent, When::Always));
        if member_value(section_of(s, section), from) == Some(value) && !(value is Null) && !(create_only && is_update) {
            assert forall|j: int| 0 <= j < 7 implies #[trigger] t[j].0 != t[7].0 || t[j].1 != t[7].1 by {
                if j == 1 { assert("description"@.len() != "docsGeneration"@.len());
                } else if j == 2 { assert("branch"@.len() != "docsGeneration"@.len());
                } else if j == 3 { assert("link"@.len() != "docsGeneration"@.len());
                } else if j == 4 { assert("projectSpaceVisible"@.len() != "docsGeneration"@.len());
                } else if j == 5 { assert("prompt"@.len() != "docsGeneration"@.len());
                } else if j == 6 { assert("embeddingsModel"@.len() != "docsGeneration"@.len());
                }
            }
            lemma_fold_sends_field(s, t, is_update, 7, value);
        }
    } else if section == Section::Spec && from == "filesFilter"@ && to == "filesFilter"@ && !create_only {
        assert(t[8] == (Section::Spec, "filesFilter"@, "filesFilter"@, Presence::IfPresent, When::Always));
        if member_value(section_of(s, section), from) == Some(value) && !(value is Null) && !(create_only && is_update) {
            assert forall|j: int| 0 <= j < 8 implies #[trigger] t[j].0 != t[8].0 || t[j].1 != t[8].1 by {
                if j == 1 { assert("description"@[0] != "filesFilter"@[0]);
                } else if j == 2 { assert("branch"@.len() != "filesFilter"@.len());
                } else if j == 3 { assert("link"@.len() != "filesFilter"@.len());
                } else if j == 4 { assert("projectSpaceVisible"@.len() != "filesFilter"@.len());
                } else if j == 5 { assert("prompt"@.len() != "filesFilter"@.len());
                } else if j == 6 { assert("embeddingsModel"@.len() != "filesFilter"@.len());
                } else if j == 7 { assert("docsGeneration"@.len() != "filesFilter"@.len());
                }
            }
            lemma_fold_sends_field(s, t, is_update, 8, value);
        }
    } else if section == Section::Spec && from == "setting_id"@ && to == "setting_id"@ && !create_only {
        assert(t[9] == (Section::Spec, "setting_id"@, "setting_id"@, Presence::IfPresent, When::Always));
        if member_value(section_of(s, section), from) == Some(value) && !(value is Null) && !(create_only && is_update) {
            assert forall|j: int| 0 <= j < 9 implies #[trigger] t[j].0 != t[9].0 || t[j].1 != t[9].1 by {
                if j == 1 { assert("description"@.len() != "setting_id"@.len());
                } else if j == 2 { assert("branch"@.len() != "setting_id"@.len());
                } else if j == 3 { assert("link"@.len() != "setting_id"@.len());
                } else if j == 4 { assert("projectSpaceVisible"@.len() != "setting_id"@.len());
                } else if j == 5 { assert("prompt"@.len() != "setting_id"@.len());
                } else if j == 6 { assert("embeddingsModel"@.len() != "setting_id"@.len());
                } else if j == 7 { assert("docsGeneration"@.len() != "setting_id"@.len());
                } else if j == 8 { assert("filesFilter"@.len() != "setting_id"@.len());
                }
            }
            lemma_fold_sends_field(s, t, is_update, 9, value);
        }
    } else if section == Section::Spec && from == "guardrail_assignments"@ && to == "guardrail_assignments"@ && !create_only {
        assert(t[10] == (Section::Spec, "guardrail_assignments"@, "guardrail_assignments"@, Presence::IfPresent, When::Always));
        if member_value(section_of(s, section), from) == Some(value) && !(value is Null) && !(create_only && is_update) {
            assert forall|j: int| 0 <= j < 10 implies #[trigger] t[j].0 != t[10].0 || t[j].1 != t[10].1 by {
                if j == 1 { assert("description"@.len() != "guardrail_assignments"@.len());
                } else if j == 2 { assert("branch"@.len() != "guardrail_assignments"@.len());
                } else if j == 3 { assert("link"@.len() != "guardrail_assignments"@.len());
                } else if j == 4 { assert("projectSpaceVisible"@.len() != "guardrail_assignments"@.len());
                } else if j == 5 { assert("prompt"@.len() != "guardrail_assignments"@.len());
                } else if j == 6 { assert("embeddingsModel"@.len() != "guardrail_assignments"@.len());
                } else if j == 7 { assert("docsGeneration"@.len() != "guardrail_assignments"@.len());
                } else if j == 8 { assert("filesFilter"@.len() != "guardrail_assignments"@.len());
                } else if j == 9 { assert("setting_id"@.len() != "guardrail_assignments"@.len());
                }
            }
            lemma_fold_sends_field(s, t, is_update, 10, value);
        }
    } else if section == Section::Spec && from == "cron_expression"@ && to == "cron_expression"@ && !create_only {
        assert(t[11] == (Section::Spec, "cron_expression"@, "cron_expression"@, Presence::IfPresent, When::Always));
        if member_value(section_of(s, section), from) == Some(value) && !(value is Null) && !(create_only && is_update) {
            assert forall|j: int| 0 <= j < 11 implies #[trigger] t[j].0 != t[11].0 || t[j].1 != t[11].1 by {
                if j == 1 { assert("description"@.len() != "cron_expression"@.len());
                } else if j == 2 { assert("branch"@.len() != "cron_expression"@.len());
                } else if j == 3 { assert("link"@.len() != "cron_expression"@.len());
                } else if j == 4 { assert("projectSpaceVisible"@.len() != "cron_expression"@.len());
                } else if j == 5 { assert("prompt"@.len() != "cron_expression"@.len());
                } else if j == 6 { assert("embeddingsModel"@[0] != "cron_expression"@[0]);
                } else if j == 7 { assert("docsGeneration"@.len() != "cron_expression"@.len());
                } else if j == 8 { assert("filesFilter"@.len() != "cron_expression"@.len());
                } else if j == 9 { assert("setting_id"@.len() != "cron_expression"@.len());
                } else if j == 10 { assert("guardrail_assignments"@.len() != "cron_expression"@.len());
                }
            }
            lemma_fold_sends_field(s, t, is_update, 11, value);
        }
    } else if section == Section::Spec && from == "timezone"@ && to == "timezone"@ && !create_only {
        assert(t[12] == (Section::Spec, "timezone"@, "timezone"@, Presence::IfPresent, When::Always));
        if member_value(section_of(s, section), from) == Some(value) && !(value is Null) && !(create_only && is_update) {
            assert forall|j: int| 0 <= j < 12 implies #[trigger] t[j].0 != t[12].0 || t[j].1 != t[12].1 by {
                if j == 1 { assert("description"@.len() != "timezone"@.len());
                } else if j == 2 { assert("branch"@.len() != "timezone"@.len());
                } else if j == 3 { assert("link"@.len() != "timezone"@.len());
                } else if j == 4 { assert("projectSpaceVisible"@.len() != "timezone"@.len());
                } else if j == 5 { assert("prompt"@.len() != "timezone"@.len());
                } else if j == 6 { assert("embeddingsModel"@.len() != "timezone"@.len());
                } else if j == 7 { assert("docsGeneration"@.len() != "timezone"@.len());
                } else if j == 8 { assert("filesFilter"@.len() != "timezone"@.len());
                } else if j == 9 { assert("setting_id"@.len() != "timezone"@.len());
                } else if j == 10 { assert("guardrail_assignments"@.len() != "timezone"@.len());
                } else if j == 11 { assert("cron_expression"@.len() != "timezone"@.len());
                }
            }
            lemma_fold_sends_field(s, t, is_update, 12, value);
        }
    } else if section == Section::Spec && from == "indexType"@ && to == "indexType"@ && create_only {
        assert(t[13] == (Section::Spec, "indexType"@, "indexType"@, Presence::Required, When::CreateOnly));
        if member_value(section_of(s, section), from) == Some(value) && !(value is Null) && !(create_only && is_update) {
            assert forall|j: int| 0 <= j < 13 implies #[trigger] t[j].0 != t[13].0 || t[j].1 != t[13].1 by {
                if j == 1 { assert("description"@.len() != "indexType"@.len());
                } else if j == 2 { assert("branch"@.len() != "indexType"@.len());
                } else if j == 3 { assert("link"@.len() != "indexType"@.len());
                } else if j == 4 { assert("projectSpaceVisible"@.len() != "indexType"@.len());
                } else if j == 5 { assert("prompt"@.len() != "indexType"@.len());
                } else if j == 6 { assert("embeddingsModel"@.len() != "indexType"@.len());
                } else if j == 7 { assert("docsGeneration"@.len() != "indexType"@.len());
                } else if j == 8 { assert("filesFilter"@.len() != "indexType"@.len());
                } else if j == 9 { assert("setting_id"@.len() != "indexType"@.len());
                } else if j == 10 { assert("guardrail_assignments"@.len() != "indexType"@.len());
                } else if j == 11 { assert("cron_expression"@.len() != "indexType"@.len());
                } else if j == 12 { assert("timezone"@.len() != "indexType"@.len());
                }
            }
            lemma_fold_sends_field(s, t, is_update, 13, value);
        }
        if is_update {
            assert forall|j: int| 0 <= j < t.len() && applies(t[j].4, is_update) implies #[trigger] t[j].2 != to by {
                if j == 1 { assert("description"@.len() != "indexType"@.len());
                } else if j == 2 { assert("branch"@.len() != "indexType"@.len());
                } else if j == 3 { assert("link"@.len() != "indexType"@.len());
                } else if j == 4 { assert("projectSpaceVisible"@.len() != "indexType"@.len());
                } else if j == 5 { assert("prompt"@.len() != "indexType"@.len());
                } else if j == 6 { assert("embeddingsModel"@.len() != "indexType"@.len());
                } else if j == 7 { assert("docsGeneration"@.len() != "indexType"@.len());
                } else if j == 8 { assert("filesFilter"@.len() != "indexType"@.len());
                } else if j == 9 { assert("setting_id"@.len() != "indexType"@.len());
                } else if j == 10 { assert("guardrail_assignments"@.len() != "indexType"@.len());
                } else if j == 11 { assert("cron_expression"@.len() != "indexType"@.len());
                } else if j == 12 { assert("timezone"@.len() != "indexType"@.len());
                }
            }
            lemma_fold_never_sends(s, t, is_update, to);
        }
    } else if section == Section::Spec && from == "summarizationModel"@ && to == "summarizationModel"@ && create_only {
        assert(t[14] == (Section::Spec, "summarizationModel"@, "summarizationModel"@, Presence::IfPresent, When::CreateOnly));
        if member_value(section_of(s, section), from) == Some(value) && !(value is Null) && !(create_only && is_update) {
            assert forall|j: int| 0 <= j < 14 implies #[trigger] t[j].0 != t[14].0 || t[j].1 != t[14].1 by {
                if j == 1 { assert("description"@.len() != "summarizationModel"@.len());
                } else if j == 2 { assert("branch"@.len() != "summarizationModel"@.len());
                } else if j == 3 { assert("link"@.len() != "summarizationModel"@.len());
                } else if j == 4 { assert("projectSpaceVisible"@.len() != "summarizationModel"@.len());
                } else if j == 5 { assert("prompt"@.len() != "summarizationModel"@.len());
                } else if j == 6 { assert("embeddingsModel"@.len() != "summarizationModel"@.len());
                } else if j == 7 { assert("docsGeneration"@.len() != "summarizationModel"@.len());
                } else if j == 8 { assert("filesFilter"@.len() != "summarizationModel"@.len());
                } else if j == 9 { assert("setting_id"@.len() != "summarizationModel"@.len());
                } else if j == 10 { assert("guardrail_assignments"@.len() != "summarizationModel"@.len());
                } else if j == 11 { assert("cron_expression"@.len() != "summarizationModel"@.len());
                } else if j == 12 { assert("timezone"@.len() != "summarizationModel"@.len());
                } else if j == 13 { assert("indexType"@.len() != "summarizationModel"@.len());
                }
            }
            lemma_fold_sends_field(s, t, is_update, 14, value);
        }
        if is_update {
            assert forall|j: int| 0 <= j < t.len() && applies(t[j].4, is_update) implies #[trigger] t[j].2 != to by {
                if j == 1 { assert("description"@.len() != "summarizationModel"@.len());
                } else if j == 2 { assert("branch"@.len() != "summarizationModel"@.len());
                } else if j == 3 { assert("link"@.len() != "summarizationModel"@.len());
                } else if j == 4 { assert("projectSpaceVisible"@.len() != "summarizationModel"@.len());
                } else if j == 5 { assert("prompt"@.len() != "summarizationModel"@.len());
                } else if j == 6 { assert("embeddingsModel"@.len() != "summarizationModel"@.len());
                } else if j == 7 { assert("docsGeneration"@.len() != "summarizationModel"@.len());
                } else if j == 8 { assert("filesFilter"@.len() != "summarizationModel"@.len());
                } else if j == 9 { assert("setting_id"@.len() != "summarizationModel"@.len());
                } else if j == 10 { assert("guardrail_assignments"@.len() != "summarizationModel"@.len());
                } else if j == 11 { assert("cron_expression"@.len() != "summarizationModel"@.len());
                } else if j == 12 { assert("timezone"@.len() != "summarizationModel"@.len());
                }
            }
            lemma_fold_never_sends(s, t, is_update, to);
        }
    }
    if member_value(section_of(s, section), from) == Some(value) && !(value is Null) && !(create_only && is_update) {
        let fb = rules_fold(s, Seq::empty(), t, is_update)->Ok_0.1;
        let i = choose|i: int| 0 <= i < fb.len() && #[trigger] fb[i] == (to, value);
        assert(0 <= i < request->Json_0->Object_0@.len() && body_view(request->Json_0->Object_0@)[i] == (to, value));
    }
}

/// The members a Confluence Datasource body sends: (section, declared field,
/// sent name, whether only a create sends it).
pub open spec fn confluence_datasource_field(section: Section, from: Seq<char>, to: Seq<char>, create_only: bool) -> bool {
    ||| (section == Section::Metadata && from == "repo_name"@ && to == "name"@ && create_only)
    ||| (section == Section::Metadata && from == "project"@ && to == "project_name"@ && !create_only)
    ||| (section == Section::Spec && from == "description"@ && to == "description"@ && !create_only)
    ||| (section == Section::Spec && from == "cql"@ && to == "cql"@ && !create_only)
    ||| (section == Section::Spec && from == "project_space_visible"@ && to == "project_space_visible"@ && !create_only)
    ||| (section == Section::Spec && from == "setting_id"@ && to == "setting_id"@ && !create_only)
    ||| (section == Section::Spec && from == "cron_expression"@ && to == "cron_expression"@ && !create_only)
    ||| (section == Section::Spec && from == "timezone"@ && to == "timezone"@ && !create_only)
    ||| (section == Section::Spec && from == "guardrail_assignments"@ && to == "guardrail_assignments"@ && !create_only)
    ||| (section == Section::Spec && from == "include_restricted_content"@ && to == "include_restricted_content"@ && create_only)
    ||| (section == Section::Spec && from == "include_archived_content"@ && to == "include_archived_content"@ && create_only)
    ||| (section == Section::Spec && from == "include_attachments"@ && to == "include_attachments"@ && create_only)
    ||| (section == Section::Spec && from == "include_comments"@ && to == "include_comments"@ && create_only)
    ||| (section == Section::Spec && from == "keep_markdown_format"@ && to == "keep_markdown_format"@ && create_only)
    ||| (section == Section::Spec && from == "keep_newlines"@ && to == "keep_newlines"@ && create_only)
    ||| (section == Section::Spec && from == "embedding_model"@ && to == "embedding_model"@ && create_only)
}

/// On every write of a confluence Datasource the body sends each declared field
/// under its name, and a create-only field is sent on a create and never
/// on an update.
pub proof fn law_confluence_datasource_body(
    v: JsonValue,
    is_update: bool,
    request: RequestBody,
    section: Section,
    from: Seq<char>,
    to: Seq<char>,
    create_only: bool,
    value: JsonValue,
)
    requires
        confluence_datasource_field(section, from, to, create_only),
        nested_text(v, "spec"@, "index_type"@) == Some("confluence"@),
        datasource_request(v, is_update, request) == Some(true),
    ensures
        request is Json,
        request->Json_0 is Object,
        member_value(section_of(declaration_sections(v)->0, section), from) == Some(value) && !(value is Null)
            && !(create_only && is_update) ==> exists|i: int|
            0 <= i < request->Json_0->Object_0@.len() && #[trigger] body_view(request->Json_0->Object_0@)[i] == (to, value),
        create_only && is_update ==> forall|i: int|
            0 <= i < request->Json_0->Object_0@.len() ==> #[trigger] body_view(request->Json_0->Object_0@)[i].0 != to,
{
    reveal_strlit("file");
    reveal_strlit("confluence");
    assert("confluence"@ != "file"@) by {
        assert("confluence"@.len() != "file"@.len());
    }
    lemma_datasource_tables("confluence"@);
    reveal_strlit("cql");
    reveal_strlit("cron_expression");
    reveal_strlit("description");
    reveal_strlit("embedding_model");
    reveal_strlit("guardrail_assignments");
    reveal_strlit("include_archived_content");
    reveal_strlit("include_attachments");
    reveal_strlit("include_comments");
    reveal_strlit("include_restricted_content");
    reveal_strlit("keep_markdown_format");
    reveal_strlit("keep_newlines");
    reveal_strlit("name");
    reveal_strlit("project");
    reveal_strlit("project_name");
    reveal_strlit("project_space_visible");
    reveal_strlit("repo_name");
    reveal_strlit("setting_id");
    reveal_strlit("timezone");
    let t = rules::confluence_rule_table();
    let s = declaration_sections(v)->0;
    let b = body_view(request->Json_0->Object_0@);
    assert(projected_body(v, t, is_update) == Some(b));
    if section == Section::Metadata && from == "repo_name"@ && to == "name"@ && create_only {
        assert(t[0] == (Section::Metadata, "repo_name"@, "name"@, Presence::Required, When::CreateOnly));
        if member_value(section_of(s, section), from) == Some(value) && !(value is Null) && !(create_only && is_update) {
            assert forall|j: int| 0 <= j < 0 implies #[trigger] t[j].0 != t[0].0 || t[j].1 != t[0].1 by {
            }
            lemma_fold_sends_field(s, t, is_update, 0, value);
        }
        if is_update {
            assert forall|j: int| 0 <= j < t.len() && applies(t[j].4, is_update) implies #[trigger] t[j].2 != to by {
                if j == 1 { assert("project_name"@.len() != "name"@.len());
                } else if j == 2 { assert("description"@.len() != "name"@.len());
                } else if j == 3 { assert("cql"@.len() != "name"@.len());
                } else if j == 4 { assert("project_space_visible"@.len() != "name"@.len());
                } else if j == 5 { assert("setting_id"@.len() != "name"@.len());
                } else if j == 6 { assert("cron_expression"@.len() != "name"@.len());
                } else if j == 7 { assert("timezone"@.len() != "name"@.len());
                } else if j == 8 { assert("guardrail_assignments"@.len() != "name"@.len());
                }
            }
            lemma_fold_never_sends(s, t, is_update, to);
        }
    } else if section == Section::Metadata && from == "project"@ && to == "project_name"@ && !create_only {
        assert(t[1] == (Section::Metadata, "project"@, "project_name"@, Presence::Required, When::Always));
        if member_value(section_of(s, section), from) == Some(value) && !(value is Null) && !(create_only && is_update) {
            assert forall|j: int| 0 <= j < 1 implies #[trigger] t[j].0 != t[1].0 || t[j].1 != t[1].1 by {
                if j == 0 { assert("repo_name"@.len() != "project"@.len());
                }
            }
            lemma_fold_sends_field(s, t, is_update, 1, value);
        }
    } else if section == Section::Spec && from == "description"@ && to == "description"@ && !create_only {
        assert(t[2] == (Section::Spec, "description"@, "description"@, Presence::Required, When::Always));
        if member_value(section_of(s, section), from) == Some(value) && !(value is Null) && !(create_only && is_update) {
            assert forall|j: int| 0 <= j < 2 implies #[trigger] t[j].0 != t[2].0 || t[j].1 != t[2].1 by {
            }
            lemma_fold_sends_field(s, t, is_update, 2, value);
        }
    } else if section == Section::Spec && from == "cql"@ && to == "cql"@ && !create_only {
        assert(t[3] == (Section::Spec, "cql"@, "cql"@, Presence::Required, When::Always));
        if member_value(section_of(s, section), from) == Some(value) && !(value is Null) && !(create_only && is_update) {
            assert forall|j: int| 0 <= j < 3 implies #[trigger] t[j].0 != t[3].0 || t[j].1 != t[3].1 by {
                if j == 2 { assert("description"@.len() != "cql"@.len());
                }
            }
            lemma_fold_sends_field(s, t, is_update, 3, value);
        }
    } else if section == Section::Spec && from == "project_space_visible"@ && to == "project_space_visible"@ && !create_only {
        assert(t[4] == (Section::Spec, "project_space_visible"@, "project_space_visible"@, Presence::IfPresent, When::Always));
        if member_value(section_of(s, section), from) == Some(value) && !(value is Null) && !(create_only && is_update) {
            assert forall|j: int| 0 <= j < 4 implies #[trigger] t[j].0 != t[4].0 || t[j].1 != t[4].1 by {
                if j == 2 { assert("description"@.len() != "project_space_visible"@.len());
                } else if j == 3 { assert("cql"@.len() != "project_space_visible"@.len());
                }
            }
            lemma_fold_sends_field(s, t, is_update, 4, value);
        }
    } else if section == Section::Spec && from == "setting_id"@ && to == "setting_id"@ && !create_only {
        assert(t[5] == (Section::Spec, "setting_id"@, "setting_id"@, Presence::IfPresent, When::Always));
        if member_value(section_of(s, section), from) == Some(value) && !(value is Null) && !(create_only && is_update) {
            assert forall|j: int| 0 <= j < 5 implies #[trigger] t[j].0 != t[5].0 || t[j].1 != t[5].1 by {
                if j == 2 { assert("description"@.len() != "setting_id"@.len());
                } else if j == 3 { assert("cql"@.len() != "setting_id"@.len());
                } else if j == 4 { assert("project_space_visible"@.len() != "setting_id"@.len());
                }
            }
            lemma_fold_sends_field(s, t, is_update, 5, value);
        }
    } else if section == Section::Spec && from == "cron_expression"@ && to == "cron_expression"@ && !create_only {
        assert(t[6] == (Section::Spec, "cron_expression"@, "cron_expression"@, Presence::IfPresent, When::Always));
        if member_value(section_of(s, section), from) == Some(value) && !(value is Null) && !(create_only && is_update) {
            assert forall|j: int| 0 <= j < 6 implies #[trigger] t[j].0 != t[6].0 || t[j].1 != t[6].1 by {
                if j == 2 { assert("description"@.len() != "cron_expression"@.len());
                } else if j == 3 { assert("cql"@.len() != "cron_expression"@.len());
                } else if j == 4 { assert("project_space_visible"@.len() != "cron_expression"@.len());
                } else if j == 5 { assert("setting_id"@.len() != "cron_expression"@.len());
                }
            }
            lemma_fold_sends_field(s, t, is_update, 6, value);
        }
    } else if section == Section::Spec && from == "timezone"@ && to == "timezone"@ && !create_only {
        assert(t[7] == (Section::Spec, "timezone"@, "timezone"@, Presence::IfPresent, When::Always));
        if member_value(section_of(s, section), from) == Some(value) && !(value is Null) && !(create_only && is_update) {
            assert forall|j: int| 0 <= j < 7 implies #[trigger] t[j].0 != t[7].0 || t[j].1 != t[7].1 by {
                if j == 2 { assert("description"@.len() != "timezone"@.len());
                } else if j == 3 { assert("cql"@.len() != "timezone"@.len());
                } else if j == 4 { assert("project_space_visible"@.len() != "timezone"@.len());
                } else if j == 5 { assert("setting_id"@.len() != "timezone"@.len());
                } else if j == 6 { assert("cron_expression"@.len() != "timezone"@.len());
                }
            }
            lemma_fold_sends_field(s, t, is_update, 7, value);
        }
    } else if section == Section::Spec && from == "guardrail_assignments"@ && to == "guardrail_assignments"@ && !create_only {
        assert(t[8] == (Section::Spec, "guardrail_assignments"@, "guardrail_assignments"@, Presence::IfPresent, When::Always));
        if member_value(section_of(s, section), from) == Some(value) && !(value is Null) && !(create_only && is_update) {
            assert forall|j: int| 0 <= j < 8 implies #[trigger] t[j].0 != t[8].0 || t[j].1 != t[8].1 by {
                if j == 2 { assert("description"@.len() != "guardrail_assignments"@.len());
                } else if j == 3 { assert("cql"@.len() != "guardrail_assignments"@.len());
                } else if j == 4 { assert("project_space_visible"@[0] != "guardrail_assignments"@[0]);
                } else if j == 5 { assert("setting_id"@.len() != "guardrail_assignments"@.len());
                } else if j == 6 { assert("cron_expression"@.len() != "guardrail_assignments"@.len());
                } else if j == 7 { assert("timezone"@.len() != "guardrail_assignments"@.len());
                }
            }
            lemma_fold_sends_field(s, t, is_update, 8, value);
        }
    } else if section == Section::Spec && from == "include_restricted_content"@ && to == "include_restricted_content"@ && create_only {
        assert(t[9] == (Section::Spec, "include_restricted_content"@, "include_restricted_content"@, Presence::IfPresent, When::CreateOnly));
        if member_value(section_of(s, section), from) == Some(value) && !(value is Null) && !(create_only && is_update) {
            assert forall|j: int| 0 <= j < 9 implies #[trigger] t[j].0 != t[9].0 || t[j].1 != t[9].1 by {
                if j == 2 { assert("description"@.len() != "include_restricted_content"@.len());
                } else if j == 3 { assert("cql"@.len() != "include_restricted_content"@.len());
                } else if j == 4 { assert("project_space_visible"@.len() != "include_restricted_content"@.len());
                } else if j == 5 { assert("setting_id"@.len() != "include_restricted_content"@.len());
                } else if j == 6 { assert("cron_expression"@.len() != "include_restricted_content"@.len());
                } else if j == 7 { assert("timezone"@.len() != "include_restricted_content"@.len());
                } else if j == 8 { assert("guardrail_assignments"@.len() != "include_restricted_content"@.len());
                }
            }
            lemma_fold_sends_field(s, t, is_update, 9, value);
        }
        if is_update {
            assert forall|j: int| 0 <= j < t.len() && applies(t[j].4, is_update) implies #[trigger] t[j].2 != to by {
                if j == 1 { assert("project_name"@.len() != "include_restricted_content"@.len());
                } else if j == 2 { assert("description"@.len() != "include_restricted_content"@.len());
                } else if j == 3 { assert("cql"@.len() != "include_restricted_content"@.len());
                } else if j == 4 { assert("project_space_visible"@.len() != "include_restricted_content"@.len());
                } else if j == 5 { assert("setting_id"@.len() != "include_restricted_content"@.len());
                } else if j == 6 { assert("cron_expression"@.len() != "include_restricted_content"@.len());
                } else if j == 7 { assert("timezone"@.len() != "include_restricted_content"@.len());
                } else if j == 8 { assert("guardrail_assignments"@.len() != "include_restricted_content"@.len());
                }
            }
            lemma_fold_never_sends(s, t, is_update, to);
        }
    } else if section == Section::Spec && from == "include_archived_content"@ && to == "include_archived_content"@ && create_only {
        assert(t[10] == (Section::Spec, "include_archived_content"@, "include_archived_content"@, Presence::IfPresent, When::CreateOnly));
        if member_value(section_of(s, section), from) == Some(value) && !(value is Null) && !(create_only && is_update) {
            assert forall|j: int| 0 <= j < 10 implies #[trigger] t[j].0 != t[10].0 || t[j].1 != t[10].1 by {
                if j == 2 { assert("description"@.len() != "include_archived_content"@.len());
                } else if j == 3 { assert("cql"@.len() != "include_archived_content"@.len());
                } else if j == 4 { assert("project_space_visible"@.len() != "include_archived_content"@.len());
                } else if j == 5 { assert("setting_id"@.len() != "include_archived_content"@.len());
                } else if j == 6 { assert("cron_expression"@.len() != "include_archived_content"@.len());
                } else if j == 7 { assert("timezone"@.len() != "include_archived_content"@.len());
                } else if j == 8 { assert("guardrail_assignments"@.len() != "include_archived_content"@.len());
                } else if j == 9 { assert("include_restricted_content"@.len() != "include_archived_content"@.len());
                }
            }
            lemma_fold_sends_field(s, t, is_update, 10, value);
        }
        if is_update {
            assert forall|j: int| 0 <= j < t.len() && applies(t[j].4, is_update) implies #[trigger] t[j].2 != to by {
                if j == 1 { assert("project_name"@.len() != "include_archived_content"@.len());
                } else if j == 2 { assert("description"@.len() != "include_archived_content"@.len());
                } else if j == 3 { assert("cql"@.len() != "include_archived_content"@.len());
                } else if j == 4 { assert("project_space_visible"@.len() != "include_archived_content"@.len());
                } else if j == 5 { assert("setting_id"@.len() != "include_archived_content"@.len());
                } else if j == 6 { assert("cron_expression"@.len() != "include_archived_content"@.len());
                } else if j == 7 { assert("timezone"@.len() != "include_archived_content"@.len());
                } else if j == 8 { assert("guardrail_assignments"@.len() != "include_archived_content"@.len());
                }
            }
            lemma_fold_never_sends(s, t, is_update, to);
        }
    } else if section == Section::Spec && from == "include_attachments"@ && to == "include_attachments"@ && create_only {
        assert(t[11] == (Section::Spec, "include_attachments"@, "include_attachments"@, Presence::IfPresent, When::CreateOnly));
        if member_value(section_of(s, section), from) == Some(value) && !(value is Null) && !(create_only && is_update) {
            assert forall|j: int| 0 <= j < 11 implies #[trigger] t[j].0 != t[11].0 || t[j].1 != t[11].1 by {
                if j == 2 { assert("description"@.len() != "include_attachments"@.len());
                } else if j == 3 { assert("cql"@.len() != "include_attachments"@.len());
                } else if j == 4 { assert("project_space_visible"@.len() != "include_attachments"@.len());
                } else if j == 5 { assert("setting_id"@.len() != "include_attachments"@.len());
                } else if j == 6 { assert("cron_expression"@.len() != "include_attachments"@.len());
                } else if j == 7 { assert("timezone"@.len() != "include_attachments"@.len());
                } else if j == 8 { assert("guardrail_assignments"@.len() != "include_attachments"@.len());
                } else if j == 9 { assert("include_restricted_content"@.len() != "include_attachments"@.len());
                } else if j == 10 { assert("include_archived_content"@.len() != "include_attachments"@.len());
                }
            }
            lemma_fold_sends_field(s, t, is_update, 11, value);
        }
        if is_update {
            assert forall|j: int| 0 <= j < t.len() && applies(t[j].4, is_update) implies #[trigger] t[j].2 != to by {
                if j == 1 { assert("project_name"@.len() != "include_attachments"@.len());
                } else if j == 2 { assert("description"@.len() != "include_attachments"@.len());
                } else if j == 3 { assert("cql"@.len() != "include_attachments"@.len());
                } else if j == 4 { assert("project_space_visible"@.len() != "include_attachments"@.len());
                } else if j == 5 { assert("setting_id"@.len() != "include_attachments"@.len());
                } else if j == 6 { assert("cron_expression"@.len() != "include_attachments"@.len());
                } else if j == 7 { assert("timezone"@.len() != "include_attachments"@.len());
                } else if j == 8 { assert("guardrail_assignments"@.len() != "include_attachments"@.len());
                }
            }
            lemma_fold_never_sends(s, t, is_update, to);
        }
    } else if section == Section::Spec && from == "include_comments"@ && to == "include_comments"@ && create_only {
        assert(t[12] == (Section::Spec, "include_comments"@, "include_comments"@, Presence::IfPresent, When::CreateOnly));
        if member_value(section_of(s, section), from) == Some(value) && !(value is Null) && !(create_only && is_update) {
            assert forall|j: int| 0 <= j < 12 implies #[trigger] t[j].0 != t[12].0 || t[j].1 != t[12].1 by {
                if j == 2 { assert("description"@.len() != "include_comments"@.len());
                } else if j == 3 { assert("cql"@.len() != "include_comments"@.len());
                } else if j == 4 { assert("project_space_visible"@.len() != "include_comments"@.len());
                } else if j == 5 { assert("setting_id"@.len() != "include_comments"@.len());
                } else if j == 6 { assert("cron_expression"@.len() != "include_comments"@.len());
                } else if j == 7 { assert("timezone"@.len() != "include_comments"@.len());
                } else if j == 8 { assert("guardrail_assignments"@.len() != "include_comments"@.len());
                } else if j == 9 { assert("include_restricted_content"@.len() != "include_comments"@.len());
                } else if j == 10 { assert("include_archived_content"@.len() != "include_comments"@.len());
                } else if j == 11 { assert("include_attachments"@.len() != "include_comments"@.len());
                }
            }
            lemma_fold_sends_field(s, t, is_update, 12, value);
        }
        if is_update {
            assert forall|j: int| 0 <= j < t.len() && applies(t[j].4, is_update) implies #[trigger] t[j].2 != to by {
                if j == 1 { assert("project_name"@.len() != "include_comments"@.len());
                } else if j == 2 { assert("description"@.len() != "include_comments"@.len());
                } else if j == 3 { assert("cql"@.len() != "include_comments"@.len());
                } else if j == 4 { assert("project_space_visible"@.len() != "include_comments"@.len());
                } else if j == 5 { assert("setting_id"@.len() != "include_comments"@.len());
                } else if j == 6 { assert("cron_expression"@.len() != "include_comments"@.len());
                } else if j == 7 { assert("timezone"@.len() != "include_comments"@.len());
                } else if j == 8 { assert("guardrail_assignments"@.len() != "include_comments"@.len());
                }
            }
            lemma_fold_never_sends(s, t, is_update, to);
        }
    } else if section == Section::Spec && from == "keep_markdown_format"@ && to == "keep_markdown_format"@ && create_only {
        assert(t[13] == (Section::Spec, "keep_markdown_format"@, "keep_markdown_format"@, Presence::IfPresent, When::CreateOnly));
        if member_value(section_of(s, section), from) == Some(value) && !(value is Null) && !(create_only && is_update) {
            assert forall|j: int| 0 <= j < 13 implies #[trigger] t[j].0 != t[13].0 || t[j].1 != t[13].1 by {
                if j == 2 { assert("description"@.len() != "keep_markdown_format"@.len());
                } else if j == 3 { assert("cql"@.len() != "keep_markdown_format"@.len());
                } else if j == 4 { assert("project_space_visible"@.len() != "keep_markdown_format"@.len());
                } else if j == 5 { assert("setting_id"@.len() != "keep_markdown_format"@.len());
                } else if j == 6 { assert("cron_expression"@.len() != "keep_markdown_format"@.len());
                } else if j == 7 { assert("timezone"@.len() != "keep_markdown_format"@.len());
                } else if j == 8 { assert("guardrail_assignments"@.len() != "keep_markdown_format"@.len());
                } else if j == 9 { assert("include_restricted_content"@.len() != "keep_markdown_format"@.len());
                } else if j == 10 { assert("include_archived_content"@.len() != "keep_markdown_format"@.len());
                } else if j == 11 { assert("include_attachments"@.len() != "keep_markdown_format"@.len());
                } else if j == 12 { assert("include_comments"@.len() != "keep_markdown_format"@.len());
                }
            }
            lemma_fold_sends_field(s, t, is_update, 13, value);
        }
        if is_update {
            assert forall|j: int| 0 <= j < t.len() && applies(t[j].4, is_update) implies #[trigger] t[j].2 != to by {
                if j == 1 { assert("project_name"@.len() != "keep_markdown_format"@.len());
                } else if j == 2 { assert("description"@.len() != "keep_markdown_format"@.len());
                } else if j == 3 { assert("cql"@.len() != "keep_markdown_format"@.len());
                } else if j == 4 { assert("project_space_visible"@.len() != "keep_markdown_format"@.len());
                } else if j == 5 { assert("setting_id"@.len() != "keep_markdown_format"@.len());
                } else if j == 6 { assert("cron_expression"@.len() != "keep_markdown_format"@.len());
                } else if j == 7 { assert("timezone"@.len() != "keep_markdown_format"@.len());
                } else if j == 8 { assert("guardrail_assignments"@.len() != "keep_markdown_format"@.len());
                }
            }
            lemma_fold_never_sends(s, t, is_update, to);
        }
    } else if section == Section::Spec && from == "keep_newlines"@ && to == "keep_newlines"@ && create_only {
        assert(t[14] == (Section::Spec, "keep_newlines"@, "keep_newlines"@, Presence::IfPresent, When::CreateOnly));
        if member_value(section_of(s, section), from) == Some(value) && !(value is Null) && !(create_only && is_update) {
            assert forall|j: int| 0 <= j < 14 implies #[trigger] t[j].0 != t[14].0 || t[j].1 != t[14].1 by {
                if j == 2 { assert("description"@.len() != "keep_newlines"@.len());
                } else if j == 3 { assert("cql"@.len() != "keep_newlines"@.len());
                } else if j == 4 { assert("project_space_visible"@.len() != "keep_newlines"@.len());
                } else if j == 5 { assert("setting_id"@.len() != "keep_newlines"@.len());
                } else if j == 6 { assert("cron_expression"@.len() != "keep_newlines"@.len());
                } else if j == 7 { assert("timezone"@.len() != "keep_newlines"@.len());
                } else if j == 8 { assert("guardrail_assignments"@.len() != "keep_newlines"@.len());
                } else if j == 9 { assert("include_restricted_content"@.len() != "keep_newlines"@.len());
                } else if j == 10 { assert("include_archived_content"@.len() != "keep_newlines"@.len());
                } else if j == 11 { assert("include_attachments"@.len() != "keep_newlines"@.len());
                } else if j == 12 { assert("include_comments"@.len() != "keep_newlines"@.len());
                } else if j == 13 { assert("keep_markdown_format"@.len() != "keep_newlines"@.len());
                }
            }
            lemma_fold_sends_field(s, t, is_update, 14, value);
        }
        if is_update {
            assert forall|j: int| 0 <= j < t.len() && applies(t[j].4, is_update) implies #[trigger] t[j].2 != to by {
                if j == 1 { assert("project_name"@.len() != "keep_newlines"@.len());
                } else if j == 2 { assert("description"@.len() != "keep_newlines"@.len());
                } else if j == 3 { assert("cql"@.len() != "keep_newlines"@.len());
                } else if j == 4 { assert("project_space_visible"@.len() != "keep_newlines"@.len());
                } else if j == 5 { assert("setting_id"@.len() != "keep_newlines"@.len());
                } else if j == 6 { assert("cron_expression"@.len() != "keep_newlines"@.len());
                } else if j == 7 { assert("timezone"@.len() != "keep_newlines"@.len());
                } else if j == 8 { assert("guardrail_assignments"@.len() != "keep_newlines"@.len());
                }
            }
            lemma_fold_never_sends(s, t, is_update, to);
        }
    } else if section == Section::Spec && from == "embedding_model"@ && to == "embedding_model"@ && create_only {
        assert(t[15] == (Section::Spec, "embedding_model"@, "embedding_model"@, Presence::IfPresent, When::CreateOnly));
        if member_value(section_of(s, section), from) == Some(value) && !(value is Null) && !(create_only && is_update) {
            assert forall|j: int| 0 <= j < 15 implies #[trigger] t[j].0 != t[15].0 || t[j].1 != t[15].1 by {
                if j == 2 { assert("description"@.len() != "embedding_model"@.len());
                } else if j == 3 { assert("cql"@.len() != "embedding_model"@.len());
                } else if j == 4 { assert("project_space_visible"@.len() != "embedding_model"@.len());
                } else if j == 5 { assert("setting_id"@.len() != "embedding_model"@.len());
                } else if j == 6 { assert("cron_expression"@[0] != "embedding_model"@[0]);
                } else if j == 7 { assert("timezone"@.len() != "embedding_model"@.len());
                } else if j == 8 { assert("guardrail_assignments"@.len() != "embedding_model"@.len());
                } else if j == 9 { assert("include_restricted_content"@.len() != "embedding_model"@.len());
                } else if j == 10 { assert("include_archived_content"@.len() != "embedding_model"@.len());
                } else if j == 11 { assert("include_attachments"@.len() != "embedding_model"@.len());
                } else if j == 12 { assert("include_comments"@.len() != "embedding_model"@.len());
                } else if j == 13 { assert("keep_markdown_format"@.len() != "embedding_model"@.len());
                } else if j == 14 { assert("keep_newlines"@.len() != "embedding_model"@.len());
                }
            }
            lemma_fold_sends_field(s, t, is_update, 15, value);
        }
        if is_update {
            assert forall|j: int| 0 <= j < t.len() && applies(t[j].4, is_update) implies #[trigger] t[j].2 != to by {
                if j == 1 { assert("project_name"@.len() != "embedding_model"@.len());
                } else if j == 2 { assert("description"@.len() != "embedding_model"@.len());
                } else if j == 3 { assert("cql"@.len() != "embedding_model"@.len());
                } else if j == 4 { assert("project_space_visible"@.len() != "embedding_model"@.len());
                } else if j == 5 { assert("setting_id"@.len() != "embedding_model"@.len());
                } else if j == 6 { assert("cron_expression"@[0] != "embedding_model"@[0]);
                } else if j == 7 { assert("timezone"@.len() != "embedding_model"@.len());
                } else if j == 8 { assert("guardrail_assignments"@.len() != "embedding_model"@.len());
                }
            }
            lemma_fold_never_sends(s, t, is_update, to);
        }
    }
    if member_value(section_of(s, section), from) == Some(value) && !(value is Null) && !(create_only && is_update) {
        let fb = rules_fold(s, Seq::empty(), t, is_update)->Ok_0.1;
        let i = choose|i: int| 0 <= i < fb.len() && #[trigger] fb[i] == (to, value);
        assert(0 <= i < request->Json_0->Object_0@.len() && body_view(request->Json_0->Object_0@)[i] == (to, value));
    }
}

/// The members a Jira and Xray Datasource body sends: (section, declared field,
/// sent name, whether only a create sends it).
pub open spec fn jira_datasource_field(section: Section, from: Seq<char>, to: Seq<char>, create_only: bool) -> bool {
    ||| (section == Section::Metadata && from == "repo_name"@ && to == "name"@ && create_only)
    ||| (section == Section::Metadata && from == "project"@ && to == "project_name"@ && !create_only)
    ||| (section == Section::Spec && from == "description"@ && to == "description"@ && !create_only)
    ||| (section == Section::Spec && from == "jql"@ && to == "jql"@ && !create_only)
    ||| (section == Section::Spec && from == "project_space_visible"@ && to == "project_space_visible"@ && !create_only)
    ||| (section == Section::Spec && from == "setting_id"@ && to == "setting_id"@ && !create_only)
    ||| (section == Section::Spec && from == "cron_expression"@ && to == "cron_expression"@ && !create_only)
    ||| (section == Section::Spec && from == "timezone"@ && to == "timezone"@ && !create_only)
    ||| (section == Section::Spec && from == "guardrail_assignments"@ && to == "guardrail_assignments"@ && !create_only)
    ||| (section == Section::Spec && from == "embedding_model"@ && to == "embedding_model"@ && create_only)
}

/// On every write of a jira Datasource the body sends each declared field
/// under its name, and a create-only field is sent on a create and never
/// on an update.
pub proof fn law_jira_datasource_body(
    v: JsonValue,
    is_update: bool,
    request: RequestBody,
    section: Section,
    from: Seq<char>,
    to: Seq<char>,
    create_only: bool,
    value: JsonValue,
)
    requires
        jira_datasource_field(section, from, to, create_only),
        nested_text(v, "spec"@, "index_type"@) == Some("jira"@),
        datasource_request(v, is_update, request) == Some(true),
    ensures
        request is Json,
        request->Json_0 is Object,
        member_value(section_of(declaration_sections(v)->0, section), from) == Some(value) && !(value is Null)
            && !(create_only && is_update) ==> exists|i: int|
            0 <= i < request->Json_0->Object_0@.len() && #[trigger] body_view(request->Json_0->Object_0@)[i] == (to, value),
        create_only && is_update ==> forall|i: int|
            0 <= i < request->Json_0->Object_0@.len() ==> #[trigger] body_view(request->Json_0->Object_0@)[i].0 != to,
{
    reveal_strlit("file");
    reveal_strlit("jira");
    assert("jira"@ != "file"@) by {
        assert("jira"@[0] != "file"@[0]);
    }
    lemma_datasource_tables("jira"@);
    reveal_strlit("cron_expression");
    reveal_strlit("description");
    reveal_strlit("embedding_model");
    reveal_strlit("guardrail_assignments");
    reveal_strlit("jql");
    reveal_strlit("name");
    reveal_strlit("project");
    reveal_strlit("project_name");
    reveal_strlit("project_space_visible");
    reveal_strlit("repo_name");
    reveal_strlit("setting_id");
    reveal_strlit("timezone");
    let t = rules::jira_rule_table();
    let s = declaration_sections(v)->0;
    let b = body_view(request->Json_0->Object_0@);
    assert(projected_body(v, t, is_update) == Some(b));
    if section == Section::Metadata && from == "repo_name"@ && to == "name"@ && create_only {
        assert(t[0] == (Section::Metadata, "repo_name"@, "name"@, Presence::Required, When::CreateOnly));
        if member_value(section_of(s, section), from) == Some(value) && !(value is Null) && !(create_only && is_update) {
            assert forall|j: int| 0 <= j < 0 implies #[trigger] t[j].0 != t[0].0 || t[j].1 != t[0].1 by {
            }
            lemma_fold_sends_field(s, t, is_update, 0, value);
        }
        if is_update {
            assert forall|j: int| 0 <= j < t.len() && applies(t[j].4, is_update) implies #[trigger] t[j].2 != to by {
                if j == 1 { assert("project_name"@.len() != "name"@.len());
                } else if j == 2 { assert("description"@.len() != "name"@.len());
                } else if j == 3 { assert("jql"@.len() != "name"@.len());
                } else if j == 4 { assert("project_space_visible"@.len() != "name"@.len());
                } else if j == 5 { assert("setting_id"@.len() != "name"@.len());
                } else if j == 6 { assert("cron_expression"@.len() != "name"@.len());
                } else if j == 7 { assert("timezone"@.len() != "name"@.len());
                } else if j == 8 { assert("guardrail_assignments"@.len() != "name"@.len());
                }
            }
            lemma_fold_never_sends(s, t, is_update, to);
        }
    } else if section == Section::Metadata && from == "project"@ && to == "project_name"@ && !create_only {
        assert(t[1] == (Section::Metadata, "project"@, "project_name"@, Presence::Required, When::Always));
        if member_value(section_of(s, section), from) == Some(value) && !(value is Null) && !(create_only && is_update) {
            assert forall|j: int| 0 <= j < 1 implies #[trigger] t[j].0 != t[1].0 || t[j].1 != t[1].1 by {
                if j == 0 { assert("repo_name"@.len() != "project"@.len());
                }
            }
            lemma_fold_sends_field(s, t, is_update, 1, value);
        }
    } else if section == Section::Spec && from == "description"@ && to == "description"@ && !create_only {
        assert(t[2] == (Section::Spec, "description"@, "description"@, Presence::Required, When::Always));
        if member_value(section_of(s, section), from) == Some(value) && !(value is Null) && !(create_only && is_update) {
            assert forall|j: int| 0 <= j < 2 implies #[trigger] t[j].0 != t[2].0 || t[j].1 != t[2].1 by {
            }
            lemma_fold_sends_field(s, t, is_update, 2, value);
        }
    } else if section == Section::Spec && from == "jql"@ && to == "jql"@ && !create_only {
        assert(t[3] == (Section::Spec, "jql"@, "jql"@, Presence::Required, When::Always));
        if member_value(section_of(s, section), from) == Some(value) && !(value is Null) && !(create_only && is_update) {
            assert forall|j: int| 0 <= j < 3 implies #[trigger] t[j].0 != t[3].0 || t[j].1 != t[3].1 by {
                if j == 2 { assert("description"@.len() != "jql"@.len());
                }
            }
            lemma_fold_sends_field(s, t, is_update, 3, value);
        }
    } else if section == Section::Spec && from == "project_space_visible"@ && to == "project_space_visible"@ && !create_only {
        assert(t[4] == (Section::Spec, "project_space_visible"@, "project_space_visible"@, Presence::IfPresent, When::Always));
        if member_value(section_of(s, section), from) == Some(value) && !(value is Null) && !(create_only && is_update) {
            assert forall|j: int| 0 <= j < 4 implies #[trigger] t[j].0 != t[4].0 || t[j].1 != t[4].1 by {
                if j == 2 { assert("description"@.len() != "project_space_visible"@.len());
                } else if j == 3 { assert("jql"@.len() != "project_space_visible"@.len());
                }
            }
            lemma_fold_sends_field(s, t, is_update, 4, value);
        }
    } else if section == Section::Spec && from == "setting_id"@ && to == "setting_id"@ && !create_only {
        assert(t[5] == (Section::Spec, "setting_id"@, "setting_id"@, Presence::IfPresent, When::Always));
        if member_value(section_of(s, section), from) == Some(value) && !(value is Null) && !(create_only && is_update) {
            assert forall|j: int| 0 <= j < 5 implies #[trigger] t[j].0 != t[5].0 || t[j].1 != t[5].1 by {
                if j == 2 { assert("description"@.len() != "setting_id"@.len());
                } else if j == 3 { assert("jql"@.len() != "setting_id"@.len());
                } else if j == 4 { assert("project_space_visible"@.len() != "setting_id"@.len());
                }
            }
            lemma_fold_sends_field(s, t, is_update, 5, value);
        }
    } else if section == Section::Spec && from == "cron_expression"@ && to == "cron_expression"@ && !create_only {
        assert(t[6] == (Section::Spec, "cron_expression"@, "cron_expression"@, Presence::IfPresent, When::Always));
        if member_value(section_of(s, section), from) == Some(value) && !(value is Null) && !(create_only && is_update) {
            assert forall|j: int| 0 <= j < 6 implies #[trigger] t[j].0 != t[6].0 || t[j].1 != t[6].1 by {
                if j == 2 { assert("description"@.len() != "cron_expression"@.len());
                } else if j == 3 { assert("jql"@.len() != "cron_expression"@.len());
                } else if j == 4 { assert("project_space_visible"@.len() != "cron_expression"@.len());
                } else if j == 5 { assert("setting_id"@.len() != "cron_expression"@.len());
                }
            }
            lemma_fold_sends_field(s, t, is_update, 6, value);
        }
    } else if section == Section::Spec && from == "timezone"@ && to == "timezone"@ && !create_only {
        assert(t[7] == (Section::Spec, "timezone"@, "timezone"@, Presence::IfPresent, When::Always));
        if member_value(section_of(s, section), from) == Some(value) && !(value is Null) && !(create_only && is_update) {
            assert forall|j: int| 0 <= j < 7 implies #[trigger] t[j].0 != t[7].0 || t[j].1 != t[7].1 by {
                if j == 2 { assert("description"@.len() != "timezone"@.len());
                } else if j == 3 { assert("jql"@.len() != "timezone"@.len());
                } else if j == 4 { assert("project_space_visible"@.len() != "timezone"@.len());
                } else if j == 5 { assert("setting_id"@.len() != "timezone"@.len());
                } else if j == 6 { assert("cron_expression"@.len() != "timezone"@.len());
                }
            }
            lemma_fold_sends_field(s, t, is_update, 7, value);
        }
    } else if section == Section::Spec && from == "guardrail_assignments"@ && to == "guardrail_assignments"@ && !create_only {
        assert(t[8] == (Section::Spec, "guardrail_assignments"@, "guardrail_assignments"@, Presence::IfPresent, When::Always));
        if member_value(section_of(s, section), from) == Some(value) && !(value is Null) && !(create_only && is_update) {
            assert forall|j: int| 0 <= j < 8 implies #[trigger] t[j].0 != t[8].0 || t[j].1 != t[8].1 by {
                if j == 2 { assert("description"@.len() != "guardrail_assignments"@.len());
                } else if j == 3 { assert("jql"@.len() != "guardrail_assignments"@.len());
                } else if j == 4 { assert("project_space_visible"@[0] != "guardrail_assignments"@[0]);
                } else if j == 5 { assert("setting_id"@.len() != "guardrail_assignments"@.len());
                } else if j == 6 { assert("cron_expression"@.len() != "guardrail_assignments"@.len());
                } else if j == 7 { assert("timezone"@.len() != "guardrail_assignments"@.len());
                }
            }
            lemma_fold_sends_field(s, t, is_update, 8, value);
        }
    } else if section == Section::Spec && from == "embedding_model"@ && to == "embedding_model"@ && create_only {
        assert(t[9] == (Section::Spec, "embedding_model"@, "embedding_model"@, Presence::IfPresent, When::CreateOnly));
        if member_value(section_of(s, section), from) == Some(value) && !(value is Null) && !(create_only && is_update) {
            assert forall|j: int| 0 <= j < 9 implies #[trigger] t[j].0 != t[9].0 || t[j].1 != t[9].1 by {
                if j == 2 { assert("description"@.len() != "embedding_model"@.len());
                } else if j == 3 { assert("jql"@.len() != "embedding_model"@.len());
                } else if j == 4 { assert("project_space_visible"@.len() != "embedding_model"@.len());
                } else if j == 5 { assert("setting_id"@.len() != "embedding_model"@.len());
                } else if j == 6 { assert("cron_expression"@[0] != "embedding_model"@[0]);
                } else if j == 7 { assert("timezone"@.len() != "embedding_model"@.len());
                } else if j == 8 { assert("guardrail_assignments"@.len() != "embedding_model"@.len());
                }
            }
            lemma_fold_sends_field(s, t, is_update, 9, value);
        }
        if is_update {
            assert forall|j: int| 0 <= j < t.len() && applies(t[j].4, is_update) implies #[trigger] t[j].2 != to by {
                if j == 1 { assert("project_name"@.len() != "embedding_model"@.len());
                } else if j == 2 { assert("description"@.len() != "embedding_model"@.len());
                } else if j == 3 { assert("jql"@.len() != "embedding_model"@.len());
                } else if j == 4 { assert("project_space_visible"@.len() != "embedding_model"@.len());
                } else if j == 5 { assert("setting_id"@.len() != "embedding_model"@.len());
                } else if j == 6 { assert("cron_expression"@[0] != "embedding_model"@[0]);
                } else if j == 7 { assert("timezone"@.len() != "embedding_model"@.len());
                } else if j == 8 { assert("guardrail_assignments"@.len() != "embedding_model"@.len());
                }
            }
            lemma_fold_never_sends(s, t, is_update, to);
        }
    }
    if member_value(section_of(s, section), from) == Some(value) && !(value is Null) && !(create_only && is_update) {
        let fb = rules_fold(s, Seq::empty(), t, is_update)->Ok_0.1;
        let i = choose|i: int| 0 <= i < fb.len() && #[trigger] fb[i] == (to, value);
        assert(0 <= i < request->Json_0->Object_0@.len() && body_view(request->Json_0->Object_0@)[i] == (to, value));
    }
}

/// On every write of a xray Datasource the body sends each declared field
/// under its name, and a create-only field is sent on a create and never
/// on an update.
pub proof fn law_xray_datasource_body(
    v: JsonValue,
    is_update: bool,
    request: RequestBody,
    section: Section,
    from: Seq<char>,
    to: Seq<char>,
    create_only: bool,
    value: JsonValue,
)
    requires
        jira_datasource_field(section, from, to, create_only),
        nested_text(v, "spec"@, "index_type"@) == Some("xray"@),
        datasource_request(v, is_update, request) == Some(true),
    ensures
        request is Json,
        request->Json_0 is Object,
        member_value(section_of(declaration_sections(v)->0, section), from) == Some(value) && !(value is Null)
            && !(create_only && is_update) ==> exists|i: int|
            0 <= i < request->Json_0->Object_0@.len() && #[trigger] body_view(request->Json_0->Object_0@)[i] == (to, value),
        create_only && is_update ==> forall|i: int|
            0 <= i < request->Json_0->Object_0@.len() ==> #[trigger] body_view(request->Json_0->Object_0@)[i].0 != to,
{
    reveal_strlit("file");
    reveal_strlit("xray");
    assert("xray"@ != "file"@) by {
        assert("xray"@[0] != "file"@[0]);
    }
    lemma_datasource_tables("xray"@);
    reveal_strlit("cron_expression");
    reveal_strlit("description");
    reveal_strlit("embedding_model");
    reveal_strlit("guardrail_assignments");
    reveal_strlit("jql");
    reveal_strlit("name");
    reveal_strlit("project");
    reveal_strlit("project_name");
    reveal_strlit("project_space_visible");
    reveal_strlit("repo_name");
    reveal_strlit("setting_id");
    reveal_strlit("timezone");
    let t = rules::jira_rule_table();
    let s = declaration_sections(v)->0;
    let b = body_view(request->Json_0->Object_0@);
    assert(projected_body(v, t, is_update) == Some(b));
    if section == Section::Metadata && from == "repo_name"@ && to == "name"@ && create_only {
        assert(t[0] == (Section::Metadata, "repo_name"@, "name"@, Presence::Required, When::CreateOnly));
        if member_value(section_of(s, section), from) == Some(value) && !(value is Null) && !(create_only && is_update) {
            assert forall|j: int| 0 <= j < 0 implies #[trigger] t[j].0 != t[0].0 || t[j].1 != t[0].1 by {
            }
            lemma_fold_sends_field(s, t, is_update, 0, value);
        }
        if is_update {
            assert forall|j: int| 0 <= j < t.len() && applies(t[j].4, is_update) implies #[trigger] t[j].2 != to by {
                if j == 1 { assert("project_name"@.len() != "name"@.len());
                } else if j == 2 { assert("description"@.len() != "name"@.len());
                } else if j == 3 { assert("jql"@.len() != "name"@.len());
                } else if j == 4 { assert("project_space_visible"@.len() != "name"@.len());
                } else if j == 5 { assert("setting_id"@.len() != "name"@.len());
                } else if j == 6 { assert("cron_expression"@.len() != "name"@.len());
                } else if j == 7 { assert("timezone"@.len() != "name"@.len());
                } else if j == 8 { assert("guardrail_assignments"@.len() != "name"@.len());
                }
            }
            lemma_fold_never_sends(s, t, is_update, to);
        }
    } else if section == Section::Metadata && from == "project"@ && to == "project_name"@ && !create_only {
        assert(t[1] == (Section::Metadata, "project"@, "project_name"@, Presence::Required, When::Always));
        if member_value(section_of(s, section), from) == Some(value) && !(value is Null) && !(create_only && is_update) {
            assert forall|j: int| 0 <= j < 1 implies #[trigger] t[j].0 != t[1].0 || t[j].1 != t[1].1 by {
                if j == 0 { assert("repo_name"@.len() != "project"@.len());
                }
            }
            lemma_fold_sends_field(s, t, is_update, 1, value);
        }
    } else if section == Section::Spec && from == "description"@ && to == "description"@ && !create_only {
        assert(t[2] == (Section::Spec, "description"@, "description"@, Presence::Required, When::Always));
        if member_value(section_of(s, section), from) == Some(value) && !(value is Null) && !(create_only && is_update) {
            assert forall|j: int| 0 <= j < 2 implies #[trigger] t[j].0 != t[2].0 || t[j].1 != t[2].1 by {
            }
            lemma_fold_sends_field(s, t, is_update, 2, value);
        }
    } else if section == Section::Spec && from == "jql"@ && to == "jql"@ && !create_only {
        assert(t[3] == (Section::Spec, "jql"@, "jql"@, Presence::Required, When::Always));
        if member_value(section_of(s, section), from) == Some(value) && !(value is Null) && !(create_only && is_update) {
            assert forall|j: int| 0 <= j < 3 implies #[trigger] t[j].0 != t[3].0 || t[j].1 != t[3].1 by {
                if j == 2 { assert("description"@.len() != "jql"@.len());
                }
            }
            lemma_fold_sends_field(s, t, is_update, 3, value);
        }
    } else if section == Section::Spec && from == "project_space_visible"@ && to == "project_space_visible"@ && !create_only {
        assert(t[4] == (Section::Spec, "project_space_visible"@, "project_space_visible"@, Presence::IfPresent, When::Always));
        if member_value(section_of(s, section), from) == Some(value) && !(value is Null) && !(create_only && is_update) {
            assert forall|j: int| 0 <= j < 4 implies #[trigger] t[j].0 != t[4].0 || t[j].1 != t[4].1 by {
                if j == 2 { assert("description"@.len() != "project_space_visible"@.len());
                } else if j == 3 { assert("jql"@.len() != "project_space_visible"@.len());
                }
            }
            lemma_fold_sends_field(s, t, is_update, 4, value);
        }
    } else if section == Section::Spec && from == "setting_id"@ && to == "setting_id"@ && !create_only {
        assert(t[5] == (Section::Spec, "setting_id"@, "setting_id"@, Presence::IfPresent, When::Always));
        if member_value(section_of(s, section), from) == Some(value) && !(value is Null) && !(create_only && is_update) {
            assert forall|j: int| 0 <= j < 5 implies #[trigger] t[j].0 != t[5].0 || t[j].1 != t[5].1 by {
                if j == 2 { assert("description"@.len() != "setting_id"@.len());
                } else if j == 3 { assert("jql"@.len() != "setting_id"@.len());
                } else if j == 4 { assert("project_space_visible"@.len() != "setting_id"@.len());
                }
            }
            lemma_fold_sends_field(s, t, is_update, 5, value);
        }
    } else if section == Section::Spec && from == "cron_expression"@ && to == "cron_expression"@ && !create_only {
        assert(t[6] == (Section::Spec, "cron_expression"@, "cron_expression"@, Presence::IfPresent, When::Always));
        if member_value(section_of(s, section), from) == Some(value) && !(value is Null) && !(create_only && is_update) {
            assert forall|j: int| 0 <= j < 6 implies #[trigger] t[j].0 != t[6].0 || t[j].1 != t[6].1 by {
                if j == 2 { assert("description"@.len() != "cron_expression"@.len());
                } else if j == 3 { assert("jql"@.len() != "cron_expression"@.len());
                } else if j == 4 { assert("project_space_visible"@.len() != "cron_expression"@.len());
                } else if j == 5 { assert("setting_id"@.len() != "cron_expression"@.len());
                }
            }
            lemma_fold_sends_field(s, t, is_update, 6, value);
        }
    } else if section == Section::Spec && from == "timezone"@ && to == "timezone"@ && !create_only {
        assert(t[7] == (Section::Spec, "timezone"@, "timezone"@, Presence::IfPresent, When::Always));
        if member_value(section_of(s, section), from) == Some(value) && !(value is Null) && !(create_only && is_update) {
            assert forall|j: int| 0 <= j < 7 implies #[trigger] t[j].0 != t[7].0 || t[j].1 != t[7].1 by {
                if j == 2 { assert("description"@.len() != "timezone"@.len());
                } else if j == 3 { assert("jql"@.len() != "timezone"@.len());
                } else if j == 4 { assert("project_space_visible"@.len() != "timezone"@.len());
                } else if j == 5 { assert("setting_id"@.len() != "timezone"@.len());
                } else if j == 6 { assert("cron_expression"@.len() != "timezone"@.len());
                }
            }
            lemma_fold_sends_field(s, t, is_update, 7, value);
        }
    } else if section == Section::Spec && from == "guardrail_assignments"@ && to == "guardrail_assignments"@ && !create_only {
        assert(t[8] == (Section::Spec, "guardrail_assignments"@, "guardrail_assignments"@, Presence::IfPresent, When::Always));
        if member_value(section_of(s, section), from) == Some(value) && !(value is Null) && !(create_only && is_update) {
            assert forall|j: int| 0 <= j < 8 implies #[trigger] t[j].0 != t[8].0 || t[j].1 != t[8].1 by {
                if j == 2 { assert("description"@.len() != "guardrail_assignments"@.len());
                } else if j == 3 { assert("jql"@.len() != "guardrail_assignments"@.len());
                } else if j == 4 { assert("project_space_visible"@[0] != "guardrail_assignments"@[0]);
                } else if j == 5 { assert("setting_id"@.len() != "guardrail_assignments"@.len());
                } else if j == 6 { assert("cron_expression"@.len() != "guardrail_assignments"@.len());
                } else if j == 7 { assert("timezone"@.len() != "guardrail_assignments"@.len());
                }
            }
            lemma_fold_sends_field(s, t, is_update, 8, value);
        }
    } else if section == Section::Spec && from == "embedding_model"@ && to == "embedding_model"@ && create_only {
        assert(t[9] == (Section::Spec, "embedding_model"@, "embedding_model"@, Presence::IfPresent, When::CreateOnly));
        if member_value(section_of(s, section), from) == Some(value) && !(value is Null) && !(create_only && is_update) {
            assert forall|j: int| 0 <= j < 9 implies #[trigger] t[j].0 != t[9].0 || t[j].1 != t[9].1 by {
                if j == 2 { assert("description"@.len() != "embedding_model"@.len());
                } else if j == 3 { assert("jql"@.len() != "embedding_model"@.len());
                } else if j == 4 { assert("project_space_visible"@.len() != "embedding_model"@.len());
                } else if j == 5 { assert("setting_id"@.len() != "embedding_model"@.len());
                } else if j == 6 { assert("cron_expression"@[0] != "embedding_model"@[0]);
                } else if j == 7 { assert("timezone"@.len() != "embedding_model"@.len());
                } else if j == 8 { assert("guardrail_assignments"@.len() != "embedding_model"@.len());
                }
            }
            lemma_fold_sends_field(s, t, is_update, 9, value);
        }
        if is_update {
            assert forall|j: int| 0 <= j < t.len() && applies(t[j].4, is_update) implies #[trigger] t[j].2 != to by {
                if j == 1 { assert("project_name"@.len() != "embedding_model"@.len());
                } else if j == 2 { assert("description"@.len() != "embedding_model"@.len());
                } else if j == 3 { assert("jql"@.len() != "embedding_model"@.len());
                } else if j == 4 { assert("project_space_visible"@.len() != "embedding_model"@.len());
                } else if j == 5 { assert("setting_id"@.len() != "embedding_model"@.len());
                } else if j == 6 { assert("cron_expression"@[0] != "embedding_model"@[0]);
                } else if j == 7 { assert("timezone"@.len() != "embedding_model"@.len());
                } else if j == 8 { assert("guardrail_assignments"@.len() != "embedding_model"@.len());
                }
            }
            lemma_fold_never_sends(s, t, is_update, to);
        }
    }
    if member_value(section_of(s, section), from) == Some(value) && !(value is Null) && !(create_only && is_update) {
        let fb = rules_fold(s, Seq::empty(), t, is_update)->Ok_0.1;
        let i = choose|i: int| 0 <= i < fb.len() && #[trigger] fb[i] == (to, value);
        assert(0 <= i < request->Json_0->Object_0@.len() && body_view(request->Json_0->Object_0@)[i] == (to, value));
    }
}

/// The members a Google Docs Datasource body sends: (section, declared field,
/// sent name, whether only a create sends it).
pub open spec fn google_datasource_field(section: Section, from: Seq<char>, to: Seq<char>, create_only: bool) -> bool {
    ||| (section == Section::Metadata && from == "repo_name"@ && to == "name"@ && create_only)
    ||| (section == Section::Metadata && from == "project"@ && to == "project_name"@ && !create_only)
    ||| (section == Section::Spec && from == "description"@ && to == "description"@ && !create_only)
    ||| (section == Section::Spec && from == "project_space_visible"@ && to == "project_space_visible"@ && !create_only)
    ||| (section == Section::Spec && from == "cron_expression"@ && to == "cron_expression"@ && !create_only)
    ||| (section == Section::Spec && from == "timezone"@ && to == "timezone"@ && !create_only)
    ||| (section == Section::Spec && from == "guardrail_assignments"@ && to == "guardrail_assignments"@ && !create_only)
    ||| (section == Section::Spec && from == "googleDoc"@ && to == "googleDoc"@ && create_only)
    ||| (section == Section::Spec && from == "setting_id"@ && to == "setting_id"@ && create_only)
    ||| (section == Section::Spec && from == "embedding_model"@ && to == "embedding_model"@ && create_only)
}

/// On every write of a google Datasource the body sends each declared field
/// under its name, and a create-only field is sent on a create and never
/// on an update.
pub proof fn law_google_datasource_body(
    v: JsonValue,
    is_update: bool,
    request: RequestBody,
    section: Section,
    from: Seq<char>,
    to: Seq<char>,
    create_only: bool,
    value: JsonValue,
)
    requires
        google_datasource_field(section, from, to, create_only),
        nested_text(v, "spec"@, "index_type"@) == Some("google"@),
        datasource_request(v, is_update, request) == Some(true),
    ensures
        request is Json,
        request->Json_0 is Object,
        member_value(section_of(declaration_sections(v)->0, section), from) == Some(value) && !(value is Null)
            && !(create_only && is_update) ==> exists|i: int|
            0 <= i < request->Json_0->Object_0@.len() && #[trigger] body_view(request->Json_0->Object_0@)[i] == (to, value),
        create_only && is_update ==> forall|i: int|
            0 <= i < request->Json_0->Object_0@.len() ==> #[trigger] body_view(request->Json_0->Object_0@)[i].0 != to,
{
    reveal_strlit("file");
    reveal_strlit("google");
    assert("google"@ != "file"@) by {
        assert("google"@.len() != "file"@.len());
    }
    lemma_datasource_tables("google"@);
    reveal_strlit("cron_expression");
    reveal_strlit("description");
    reveal_strlit("embedding_model");
    reveal_strlit("googleDoc");
    reveal_strlit("guardrail_assignments");
    reveal_strlit("name");
    reveal_strlit("project");
    reveal_strlit("project_name");
    reveal_strlit("project_space_visible");
    reveal_strlit("repo_name");
    reveal_strlit("setting_id");
    reveal_strlit("timezone");
    let t = rules::google_rule_table();
    let s = declaration_sections(v)->0;
    let b = body_view(request->Json_0->Object_0@);
    assert(projected_body(v, t, is_update) == Some(b));
    if section == Section::Metadata && from == "repo_name"@ && to == "name"@ && create_only {
        assert(t[0] == (Section::Metadata, "repo_name"@, "name"@, Presence::Required, When::CreateOnly));
        if member_value(section_of(s, section), from) == Some(value) && !(value is Null) && !(create_only && is_update) {
            assert forall|j: int| 0 <= j < 0 implies #[trigger] t[j].0 != t[0].0 || t[j].1 != t[0].1 by {
            }
            lemma_fold_sends_field(s, t, is_update, 0, value);
        }
        if is_update {
            assert forall|j: int| 0 <= j < t.len() && applies(t[j].4, is_update) implies #[trigger] t[j].2 != to by {
                if j == 1 { assert("project_name"@.len() != "name"@.len());
                } else if j == 2 { assert("description"@.len() != "name"@.len());
                } else if j == 3 { assert("project_space_visible"@.len() != "name"@.len());
                } else if j == 4 { assert("cron_expression"@.len() != "name"@.len());
                } else if j == 5 { assert("timezone"@.len() != "name"@.len());
                } else if j == 6 { assert("guardrail_assignments"@.len() != "name"@.len());
                }
            }
            lemma_fold_never_sends(s, t, is_update, to);
        }
    } else if section == Section::Metadata && from == "project"@ && to == "project_name"@ && !create_only {
        assert(t[1] == (Section::Metadata, "project"@, "project_name"@, Presence::Required, When::Always));
        if member_value(section_of(s, section), from) == Some(value) && !(value is Null) && !(create_only && is_update) {
            assert forall|j: int| 0 <= j < 1 implies #[trigger] t[j].0 != t[1].0 || t[j].1 != t[1].1 by {
                if j == 0 { assert("repo_name"@.len() != "project"@.len());
                }
            }
            lemma_fold_sends_field(s, t, is_update, 1, value);
        }
    } else if section == Section::Spec && from == "description"@ && to == "description"@ && !create_only {
        assert(t[2] == (Section::Spec, "description"@, "description"@, Presence::Required, When::Always));
        if member_value(section_of(s, section), from) == Some(value) && !(value is Null) && !(create_only && is_update) {
            assert forall|j: int| 0 <= j < 2 implies #[trigger] t[j].0 != t[2].0 || t[j].1 != t[2].1 by {
            }
            lemma_fold_sends_field(s, t, is_update, 2, value);
        }
    } else if section == Section::Spec && from == "project_space_visible"@ && to == "project_space_visible"@ && !create_only {
        assert(t[3] == (Section::Spec, "project_space_visible"@, "project_space_visible"@, Presence::IfPresent, When::Always));
        if member_value(section_of(s, section), from) == Some(value) && !(value is Null) && !(create_only && is_update) {
            assert forall|j: int| 0 <= j < 3 implies #[trigger] t[j].0 != t[3].0 || t[j].1 != t[3].1 by {
                if j == 2 { assert("description"@.len() != "project_space_visible"@.len());
                }
            }
            lemma_fold_sends_field(s, t, is_update, 3, value);
        }
    } else if section == Section::Spec && from == "cron_expression"@ && to == "cron_expression"@ && !create_only {
        assert(t[4] == (Section::Spec, "cron_expression"@, "cron_expression"@, Presence::IfPresent, When::Always));
        if member_value(section_of(s, section), from) == Some(value) && !(value is Null) && !(create_only && is_update) {
            assert forall|j: int| 0 <= j < 4 implies #[trigger] t[j].0 != t[4].0 || t[j].1 != t[4].1 by {
                if j == 2 { assert("description"@.len() != "cron_expression"@.len());
                } else if j == 3 { assert("project_space_visible"@.len() != "cron_expression"@.len());
                }
            }
            lemma_fold_sends_field(s, t, is_update, 4, value);
        }
    } else if section == Section::Spec && from == "timezone"@ && to == "timezone"@ && !create_only {
        assert(t[5] == (Section::Spec, "timezone"@, "timezone"@, Presence::IfPresent, When::Always));
        if member_value(section_of(s, section), from) == Some(value) && !(value is Null) && !(create_only && is_update) {
            assert forall|j: int| 0 <= j < 5 implies #[trigger] t[j].0 != t[5].0 || t[j].1 != t[5].1 by {
                if j == 2 { assert("description"@.len() != "timezone"@.len());
                } else if j == 3 { assert("project_space_visible"@.len() != "timezone"@.len());
                } else if j == 4 { assert("cron_expression"@.len() != "timezone"@.len());
                }
            }
            lemma_fold_sends_field(s, t, is_update, 5, value);
        }
    } else if section == Section::Spec && from == "guardrail_assignments"@ && to == "guardrail_assignments"@ && !create_only {
        assert(t[6] == (Section::Spec, "guardrail_assignments"@, "guardrail_assignments"@, Presence::IfPresent, When::Always));
        if member_value(section_of(s, section), from) == Some(value) && !(value is Null) && !(create_only && is_update) {
            assert forall|j: int| 0 <= j < 6 implies #[trigger] t[j].0 != t[6].0 || t[j].1 != t[6].1 by {
                if j == 2 { assert("description"@.len() != "guardrail_assignments"@.len());
                } else if j == 3 { assert("project_space_visible"@[0] != "guardrail_assignments"@[0]);
                } else if j == 4 { assert("cron_expression"@.len() != "guardrail_assignments"@.len());
                } else if j == 5 { assert("timezone"@.len() != "guardrail_assignments"@.len());
                }
            }
            lemma_fold_sends_field(s, t, is_update, 6, value);
        }
    } else if section == Section::Spec && from == "googleDoc"@ && to == "googleDoc"@ && create_only {
        assert(t[7] == (Section::Spec, "googleDoc"@, "googleDoc"@, Presence::Required, When::CreateOnly));
        if member_value(section_of(s, section), from) == Some(value) && !(value is Null) && !(create_only && is_update) {
            assert forall|j: int| 0 <= j < 7 implies #[trigger] t[j].0 != t[7].0 || t[j].1 != t[7].1 by {
                if j == 2 { assert("description"@.len() != "googleDoc"@.len());
                } else if j == 3 { assert("project_space_visible"@.len() != "googleDoc"@.len());
                } else if j == 4 { assert("cron_expression"@.len() != "googleDoc"@.len());
                } else if j == 5 { assert("timezone"@.len() != "googleDoc"@.len());
                } else if j == 6 { assert("guardrail_assignments"@.len() != "googleDoc"@.len());
                }
            }
            lemma_fold_sends_field(s, t, is_update, 7, value);
        }
        if is_update {
            assert forall|j: int| 0 <= j < t.len() && applies(t[j].4, is_update) implies #[trigger] t[j].2 != to by {
                if j == 1 { assert("project_name"@.len() != "googleDoc"@.len());
                } else if j == 2 { assert("description"@.len() != "googleDoc"@.len());
                } else if j == 3 { assert("project_space_visible"@.len() != "googleDoc"@.len());
                } else if j == 4 { assert("cron_expression"@.len() != "googleDoc"@.len());
                } else if j == 5 { assert("timezone"@.len() != "googleDoc"@.len());
                } else if j == 6 { assert("guardrail_assignments"@.len() != "googleDoc"@.len());
                }
            }
            lemma_fold_never_sends(s, t, is_update, to);
        }
    } else if section == Section::Spec && from == "setting_id"@ && to == "setting_id"@ && create_only {
        assert(t[8] == (Section::Spec, "setting_id"@, "setting_id"@, Presence::Required, When::CreateOnly));
        if member_value(section_of(s, section), from) == Some(value) && !(value is Null) && !(create_only && is_update) {
            assert forall|j: int| 0 <= j < 8 implies #[trigger] t[j].0 != t[8].0 || t[j].1 != t[8].1 by {
                if j == 2 { assert("description"@.len() != "setting_id"@.len());
                } else if j == 3 { assert("project_space_visible"@.len() != "setting_id"@.len());
                } else if j == 4 { assert("cron_expression"@.len() != "setting_id"@.len());
                } else if j == 5 { assert("timezone"@.len() != "setting_id"@.len());
                } else if j == 6 { assert("guardrail_assignments"@.len() != "setting_id"@.len());
                } else if j == 7 { assert("googleDoc"@.len() != "setting_id"@.len());
                }
            }
            lemma_fold_sends_field(s, t, is_update, 8, value);
        }
        if is_update {
            assert forall|j: int| 0 <= j < t.len() && applies(t[j].4, is_update) implies #[trigger] t[j].2 != to by {
                if j == 1 { assert("project_name"@.len() != "setting_id"@.len());
                } else if j == 2 { assert("description"@.len() != "setting_id"@.len());
                } else if j == 3 { assert("project_space_visible"@.len() != "setting_id"@.len());
                } else if j == 4 { assert("cron_expression"@.len() != "setting_id"@.len());
                } else if j == 5 { assert("timezone"@.len() != "setting_id"@.len());
                } else if j == 6 { assert("guardrail_assignments"@.len() != "setting_id"@.len());
                }
            }
            lemma_fold_never_sends(s, t, is_update, to);
        }
    } else if section == Section::Spec && from == "embedding_model"@ && to == "embedding_model"@ && create_only {
        assert(t[9] == (Section::Spec, "embedding_model"@, "embedding_model"@, Presence::IfPresent, When::CreateOnly));
        if member_value(section_of(s, section), from) == Some(value) && !(value is Null) && !(create_only && is_update) {
            assert forall|j: int| 0 <= j < 9 implies #[trigger] t[j].0 != t[9].0 || t[j].1 != t[9].1 by {
                if j == 2 { assert("description"@.len() != "embedding_model"@.len());
                } else if j == 3 { assert("project_space_visible"@.len() != "embedding_model"@.len());
                } else if j == 4 { assert("cron_expression"@[0] != "embedding_model"@[0]);
                } else if j == 5 { assert("timezone"@.len() != "embedding_model"@.len());
                } else if j == 6 { assert("guardrail_assignments"@.len() != "embedding_model"@.len());
                } else if j == 7 { assert("googleDoc"@.len() != "embedding_model"@.len());
                } else if j == 8 { assert("setting_id"@.len() != "embedding_model"@.len());
                }
            }
            lemma_fold_sends_field(s, t, is_update, 9, value);
        }
        if is_update {
            assert forall|j: int| 0 <= j < t.len() && applies(t[j].4, is_update) implies #[trigger] t[j].2 != to by {
                if j == 1 { assert("project_name"@.len() != "embedding_model"@.len());
                } else if j == 2 { assert("description"@.len() != "embedding_model"@.len());
                } else if j == 3 { assert("project_space_visible"@.len() != "embedding_model"@.len());
                } else if j == 4 { assert("cron_expression"@[0] != "embedding_model"@[0]);
                } else if j == 5 { assert("timezone"@.len() != "embedding_model"@.len());
                } else if j == 6 { assert("guardrail_assignments"@.len() != "embedding_model"@.len());
                }
            }
            lemma_fold_never_sends(s, t, is_update, to);
        }
    }
    if member_value(section_of(s, section), from) == Some(value) && !(value is Null) && !(create_only && is_update) {
        let fb = rules_fold(s, Seq::empty(), t, is_update)->Ok_0.1;
        let i = choose|i: int| 0 <= i < fb.len() && #[trigger] fb[i] == (to, value);
        assert(0 <= i < request->Json_0->Object_0@.len() && body_view(request->Json_0->Object_0@)[i] == (to, value));
    }
}

/// The members a Azure DevOps wiki Datasource body sends: (section, declared field,
/// sent name, whether only a create sends it).
pub open spec fn azure_devops_wiki_datasource_field(section: Section, from: Seq<char>, to: Seq<char>, create_only: bool) -> bool {
    ||| (section == Section::Metadata && from == "repo_name"@ && to == "name"@ && create_only)
    ||| (section == Section::Metadata && from == "project"@ && to == "project_name"@ && !create_only)
    ||| (section == Section::Spec && from == "description"@ && to == "description"@ && !create_only)
    ||| (section == Section::Spec && from == "wiki_query"@ && to == "wiki_query"@ && !create_only)
    ||| (section == Section::Spec && from == "project_space_visible"@ && to == "project_space_visible"@ && !create_only)
    ||| (section == Section::Spec && from == "wiki_name"@ && to == "wiki_name"@ && !create_only)
    ||| (section == Section::Spec && from == "setting_id"@ && to == "setting_id"@ && !create_only)
    ||| (section == Section::Spec && from == "cron_expression"@ && to == "cron_expression"@ && !create_only)
    ||| (section == Section::Spec && from == "timezone"@ && to == "timezone"@ && !create_only)
    ||| (section == Section::Spec && from == "guardrail_assignments"@ && to == "guardrail_assignments"@ && !create_only)
    ||| (section == Section::Spec && from == "embedding_model"@ && to == "embedding_model"@ && create_only)
}

/// On every write of a azure_devops_wiki Datasource the body sends each declared field
/// under its name, and a create-only field is sent on a create and never
/// on an update.
pub proof fn law_azure_devops_wiki_datasource_body(
    v: JsonValue,
    is_update: bool,
    request: RequestBody,
    section: Section,
    from: Seq<char>,
    to: Seq<char>,
    create_only: bool,
    value: JsonValue,
)
    requires
        azure_devops_wiki_datasource_field(section, from, to, create_only),
        nested_text(v, "spec"@, "index_type"@) == Some("azure_devops_wiki"@),
        datasource_request(v, is_update, request) == Some(true),
    ensures
        request is Json,
        request->Json_0 is Object,
        member_value(section_of(declaration_sections(v)->0, section), from) == Some(value) && !(value is Null)
            && !(create_only && is_update) ==> exists|i: int|
            0 <= i < request->Json_0->Object_0@.len() && #[trigger] body_view(request->Json_0->Object_0@)[i] == (to, value),
        create_only && is_update ==> forall|i: int|
            0 <= i < request->Json_0->Object_0@.len() ==> #[trigger] body_view(request->Json_0->Object_0@)[i].0 != to,
{
    reveal_strlit("file");
    reveal_strlit("azure_devops_wiki");
    assert("azure_devops_wiki"@ != "file"@) by {
        assert("azure_devops_wiki"@.len() != "file"@.len());
    }
    lemma_datasource_tables("azure_devops_wiki"@);
    reveal_strlit("cron_expression");
    reveal_strlit("description");
    reveal_strlit("embedding_model");
    reveal_strlit("guardrail_assignments");
    reveal_strlit("name");
    reveal_strlit("project");
    reveal_strlit("project_name");
    reveal_strlit("project_space_visible");
    reveal_strlit("repo_name");
    reveal_strlit("setting_id");
    reveal_strlit("timezone");
    reveal_strlit("wiki_name");
    reveal_strlit("wiki_query");
    let t = rules::azure_devops_wiki_rule_table();
    let s = declaration_sections(v)->0;
    let b = body_view(request->Json_0->Object_0@);
    assert(projected_body(v, t, is_update) == Some(b));
    if section == Section::Metadata && from == "repo_name"@ && to == "name"@ && create_only {
        assert(t[0] == (Section::Metadata, "repo_name"@, "name"@, Presence::Required, When::CreateOnly));
        if member_value(section_of(s, section), from) == Some(value) && !(value is Null) && !(create_only && is_update) {
            assert forall|j: int| 0 <= j < 0 implies #[trigger] t[j].0 != t[0].0 || t[j].1 != t[0].1 by {
            }
            lemma_fold_sends_field(s, t, is_update, 0, value);
        }
        if is_update {
            assert forall|j: int| 0 <= j < t.len() && applies(t[j].4, is_update) implies #[trigger] t[j].2 != to by {
                if j == 1 { assert("project_name"@.len() != "name"@.len());
                } else if j == 2 { assert("description"@.len() != "name"@.len());
                } else if j == 3 { assert("wiki_query"@.len() != "name"@.len());
                } else if j == 4 { assert("project_space_visible"@.len() != "name"@.len());
                } else if j == 5 { assert("wiki_name"@.len() != "name"@.len());
                } else if j == 6 { assert("setting_id"@.len() != "name"@.len());
                } else if j == 7 { assert("cron_expression"@.len() != "name"@.len());
                } else if j == 8 { assert("timezone"@.len() != "name"@.len());
                } else if j == 9 { assert("guardrail_assignments"@.len() != "name"@.len());
                }
            }
            lemma_fold_never_sends(s, t, is_update, to);
        }
    } else if section == Section::Metadata && from == "project"@ && to == "project_name"@ && !create_only {
        assert(t[1] == (Section::Metadata, "project"@, "project_name"@, Presence::Required, When::Always));
        if member_value(section_of(s, section), from) == Some(value) && !(value is Null) && !(create_only && is_update) {
            assert forall|j: int| 0 <= j < 1 implies #[trigger] t[j].0 != t[1].0 || t[j].1 != t[1].1 by {
                if j == 0 { assert("repo_name"@.len() != "project"@.len());
                }
            }
            lemma_fold_sends_field(s, t, is_update, 1, value);
        }
    } else if section == Section::Spec && from == "description"@ && to == "description"@ && !create_only {
        assert(t[2] == (Section::Spec, "description"@, "description"@, Presence::Required, When::Always));
        if member_value(section_of(s, section), from) == Some(value) && !(value is Null) && !(create_only && is_update) {
            assert forall|j: int| 0 <= j < 2 implies #[trigger] t[j].0 != t[2].0 || t[j].1 != t[2].1 by {
            }
            lemma_fold_sends_field(s, t, is_update, 2, value);
        }
    } else if section == Section::Spec && from == "wiki_query"@ && to == "wiki_query"@ && !create_only {
        assert(t[3] == (Section::Spec, "wiki_query"@, "wiki_query"@, Presence::Required, When::Always));
        if member_value(section_of(s, section), from) == Some(value) && !(value is Null) && !(create_only && is_update) {
            assert forall|j: int| 0 <= j < 3 implies #[trigger] t[j].0 != t[3].0 || t[j].1 != t[3].1 by {
                if j == 2 { assert("description"@.len() != "wiki_query"@.len());
                }
            }
            lemma_fold_sends_field(s, t, is_update, 3, value);
        }
    } else if section == Section::Spec && from == "project_space_visible"@ && to == "project_space_visible"@ && !create_only {
        assert(t[4] == (Section::Spec, "project_space_visible"@, "project_space_visible"@, Presence::IfPresent, When::Always));
        if member_value(section_of(s, section), from) == Some(value) && !(value is Null) && !(create_only && is_update) {
            assert forall|j: int| 0 <= j < 4 implies #[trigger] t[j].0 != t[4].0 || t[j].1 != t[4].1 by {
                if j == 2 { assert("description"@.len() != "project_space_visible"@.len());
                } else if j == 3 { assert("wiki_query"@.len() != "project_space_visible"@.len());
                }
            }
            lemma_fold_sends_field(s, t, is_update, 4, value);
        }
    } else if section == Section::Spec && from == "wiki_name"@ && to == "wiki_name"@ && !create_only {
        assert(t[5] == (Section::Spec, "wiki_name"@, "wiki_name"@, Presence::IfPresent, When::Always));
        if member_value(section_of(s, section), from) == Some(value) && !(value is Null) && !(create_only && is_update) {
            assert forall|j: int| 0 <= j < 5 implies #[trigger] t[j].0 != t[5].0 || t[j].1 != t[5].1 by {
                if j == 2 { assert("description"@.len() != "wiki_name"@.len());
                } else if j == 3 { assert("wiki_query"@.len() != "wiki_name"@.len());
                } else if j == 4 { assert("project_space_visible"@.len() != "wiki_name"@.len());
                }
            }
            lemma_fold_sends_field(s, t, is_update, 5, value);
        }
    } else if section == Section::Spec && from == "setting_id"@ && to == "setting_id"@ && !create_only {
        assert(t[6] == (Section::Spec, "setting_id"@, "setting_id"@, Presence::IfPresent, When::Always));
        if member_value(section_of(s, section), from) == Some(value) && !(value is Null) && !(create_only && is_update) {
            assert forall|j: int| 0 <= j < 6 implies #[trigger] t[j].0 != t[6].0 || t[j].1 != t[6].1 by {
                if j == 2 { assert("description"@.len() != "setting_id"@.len());
                } else if j == 3 { assert("wiki_query"@[0] != "setting_id"@[0]);
                } else if j == 4 { assert("project_space_visible"@.len() != "setting_id"@.len());
                } else if j == 5 { assert("wiki_name"@.len() != "setting_id"@.len());
                }
            }
            lemma_fold_sends_field(s, t, is_update, 6, value);
        }
    } else if section == Section::Spec && from == "cron_expression"@ && to == "cron_expression"@ && !create_only {
        assert(t[7] == (Section::Spec, "cron_expression"@, "cron_expression"@, Presence::IfPresent, When::Always));
        if member_value(section_of(s, section), from) == Some(value) && !(value is Null) && !(create_only && is_update) {
            assert forall|j: int| 0 <= j < 7 implies #[trigger] t[j].0 != t[7].0 || t[j].1 != t[7].1 by {
                if j == 2 { assert("description"@.len() != "cron_expression"@.len());
                } else if j == 3 { assert("wiki_query"@.len() != "cron_expression"@.len());
                } else if j == 4 { assert("project_space_visible"@.len() != "cron_expression"@.len());
                } else if j == 5 { assert("wiki_name"@.len() != "cron_expression"@.len());
                } else if j == 6 { assert("setting_id"@.len() != "cron_expression"@.len());
                }
            }
            lemma_fold_sends_field(s, t, is_update, 7, value);
        }
    } else if section == Section::Spec && from == "timezone"@ && to == "timezone"@ && !create_only {
        assert(t[8] == (Section::Spec, "timezone"@, "timezone"@, Presence::IfPresent, When::Always));
        if member_value(section_of(s, section), from) == Some(value) && !(value is Null) && !(create_only && is_update) {
            assert forall|j: int| 0 <= j < 8 implies #[trigger] t[j].0 != t[8].0 || t[j].1 != t[8].1 by {
                if j == 2 { assert("description"@.len() != "timezone"@.len());
                } else if j == 3 { assert("wiki_query"@.len() != "timezone"@.len());
                } else if j == 4 { assert("project_space_visible"@.len() != "timezone"@.len());
                } else if j == 5 { assert("wiki_name"@.len() != "timezone"@.len());
                } else if j == 6 { assert("setting_id"@.len() != "timezone"@.len());
                } else if j == 7 { assert("cron_expression"@.len() != "timezone"@.len());
                }
            }
            lemma_fold_sends_field(s, t, is_update, 8, value);
        }
    } else if section == Section::Spec && from == "guardrail_assignments"@ && to == "guardrail_assignments"@ && !create_only {
        assert(t[9] == (Section::Spec, "guardrail_assignments"@, "guardrail_assignments"@, Presence::IfPresent, When::Always));
        if member_value(section_of(s, section), from) == Some(value) && !(value is Null) && !(create_only && is_update) {
            assert forall|j: int| 0 <= j < 9 implies #[trigger] t[j].0 != t[9].0 || t[j].1 != t[9].1 by {
                if j == 2 { assert("description"@.len() != "guardrail_assignments"@.len());
                } else if j == 3 { assert("wiki_query"@.len() != "guardrail_assignments"@.len());
                } else if j == 4 { assert("project_space_visible"@[0] != "guardrail_assignments"@[0]);
                } else if j == 5 { assert("wiki_name"@.len() != "guardrail_assignments"@.len());
                } else if j == 6 { assert("setting_id"@.len() != "guardrail_assignments"@.len());
                } else if j == 7 { assert("cron_expression"@.len() != "guardrail_assignments"@.len());
                } else if j == 8 { assert("timezone"@.len() != "guardrail_assignments"@.len());
                }
            }
            lemma_fold_sends_field(s, t, is_update, 9, value);
        }
    } else if section == Section::Spec && from == "embedding_model"@ && to == "embedding_model"@ && create_only {
        assert(t[10] == (Section::Spec, "embedding_model"@, "embedding_model"@, Presence::IfPresent, When::CreateOnly));
        if member_value(section_of(s, section), from) == Some(value) && !(value is Null) && !(create_only && is_update) {
            assert forall|j: int| 0 <= j < 10 implies #[trigger] t[j].0 != t[10].0 || t[j].1 != t[10].1 by {
                if j == 2 { assert("description"@.len() != "embedding_model"@.len());
                } else if j == 3 { assert("wiki_query"@.len() != "embedding_model"@.len());
                } else if j == 4 { assert("project_space_visible"@.len() != "embedding_model"@.len());
                } else if j == 5 { assert("wiki_name"@.len() != "embedding_model"@.len());
                } else if j == 6 { assert("setting_id"@.len() != "embedding_model"@.len());
                } else if j == 7 { assert("cron_expression"@[0] != "embedding_model"@[0]);
                } else if j == 8 { assert("timezone"@.len() != "embedding_model"@.len());
                } else if j == 9 { assert("guardrail_assignments"@.len() != "embedding_model"@.len());
                }
            }
            lemma_fold_sends_field(s, t, is_update, 10, value);
        }
        if is_update {
            assert forall|j: int| 0 <= j < t.len() && applies(t[j].4, is_update) implies #[trigger] t[j].2 != to by {
                if j == 1 { assert("project_name"@.len() != "embedding_model"@.len());
                } else if j == 2 { assert("description"@.len() != "embedding_model"@.len());
                } else if j == 3 { assert("wiki_query"@.len() != "embedding_model"@.len());
                } else if j == 4 { assert("project_space_visible"@.len() != "embedding_model"@.len());
                } else if j == 5 { assert("wiki_name"@.len() != "embedding_model"@.len());
                } else if j == 6 { assert("setting_id"@.len() != "embedding_model"@.len());
                } else if j == 7 { assert("cron_expression"@[0] != "embedding_model"@[0]);
                } else if j == 8 { assert("timezone"@.len() != "embedding_model"@.len());
                } else if j == 9 { assert("guardrail_assignments"@.len() != "embedding_model"@.len());
                }
            }
            lemma_fold_never_sends(s, t, is_update, to);
        }
    }
    if member_value(section_of(s, section), from) == Some(value) && !(value is Null) && !(create_only && is_update) {
        let fb = rules_fold(s, Seq::empty(), t, is_update)->Ok_0.1;
        let i = choose|i: int| 0 <= i < fb.len() && #[trigger] fb[i] == (to, value);
        assert(0 <= i < request->Json_0->Object_0@.len() && body_view(request->Json_0->Object_0@)[i] == (to, value));
    }
}

/// The members a Azure DevOps work item Datasource body sends: (section, declared field,
/// sent name, whether only a create sends it).
pub open spec fn azure_devops_work_item_datasource_field(section: Section, from: Seq<char>, to: Seq<char>, create_only: bool) -> bool {
    ||| (section == Section::Metadata && from == "repo_name"@ && to == "name"@ && create_only)
    ||| (section == Section::Metadata && from == "project"@ && to == "project_name"@ && !create_only)
    ||| (section == Section::Spec && from == "description"@ && to == "description"@ && !create_only)
    ||| (section == Section::Spec && from == "wiql_query"@ && to == "wiql_query"@ && !create_only)
    ||| (section == Section::Spec && from == "project_space_visible"@ && to == "project_space_visible"@ && !create_only)
    ||| (section == Section::Spec && from == "setting_id"@ && to == "setting_id"@ && !create_only)
    ||| (section == Section::Spec && from == "cron_expression"@ && to == "cron_expression"@ && !create_only)
    ||| (section == Section::Spec && from == "timezone"@ && to == "timezone"@ && !create_only)
    ||| (section == Section::Spec && from == "guardrail_assignments"@ && to == "guardrail_assignments"@ && !create_only)
    ||| (section == Section::Spec && from == "embedding_model"@ && to == "embedding_model"@ && create_only)
}

/// On every write of a azure_devops_work_item Datasource the body sends each declared field
/// under its name, and a create-only field is sent on a create and never
/// on an update.
pub proof fn law_azure_devops_work_item_datasource_body(
    v: JsonValue,
    is_update: bool,
    request: RequestBody,
    section: Section,
    from: Seq<char>,
    to: Seq<char>,
    create_only: bool,
    value: JsonValue,
)
    requires
        azure_devops_work_item_datasource_field(section, from, to, create_only),
        nested_text(v, "spec"@, "index_type"@) == Some("azure_devops_work_item"@),
        datasource_request(v, is_update, request) == Some(true),
    ensures
        request is Json,
        request->Json_0 is Object,
        member_value(section_of(declaration_sections(v)->0, section), from) == Some(value) && !(value is Null)
            && !(create_only && is_update) ==> exists|i: int|
            0 <= i < request->Json_0->Object_0@.len() && #[trigger] body_view(request->Json_0->Object_0@)[i] == (to, value),
        create_only && is_update ==> forall|i: int|
            0 <= i < request->Json_0->Object_0@.len() ==> #[trigger] body_view(request->Json_0->Object_0@)[i].0 != to,
{
    reveal_strlit("file");
    reveal_strlit("azure_devops_work_item");
    assert("azure_devops_work_item"@ != "file"@) by {
        assert("azure_devops_work_item"@.len() != "file"@.len());
    }
    lemma_datasource_tables("azure_devops_work_item"@);
    reveal_strlit("cron_expression");
    reveal_strlit("description");
    reveal_strlit("embedding_model");
    reveal_strlit("guardrail_assignments");
    reveal_strlit("name");
    reveal_strlit("project");
    reveal_strlit("project_name");
    reveal_strlit("project_space_visible");
    reveal_strlit("repo_name");
    reveal_strlit("setting_id");
    reveal_strlit("timezone");
    reveal_strlit("wiql_query");
    let t = rules::azure_devops_work_item_rule_table();
    let s = declaration_sections(v)->0;
    let b = body_view(request->Json_0->Object_0@);
    assert(projected_body(v, t, is_update) == Some(b));
    if section == Section::Metadata && from == "repo_name"@ && to == "name"@ && create_only {
        assert(t[0] == (Section::Metadata, "repo_name"@, "name"@, Presence::Required, When::CreateOnly));
        if member_value(section_of(s, section), from) == Some(value) && !(value is Null) && !(create_only && is_update) {
            assert forall|j: int| 0 <= j < 0 implies #[trigger] t[j].0 != t[0].0 || t[j].1 != t[0].1 by {
            }
            lemma_fold_sends_field(s, t, is_update, 0, value);
        }
        if is_update {
            assert forall|j: int| 0 <= j < t.len() && applies(t[j].4, is_update) implies #[trigger] t[j].2 != to by {
                if j == 1 { assert("project_name"@.len() != "name"@.len());
                } else if j == 2 { assert("description"@.len() != "name"@.len());
                } else if j == 3 { assert("wiql_query"@.len() != "name"@.len());
                } else if j == 4 { assert("project_space_visible"@.len() != "name"@.len());
                } else if j == 5 { assert("setting_id"@.len() != "name"@.len());
                } else if j == 6 { assert("cron_expression"@.len() != "name"@.len());
                } else if j == 7 { assert("timezone"@.len() != "name"@.len());
                } else if j == 8 { assert("guardrail_assignments"@.len() != "name"@.len());
                }
            }
            lemma_fold_never_sends(s, t, is_update, to);
        }
    } else if section == Section::Metadata && from == "project"@ && to == "project_name"@ && !create_only {
        assert(t[1] == (Section::Metadata, "project"@, "project_name"@, Presence::Required, When::Always));
        if member_value(section_of(s, section), from) == Some(value) && !(value is Null) && !(create_only && is_update) {
            assert forall|j: int| 0 <= j < 1 implies #[trigger] t[j].0 != t[1].0 || t[j].1 != t[1].1 by {
                if j == 0 { assert("repo_name"@.len() != "project"@.len());
                }
            }
            lemma_fold_sends_field(s, t, is_update, 1, value);
        }
    } else if section == Section::Spec && from == "description"@ && to == "description"@ && !create_only {
        assert(t[2] == (Section::Spec, "description"@, "description"@, Presence::Required, When::Always));
        if member_value(section_of(s, section), from) == Some(value) && !(value is Null) && !(create_only && is_update) {
            assert forall|j: int| 0 <= j < 2 implies #[trigger] t[j].0 != t[2].0 || t[j].1 != t[2].1 by {
            }
            lemma_fold_sends_field(s, t, is_update, 2, value);
        }
    } else if section == Section::Spec && from == "wiql_query"@ && to == "wiql_query"@ && !create_only {
        assert(t[3] == (Section::Spec, "wiql_query"@, "wiql_query"@, Presence::Required, When::Always));
        if member_value(section_of(s, section), from) == Some(value) && !(value is Null) && !(create_only && is_update) {
            assert forall|j: int| 0 <= j < 3 implies #[trigger] t[j].0 != t[3].0 || t[j].1 != t[3].1 by {
                if j == 2 { assert("description"@.len() != "wiql_query"@.len());
                }
            }
            lemma_fold_sends_field(s, t, is_update, 3, value);
        }
    } else if section == Section::Spec && from == "project_space_visible"@ && to == "project_space_visible"@ && !create_only {
        assert(t[4] == (Section::Spec, "project_space_visible"@, "project_space_visible"@, Presence::IfPresent, When::Always));
        if member_value(section_of(s, section), from) == Some(value) && !(value is Null) && !(create_only && is_update) {
            assert forall|j: int| 0 <= j < 4 implies #[trigger] t[j].0 != t[4].0 || t[j].1 != t[4].1 by {
                if j == 2 { assert("description"@.len() != "project_space_visible"@.len());
                } else if j == 3 { assert("wiql_query"@.len() != "project_space_visible"@.len());
                }
            }
            lemma_fold_sends_field(s, t, is_update, 4, value);
        }
    } else if section == Section::Spec && from == "setting_id"@ && to == "setting_id"@ && !create_only {
        assert(t[5] == (Section::Spec, "setting_id"@, "setting_id"@, Presence::IfPresent, When::Always));
        if member_value(section_of(s, section), from) == Some(value) && !(value is Null) && !(create_only && is_update) {
            assert forall|j: int| 0 <= j < 5 implies #[trigger] t[j].0 != t[5].0 || t[j].1 != t[5].1 by {
                if j == 2 { assert("description"@.len() != "setting_id"@.len());
                } else if j == 3 { assert("wiql_query"@[0] != "setting_id"@[0]);
                } else if j == 4 { assert("project_space_visible"@.len() != "setting_id"@.len());
                }
            }
            lemma_fold_sends_field(s, t, is_update, 5, value);
        }
    } else if section == Section::Spec && from == "cron_expression"@ && to == "cron_expression"@ && !create_only {
        assert(t[6] == (Section::Spec, "cron_expression"@, "cron_expression"@, Presence::IfPresent, When::Always));
        if member_value(section_of(s, section), from) == Some(value) && !(value is Null) && !(create_only && is_update) {
            assert forall|j: int| 0 <= j < 6 implies #[trigger] t[j].0 != t[6].0 || t[j].1 != t[6].1 by {
                if j == 2 { assert("description"@.len() != "cron_expression"@.len());
                } else if j == 3 { assert("wiql_query"@.len() != "cron_expression"@.len());
                } else if j == 4 { assert("project_space_visible"@.len() != "cron_expression"@.len());
                } else if j == 5 { assert("setting_id"@.len() != "cron_expression"@.len());
                }
            }
            lemma_fold_sends_field(s, t, is_update, 6, value);
        }
    } else if section == Section::Spec && from == "timezone"@ && to == "timezone"@ && !create_only {
        assert(t[7] == (Section::Spec, "timezone"@, "timezone"@, Presence::IfPresent, When::Always));
        if member_value(section_of(s, section), from) == Some(value) && !(value is Null) && !(create_only && is_update) {
            assert forall|j: int| 0 <= j < 7 implies #[trigger] t[j].0 != t[7].0 || t[j].1 != t[7].1 by {
                if j == 2 { assert("description"@.len() != "timezone"@.len());
                } else if j == 3 { assert("wiql_query"@.len() != "timezone"@.len());
                } else if j == 4 { assert("project_space_visible"@.len() != "timezone"@.len());
                } else if j == 5 { assert("setting_id"@.len() != "timezone"@.len());
                } else if j == 6 { assert("cron_expression"@.len() != "timezone"@.len());
                }
            }
            lemma_fold_sends_field(s, t, is_update, 7, value);
        }
    } else if section == Section::Spec && from == "guardrail_assignments"@ && to == "guardrail_assignments"@ && !create_only {
        assert(t[8] == (Section::Spec, "guardrail_assignments"@, "guardrail_assignments"@, Presence::IfPresent, When::Always));
        if member_value(section_of(s, section), from) == Some(value) && !(value is Null) && !(create_only && is_update) {
            assert forall|j: int| 0 <= j < 8 implies #[trigger] t[j].0 != t[8].0 || t[j].1 != t[8].1 by {
                if j == 2 { assert("description"@.len() != "guardrail_assignments"@.len());
                } else if j == 3 { assert("wiql_query"@.len() != "guardrail_assignments"@.len());
                } else if j == 4 { assert("project_space_visible"@[0] != "guardrail_assignments"@[0]);
                } else if j == 5 { assert("setting_id"@.len() != "guardrail_assignments"@.len());
                } else if j == 6 { assert("cron_expression"@.len() != "guardrail_assignments"@.len());
                } else if j == 7 { assert("timezone"@.len() != "guardrail_assignments"@.len());
                }
            }
            lemma_fold_sends_field(s, t, is_update, 8, value);
        }
    } else if section == Section::Spec && from == "embedding_model"@ && to == "embedding_model"@ && create_only {
        assert(t[9] == (Section::Spec, "embedding_model"@, "embedding_model"@, Presence::IfPresent, When::CreateOnly));
        if member_value(section_of(s, section), from) == Some(value) && !(value is Null) && !(create_only && is_update) {
            assert forall|j: int| 0 <= j < 9 implies #[trigger] t[j].0 != t[9].0 || t[j].1 != t[9].1 by {
                if j == 2 { assert("description"@.len() != "embedding_model"@.len());
                } else if j == 3 { assert("wiql_query"@.len() != "embedding_model"@.len());
                } else if j == 4 { assert("project_space_visible"@.len() != "embedding_model"@.len());
                } else if j == 5 { assert("setting_id"@.len() != "embedding_model"@.len());
                } else if j == 6 { assert("cron_expression"@[0] != "embedding_model"@[0]);
                } else if j == 7 { assert("timezone"@.len() != "embedding_model"@.len());
                } else if j == 8 { assert("guardrail_assignments"@.len() != "embedding_model"@.len());
                }
            }
            lemma_fold_sends_field(s, t, is_update, 9, value);
        }
        if is_update {
            assert forall|j: int| 0 <= j < t.len() && applies(t[j].4, is_update) implies #[trigger] t[j].2 != to by {
                if j == 1 { assert("project_name"@.len() != "embedding_model"@.len());
                } else if j == 2 { assert("description"@.len() != "embedding_model"@.len());
                } else if j == 3 { assert("wiql_query"@.len() != "embedding_model"@.len());
                } else if j == 4 { assert("project_space_visible"@.len() != "embedding_model"@.len());
                } else if j == 5 { assert("setting_id"@.len() != "embedding_model"@.len());
                } else if j == 6 { assert("cron_expression"@[0] != "embedding_model"@[0]);
                } else if j == 7 { assert("timezone"@.len() != "embedding_model"@.len());
                } else if j == 8 { assert("guardrail_assignments"@.len() != "embedding_model"@.len());
                }
            }
            lemma_fold_never_sends(s, t, is_update, to);
        }
    }
    if member_value(section_of(s, section), from) == Some(value) && !(value is Null) && !(create_only && is_update) {
        let fb = rules_fold(s, Seq::empty(), t, is_update)->Ok_0.1;
        let i = choose|i: int| 0 <= i < fb.len() && #[trigger] fb[i] == (to, value);
        assert(0 <= i < request->Json_0->Object_0@.len() && body_view(request->Json_0->Object_0@)[i] == (to, value));
    }
}

/// The members a SharePoint Datasource body sends: (section, declared field,
/// sent name, whether only a create sends it).
pub open spec fn sharepoint_datasource_field(section: Section, from: Seq<char>, to: Seq<char>, create_only: bool) -> bool {
    ||| (section == Section::Metadata && from == "repo_name"@ && to == "name"@ && create_only)
    ||| (section == Section::Metadata && from == "project"@ && to == "project_name"@ && !create_only)
    ||| (section == Section::Spec && from == "description"@ && to == "description"@ && !create_only)
    ||| (section == Section::Spec && from == "site_url"@ && to == "site_url"@ && !create_only)
    ||| (section == Section::Spec && from == "auth_type"@ && to == "auth_type"@ && !create_only)
    ||| (section == Section::Spec && from == "project_space_visible"@ && to == "project_space_visible"@ && !create_only)
    ||| (section == Section::Spec && from == "include_pages"@ && to == "include_pages"@ && !create_only)
    ||| (section == Section::Spec && from == "include_documents"@ && to == "include_documents"@ && !create_only)
    ||| (section == Section::Spec && from == "include_lists"@ && to == "include_lists"@ && !create_only)
    ||| (section == Section::Spec && from == "max_file_size_mb"@ && to == "max_file_size_mb"@ && !create_only)
    ||| (section == Section::Spec && from == "files_filter"@ && to == "files_filter"@ && !create_only)
    ||| (section == Section::Spec && from == "setting_id"@ && to == "setting_id"@ && !create_only)
    ||| (section == Section::Spec && from == "embedding_model"@ && to == "embedding_model"@ && !create_only)
    ||| (section == Section::Spec && from == "cron_expression"@ && to == "cron_expression"@ && !create_only)
    ||| (section == Section::Spec && from == "timezone"@ && to == "timezone"@ && !create_only)
    ||| (section == Section::Spec && from == "oauth_client_id"@ && to == "oauth_client_id"@ && !create_only)
    ||| (section == Section::Spec && from == "oauth_tenant_id"@ && to == "oauth_tenant_id"@ && !create_only)
    ||| (section == Section::Spec && from == "guardrail_assignments"@ && to == "guardrail_assignments"@ && !create_only)
}

/// On every write of a sharepoint Datasource the body sends each declared field
/// under its name, and a create-only field is sent on a create and never
/// on an update.
pub proof fn law_sharepoint_datasource_body(
    v: JsonValue,
    is_update: bool,
    request: RequestBody,
    section: Section,
    from: Seq<char>,
    to: Seq<char>,
    create_only: bool,
    value: JsonValue,
)
    requires
        sharepoint_datasource_field(section, from, to, create_only),
        nested_text(v, "spec"@, "index_type"@) == Some("sharepoint"@),
        datasource_request(v, is_update, request) == Some(true),
    ensures
        request is Json,
        request->Json_0 is Object,
        member_value(section_of(declaration_sections(v)->0, section), from) == Some(value) && !(value is Null)
            && !(create_only && is_update) ==> exists|i: int|
            0 <= i < request->Json_0->Object_0@.len() && #[trigger] body_view(request->Json_0->Object_0@)[i] == (to, value),
        create_only && is_update ==> forall|i: int|
            0 <= i < request->Json_0->Object_0@.len() ==> #[trigger] body_view(request->Json_0->Object_0@)[i].0 != to,
{
    reveal_strlit("file");
    reveal_strlit("sharepoint");
    assert("sharepoint"@ != "file"@) by {
        assert("sharepoint"@.len() != "file"@.len());
    }
    lemma_datasource_tables("sharepoint"@);
    reveal_strlit("auth_type");
    reveal_strlit("cron_expression");
    reveal_strlit("description");
    reveal_strlit("embedding_model");
    reveal_strlit("files_filter");
    reveal_strlit("guardrail_assignments");
    reveal_strlit("include_documents");
    reveal_strlit("include_lists");
    reveal_strlit("include_pages");
    reveal_strlit("max_file_size_mb");
    reveal_strlit("name");
    reveal_strlit("oauth_client_id");
    reveal_strlit("oauth_tenant_id");
    reveal_strlit("project");
    reveal_strlit("project_name");
    reveal_strlit("project_space_visible");
    reveal_strlit("repo_name");
    reveal_strlit("setting_id");
    reveal_strlit("site_url");
    reveal_strlit("timezone");
    let t = rules::sharepoint_rule_table();
    let s = declaration_sections(v)->0;
    let b = body_view(request->Json_0->Object_0@);
    assert(projected_body(v, t, is_update) == Some(b));
    if section == Section::Metadata && from == "repo_name"@ && to == "name"@ && create_only {
        assert(t[0] == (Section::Metadata, "repo_name"@, "name"@, Presence::Required, When::CreateOnly));
        if member_value(section_of(s, section), from) == Some(value) && !(value is Null) && !(create_only && is_update) {
            assert forall|j: int| 0 <= j < 0 implies #[trigger] t[j].0 != t[0].0 || t[j].1 != t[0].1 by {
            }
            lemma_fold_sends_field(s, t, is_update, 0, value);
        }
        if is_update {
            assert forall|j: int| 0 <= j < t.len() && applies(t[j].4, is_update) implies #[trigger] t[j].2 != to by {
                if j == 1 { assert("project_name"@.len() != "name"@.len());
                } else if j == 2 { assert("description"@.len() != "name"@.len());
                } else if j == 3 { assert("site_url"@.len() != "name"@.len());
                } else if j == 4 { assert("auth_type"@.len() != "name"@.len());
                } else if j == 5 { assert("project_space_visible"@.len() != "name"@.len());
                } else if j == 6 { assert("include_pages"@.len() != "name"@.len());
                } else if j == 7 { assert("include_documents"@.len() != "name"@.len());
                } else if j == 8 { assert("include_lists"@.len() != "name"@.len());
                } else if j == 9 { assert("max_file_size_mb"@.len() != "name"@.len());
                } else if j == 10 { assert("files_filter"@.len() != "name"@.len());
                } else if j == 11 { assert("setting_id"@.len() != "name"@.len());
                } else if j == 12 { assert("embedding_model"@.len() != "name"@.len());
                } else if j == 13 { assert("cron_expression"@.len() != "name"@.len());
                } else if j == 14 { assert("timezone"@.len() != "name"@.len());
                } else if j == 15 { assert("oauth_client_id"@.len() != "name"@.len());
                } else if j == 16 { assert("oauth_tenant_id"@.len() != "name"@.len());
                } else if j == 17 { assert("guardrail_assignments"@.len() != "name"@.len());
                }
            }
            lemma_fold_never_sends(s, t, is_update, to);
        }
    } else if section == Section::Metadata && from == "project"@ && to == "project_name"@ && !create_only {
        assert(t[1] == (Section::Metadata, "project"@, "project_name"@, Presence::Required, When::Always));
        if member_value(section_of(s, section), from) == Some(value) && !(value is Null) && !(create_only && is_update) {
            assert forall|j: int| 0 <= j < 1 implies #[trigger] t[j].0 != t[1].0 || t[j].1 != t[1].1 by {
                if j == 0 { assert("repo_name"@.len() != "project"@.len());
                }
            }
            lemma_fold_sends_field(s, t, is_update, 1, value);
        }
    } else if section == Section::Spec && from == "description"@ && to == "description"@ && !create_only {
        assert(t[2] == (Section::Spec, "description"@, "description"@, Presence::Required, When::Always));
        if member_value(section_of(s, section), from) == Some(value) && !(value is Null) && !(create_only && is_update) {
            assert forall|j: int| 0 <= j < 2 implies #[trigger] t[j].0 != t[2].0 || t[j].1 != t[2].1 by {
            }
            lemma_fold_sends_field(s, t, is_update, 2, value);
        }
    } else if section == Section::Spec && from == "site_url"@ && to == "site_url"@ && !create_only {
        assert(t[3] == (Section::Spec, "site_url"@, "site_url"@, Presence::Required, When::Always));
        if member_value(section_of(s, section), from) == Some(value) && !(value is Null) && !(create_only && is_update) {
            assert forall|j: int| 0 <= j < 3 implies #[trigger] t[j].0 != t[3].0 || t[j].1 != t[3].1 by {
                if j == 2 { assert("description"@.len() != "site_url"@.len());
                }
            }
            lemma_fold_sends_field(s, t, is_update, 3, value);
        }
    } else if section == Section::Spec && from == "auth_type"@ && to == "auth_type"@ && !create_only {
        assert(t[4] == (Section::Spec, "auth_type"@, "auth_type"@, Presence::Required, When::Always));
        if member_value(section_of(s, section), from) == Some(value) && !(value is Null) && !(create_only && is_update) {
            assert forall|j: int| 0 <= j < 4 implies #[trigger] t[j].0 != t[4].0 || t[j].1 != t[4].1 by {
                if j == 2 { assert("description"@.len() != "auth_type"@.len());
                } else if j == 3 { assert("site_url"@.len() != "auth_type"@.len());
                }
            }
            lemma_fold_sends_field(s, t, is_update, 4, value);
        }
    } else if section == Section::Spec && from == "project_space_visible"@ && to == "project_space_visible"@ && !create_only {
        assert(t[5] == (Section::Spec, "project_space_visible"@, "project_space_visible"@, Presence::IfPresent, When::Always));
        if member_value(section_of(s, section), from) == Some(value) && !(value is Null) && !(create_only && is_update) {
            assert forall|j: int| 0 <= j < 5 implies #[trigger] t[j].0 != t[5].0 || t[j].1 != t[5].1 by {
                if j == 2 { assert("description"@.len() != "project_space_visible"@.len());
                } else if j == 3 { assert("site_url"@.len() != "project_space_visible"@.len());
                } else if j == 4 { assert("auth_type"@.len() != "project_space_visible"@.len());
                }
            }
            lemma_fold_sends_field(s, t, is_update, 5, value);
        }
    } else if section == Section::Spec && from == "include_pages"@ && to == "include_pages"@ && !create_only {
        assert(t[6] == (Section::Spec, "include_pages"@, "include_pages"@, Presence::IfPresent, When::Always));
        if member_value(section_of(s, section), from) == Some(value) && !(value is Null) && !(create_only && is_update) {
            assert forall|j: int| 0 <= j < 6 implies #[trigger] t[j].0 != t[6].0 || t[j].1 != t[6].1 by {
                if j == 2 { assert("description"@.len() != "include_pages"@.len());
                } else if j == 3 { assert("site_url"@.len() != "include_pages"@.len());
                } else if j == 4 { assert("auth_type"@.len() != "include_pages"@.len());
                } else if j == 5 { assert("project_space_visible"@.len() != "include_pages"@.len());
                }
            }
            lemma_fold_sends_field(s, t, is_update, 6, value);
        }
    } else if section == Section::Spec && from == "include_documents"@ && to == "include_documents"@ && !create_only {
        assert(t[7] == (Section::Spec, "include_documents"@, "include_documents"@, Presence::IfPresent, When::Always));
        if member_value(section_of(s, section), from) == Some(value) && !(value is Null) && !(create_only && is_update) {
            assert forall|j: int| 0 <= j < 7 implies #[trigger] t[j].0 != t[7].0 || t[j].1 != t[7].1 by {
                if j == 2 { assert("description"@.len() != "include_documents"@.len());
                } else if j == 3 { assert("site_url"@.len() != "include_documents"@.len());
                } else if j == 4 { assert("auth_type"@.len() != "include_documents"@.len());
                } else if j == 5 { assert("project_space_visible"@.len() != "include_documents"@.len());
                } else if j == 6 { assert("include_pages"@.len() != "include_documents"@.len());
                }
            }
            lemma_fold_sends_field(s, t, is_update, 7, value);
        }
    } else if section == Section::Spec && from == "include_lists"@ && to == "include_lists"@ && !create_only {
        assert(t[8] == (Section::Spec, "include_lists"@, "include_lists"@, Presence::IfPresent, When::Always));
        if member_value(section_of(s, section), from) == Some(value) && !(value is Null) && !(create_only && is_update) {
            assert forall|j: int| 0 <= j < 8 implies #[trigger] t[j].0 != t[8].0 || t[j].1 != t[8].1 by {
                if j == 2 { assert("description"@.len() != "include_lists"@.len());
                } else if j == 3 { assert("site_url"@.len() != "include_lists"@.len());
                } else if j == 4 { assert("auth_type"@.len() != "include_lists"@.len());
                } else if j == 5 { assert("project_space_visible"@.len() != "include_lists"@.len());
                } else if j == 6 { assert("include_pages"@[8] != "include_lists"@[8]);
                } else if j == 7 { assert("include_documents"@.len() != "include_lists"@.len());
                }
            }
            lemma_fold_sends_field(s, t, is_update, 8, value);
        }
    } else if section == Section::Spec && from == "max_file_size_mb"@ && to == "max_file_size_mb"@ && !create_only {
        assert(t[9] == (Section::Spec, "max_file_size_mb"@, "max_file_size_mb"@, Presence::IfPresent, When::Always));
        if member_value(section_of(s, section), from) == Some(value) && !(value is Null) && !(create_only && is_update) {
            assert forall|j: int| 0 <= j < 9 implies #[trigger] t[j].0 != t[9].0 || t[j].1 != t[9].1 by {
                if j == 2 { assert("description"@.len() != "max_file_size_mb"@.len());
                } else if j == 3 { assert("site_url"@.len() != "max_file_size_mb"@.len());
                } else if j == 4 { assert("auth_type"@.len() != "max_file_size_mb"@.len());
                } else if j == 5 { assert("project_space_visible"@.len() != "max_file_size_mb"@.len());
                } else if j == 6 { assert("include_pages"@.len() != "max_file_size_mb"@.len());
                } else if j == 7 { assert("include_documents"@.len() != "max_file_size_mb"@.len());
                } else if j == 8 { assert("include_lists"@.len() != "max_file_size_mb"@.len());
                }
            }
            lemma_fold_sends_field(s, t, is_update, 9, value);
        }
    } else if section == Section::Spec && from == "files_filter"@ && to == "files_filter"@ && !create_only {
        assert(t[10] == (Section::Spec, "files_filter"@, "files_filter"@, Presence::IfPresent, When::Always));
        if member_value(section_of(s, section), from) == Some(value) && !(value is Null) && !(create_only && is_update) {
            assert forall|j: int| 0 <= j < 10 implies #[trigger] t[j].0 != t[10].0 || t[j].1 != t[10].1 by {
                if j == 2 { assert("description"@.len() != "files_filter"@.len());
                } else if j == 3 { assert("site_url"@.len() != "files_filter"@.len());
                } else if j == 4 { assert("auth_type"@.len() != "files_filter"@.len());
                } else if j == 5 { assert("project_space_visible"@.len() != "files_filter"@.len());
                } else if j == 6 { assert("include_pages"@.len() != "files_filter"@.len());
                } else if j == 7 { assert("include_documents"@.len() != "files_filter"@.len());
                } else if j == 8 { assert("include_lists"@.len() != "files_filter"@.len());
                } else if j == 9 { assert("max_file_size_mb"@.len() != "files_filter"@.len());
                }
            }
            lemma_fold_sends_field(s, t, is_update, 10, value);
        }
    } else if section == Section::Spec && from == "setting_id"@ && to == "setting_id"@ && !create_only {
        assert(t[11] == (Section::Spec, "setting_id"@, "setting_id"@, Presence::IfPresent, When::Always));
        if member_value(section_of(s, section), from) == Some(value) && !(value is Null) && !(create_only && is_update) {
            assert forall|j: int| 0 <= j < 11 implies #[trigger] t[j].0 != t[11].0 || t[j].1 != t[11].1 by {
                if j == 2 { assert("description"@.len() != "setting_id"@.len());
                } else if j == 3 { assert("site_url"@.len() != "setting_id"@.len());
                } else if j == 4 { assert("auth_type"@.len() != "setting_id"@.len());
                } else if j == 5 { assert("project_space_visible"@.len() != "setting_id"@.len());
                } else if j == 6 { assert("include_pages"@.len() != "setting_id"@.len());
                } else if j == 7 { assert("include_documents"@.len() != "setting_id"@.len());
                } else if j == 8 { assert("include_lists"@.len() != "setting_id"@.len());
                } else if j == 9 { assert("max_file_size_mb"@.len() != "setting_id"@.len());
                } else if j == 10 { assert("files_filter"@.len() != "setting_id"@.len());
                }
            }
            lemma_fold_sends_field(s, t, is_update, 11, value);
        }
    } else if section == Section::Spec && from == "embedding_model"@ && to == "embedding_model"@ && !create_only {
        assert(t[12] == (Section::Spec, "embedding_model"@, "embedding_model"@, Presence::IfPresent, When::Always));
        if member_value(section_of(s, section), from) == Some(value) && !(value is Null) && !(create_only && is_update) {
            assert forall|j: int| 0 <= j < 12 implies #[trigger] t[j].0 != t[12].0 || t[j].1 != t[12].1 by {
                if j == 2 { assert("description"@.len() != "embedding_model"@.len());
                } else if j == 3 { assert("site_url"@.len() != "embedding_model"@.len());
                } else if j == 4 { assert("auth_type"@.len() != "embedding_model"@.len());
                } else if j == 5 { assert("project_space_visible"@.len() != "embedding_model"@.len());
                } else if j == 6 { assert("include_pages"@.len() != "embedding_model"@.len());
                } else if j == 7 { assert("include_documents"@.len() != "embedding_model"@.len());
                } else if j == 8 { assert("include_lists"@.len() != "embedding_model"@.len());
                } else if j == 9 { assert("max_file_size_mb"@.len() != "embedding_model"@.len());
                } else if j == 10 { assert("files_filter"@.len() != "embedding_model"@.len());
                } else if j == 11 { assert("setting_id"@.len() != "embedding_model"@.len());
                }
            }
            lemma_fold_sends_field(s, t, is_update, 12, value);
        }
    } else if section == Section::Spec && from == "cron_expression"@ && to == "cron_expression"@ && !create_only {
        assert(t[13] == (Section::Spec, "cron_expression"@, "cron_expression"@, Presence::IfPresent, When::Always));
        if member_value(section_of(s, section), from) == Some(value) && !(value is Null) && !(create_only && is_update) {
            assert forall|j: int| 0 <= j < 13 implies #[trigger] t[j].0 != t[13].0 || t[j].1 != t[13].1 by {
                if j == 2 { assert("description"@.len() != "cron_expression"@.len());
                } else if j == 3 { assert("site_url"@.len() != "cron_expression"@.len());
                } else if j == 4 { assert("auth_type"@.len() != "cron_expression"@.len());
                } else if j == 5 { assert("project_space_visible"@.len() != "cron_expression"@.len());
                } else if j == 6 { assert("include_pages"@.len() != "cron_expression"@.len());
                } else if j == 7 { assert("include_documents"@.len() != "cron_expression"@.len());
                } else if j == 8 { assert("include_lists"@.len() != "cron_expression"@.len());
                } else if j == 9 { assert("max_file_size_mb"@.len() != "cron_expression"@.len());
                } else if j == 10 { assert("files_filter"@.len() != "cron_expression"@.len());
                } else if j == 11 { assert("setting_id"@.len() != "cron_expression"@.len());
                } else if j == 12 { assert("embedding_model"@[0] != "cron_expression"@[0]);
                }
            }
            lemma_fold_sends_field(s, t, is_update, 13, value);
        }
    } else if section == Section::Spec && from == "timezone"@ && to == "timezone"@ && !create_only {
        assert(t[14] == (Section::Spec, "timezone"@, "timezone"@, Presence::IfPresent, When::Always));
        if member_value(section_of(s, section), from) == Some(value) && !(value is Null) && !(create_only && is_update) {
            assert forall|j: int| 0 <= j < 14 implies #[trigger] t[j].0 != t[14].0 || t[j].1 != t[14].1 by {
                if j == 2 { assert("description"@.len() != "timezone"@.len());
                } else if j == 3 { assert("site_url"@[0] != "timezone"@[0]);
                } else if j == 4 { assert("auth_type"@.len() != "timezone"@.len());
                } else if j == 5 { assert("project_space_visible"@.len() != "timezone"@.len());
                } else if j == 6 { assert("include_pages"@.len() != "timezone"@.len());
                } else if j == 7 { assert("include_documents"@.len() != "timezone"@.len());
                } else if j == 8 { assert("include_lists"@.len() != "timezone"@.len());
                } else if j == 9 { assert("max_file_size_mb"@.len() != "timezone"@.len());
                } else if j == 10 { assert("files_filter"@.len() != "timezone"@.len());
                } else if j == 11 { assert("setting_id"@.len() != "timezone"@.len());
                } else if j == 12 { assert("embedding_model"@.len() != "timezone"@.len());
                } else if j == 13 { assert("cron_expression"@.len() != "timezone"@.len());
                }
            }
            lemma_fold_sends_field(s, t, is_update, 14, value);
        }
    } else if section == Section::Spec && from == "oauth_client_id"@ && to == "oauth_client_id"@ && !create_only {
        assert(t[15] == (Section::Spec, "oauth_client_id"@, "oauth_client_id"@, Presence::IfPresent, When::Always));
        if member_value(section_of(s, section), from) == Some(value) && !(value is Null) && !(create_only && is_update) {
            assert forall|j: int| 0 <= j < 15 implies #[trigger] t[j].0 != t[15].0 || t[j].1 != t[15].1 by {
                if j == 2 { assert("description"@.len() != "oauth_client_id"@.len());
                } else if j == 3 { assert("site_url"@.len() != "oauth_client_id"@.len());
                } else if j == 4 { assert("auth_type"@.len() != "oauth_client_id"@.len());
                } else if j == 5 { assert("project_space_visible"@.len() != "oauth_client_id"@.len());
                } else if j == 6 { assert("include_pages"@.len() != "oauth_client_id"@.len());
                } else if j == 7 { assert("include_documents"@.len() != "oauth_client_id"@.len());
                } else if j == 8 { assert("include_lists"@.len() != "oauth_client_id"@.len());
                } else if j == 9 { assert("max_file_size_mb"@.len() != "oauth_client_id"@.len());
                } else if j == 10 { assert("files_filter"@.len() != "oauth_client_id"@.len());
                } else if j == 11 { assert("setting_id"@.len() != "oauth_client_id"@.len());
                } else if j == 12 { assert("embedding_model"@[0] != "oauth_client_id"@[0]);
                } else if j == 13 { assert("cron_expression"@[0] != "oauth_client_id"@[0]);
                } else if j == 14 { assert("timezone"@.len() != "oauth_client_id"@.len());
                }
            }
            lemma_fold_sends_field(s, t, is_update, 15, value);
        }
    } else if section == Section::Spec && from == "oauth_tenant_id"@ && to == "oauth_tenant_id"@ && !create_only {
        assert(t[16] == (Section::Spec, "oauth_tenant_id"@, "oauth_tenant_id"@, Presence::IfPresent, When::Always));
        if member_value(section_of(s, section), from) == Some(value) && !(value is Null) && !(create_only && is_update) {
            assert forall|j: int| 0 <= j < 16 implies #[trigger] t[j].0 != t[16].0 || t[j].1 != t[16].1 by {
                if j == 2 { assert("description"@.len() != "oauth_tenant_id"@.len());
                } else if j == 3 { assert("site_url"@.len() != "oauth_tenant_id"@.len());
                } else if j == 4 { assert("auth_type"@.len() != "oauth_tenant_id"@.len());
                } else if j == 5 { assert("project_space_visible"@.len() != "oauth_tenant_id"@.len());
                } else if j == 6 { assert("include_pages"@.len() != "oauth_tenant_id"@.len());
                } else if j == 7 { assert("include_documents"@.len() != "oauth_tenant_id"@.len());
                } else if j == 8 { assert("include_lists"@.len() != "oauth_tenant_id"@.len());
                } else if j == 9 { assert("max_file_size_mb"@.len() != "oauth_tenant_id"@.len());
                } else if j == 10 { assert("files_filter"@.len() != "oauth_tenant_id"@.len());
                } else if j == 11 { assert("setting_id"@.len() != "oauth_tenant_id"@.len());
                } else if j == 12 { assert("embedding_model"@[0] != "oauth_tenant_id"@[0]);
                } else if j == 13 { assert("cron_expression"@[0] != "oauth_tenant_id"@[0]);
                } else if j == 14 { assert("timezone"@.len() != "oauth_tenant_id"@.len());
                } else if j == 15 { assert("oauth_client_id"@[6] != "oauth_tenant_id"@[6]);
                }
            }
            lemma_fold_sends_field(s, t, is_update, 16, value);
        }
    } else if section == Section::Spec && from == "guardrail_assignments"@ && to == "guardrail_assignments"@ && !create_only {
        assert(t[17] == (Section::Spec, "guardrail_assignments"@, "guardrail_assignments"@, Presence::IfPresent, When::Always));
        if member_value(section_of(s, section), from) == Some(value) && !(value is Null) && !(create_only && is_update) {
            assert forall|j: int| 0 <= j < 17 implies #[trigger] t[j].0 != t[17].0 || t[j].1 != t[17].1 by {
                if j == 2 { assert("description"@.len() != "guardrail_assignments"@.len());
                } else if j == 3 { assert("site_url"@.len() != "guardrail_assignments"@.len());
                } else if j == 4 { assert("auth_type"@.len() != "guardrail_assignments"@.len());
                } else if j == 5 { assert("project_space_visible"@[0] != "guardrail_assignments"@[0]);
                } else if j == 6 { assert("include_pages"@.len() != "guardrail_assignments"@.len());
                } else if j == 7 { assert("include_documents"@.len() != "guardrail_assignments"@.len());
                } else if j == 8 { assert("include_lists"@.len() != "guardrail_assignments"@.len());
                } else if j == 9 { assert("max_file_size_mb"@.len() != "guardrail_assignments"@.len());
                } else if j == 10 { assert("files_filter"@.len() != "guardrail_assignments"@.len());
                } else if j == 11 { assert("setting_id"@.len() != "guardrail_assignments"@.len());
                } else if j == 12 { assert("embedding_model"@.len() != "guardrail_assignments"@.len());
                } else if j == 13 { assert("cron_expression"@.len() != "guardrail_assignments"@.len());
                } else if j == 14 { assert("timezone"@.len() != "guardrail_assignments"@.len());
                } else if j == 15 { assert("oauth_client_id"@.len() != "guardrail_assignments"@.len());
                } else if j == 16 { assert("oauth_tenant_id"@.len() != "guardrail_assignments"@.len());
                }
            }
            lemma_fold_sends_field(s, t, is_update, 17, value);
        }
    }
    if member_value(section_of(s, section), from) == Some(value) && !(value is Null) && !(create_only && is_update) {
        let fb = rules_fold(s, Seq::empty(), t, is_update)->Ok_0.1;
        let i = choose|i: int| 0 <= i < fb.len() && #[trigger] fb[i] == (to, value);
        assert(0 <= i < request->Json_0->Object_0@.len() && body_view(request->Json_0->Object_0@)[i] == (to, value));
    }
}

/// The members a Skill body sends from the declaration: (section,
/// declared field, sent name, whether only a create sends it).
pub open spec fn skill_field(section: Section, from: Seq<char>, to: Seq<char>, create_only: bool) -> bool {
    ||| (section == Section::Metadata && from == "name"@ && to == "name"@ && !create_only)
    ||| (section == Section::Metadata && from == "project"@ && to == "project"@ && !create_only)
    ||| (section == Section::Spec && from == "description"@ && to == "description"@ && !create_only)
    ||| (section == Section::Spec && from == "content"@ && to == "content"@ && !create_only)
    ||| (section == Section::Spec && from == "visibility"@ && to == "visibility"@ && !create_only)
    ||| (section == Section::Spec && from == "categories"@ && to == "categories"@ && !create_only)
    ||| (section == Section::Spec && from == "toolkits"@ && to == "toolkits"@ && !create_only)
    ||| (section == Section::Spec && from == "mcp_servers"@ && to == "mcp_servers"@ && !create_only)
    ||| (section == Section::Spec && from == "companion_files"@ && to == "companion_files"@ && !create_only)
    ||| (section == Section::Spec && from == "enabled_builtin_subagents"@ && to == "enabled_builtin_subagents"@ && !create_only)
}

/// The field rules of a Skill send each declared field under its name on
/// every write.
pub proof fn law_skill_body_fields(
    v: JsonValue,
    is_update: bool,
    b: crate::projection::Body,
    section: Section,
    from: Seq<char>,
    to: Seq<char>,
    create_only: bool,
    value: JsonValue,
)
    requires
        skill_field(section, from, to, create_only),
        projected_body(v, rules::skill_rule_table(), is_update) == Some(b),
    ensures
        member_value(section_of(declaration_sections(v)->0, section), from) == Some(value) && !(value is Null)
            && !(create_only && is_update) ==> exists|i: int| 0 <= i < b.len() && #[trigger] b[i] == (to, value),
{
    reveal_strlit("categories");
    reveal_strlit("companion_files");
    reveal_strlit("content");
    reveal_strlit("description");
    reveal_strlit("enabled_builtin_subagents");
    reveal_strlit("mcp_servers");
    reveal_strlit("name");
    reveal_strlit("project");
    reveal_strlit("toolkits");
    reveal_strlit("visibility");
    let t = rules::skill_rule_table();
    let s = declaration_sections(v)->0;
    if section == Section::Metadata && from == "name"@ && to == "name"@ && !create_only {
        assert(t[0] == (Section::Metadata, "name"@, "name"@, Presence::Required, When::Always));
        if member_value(section_of(s, section), from) == Some(value) && !(value is Null) && !(create_only && is_update) {
            assert forall|j: int| 0 <= j < 0 implies #[trigger] t[j].0 != t[0].0 || t[j].1 != t[0].1 by {
            }
            lemma_fold_sends_field(s, t, is_update, 0, value);
        }
    } else if section == Section::Metadata && from == "project"@ && to == "project"@ && !create_only {
        assert(t[1] == (Section::Metadata, "project"@, "project"@, Presence::Required, When::Always));
        if member_value(section_of(s, section), from) == Some(value) && !(value is Null) && !(create_only && is_update) {
            assert forall|j: int| 0 <= j < 1 implies #[trigger] t[j].0 != t[1].0 || t[j].1 != t[1].1 by {
                if j == 0 { assert("name"@.len() != "project"@.len());
                }
            }
            lemma_fold_sends_field(s, t, is_update, 1, value);
        }
    } else if section == Section::Spec && from == "description"@ && to == "description"@ && !create_only {
        assert(t[2] == (Section::Spec, "description"@, "description"@, Presence::Required, When::Always));
        if member_value(section_of(s, section), from) == Some(value) && !(value is Null) && !(create_only && is_update) {
            assert forall|j: int| 0 <= j < 2 implies #[trigger] t[j].0 != t[2].0 || t[j].1 != t[2].1 by {
            }
            lemma_fold_sends_field(s, t, is_update, 2, value);
        }
    } else if section == Section::Spec && from == "content"@ && to == "content"@ && !create_only {
        assert(t[3] == (Section::Spec, "content"@, "content"@, Presence::Required, When::Always));
        if member_value(section_of(s, section), from) == Some(value) && !(value is Null) && !(create_only && is_update) {
            assert forall|j: int| 0 <= j < 3 implies #[trigger] t[j].0 != t[3].0 || t[j].1 != t[3].1 by {
                if j == 2 { assert("description"@.len() != "content"@.len());
                }
            }
            lemma_fold_sends_field(s, t, is_update, 3, value);
        }
    } else if section == Section::Spec && from == "visibility"@ && to == "visibility"@ && !create_only {
        assert(t[4] == (Section::Spec, "visibility"@, "visibility"@, Presence::Required, When::Always));
        if member_value(section_of(s, section), from) == Some(value) && !(value is Null) && !(create_only && is_update) {
            assert forall|j: int| 0 <= j < 4 implies #[trigger] t[j].0 != t[4].0 || t[j].1 != t[4].1 by {
                if j == 2 { assert("description"@.len() != "visibility"@.len());
                } else if j == 3 { assert("content"@.len() != "visibility"@.len());
                }
            }
            lemma_fold_sends_field(s, t, is_update, 4, value);
        }
    } else if section == Section::Spec && from == "categories"@ && to == "categories"@ && !create_only {
        assert(t[5] == (Section::Spec, "categories"@, "categories"@, Presence::Required, When::Always));
        if member_value(section_of(s, section), from) == Some(value) && !(value is Null) && !(create_only && is_update) {
            assert forall|j: int| 0 <= j < 5 implies #[trigger] t[j].0 != t[5].0 || t[j].1 != t[5].1 by {
                if j == 2 { assert("description"@.len() != "categories"@.len());
                } else if j == 3 { assert("content"@.len() != "categories"@.len());
                } else if j == 4 { assert("visibility"@[0] != "categories"@[0]);
                }
            }
            lemma_fold_sends_field(s, t, is_update, 5, value);
        }
    } else if section == Section::Spec && from == "toolkits"@ && to == "toolkits"@ && !create_only {
        assert(t[6] == (Section::Spec, "toolkits"@, "toolkits"@, Presence::Required, When::Always));
        if member_value(section_of(s, section), from) == Some(value) && !(value is Null) && !(create_only && is_update) {
            assert forall|j: int| 0 <= j < 6 implies #[trigger] t[j].0 != t[6].0 || t[j].1 != t[6].1 by {
                if j == 2 { assert("description"@.len() != "toolkits"@.len());
                } else if j == 3 { assert("content"@.len() != "toolkits"@.len());
                } else if j == 4 { assert("visibility"@.len() != "toolkits"@.len());
                } else if j == 5 { assert("categories"@.len() != "toolkits"@.len());
                }
            }
            lemma_fold_sends_field(s, t, is_update, 6, value);
        }
    } else if section == Section::Spec && from == "mcp_servers"@ && to == "mcp_servers"@ && !create_only {
        assert(t[7] == (Section::Spec, "mcp_servers"@, "mcp_servers"@, Presence::Required, When::Always));
        if member_value(section_of(s, section), from) == Some(value) && !(value is Null) && !(create_only && is_update) {
            assert forall|j: int| 0 <= j < 7 implies #[trigger] t[j].0 != t[7].0 || t[j].1 != t[7].1 by {
                if j == 2 { assert("description"@[0] != "mcp_servers"@[0]);
                } else if j == 3 { assert("content"@.len() != "mcp_servers"@.len());
                } else if j == 4 { assert("visibility"@.len() != "mcp_servers"@.len());
                } else if j == 5 { assert("categories"@.len() != "mcp_servers"@.len());
                } else if j == 6 { assert("toolkits"@.len() != "mcp_servers"@.len());
                }
            }
            lemma_fold_sends_field(s, t, is_update, 7, value);
        }
    } else if section == Section::Spec && from == "companion_files"@ && to == "companion_files"@ && !create_only {
        assert(t[8] == (Section::Spec, "companion_files"@, "companion_files"@, Presence::Required, When::Always));
        if member_value(section_of(s, section), from) == Some(value) && !(value is Null) && !(create_only && is_update) {
            assert forall|j: int| 0 <= j < 8 implies #[trigger] t[j].0 != t[8].0 || t[j].1 != t[8].1 by {
                if j == 2 { assert("description"@.len() != "companion_files"@.len());
                } else if j == 3 { assert("content"@.len() != "companion_files"@.len());
                } else if j == 4 { assert("visibility"@.len() != "companion_files"@.len());
                } else if j == 5 { assert("categories"@.len() != "companion_files"@.len());
                } else if j == 6 { assert("toolkits"@.len() != "companion_files"@.len());
                } else if j == 7 { assert("mcp_servers"@.len() != "companion_files"@.len());
                }
            }
            lemma_fold_sends_field(s, t, is_update, 8, value);
        }
    } else if section == Section::Spec && from == "enabled_builtin_subagents"@ && to == "enabled_builtin_subagents"@ && !create_only {
        assert(t[9] == (Section::Spec, "enabled_builtin_subagents"@, "enabled_builtin_subagents"@, Presence::Required, When::Always));
        if member_value(section_of(s, section), from) == Some(value) && !(value is Null) && !(create_only && is_update) {
            assert forall|j: int| 0 <= j < 9 implies #[trigger] t[j].0 != t[9].0 || t[j].1 != t[9].1 by {
                if j == 2 { assert("description"@.len() != "enabled_builtin_subagents"@.len());
                } else if j == 3 { assert("content"@.len() != "enabled_builtin_subagents"@.len());
                } else if j == 4 { assert("visibility"@.len() != "enabled_builtin_subagents"@.len());
                } else if j == 5 { assert("categories"@.len() != "enabled_builtin_subagents"@.len());
                } else if j == 6 { assert("toolkits"@.len() != "enabled_builtin_subagents"@.len());
                } else if j == 7 { assert("mcp_servers"@.len() != "enabled_builtin_subagents"@.len());
                } else if j == 8 { assert("companion_files"@.len() != "enabled_builtin_subagents"@.len());
                }
            }
            lemma_fold_sends_field(s, t, is_update, 9, value);
        }
    }
}

/// The members a Assistant body sends from the declaration: (section,
/// declared field, sent name, whether only a create sends it).
pub open spec fn assistant_field(section: Section, from: Seq<char>, to: Seq<char>, create_only: bool) -> bool {
    ||| (section == Section::Metadata && from == "project"@ && to == "project"@ && !create_only)
    ||| (section == Section::Metadata && from == "slug"@ && to == "slug"@ && !create_only)
    ||| (section == Section::Spec && from == "name"@ && to == "name"@ && !create_only)
    ||| (section == Section::Spec && from == "description"@ && to == "description"@ && !create_only)
    ||| (section == Section::Spec && from == "system_prompt"@ && to == "system_prompt"@ && !create_only)
    ||| (section == Section::Spec && from == "icon_url"@ && to == "icon_url"@ && !create_only)
    ||| (section == Section::Spec && from == "llm_model_type"@ && to == "llm_model_type"@ && !create_only)
    ||| (section == Section::Spec && from == "enable_image_generation"@ && to == "enable_image_generation"@ && !create_only)
    ||| (section == Section::Spec && from == "image_generation_model"@ && to == "image_generation_model"@ && !create_only)
    ||| (section == Section::Spec && from == "toolkits"@ && to == "toolkits"@ && !create_only)
    ||| (section == Section::Spec && from == "conversation_starters"@ && to == "conversation_starters"@ && !create_only)
    ||| (section == Section::Spec && from == "shared"@ && to == "shared"@ && !create_only)
    ||| (section == Section::Spec && from == "is_global"@ && to == "is_global"@ && !create_only)
    ||| (section == Section::Spec && from == "agent_mode"@ && to == "agent_mode"@ && !create_only)
    ||| (section == Section::Spec && from == "plan_prompt"@ && to == "plan_prompt"@ && !create_only)
    ||| (section == Section::Spec && from == "temperature"@ && to == "temperature"@ && !create_only)
    ||| (section == Section::Spec && from == "top_p"@ && to == "top_p"@ && !create_only)
    ||| (section == Section::Spec && from == "tools_tokens_size_limit"@ && to == "tools_tokens_size_limit"@ && !create_only)
    ||| (section == Section::Spec && from == "smart_tool_selection_enabled"@ && to == "smart_tool_selection_enabled"@ && !create_only)
    ||| (section == Section::Spec && from == "hedging_config"@ && to == "hedging_config"@ && !create_only)
    ||| (section == Section::Spec && from == "interactive_features"@ && to == "interactive_features"@ && !create_only)
    ||| (section == Section::Spec && from == "mcp_servers"@ && to == "mcp_servers"@ && !create_only)
    ||| (section == Section::Spec && from == "enabled_builtin_subagents"@ && to == "enabled_builtin_subagents"@ && !create_only)
    ||| (section == Section::Spec && from == "type"@ && to == "type"@ && !create_only)
    ||| (section == Section::Spec && from == "categories"@ && to == "categories"@ && !create_only)
    ||| (section == Section::Spec && from == "prompt_variables"@ && to == "prompt_variables"@ && !create_only)
    ||| (section == Section::Spec && from == "custom_metadata"@ && to == "custom_metadata"@ && !create_only)
    ||| (section == Section::Spec && from == "guardrail_assignments"@ && to == "guardrail_assignments"@ && !create_only)
}

/// The field rules of a Assistant send each declared field under its name on
/// every write.
pub proof fn law_assistant_body_fields(
    v: JsonValue,
    is_update: bool,
    b: crate::projection::Body,
    section: Section,
    from: Seq<char>,
    to: Seq<char>,
    create_only: bool,
    value: JsonValue,
)
    requires
        assistant_field(section, from, to, create_only),
        projected_body(v, rules::assistant_rule_table(), is_update) == Some(b),
    ensures
        member_value(section_of(declaration_sections(v)->0, section), from) == Some(value) && !(value is Null)
            && !(create_only && is_update) ==> exists|i: int| 0 <= i < b.len() && #[trigger] b[i] == (to, value),
{
    reveal_strlit("agent_mode");
    reveal_strlit("categories");
    reveal_strlit("conversation_starters");
    reveal_strlit("custom_metadata");
    reveal_strlit("description");
    reveal_strlit("enable_image_generation");
    reveal_strlit("enabled_builtin_subagents");
    reveal_strlit("guardrail_assignments");
    reveal_strlit("hedging_config");
    reveal_strlit("icon_url");
    reveal_strlit("image_generation_model");
    reveal_strlit("interactive_features");
    reveal_strlit("is_global");
    reveal_strlit("llm_model_type");
    reveal_strlit("mcp_servers");
    reveal_strlit("name");
    reveal_strlit("plan_prompt");
    reveal_strlit("project");
    reveal_strlit("prompt_variables");
    reveal_strlit("shared");
    reveal_strlit("slug");
    reveal_strlit("smart_tool_selection_enabled");
    reveal_strlit("system_prompt");
    reveal_strlit("temperature");
    reveal_strlit("toolkits");
    reveal_strlit("tools_tokens_size_limit");
    reveal_strlit("top_p");
    reveal_strlit("type");
    let t = rules::assistant_rule_table();
    let s = declaration_sections(v)->0;
    if section == Section::Metadata && from == "project"@ && to == "project"@ && !create_only {
        assert(t[0] == (Section::Metadata, "project"@, "project"@, Presence::Required, When::Always));
        if member_value(section_of(s, section), from) == Some(value) && !(value is Null) && !(create_only && is_update) {
            assert forall|j: int| 0 <= j < 0 implies #[trigger] t[j].0 != t[0].0 || t[j].1 != t[0].1 by {
            }
            lemma_fold_sends_field(s, t, is_update, 0, value);
        }
    } else if section == Section::Metadata && from == "slug"@ && to == "slug"@ && !create_only {
        assert(t[1] == (Section::Metadata, "slug"@, "slug"@, Presence::Required, When::Always));
        if member_value(section_of(s, section), from) == Some(value) && !(value is Null) && !(create_only && is_update) {
            assert forall|j: int| 0 <= j < 1 implies #[trigger] t[j].0 != t[1].0 || t[j].1 != t[1].1 by {
                if j == 0 { assert("project"@.len() != "slug"@.len());
                }
            }
            lemma_fold_sends_field(s, t, is_update, 1, value);
        }
    } else if section == Section::Spec && from == "name"@ && to == "name"@ && !create_only {
        assert(t[2] == (Section::Spec, "name"@, "name"@, Presence::Required, When::Always));
        if member_value(section_of(s, section), from) == Some(value) && !(value is Null) && !(create_only && is_update) {
            assert forall|j: int| 0 <= j < 2 implies #[trigger] t[j].0 != t[2].0 || t[j].1 != t[2].1 by {
            }
            lemma_fold_sends_field(s, t, is_update, 2, value);
        }
    } else if section == Section::Spec && from == "description"@ && to == "description"@ && !create_only {
        assert(t[3] == (Section::Spec, "description"@, "description"@, Presence::OrNull, When::Always));
        if member_value(section_of(s, section), from) == Some(value) && !(value is Null) && !(create_only && is_update) {
            assert forall|j: int| 0 <= j < 3 implies #[trigger] t[j].0 != t[3].0 || t[j].1 != t[3].1 by {
                if j == 2 { assert("name"@.len() != "description"@.len());
                }
            }
            lemma_fold_sends_field(s, t, is_update, 3, value);
        }
    } else if section == Section::Spec && from == "system_prompt"@ && to == "system_prompt"@ && !create_only {
        assert(t[4] == (Section::Spec, "system_prompt"@, "system_prompt"@, Presence::Required, When::Always));
        if member_value(section_of(s, section), from) == Some(value) && !(value is Null) && !(create_only && is_update) {
            assert forall|j: int| 0 <= j < 4 implies #[trigger] t[j].0 != t[4].0 || t[j].1 != t[4].1 by {
                if j == 2 { assert("name"@.len() != "system_prompt"@.len());
                } else if j == 3 { assert("description"@.len() != "system_prompt"@.len());
                }
            }
            lemma_fold_sends_field(s, t, is_update, 4, value);
        }
    } else if section == Section::Spec && from == "icon_url"@ && to == "icon_url"@ && !create_only {
        assert(t[5] == (Section::Spec, "icon_url"@, "icon_url"@, Presence::OrNull, When::Always));
        if member_value(section_of(s, section), from) == Some(value) && !(value is Null) && !(create_only && is_update) {
            assert forall|j: int| 0 <= j < 5 implies #[trigger] t[j].0 != t[5].0 || t[j].1 != t[5].1 by {
                if j == 2 { assert("name"@.len() != "icon_url"@.len());
                } else if j == 3 { assert("description"@.len() != "icon_url"@.len());
                } else if j == 4 { assert("system_prompt"@.len() != "icon_url"@.len());
                }
            }
            lemma_fold_sends_field(s, t, is_update, 5, value);
        }
    } else if section == Section::Spec && from == "llm_model_type"@ && to == "llm_model_type"@ && !create_only {
        assert(t[6] == (Section::Spec, "llm_model_type"@, "llm_model_type"@, Presence::Required, When::Always));
        if member_value(section_of(s, section), from) == Some(value) && !(value is Null) && !(create_only && is_update) {
            assert forall|j: int| 0 <= j < 6 implies #[trigger] t[j].0 != t[6].0 || t[j].1 != t[6].1 by {
                if j == 2 { assert("name"@.len() != "llm_model_type"@.len());
                } else if j == 3 { assert("description"@.len() != "llm_model_type"@.len());
                } else if j == 4 { assert("system_prompt"@.len() != "llm_model_type"@.len());
                } else if j == 5 { assert("icon_url"@.len() != "llm_model_type"@.len());
                }
            }
            lemma_fold_sends_field(s, t, is_update, 6, value);
        }
    } else if section == Section::Spec && from == "enable_image_generation"@ && to == "enable_image_generation"@ && !create_only {
        assert(t[7] == (Section::Spec, "enable_image_generation"@, "enable_image_generation"@, Presence::OrNull, When::Always));
        if member_value(section_of(s, section), from) == Some(value) && !(value is Null) && !(create_only && is_update) {
            assert forall|j: int| 0 <= j < 7 implies #[trigger] t[j].0 != t[7].0 || t[j].1 != t[7].1 by {
                if j == 2 { assert("name"@.len() != "enable_image_generation"@.len());
                } else if j == 3 { assert("description"@.len() != "enable_image_generation"@.len());
                } else if j == 4 { assert("system_prompt"@.len() != "enable_image_generation"@.len());
                } else if j == 5 { assert("icon_url"@.len() != "enable_image_generation"@.len());
                } else if j == 6 { assert("llm_model_type"@.len() != "enable_image_generation"@.len());
                }
            }
            lemma_fold_sends_field(s, t, is_update, 7, value);
        }
    } else if section == Section::Spec && from == "image_generation_model"@ && to == "image_generation_model"@ && !create_only {
        assert(t[8] == (Section::Spec, "image_generation_model"@, "image_generation_model"@, Presence::OrNull, When::Always));
        if member_value(section_of(s, section), from) == Some(value) && !(value is Null) && !(create_only && is_update) {
            assert forall|j: int| 0 <= j < 8 implies #[trigger] t[j].0 != t[8].0 || t[j].1 != t[8].1 by {
                if j == 2 { assert("name"@.len() != "image_generation_model"@.len());
                } else if j == 3 { assert("description"@.len() != "image_generation_model"@.len());
                } else if j == 4 { assert("system_prompt"@.len() != "image_generation_model"@.len());
                } else if j == 5 { assert("icon_url"@.len() != "image_generation_model"@.len());
                } else if j == 6 { assert("llm_model_type"@.len() != "image_generation_model"@.len());
                } else if j == 7 { assert("enable_image_generation"@.len() != "image_generation_model"@.len());
                }
            }
            lemma_fold_sends_field(s, t, is_update, 8, value);
        }
    } else if section == Section::Spec && from == "toolkits"@ && to == "toolkits"@ && !create_only {
        assert(t[9] == (Section::Spec, "toolkits"@, "toolkits"@, Presence::Required, When::Always));
        if member_value(section_of(s, section), from) == Some(value) && !(value is Null) && !(create_only && is_update) {
            assert forall|j: int| 0 <= j < 9 implies #[trigger] t[j].0 != t[9].0 || t[j].1 != t[9].1 by {
                if j == 2 { assert("name"@.len() != "toolkits"@.len());
                } else if j == 3 { assert("description"@.len() != "toolkits"@.len());
                } else if j == 4 { assert("system_prompt"@.len() != "toolkits"@.len());
                } else if j == 5 { assert("icon_url"@[0] != "toolkits"@[0]);
                } else if j == 6 { assert("llm_model_type"@.len() != "toolkits"@.len());
                } else if j == 7 { assert("enable_image_generation"@.len() != "toolkits"@.len());
                } else if j == 8 { assert("image_generation_model"@.len() != "toolkits"@.len());
                }
            }
            lemma_fold_sends_field(s, t, is_update, 9, value);
        }
    } else if section == Section::Spec && from == "conversation_starters"@ && to == "conversation_starters"@ && !create_only {
        assert(t[10] == (Section::Spec, "conversation_starters"@, "conversation_starters"@, Presence::Required, When::Always));
        if member_value(section_of(s, section), from) == Some(value) && !(value is Null) && !(create_only && is_update) {
            assert forall|j: int| 0 <= j < 10 implies #[trigger] t[j].0 != t[10].0 || t[j].1 != t[10].1 by {
                if j == 2 { assert("name"@.len() != "conversation_starters"@.len());
                } else if j == 3 { assert("description"@.len() != "conversation_starters"@.len());
                } else if j == 4 { assert("system_prompt"@.len() != "conversation_starters"@.len());
                } else if j == 5 { assert("icon_url"@.len() != "conversation_starters"@.len());
                } else if j == 6 { assert("llm_model_type"@.len() != "conversation_starters"@.len());
                } else if j == 7 { assert("enable_image_generation"@.len() != "conversation_starters"@.len());
                } else if j == 8 { assert("image_generation_model"@.len() != "conversation_starters"@.len());
                } else if j == 9 { assert("toolkits"@.len() != "conversation_starters"@.len());
                }
            }
            lemma_fold_sends_field(s, t, is_update, 10, value);
        }
    } else if section == Section::Spec && from == "shared"@ && to == "shared"@ && !create_only {
        assert(t[11] == (Section::Spec, "shared"@, "shared"@, Presence::Required, When::Always));
        if member_value(section_of(s, section), from) == Some(value) && !(value is Null) && !(create_only && is_update) {
            assert forall|j: int| 0 <= j < 11 implies #[trigger] t[j].0 != t[11].0 || t[j].1 != t[11].1 by {
                if j == 2 { assert("name"@.len() != "shared"@.len());
                } else if j == 3 { assert("description"@.len() != "shared"@.len());
                } else if j == 4 { assert("system_prompt"@.len() != "shared"@.len());
                } else if j == 5 { assert("icon_url"@.len() != "shared"@.len());
                } else if j == 6 { assert("llm_model_type"@.len() != "shared"@.len());
                } else if j == 7 { assert("enable_image_generation"@.len() != "shared"@.len());
                } else if j == 8 { assert("image_generation_model"@.len() != "shared"@.len());
                } else if j == 9 { assert("toolkits"@.len() != "shared"@.len());
                } else if j == 10 { assert("conversation_starters"@.len() != "shared"@.len());
                }
            }
            lemma_fold_sends_field(s, t, is_update, 11, value);
        }
    } else if section == Section::Spec && from == "is_global"@ && to == "is_global"@ && !create_only {
        assert(t[12] == (Section::Spec, "is_global"@, "is_global"@, Presence::OrNull, When::Always));
        if member_value(section_of(s, section), from) == Some(value) && !(value is Null) && !(create_only && is_update) {
            assert forall|j: int| 0 <= j < 12 implies #[trigger] t[j].0 != t[12].0 || t[j].1 != t[12].1 by {
                if j == 2 { assert("name"@.len() != "is_global"@.len());
                } else if j == 3 { assert("description"@.len() != "is_global"@.len());
                } else if j == 4 { assert("system_prompt"@.len() != "is_global"@.len());
                } else if j == 5 { assert("icon_url"@.len() != "is_global"@.len());
                } else if j == 6 { assert("llm_model_type"@.len() != "is_global"@.len());
                } else if j == 7 { assert("enable_image_generation"@.len() != "is_global"@.len());
                } else if j == 8 { assert("image_generation_model"@.len() != "is_global"@.len());
                } else if j == 9 { assert("toolkits"@.len() != "is_global"@.len());
                } else if j == 10 { assert("conversation_starters"@.len() != "is_global"@.len());
                } else if j == 11 { assert("shared"@.len() != "is_global"@.len());
                }
            }
            lemma_fold_sends_field(s, t, is_update, 12, value);
        }
    } else if section == Section::Spec && from == "agent_mode"@ && to == "agent_mode"@ && !create_only {
        assert(t[13] == (Section::Spec, "agent_mode"@, "agent_mode"@, Presence::OrNull, When::Always));
        if member_value(section_of(s, section), from) == Some(value) && !(value is Null) && !(create_only && is_update) {
            assert forall|j: int| 0 <= j < 13 implies #[trigger] t[j].0 != t[13].0 || t[j].1 != t[13].1 by {
                if j == 2 { assert("name"@.len() != "agent_mode"@.len());
                } else if j == 3 { assert("description"@.len() != "agent_mode"@.len());
                } else if j == 4 { assert("system_prompt"@.len() != "agent_mode"@.len());
                } else if j == 5 { assert("icon_url"@.len() != "agent_mode"@.len());
                } else if j == 6 { assert("llm_model_type"@.len() != "agent_mode"@.len());
                } else if j == 7 { assert("enable_image_generation"@.len() != "agent_mode"@.len());
                } else if j == 8 { assert("image_generation_model"@.len() != "agent_mode"@.len());
                } else if j == 9 { assert("toolkits"@.len() != "agent_mode"@.len());
                } else if j == 10 { assert("conversation_starters"@.len() != "agent_mode"@.len());
                } else if j == 11 { assert("shared"@.len() != "agent_mode"@.len());
                } else if j == 12 { assert("is_global"@.len() != "agent_mode"@.len());
                }
            }
            lemma_fold_sends_field(s, t, is_update, 13, value);
        }
    } else if section == Section::Spec && from == "plan_prompt"@ && to == "plan_prompt"@ && !create_only {
        assert(t[14] == (Section::Spec, "plan_prompt"@, "plan_prompt"@, Presence::OrNull, When::Always));
        if member_value(section_of(s, section), from) == Some(value) && !(value is Null) && !(create_only && is_update) {
            assert forall|j: int| 0 <= j < 14 implies #[trigger] t[j].0 != t[14].0 || t[j].1 != t[14].1 by {
                if j == 2 { assert("name"@.len() != "plan_prompt"@.len());
                } else if j == 3 { assert("description"@[0] != "plan_prompt"@[0]);
                } else if j == 4 { assert("system_prompt"@.len() != "plan_prompt"@.len());
                } else if j == 5 { assert("icon_url"@.len() != "plan_prompt"@.len());
                } else if j == 6 { assert("llm_model_type"@.len() != "plan_prompt"@.len());
                } else if j == 7 { assert("enable_image_generation"@.len() != "plan_prompt"@.len());
                } else if j == 8 { assert("image_generation_model"@.len() != "plan_prompt"@.len());
                } else if j == 9 { assert("toolkits"@.len() != "plan_prompt"@.len());
                } else if j == 10 { assert("conversation_starters"@.len() != "plan_prompt"@.len());
                } else if j == 11 { assert("shared"@.len() != "plan_prompt"@.len());
                } else if j == 12 { assert("is_global"@.len() != "plan_prompt"@.len());
                } else if j == 13 { assert("agent_mode"@.len() != "plan_prompt"@.len());
                }
            }
            lemma_fold_sends_field(s, t, is_update, 14, value);
        }
    } else if section == Section::Spec && from == "temperature"@ && to == "temperature"@ && !create_only {
        assert(t[15] == (Section::Spec, "temperature"@, "temperature"@, Presence::OrNull, When::Always));
        if member_value(section_of(s, section), from) == Some(value) && !(value is Null) && !(create_only && is_update) {
            assert forall|j: int| 0 <= j < 15 implies #[trigger] t[j].0 != t[15].0 || t[j].1 != t[15].1 by {
                if j == 2 { assert("name"@.len() != "temperature"@.len());
                } else if j == 3 { assert("description"@[0] != "temperature"@[0]);
                } else if j == 4 { assert("system_prompt"@.len() != "temperature"@.len());
                } else if j == 5 { assert("icon_url"@.len() != "temperature"@.len());
                } else if j == 6 { assert("llm_model_type"@.len() != "temperature"@.len());
                } else if j == 7 { assert("enable_image_generation"@.len() != "temperature"@.len());
                } else if j == 8 { assert("image_generation_model"@.len() != "temperature"@.len());
                } else if j == 9 { assert("toolkits"@.len() != "temperature"@.len());
                } else if j == 10 { assert("conversation_starters"@.len() != "temperature"@.len());
                } else if j == 11 { assert("shared"@.len() != "temperature"@.len());
                } else if j == 12 { assert("is_global"@.len() != "temperature"@.len());
                } else if j == 13 { assert("agent_mode"@.len() != "temperature"@.len());
                } else if j == 14 { assert("plan_prompt"@[0] != "temperature"@[0]);
                }
            }
            lemma_fold_sends_field(s, t, is_update, 15, value);
        }
    } else if section == Section::Spec && from == "top_p"@ && to == "top_p"@ && !create_only {
        assert(t[16] == (Section::Spec, "top_p"@, "top_p"@, Presence::OrNull, When::Always));
        if member_value(section_of(s, section), from) == Some(value) && !(value is Null) && !(create_only && is_update) {
            assert forall|j: int| 0 <= j < 16 implies #[trigger] t[j].0 != t[16].0 || t[j].1 != t[16].1 by {
                if j == 2 { assert("name"@.len() != "top_p"@.len());
                } else if j == 3 { assert("description"@.len() != "top_p"@.len());
                } else if j == 4 { assert("system_prompt"@.len() != "top_p"@.len());
                } else if j == 5 { assert("icon_url"@.len() != "top_p"@.len());
                } else if j == 6 { assert("llm_model_type"@.len() != "top_p"@.len());
                } else if j == 7 { assert("enable_image_generation"@.len() != "top_p"@.len());
                } else if j == 8 { assert("image_generation_model"@.len() != "top_p"@.len());
                } else if j == 9 { assert("toolkits"@.len() != "top_p"@.len());
                } else if j == 10 { assert("conversation_starters"@.len() != "top_p"@.len());
                } else if j == 11 { assert("shared"@.len() != "top_p"@.len());
                } else if j == 12 { assert("is_global"@.len() != "top_p"@.len());
                } else if j == 13 { assert("agent_mode"@.len() != "top_p"@.len());
                } else if j == 14 { assert("plan_prompt"@.len() != "top_p"@.len());
                } else if j == 15 { assert("temperature"@.len() != "top_p"@.len());
                }
            }
            lemma_fold_sends_field(s, t, is_update, 16, value);
        }
    } else if section == Section::Spec && from == "tools_tokens_size_limit"@ && to == "tools_tokens_size_limit"@ && !create_only {
        assert(t[17] == (Section::Spec, "tools_tokens_size_limit"@, "tools_tokens_size_limit"@, Presence::OrNull, When::Always));
        if member_value(section_of(s, section), from) == Some(value) && !(value is Null) && !(create_only && is_update) {
            assert forall|j: int| 0 <= j < 17 implies #[trigger] t[j].0 != t[17].0 || t[j].1 != t[17].1 by {
                if j == 2 { assert("name"@.len() != "tools_tokens_size_limit"@.len());
                } else if j == 3 { assert("description"@.len() != "tools_tokens_size_limit"@.len());
                } else if j == 4 { assert("system_prompt"@.len() != "tools_tokens_size_limit"@.len());
                } else if j == 5 { assert("icon_url"@.len() != "tools_tokens_size_limit"@.len());
                } else if j == 6 { assert("llm_model_type"@.len() != "tools_tokens_size_limit"@.len());
                } else if j == 7 { assert("enable_image_generation"@[0] != "tools_tokens_size_limit"@[0]);
                } else if j == 8 { assert("image_generation_model"@.len() != "tools_tokens_size_limit"@.len());
                } else if j == 9 { assert("toolkits"@.len() != "tools_tokens_size_limit"@.len());
                } else if j == 10 { assert("conversation_starters"@.len() != "tools_tokens_size_limit"@.len());
                } else if j == 11 { assert("shared"@.len() != "tools_tokens_size_limit"@.len());
                } else if j == 12 { assert("is_global"@.len() != "tools_tokens_size_limit"@.len());
                } else if j == 13 { assert("agent_mode"@.len() != "tools_tokens_size_limit"@.len());
                } else if j == 14 { assert("plan_prompt"@.len() != "tools_tokens_size_limit"@.len());
                } else if j == 15 { assert("temperature"@.len() != "tools_tokens_size_limit"@.len());
                } else if j == 16 { assert("top_p"@.len() != "tools_tokens_size_limit"@.len());
                }
            }
            lemma_fold_sends_field(s, t, is_update, 17, value);
        }
    } else if section == Section::Spec && from == "smart_tool_selection_enabled"@ && to == "smart_tool_selection_enabled"@ && !create_only {
        assert(t[18] == (Section::Spec, "smart_tool_selection_enabled"@, "smart_tool_selection_enabled"@, Presence::OrNull, When::Always));
        if member_value(section_of(s, section), from) == Some(value) && !(value is Null) && !(create_only && is_update) {
            assert forall|j: int| 0 <= j < 18 implies #[trigger] t[j].0 != t[18].0 || t[j].1 != t[18].1 by {
                if j == 2 { assert("name"@.len() != "smart_tool_selection_enabled"@.len());
                } else if j == 3 { assert("description"@.len() != "smart_tool_selection_enabled"@.len());
                } else if j == 4 { assert("system_prompt"@.len() != "smart_tool_selection_enabled"@.len());
                } else if j == 5 { assert("icon_url"@.len() != "smart_tool_selection_enabled"@.len());
                } else if j == 6 { assert("llm_model_type"@.len() != "smart_tool_selection_enabled"@.len());
                } else if j == 7 { assert("enable_image_generation"@.len() != "smart_tool_selection_enabled"@.len());
                } else if j == 8 { assert("image_generation_model"@.len() != "smart_tool_selection_enabled"@.len());
                } else if j == 9 { assert("toolkits"@.len() != "smart_tool_selection_enabled"@.len());
                } else if j == 10 { assert("conversation_starters"@.len() != "smart_tool_selection_enabled"@.len());
                } else if j == 11 { assert("shared"@.len() != "smart_tool_selection_enabled"@.len());
                } else if j == 12 { assert("is_global"@.len() != "smart_tool_selection_enabled"@.len());
                } else if j == 13 { assert("agent_mode"@.len() != "smart_tool_selection_enabled"@.len());
                } else if j == 14 { assert("plan_prompt"@.len() != "smart_tool_selection_enabled"@.len());
                } else if j == 15 { assert("temperature"@.len() != "smart_tool_selection_enabled"@.len());
                } else if j == 16 { assert("top_p"@.len() != "smart_tool_selection_enabled"@.len());
                } else if j == 17 { assert("tools_tokens_size_limit"@.len() != "smart_tool_selection_enabled"@.len());
                }
            }
            lemma_fold_sends_field(s, t, is_update, 18, value);
        }
    } else if section == Section::Spec && from == "hedging_config"@ && to == "hedging_config"@ && !create_only {
        assert(t[19] == (Section::Spec, "hedging_config"@, "hedging_config"@, Presence::OrNull, When::Always));
        if member_value(section_of(s, section), from) == Some(value) && !(value is Null) && !(create_only && is_update) {
            assert forall|j: int| 0 <= j < 19 implies #[trigger] t[j].0 != t[19].0 || t[j].1 != t[19].1 by {
                if j == 2 { assert("name"@.len() != "hedging_config"@.len());
                } else if j == 3 { assert("description"@.len() != "hedging_config"@.len());
                } else if j == 4 { assert("system_prompt"@.len() != "hedging_config"@.len());
                } else if j == 5 { assert("icon_url"@.len() != "hedging_config"@.len());
                } else if j == 6 { assert("llm_model_type"@[0] != "hedging_config"@[0]);
                } else if j == 7 { assert("enable_image_generation"@.len() != "hedging_config"@.len());
                } else if j == 8 { assert("image_generation_model"@.len() != "hedging_config"@.len());
                } else if j == 9 { assert("toolkits"@.len() != "hedging_config"@.len());
                } else if j == 10 { assert("conversation_starters"@.len() != "hedging_config"@.len());
                } else if j == 11 { assert("shared"@.len() != "hedging_config"@.len());
                } else if j == 12 { assert("is_global"@.len() != "hedging_config"@.len());
                } else if j == 13 { assert("agent_mode"@.len() != "hedging_config"@.len());
                } else if j == 14 { assert("plan_prompt"@.len() != "hedging_config"@.len());
                } else if j == 15 { assert("temperature"@.len() != "hedging_config"@.len());
                } else if j == 16 { assert("top_p"@.len() != "hedging_config"@.len());
                } else if j == 17 { assert("tools_tokens_size_limit"@.len() != "hedging_config"@.len());
                } else if j == 18 { assert("smart_tool_selection_enabled"@.len() != "hedging_config"@.len());
                }
            }
            lemma_fold_sends_field(s, t, is_update, 19, value);
        }
    } else if section == Section::Spec && from == "interactive_features"@ && to == "interactive_features"@ && !create_only {
        assert(t[20] == (Section::Spec, "interactive_features"@, "interactive_features"@, Presence::OrNull, When::Always));
        if member_value(section_of(s, section), from) == Some(value) && !(value is Null) && !(create_only && is_update) {
            assert forall|j: int| 0 <= j < 20 implies #[trigger] t[j].0 != t[20].0 || t[j].1 != t[20].1 by {
                if j == 2 { assert("name"@.len() != "interactive_features"@.len());
                } else if j == 3 { assert("description"@.len() != "interactive_features"@.len());
                } else if j == 4 { assert("system_prompt"@.len() != "interactive_features"@.len());
                } else if j == 5 { assert("icon_url"@.len() != "interactive_features"@.len());
                } else if j == 6 { assert("llm_model_type"@.len() != "interactive_features"@.len());
                } else if j == 7 { assert("enable_image_generation"@.len() != "interactive_features"@.len());
                } else if j == 8 { assert("image_generation_model"@.len() != "interactive_features"@.len());
                } else if j == 9 { assert("toolkits"@.len() != "interactive_features"@.len());
                } else if j == 10 { assert("conversation_starters"@.len() != "interactive_features"@.len());
                } else if j == 11 { assert("shared"@.len() != "interactive_features"@.len());
                } else if j == 12 { assert("is_global"@.len() != "interactive_features"@.len());
                } else if j == 13 { assert("agent_mode"@.len() != "interactive_features"@.len());
                } else if j == 14 { assert("plan_prompt"@.len() != "interactive_features"@.len());
                } else if j == 15 { assert("temperature"@.len() != "interactive_features"@.len());
                } else if j == 16 { assert("top_p"@.len() != "interactive_features"@.len());
                } else if j == 17 { assert("tools_tokens_size_limit"@.len() != "interactive_features"@.len());
                } else if j == 18 { assert("smart_tool_selection_enabled"@.len() != "interactive_features"@.len());
                } else if j == 19 { assert("hedging_config"@.len() != "interactive_features"@.len());
                }
            }
            lemma_fold_sends_field(s, t, is_update, 20, value);
        }
    } else if section == Section::Spec && from == "mcp_servers"@ && to == "mcp_servers"@ && !create_only {
        assert(t[21] == (Section::Spec, "mcp_servers"@, "mcp_servers"@, Presence::Required, When::Always));
        if member_value(section_of(s, section), from) == Some(value) && !(value is Null) && !(create_only && is_update) {
            assert forall|j: int| 0 <= j < 21 implies #[trigger] t[j].0 != t[21].0 || t[j].1 != t[21].1 by {
                if j == 2 { assert("name"@.len() != "mcp_servers"@.len());
                } else if j == 3 { assert("description"@[0] != "mcp_servers"@[0]);
                } else if j == 4 { assert("system_prompt"@.len() != "mcp_servers"@.len());
                } else if j == 5 { assert("icon_url"@.len() != "mcp_servers"@.len());
                } else if j == 6 { assert("llm_model_type"@.len() != "mcp_servers"@.len());
                } else if j == 7 { assert("enable_image_generation"@.len() != "mcp_servers"@.len());
                } else if j == 8 { assert("image_generation_model"@.len() != "mcp_servers"@.len());
                } else if j == 9 { assert("toolkits"@.len() != "mcp_servers"@.len());
                } else if j == 10 { assert("conversation_starters"@.len() != "mcp_servers"@.len());
                } else if j == 11 { assert("shared"@.len() != "mcp_servers"@.len());
                } else if j == 12 { assert("is_global"@.len() != "mcp_servers"@.len());
                } else if j == 13 { assert("agent_mode"@.len() != "mcp_servers"@.len());
                } else if j == 14 { assert("plan_prompt"@[0] != "mcp_servers"@[0]);
                } else if j == 15 { assert("temperature"@[0] != "mcp_servers"@[0]);
                } else if j == 16 { assert("top_p"@.len() != "mcp_servers"@.len());
                } else if j == 17 { assert("tools_tokens_size_limit"@.len() != "mcp_servers"@.len());
                } else if j == 18 { assert("smart_tool_selection_enabled"@.len() != "mcp_servers"@.len());
                } else if j == 19 { assert("hedging_config"@.len() != "mcp_servers"@.len());
                } else if j == 20 { assert("interactive_features"@.len() != "mcp_servers"@.len());
                }
            }
            lemma_fold_sends_field(s, t, is_update, 21, value);
        }
    } else if section == Section::Spec && from == "enabled_builtin_subagents"@ && to == "enabled_builtin_subagents"@ && !create_only {
        assert(t[22] == (Section::Spec, "enabled_builtin_subagents"@, "enabled_builtin_subagents"@, Presence::Required, When::Always));
        if member_value(section_of(s, section), from) == Some(value) && !(value is Null) && !(create_only && is_update) {
            assert forall|j: int| 0 <= j < 22 implies #[trigger] t[j].0 != t[22].0 || t[j].1 != t[22].1 by {
                if j == 2 { assert("name"@.len() != "enabled_builtin_subagents"@.len());
                } else if j == 3 { assert("description"@.len() != "enabled_builtin_subagents"@.len());
                } else if j == 4 { assert("system_prompt"@.len() != "enabled_builtin_subagents"@.len());
                } else if j == 5 { assert("icon_url"@.len() != "enabled_builtin_subagents"@.len());
                } else if j == 6 { assert("llm_model_type"@.len() != "enabled_builtin_subagents"@.len());
                } else if j == 7 { assert("enable_image_generation"@.len() != "enabled_builtin_subagents"@.len());
                } else if j == 8 { assert("image_generation_model"@.len() != "enabled_builtin_subagents"@.len());
                } else if j == 9 { assert("toolkits"@.len() != "enabled_builtin_subagents"@.len());
                } else if j == 10 { assert("conversation_starters"@.len() != "enabled_builtin_subagents"@.len());
                } else if j == 11 { assert("shared"@.len() != "enabled_builtin_subagents"@.len());
                } else if j == 12 { assert("is_global"@.len() != "enabled_builtin_subagents"@.len());
                } else if j == 13 { assert("agent_mode"@.len() != "enabled_builtin_subagents"@.len());
                } else if j == 14 { assert("plan_prompt"@.len() != "enabled_builtin_subagents"@.len());
                } else if j == 15 { assert("temperature"@.len() != "enabled_builtin_subagents"@.len());
                } else if j == 16 { assert("top_p"@.len() != "enabled_builtin_subagents"@.len());
                } else if j == 17 { assert("tools_tokens_size_limit"@.len() != "enabled_builtin_subagents"@.len());
                } else if j == 18 { assert("smart_tool_selection_enabled"@.len() != "enabled_builtin_subagents"@.len());
                } else if j == 19 { assert("hedging_config"@.len() != "enabled_builtin_subagents"@.len());
                } else if j == 20 { assert("interactive_features"@.len() != "enabled_builtin_subagents"@.len());
                } else if j == 21 { assert("mcp_servers"@.len() != "enabled_builtin_subagents"@.len());
                }
            }
            lemma_fold_sends_field(s, t, is_update, 22, value);
        }
    } else if section == Section::Spec && from == "type"@ && to == "type"@ && !create_only {
        assert(t[23] == (Section::Spec, "type"@, "type"@, Presence::Required, When::Always));
        if member_value(section_of(s, section), from) == Some(value) && !(value is Null) && !(create_only && is_update) {
            assert forall|j: int| 0 <= j < 23 implies #[trigger] t[j].0 != t[23].0 || t[j].1 != t[23].1 by {
                if j == 2 { assert("name"@[0] != "type"@[0]);
                } else if j == 3 { assert("description"@.len() != "type"@.len());
                } else if j == 4 { assert("system_prompt"@.len() != "type"@.len());
                } else if j == 5 { assert("icon_url"@.len() != "type"@.len());
                } else if j == 6 { assert("llm_model_type"@.len() != "type"@.len());
                } else if j == 7 { assert("enable_image_generation"@.len() != "type"@.len());
                } else if j == 8 { assert("image_generation_model"@.len() != "type"@.len());
                } else if j == 9 { assert("toolkits"@.len() != "type"@.len());
                } else if j == 10 { assert("conversation_starters"@.len() != "type"@.len());
                } else if j == 11 { assert("shared"@.len() != "type"@.len());
                } else if j == 12 { assert("is_global"@.len() != "type"@.len());
                } else if j == 13 { assert("agent_mode"@.len() != "type"@.len());
                } else if j == 14 { assert("plan_prompt"@.len() != "type"@.len());
                } else if j == 15 { assert("temperature"@.len() != "type"@.len());
                } else if j == 16 { assert("top_p"@.len() != "type"@.len());
                } else if j == 17 { assert("tools_tokens_size_limit"@.len() != "type"@.len());
                } else if j == 18 { assert("smart_tool_selection_enabled"@.len() != "type"@.len());
                } else if j == 19 { assert("hedging_config"@.len() != "type"@.len());
                } else if j == 20 { assert("interactive_features"@.len() != "type"@.len());
                } else if j == 21 { assert("mcp_servers"@.len() != "type"@.len());
                } else if j == 22 { assert("enabled_builtin_subagents"@.len() != "type"@.len());
                }
            }
            lemma_fold_sends_field(s, t, is_update, 23, value);
        }
    } else if section == Section::Spec && from == "categories"@ && to == "categories"@ && !create_only {
        assert(t[24] == (Section::Spec, "categories"@, "categories"@, Presence::Required, When::Always));
        if member_value(section_of(s, section), from) == Some(value) && !(value is Null) && !(create_only && is_update) {
            assert forall|j: int| 0 <= j < 24 implies #[trigger] t[j].0 != t[24].0 || t[j].1 != t[24].1 by {
                if j == 2 { assert("name"@.len() != "categories"@.len());
                } else if j == 3 { assert("description"@.len() != "categories"@.len());
                } else if j == 4 { assert("system_prompt"@.len() != "categories"@.len());
                } else if j == 5 { assert("icon_url"@.len() != "categories"@.len());
                } else if j == 6 { assert("llm_model_type"@.len() != "categories"@.len());
                } else if j == 7 { assert("enable_image_generation"@.len() != "categories"@.len());
                } else if j == 8 { assert("image_generation_model"@.len() != "categories"@.len());
                } else if j == 9 { assert("toolkits"@.len() != "categories"@.len());
                } else if j == 10 { assert("conversation_starters"@.len() != "categories"@.len());
                } else if j == 11 { assert("shared"@.len() != "categories"@.len());
                } else if j == 12 { assert("is_global"@.len() != "categories"@.len());
                } else if j == 13 { assert("agent_mode"@[0] != "categories"@[0]);
                } else if j == 14 { assert("plan_prompt"@.len() != "categories"@.len());
                } else if j == 15 { assert("temperature"@.len() != "categories"@.len());
                } else if j == 16 { assert("top_p"@.len() != "categories"@.len());
                } else if j == 17 { assert("tools_tokens_size_limit"@.len() != "categories"@.len());
                } else if j == 18 { assert("smart_tool_selection_enabled"@.len() != "categories"@.len());
                } else if j == 19 { assert("hedging_config"@.len() != "categories"@.len());
                } else if j == 20 { assert("interactive_features"@.len() != "categories"@.len());
                } else if j == 21 { assert("mcp_servers"@.len() != "categories"@.len());
                } else if j == 22 { assert("enabled_builtin_subagents"@.len() != "categories"@.len());
                } else if j == 23 { assert("type"@.len() != "categories"@.len());
                }
            }
            lemma_fold_sends_field(s, t, is_update, 24, value);
        }
    } else if section == Section::Spec && from == "prompt_variables"@ && to == "prompt_variables"@ && !create_only {
        assert(t[25] == (Section::Spec, "prompt_variables"@, "prompt_variables"@, Presence::Required, When::Always));
        if member_value(section_of(s, section), from) == Some(value) && !(value is Null) && !(create_only && is_update) {
            assert forall|j: int| 0 <= j < 25 implies #[trigger] t[j].0 != t[25].0 || t[j].1 != t[25].1 by {
                if j == 2 { assert("name"@.len() != "prompt_variables"@.len());
                } else if j == 3 { assert("description"@.len() != "prompt_variables"@.len());
                } else if j == 4 { assert("system_prompt"@.len() != "prompt_variables"@.len());
                } else if j == 5 { assert("icon_url"@.len() != "prompt_variables"@.len());
                } else if j == 6 { assert("llm_model_type"@.len() != "prompt_variables"@.len());
                } else if j == 7 { assert("enable_image_generation"@.len() != "prompt_variables"@.len());
                } else if j == 8 { assert("image_generation_model"@.len() != "prompt_variables"@.len());
                } else if j == 9 { assert("toolkits"@.len() != "prompt_variables"@.len());
                } else if j == 10 { assert("conversation_starters"@.len() != "prompt_variables"@.len());
                } else if j == 11 { assert("shared"@.len() != "prompt_variables"@.len());
                } else if j == 12 { assert("is_global"@.len() != "prompt_variables"@.len());
                } else if j == 13 { assert("agent_mode"@.len() != "prompt_variables"@.len());
                } else if j == 14 { assert("plan_prompt"@.len() != "prompt_variables"@.len());
                } else if j == 15 { assert("temperature"@.len() != "prompt_variables"@.len());
                } else if j == 16 { assert("top_p"@.len() != "prompt_variables"@.len());
                } else if j == 17 { assert("tools_tokens_size_limit"@.len() != "prompt_variables"@.len());
                } else if j == 18 { assert("smart_tool_selection_enabled"@.len() != "prompt_variables"@.len());
                } else if j == 19 { assert("hedging_config"@.len() != "prompt_variables"@.len());
                } else if j == 20 { assert("interactive_features"@.len() != "prompt_variables"@.len());
                } else if j == 21 { assert("mcp_servers"@.len() != "prompt_variables"@.len());
                } else if j == 22 { assert("enabled_builtin_subagents"@.len() != "prompt_variables"@.len());
                } else if j == 23 { assert("type"@.len() != "prompt_variables"@.len());
                } else if j == 24 { assert("categories"@.len() != "prompt_variables"@.len());
                }
            }
            lemma_fold_sends_field(s, t, is_update, 25, value);
        }
    } else if section == Section::Spec && from == "custom_metadata"@ && to == "custom_metadata"@ && !create_only {
        assert(t[26] == (Section::Spec, "custom_metadata"@, "custom_metadata"@, Presence::OrNull, When::Always));
        if member_value(section_of(s, section), from) == Some(value) && !(value is Null) && !(create_only && is_update) {
            assert forall|j: int| 0 <= j < 26 implies #[trigger] t[j].0 != t[26].0 || t[j].1 != t[26].1 by {
                if j == 2 { assert("name"@.len() != "custom_metadata"@.len());
                } else if j == 3 { assert("description"@.len() != "custom_metadata"@.len());
                } else if j == 4 { assert("system_prompt"@.len() != "custom_metadata"@.len());
                } else if j == 5 { assert("icon_url"@.len() != "custom_metadata"@.len());
                } else if j == 6 { assert("llm_model_type"@.len() != "custom_metadata"@.len());
                } else if j == 7 { assert("enable_image_generation"@.len() != "custom_metadata"@.len());
                } else if j == 8 { assert("image_generation_model"@.len() != "custom_metadata"@.len());
                } else if j == 9 { assert("toolkits"@.len() != "custom_metadata"@.len());
                } else if j == 10 { assert("conversation_starters"@.len() != "custom_metadata"@.len());
                } else if j == 11 { assert("shared"@.len() != "custom_metadata"@.len());
                } else if j == 12 { assert("is_global"@.len() != "custom_metadata"@.len());
                } else if j == 13 { assert("agent_mode"@.len() != "custom_metadata"@.len());
                } else if j == 14 { assert("plan_prompt"@.len() != "custom_metadata"@.len());
                } else if j == 15 { assert("temperature"@.len() != "custom_metadata"@.len());
                } else if j == 16 { assert("top_p"@.len() != "custom_metadata"@.len());
                } else if j == 17 { assert("tools_tokens_size_limit"@.len() != "custom_metadata"@.len());
                } else if j == 18 { assert("smart_tool_selection_enabled"@.len() != "custom_metadata"@.len());
                } else if j == 19 { assert("hedging_config"@.len() != "custom_metadata"@.len());
                } else if j == 20 { assert("interactive_features"@.len() != "custom_metadata"@.len());
                } else if j == 21 { assert("mcp_servers"@.len() != "custom_metadata"@.len());
                } else if j == 22 { assert("enabled_builtin_subagents"@.len() != "custom_metadata"@.len());
                } else if j == 23 { assert("type"@.len() != "custom_metadata"@.len());
                } else if j == 24 { assert("categories"@.len() != "custom_metadata"@.len());
                } else if j == 25 { assert("prompt_variables"@.len() != "custom_metadata"@.len());
                }
            }
            lemma_fold_sends_field(s, t, is_update, 26, value);
        }
    } else if section == Section::Spec && from == "guardrail_assignments"@ && to == "guardrail_assignments"@ && !create_only {
        assert(t[27] == (Section::Spec, "guardrail_assignments"@, "guardrail_assignments"@, Presence::OrNull, When::Always));
        if member_value(section_of(s, section), from) == Some(value) && !(value is Null) && !(create_only && is_update) {
            assert forall|j: int| 0 <= j < 27 implies #[trigger] t[j].0 != t[27].0 || t[j].1 != t[27].1 by {
                if j == 2 { assert("name"@.len() != "guardrail_assignments"@.len());
                } else if j == 3 { assert("description"@.len() != "guardrail_assignments"@.len());
                } else if j == 4 { assert("system_prompt"@.len() != "guardrail_assignments"@.len());
                } else if j == 5 { assert("icon_url"@.len() != "guardrail_assignments"@.len());
                } else if j == 6 { assert("llm_model_type"@.len() != "guardrail_assignments"@.len());
                } else if j == 7 { assert("enable_image_generation"@.len() != "guardrail_assignments"@.len());
                } else if j == 8 { assert("image_generation_model"@.len() != "guardrail_assignments"@.len());
                } else if j == 9 { assert("toolkits"@.len() != "guardrail_assignments"@.len());
                } else if j == 10 { assert("conversation_starters"@[0] != "guardrail_assignments"@[0]);
                } else if j == 11 { assert("shared"@.len() != "guardrail_assignments"@.len());
                } else if j == 12 { assert("is_global"@.len() != "guardrail_assignments"@.len());
                } else if j == 13 { assert("agent_mode"@.len() != "guardrail_assignments"@.len());
                } else if j == 14 { assert("plan_prompt"@.len() != "guardrail_assignments"@.len());
                } else if j == 15 { assert("temperature"@.len() != "guardrail_assignments"@.len());
                } else if j == 16 { assert("top_p"@.len() != "guardrail_assignments"@.len());
                } else if j == 17 { assert("tools_tokens_size_limit"@.len() != "guardrail_assignments"@.len());
                } else if j == 18 { assert("smart_tool_selection_enabled"@.len() != "guardrail_assignments"@.len());
                } else if j == 19 { assert("hedging_config"@.len() != "guardrail_assignments"@.len());
                } else if j == 20 { assert("interactive_features"@.len() != "guardrail_assignments"@.len());
                } else if j == 21 { assert("mcp_servers"@.len() != "guardrail_assignments"@.len());
                } else if j == 22 { assert("enabled_builtin_subagents"@.len() != "guardrail_assignments"@.len());
                } else if j == 23 { assert("type"@.len() != "guardrail_assignments"@.len());
                } else if j == 24 { assert("categories"@.len() != "guardrail_assignments"@.len());
                } else if j == 25 { assert("prompt_variables"@.len() != "guardrail_assignments"@.len());
                } else if j == 26 { assert("custom_metadata"@.len() != "guardrail_assignments"@.len());
                }
            }
            lemma_fold_sends_field(s, t, is_update, 27, value);
        }
    }
}

/// The members a Workflow body sends from the declaration: (section,
/// declared field, sent name, whether only a create sends it).
pub open spec fn workflow_field(section: Section, from: Seq<char>, to: Seq<char>, create_only: bool) -> bool {
    ||| (section == Section::Metadata && from == "project"@ && to == "project"@ && !create_only)
    ||| (section == Section::Spec && from == "name"@ && to == "name"@ && !create_only)
    ||| (section == Section::Spec && from == "mode"@ && to == "mode"@ && !create_only)
    ||| (section == Section::Spec && from == "description"@ && to == "description"@ && !create_only)
    ||| (section == Section::Spec && from == "start_hint"@ && to == "start_hint"@ && !create_only)
    ||| (section == Section::Spec && from == "icon_url"@ && to == "icon_url"@ && !create_only)
    ||| (section == Section::Spec && from == "shared"@ && to == "shared"@ && !create_only)
    ||| (section == Section::Spec && from == "supervisor_prompt"@ && to == "supervisor_prompt"@ && !create_only)
    ||| (section == Section::Spec && from == "guardrail_assignments"@ && to == "guardrail_assignments"@ && !create_only)
}

/// The field rules of a Workflow send each declared field under its name on
/// every write.
pub proof fn law_workflow_body_fields(
    v: JsonValue,
    is_update: bool,
    b: crate::projection::Body,
    section: Section,
    from: Seq<char>,
    to: Seq<char>,
    create_only: bool,
    value: JsonValue,
)
    requires
        workflow_field(section, from, to, create_only),
        projected_body(v, rules::workflow_rule_table(), is_update) == Some(b),
    ensures
        member_value(section_of(declaration_sections(v)->0, section), from) == Some(value) && !(value is Null)
            && !(create_only && is_update) ==> exists|i: int| 0 <= i < b.len() && #[trigger] b[i] == (to, value),
{
    reveal_strlit("description");
    reveal_strlit("guardrail_assignments");
    reveal_strlit("icon_url");
    reveal_strlit("mode");
    reveal_strlit("name");
    reveal_strlit("project");
    reveal_strlit("shared");
    reveal_strlit("start_hint");
    reveal_strlit("supervisor_prompt");
    let t = rules::workflow_rule_table();
    let s = declaration_sections(v)->0;
    if section == Section::Metadata && from == "project"@ && to == "project"@ && !create_only {
        assert(t[0] == (Section::Metadata, "project"@, "project"@, Presence::Required, When::Always));
        if member_value(section_of(s, section), from) == Some(value) && !(value is Null) && !(create_only && is_update) {
            assert forall|j: int| 0 <= j < 0 implies #[trigger] t[j].0 != t[0].0 || t[j].1 != t[0].1 by {
            }
            lemma_fold_sends_field(s, t, is_update, 0, value);
        }
    } else if section == Section::Spec && from == "name"@ && to == "name"@ && !create_only {
        assert(t[1] == (Section::Spec, "name"@, "name"@, Presence::Required, When::Always));
        if member_value(section_of(s, section), from) == Some(value) && !(value is Null) && !(create_only && is_update) {
            assert forall|j: int| 0 <= j < 1 implies #[trigger] t[j].0 != t[1].0 || t[j].1 != t[1].1 by {
            }
            lemma_fold_sends_field(s, t, is_update, 1, value);
        }
    } else if section == Section::Spec && from == "mode"@ && to == "mode"@ && !create_only {
        assert(t[2] == (Section::Spec, "mode"@, "mode"@, Presence::Required, When::Always));
        if member_value(section_of(s, section), from) == Some(value) && !(value is Null) && !(create_only && is_update) {
            assert forall|j: int| 0 <= j < 2 implies #[trigger] t[j].0 != t[2].0 || t[j].1 != t[2].1 by {
                if j == 1 { assert("name"@[0] != "mode"@[0]);
                }
            }
            lemma_fold_sends_field(s, t, is_update, 2, value);
        }
    } else if section == Section::Spec && from == "description"@ && to == "description"@ && !create_only {
        assert(t[3] == (Section::Spec, "description"@, "description"@, Presence::Required, When::Always));
        if member_value(section_of(s, section), from) == Some(value) && !(value is Null) && !(create_only && is_update) {
            assert forall|j: int| 0 <= j < 3 implies #[trigger] t[j].0 != t[3].0 || t[j].1 != t[3].1 by {
                if j == 1 { assert("name"@.len() != "description"@.len());
                } else if j == 2 { assert("mode"@.len() != "description"@.len());
                }
            }
            lemma_fold_sends_field(s, t, is_update, 3, value);
        }
    } else if section == Section::Spec && from == "start_hint"@ && to == "start_hint"@ && !create_only {
        assert(t[4] == (Section::Spec, "start_hint"@, "start_hint"@, Presence::OrNull, When::Always));
        if member_value(section_of(s, section), from) == Some(value) && !(value is Null) && !(create_only && is_update) {
            assert forall|j: int| 0 <= j < 4 implies #[trigger] t[j].0 != t[4].0 || t[j].1 != t[4].1 by {
                if j == 1 { assert("name"@.len() != "start_hint"@.len());
                } else if j == 2 { assert("mode"@.len() != "start_hint"@.len());
                } else if j == 3 { assert("description"@.len() != "start_hint"@.len());
                }
            }
            lemma_fold_sends_field(s, t, is_update, 4, value);
        }
    } else if section == Section::Spec && from == "icon_url"@ && to == "icon_url"@ && !create_only {
        assert(t[5] == (Section::Spec, "icon_url"@, "icon_url"@, Presence::OrNull, When::Always));
        if member_value(section_of(s, section), from) == Some(value) && !(value is Null) && !(create_only && is_update) {
            assert forall|j: int| 0 <= j < 5 implies #[trigger] t[j].0 != t[5].0 || t[j].1 != t[5].1 by {
                if j == 1 { assert("name"@.len() != "icon_url"@.len());
                } else if j == 2 { assert("mode"@.len() != "icon_url"@.len());
                } else if j == 3 { assert("description"@.len() != "icon_url"@.len());
                } else if j == 4 { assert("start_hint"@.len() != "icon_url"@.len());
                }
            }
            lemma_fold_sends_field(s, t, is_update, 5, value);
        }
    } else if section == Section::Spec && from == "shared"@ && to == "shared"@ && !create_only {
        assert(t[6] == (Section::Spec, "shared"@, "shared"@, Presence::Required, When::Always));
        if member_value(section_of(s, section), from) == Some(value) && !(value is Null) && !(create_only && is_update) {
            assert forall|j: int| 0 <= j < 6 implies #[trigger] t[j].0 != t[6].0 || t[j].1 != t[6].1 by {
                if j == 1 { assert("name"@.len() != "shared"@.len());
                } else if j == 2 { assert("mode"@.len() != "shared"@.len());
                } else if j == 3 { assert("description"@.len() != "shared"@.len());
                } else if j == 4 { assert("start_hint"@.len() != "shared"@.len());
                } else if j == 5 { assert("icon_url"@.len() != "shared"@.len());
                }
            }
            lemma_fold_sends_field(s, t, is_update, 6, value);
        }
    } else if section == Section::Spec && from == "supervisor_prompt"@ && to == "supervisor_prompt"@ && !create_only {
        assert(t[7] == (Section::Spec, "supervisor_prompt"@, "supervisor_prompt"@, Presence::OrNull, When::Always));
        if member_value(section_of(s, section), from) == Some(value) && !(value is Null) && !(create_only && is_update) {
            assert forall|j: int| 0 <= j < 7 implies #[trigger] t[j].0 != t[7].0 || t[j].1 != t[7].1 by {
                if j == 1 { assert("name"@.len() != "supervisor_prompt"@.len());
                } else if j == 2 { assert("mode"@.len() != "supervisor_prompt"@.len());
                } else if j == 3 { assert("description"@.len() != "supervisor_prompt"@.len());
                } else if j == 4 { assert("start_hint"@.len() != "supervisor_prompt"@.len());
                } else if j == 5 { assert("icon_url"@.len() != "supervisor_prompt"@.len());
                } else if j == 6 { assert("shared"@.len() != "supervisor_prompt"@.len());
                }
            }
            lemma_fold_sends_field(s, t, is_update, 7, value);
        }
    } else if section == Section::Spec && from == "guardrail_assignments"@ && to == "guardrail_assignments"@ && !create_only {
        assert(t[8] == (Section::Spec, "guardrail_assignments"@, "guardrail_assignments"@, Presence::OrNull, When::Always));
        if member_value(section_of(s, section), from) == Some(value) && !(value is Null) && !(create_only && is_update) {
            assert forall|j: int| 0 <= j < 8 implies #[trigger] t[j].0 != t[8].0 || t[j].1 != t[8].1 by {
                if j == 1 { assert("name"@.len() != "guardrail_assignments"@.len());
                } else if j == 2 { assert("mode"@.len() != "guardrail_assignments"@.len());
                } else if j == 3 { assert("description"@.len() != "guardrail_assignments"@.len());
                } else if j == 4 { assert("start_hint"@.len() != "guardrail_assignments"@.len());
                } else if j == 5 { assert("icon_url"@.len() != "guardrail_assignments"@.len());
                } else if j == 6 { assert("shared"@.len() != "guardrail_assignments"@.len());
                } else if j == 7 { assert("supervisor_prompt"@.len() != "guardrail_assignments"@.len());
                }
            }
            lemma_fold_sends_field(s, t, is_update, 8, value);
        }
    }
}

/// The members a Assistant body sends as `null` when the declaration leaves
/// them out or sets them to `null`: (section, declared field, sent name).
pub open spec fn assistant_null_field(section: Section, from: Seq<char>, to: Seq<char>) -> bool {
    ||| (section == Section::Spec && from == "description"@ && to == "description"@)
    ||| (section == Section::Spec && from == "icon_url"@ && to == "icon_url"@)
    ||| (section == Section::Spec && from == "enable_image_generation"@ && to == "enable_image_generation"@)
    ||| (section == Section::Spec && from == "image_generation_model"@ && to == "image_generation_model"@)
    ||| (section == Section::Spec && from == "is_global"@ && to == "is_global"@)
    ||| (section == Section::Spec && from == "agent_mode"@ && to == "agent_mode"@)
    ||| (section == Section::Spec && from == "plan_prompt"@ && to == "plan_prompt"@)
    ||| (section == Section::Spec && from == "temperature"@ && to == "temperature"@)
    ||| (section == Section::Spec && from == "top_p"@ && to == "top_p"@)
    ||| (section == Section::Spec && from == "tools_tokens_size_limit"@ && to == "tools_tokens_size_limit"@)
    ||| (section == Section::Spec && from == "smart_tool_selection_enabled"@ && to == "smart_tool_selection_enabled"@)
    ||| (section == Section::Spec && from == "hedging_config"@ && to == "hedging_config"@)
    ||| (section == Section::Spec && from == "interactive_features"@ && to == "interactive_features"@)
    ||| (section == Section::Spec && from == "custom_metadata"@ && to == "custom_metadata"@)
    ||| (section == Section::Spec && from == "guardrail_assignments"@ && to == "guardrail_assignments"@)
}

/// The field rules of a Assistant send `null` under the name of each such
/// field that the declaration leaves out or sets to `null`, on every write.
pub proof fn law_assistant_null_fields(
    v: JsonValue,
    is_update: bool,
    b: crate::projection::Body,
    section: Section,
    from: Seq<char>,
    to: Seq<char>,
)
    requires
        assistant_null_field(section, from, to),
        projected_body(v, rules::assistant_rule_table(), is_update) == Some(b),
        member_value(section_of(declaration_sections(v)->0, section), from) is None || member_value(
            section_of(declaration_sections(v)->0, section),
            from,
        ) == Some(JsonValue::Null),
    ensures
        exists|i: int| 0 <= i < b.len() && #[trigger] b[i] == (to, JsonValue::Null),
{
    reveal_strlit("agent_mode");
    reveal_strlit("categories");
    reveal_strlit("conversation_starters");
    reveal_strlit("custom_metadata");
    reveal_strlit("description");
    reveal_strlit("enable_image_generation");
    reveal_strlit("enabled_builtin_subagents");
    reveal_strlit("guardrail_assignments");
    reveal_strlit("hedging_config");
    reveal_strlit("icon_url");
    reveal_strlit("image_generation_model");
    reveal_strlit("interactive_features");
    reveal_strlit("is_global");
    reveal_strlit("llm_model_type");
    reveal_strlit("mcp_servers");
    reveal_strlit("name");
    reveal_strlit("plan_prompt");
    reveal_strlit("project");
    reveal_strlit("prompt_variables");
    reveal_strlit("shared");
    reveal_strlit("slug");
    reveal_strlit("smart_tool_selection_enabled");
    reveal_strlit("system_prompt");
    reveal_strlit("temperature");
    reveal_strlit("toolkits");
    reveal_strlit("tools_tokens_size_limit");
    reveal_strlit("top_p");
    reveal_strlit("type");
    let t = rules::assistant_rule_table();
    let s = declaration_sections(v)->0;
    if section == Section::Spec && from == "description"@ && to == "description"@ {
        assert(t[3] == (Section::Spec, "description"@, "description"@, Presence::OrNull, When::Always));
        assert forall|j: int| 0 <= j < 3 implies #[trigger] t[j].0 != t[3].0 || t[j].1 != t[3].1 by {
            if j == 2 { assert("name"@.len() != "description"@.len());
            }
        }
        lemma_fold_sends_null(s, t, is_update, 3);
    } else if section == Section::Spec && from == "icon_url"@ && to == "icon_url"@ {
        assert(t[5] == (Section::Spec, "icon_url"@, "icon_url"@, Presence::OrNull, When::Always));
        assert forall|j: int| 0 <= j < 5 implies #[trigger] t[j].0 != t[5].0 || t[j].1 != t[5].1 by {
            if j == 2 { assert("name"@.len() != "icon_url"@.len());
            } else if j == 3 { assert("description"@.len() != "icon_url"@.len());
            } else if j == 4 { assert("system_prompt"@.len() != "icon_url"@.len());
            }
        }
        lemma_fold_sends_null(s, t, is_update, 5);
    } else if section == Section::Spec && from == "enable_image_generation"@ && to == "enable_image_generation"@ {
        assert(t[7] == (Section::Spec, "enable_image_generation"@, "enable_image_generation"@, Presence::OrNull, When::Always));
        assert forall|j: int| 0 <= j < 7 implies #[trigger] t[j].0 != t[7].0 || t[j].1 != t[7].1 by {
            if j == 2 { assert("name"@.len() != "enable_image_generation"@.len());
            } else if j == 3 { assert("description"@.len() != "enable_image_generation"@.len());
            } else if j == 4 { assert("system_prompt"@.len() != "enable_image_generation"@.len());
            } else if j == 5 { assert("icon_url"@.len() != "enable_image_generation"@.len());
            } else if j == 6 { assert("llm_model_type"@.len() != "enable_image_generation"@.len());
            }
        }
        lemma_fold_sends_null(s, t, is_update, 7);
    } else if section == Section::Spec && from == "image_generation_model"@ && to == "image_generation_model"@ {
        assert(t[8] == (Section::Spec, "image_generation_model"@, "image_generation_model"@, Presence::OrNull, When::Always));
        assert forall|j: int| 0 <= j < 8 implies #[trigger] t[j].0 != t[8].0 || t[j].1 != t[8].1 by {
            if j == 2 { assert("name"@.len() != "image_generation_model"@.len());
            } else if j == 3 { assert("description"@.len() != "image_generation_model"@.len());
            } else if j == 4 { assert("system_prompt"@.len() != "image_generation_model"@.len());
            } else if j == 5 { assert("icon_url"@.len() != "image_generation_model"@.len());
            } else if j == 6 { assert("llm_model_type"@.len() != "image_generation_model"@.len());
            } else if j == 7 { assert("enable_image_generation"@.len() != "image_generation_model"@.len());
            }
        }
        lemma_fold_sends_null(s, t, is_update, 8);
    } else if section == Section::Spec && from == "is_global"@ && to == "is_global"@ {
        assert(t[12] == (Section::Spec, "is_global"@, "is_global"@, Presence::OrNull, When::Always));
        assert forall|j: int| 0 <= j < 12 implies #[trigger] t[j].0 != t[12].0 || t[j].1 != t[12].1 by {
            if j == 2 { assert("name"@.len() != "is_global"@.len());
            } else if j == 3 { assert("description"@.len() != "is_global"@.len());
            } else if j == 4 { assert("system_prompt"@.len() != "is_global"@.len());
            } else if j == 5 { assert("icon_url"@.len() != "is_global"@.len());
            } else if j == 6 { assert("llm_model_type"@.len() != "is_global"@.len());
            } else if j == 7 { assert("enable_image_generation"@.len() != "is_global"@.len());
            } else if j == 8 { assert("image_generation_model"@.len() != "is_global"@.len());
            } else if j == 9 { assert("toolkits"@.len() != "is_global"@.len());
            } else if j == 10 { assert("conversation_starters"@.len() != "is_global"@.len());
            } else if j == 11 { assert("shared"@.len() != "is_global"@.len());
            }
        }
        lemma_fold_sends_null(s, t, is_update, 12);
    } else if section == Section::Spec && from == "agent_mode"@ && to == "agent_mode"@ {
        assert(t[13] == (Section::Spec, "agent_mode"@, "agent_mode"@, Presence::OrNull, When::Always));
        assert forall|j: int| 0 <= j < 13 implies #[trigger] t[j].0 != t[13].0 || t[j].1 != t[13].1 by {
            if j == 2 { assert("name"@.len() != "agent_mode"@.len());
            } else if j == 3 { assert("description"@.len() != "agent_mode"@.len());
            } else if j == 4 { assert("system_prompt"@.len() != "agent_mode"@.len());
            } else if j == 5 { assert("icon_url"@.len() != "agent_mode"@.len());
            } else if j == 6 { assert("llm_model_type"@.len() != "agent_mode"@.len());
            } else if j == 7 { assert("enable_image_generation"@.len() != "agent_mode"@.len());
            } else if j == 8 { assert("image_generation_model"@.len() != "agent_mode"@.len());
            } else if j == 9 { assert("toolkits"@.len() != "agent_mode"@.len());
            } else if j == 10 { assert("conversation_starters"@.len() != "agent_mode"@.len());
            } else if j == 11 { assert("shared"@.len() != "agent_mode"@.len());
            } else if j == 12 { assert("is_global"@.len() != "agent_mode"@.len());
            }
        }
        lemma_fold_sends_null(s, t, is_update, 13);
    } else if section == Section::Spec && from == "plan_prompt"@ && to == "plan_prompt"@ {
        assert(t[14] == (Section::Spec, "plan_prompt"@, "plan_prompt"@, Presence::OrNull, When::Always));
        assert forall|j: int| 0 <= j < 14 implies #[trigger] t[j].0 != t[14].0 || t[j].1 != t[14].1 by {
            if j == 2 { assert("name"@.len() != "plan_prompt"@.len());
            } else if j == 3 { assert("description"@[0] != "plan_prompt"@[0]);
            } else if j == 4 { assert("system_prompt"@.len() != "plan_prompt"@.len());
            } else if j == 5 { assert("icon_url"@.len() != "plan_prompt"@.len());
            } else if j == 6 { assert("llm_model_type"@.len() != "plan_prompt"@.len());
            } else if j == 7 { assert("enable_image_generation"@.len() != "plan_prompt"@.len());
            } else if j == 8 { assert("image_generation_model"@.len() != "plan_prompt"@.len());
            } else if j == 9 { assert("toolkits"@.len() != "plan_prompt"@.len());
            } else if j == 10 { assert("conversation_starters"@.len() != "plan_prompt"@.len());
            } else if j == 11 { assert("shared"@.len() != "plan_prompt"@.len());
            } else if j == 12 { assert("is_global"@.len() != "plan_prompt"@.len());
            } else if j == 13 { assert("agent_mode"@.len() != "plan_prompt"@.len());
            }
        }
        lemma_fold_sends_null(s, t, is_update, 14);
    } else if section == Section::Spec && from == "temperature"@ && to == "temperature"@ {
        assert(t[15] == (Section::Spec, "temperature"@, "temperature"@, Presence::OrNull, When::Always));
        assert forall|j: int| 0 <= j < 15 implies #[trigger] t[j].0 != t[15].0 || t[j].1 != t[15].1 by {
            if j == 2 { assert("name"@.len() != "temperature"@.len());
            } else if j == 3 { assert("description"@[0] != "temperature"@[0]);
            } else if j == 4 { assert("system_prompt"@.len() != "temperature"@.len());
            } else if j == 5 { assert("icon_url"@.len() != "temperature"@.len());
            } else if j == 6 { assert("llm_model_type"@.len() != "temperature"@.len());
            } else if j == 7 { assert("enable_image_generation"@.len() != "temperature"@.len());
            } else if j == 8 { assert("image_generation_model"@.len() != "temperature"@.len());
            } else if j == 9 { assert("toolkits"@.len() != "temperature"@.len());
            } else if j == 10 { assert("conversation_starters"@.len() != "temperature"@.len());
            } else if j == 11 { assert("shared"@.len() != "temperature"@.len());
            } else if j == 12 { assert("is_global"@.len() != "temperature"@.len());
            } else if j == 13 { assert("agent_mode"@.len() != "temperature"@.len());
            } else if j == 14 { assert("plan_prompt"@[0] != "temperature"@[0]);
            }
        }
        lemma_fold_sends_null(s, t, is_update, 15);
    } else if section == Section::Spec && from == "top_p"@ && to == "top_p"@ {
        assert(t[16] == (Section::Spec, "top_p"@, "top_p"@, Presence::OrNull, When::Always));
        assert forall|j: int| 0 <= j < 16 implies #[trigger] t[j].0 != t[16].0 || t[j].1 != t[16].1 by {
            if j == 2 { assert("name"@.len() != "top_p"@.len());
            } else if j == 3 { assert("description"@.len() != "top_p"@.len());
            } else if j == 4 { assert("system_prompt"@.len() != "top_p"@.len());
            } else if j == 5 { assert("icon_url"@.len() != "top_p"@.len());
            } else if j == 6 { assert("llm_model_type"@.len() != "top_p"@.len());
            } else if j == 7 { assert("enable_image_generation"@.len() != "top_p"@.len());
            } else if j == 8 { assert("image_generation_model"@.len() != "top_p"@.len());
            } else if j == 9 { assert("toolkits"@.len() != "top_p"@.len());
            } else if j == 10 { assert("conversation_starters"@.len() != "top_p"@.len());
            } else if j == 11 { assert("shared"@.len() != "top_p"@.len());
            } else if j == 12 { assert("is_global"@.len() != "top_p"@.len());
            } else if j == 13 { assert("agent_mode"@.len() != "top_p"@.len());
            } else if j == 14 { assert("plan_prompt"@.len() != "top_p"@.len());
            } else if j == 15 { assert("temperature"@.len() != "top_p"@.len());
            }
        }
        lemma_fold_sends_null(s, t, is_update, 16);
    } else if section == Section::Spec && from == "tools_tokens_size_limit"@ && to == "tools_tokens_size_limit"@ {
        assert(t[17] == (Section::Spec, "tools_tokens_size_limit"@, "tools_tokens_size_limit"@, Presence::OrNull, When::Always));
        assert forall|j: int| 0 <= j < 17 implies #[trigger] t[j].0 != t[17].0 || t[j].1 != t[17].1 by {
            if j == 2 { assert("name"@.len() != "tools_tokens_size_limit"@.len());
            } else if j == 3 { assert("description"@.len() != "tools_tokens_size_limit"@.len());
            } else if j == 4 { assert("system_prompt"@.len() != "tools_tokens_size_limit"@.len());
            } else if j == 5 { assert("icon_url"@.len() != "tools_tokens_size_limit"@.len());
            } else if j == 6 { assert("llm_model_type"@.len() != "tools_tokens_size_limit"@.len());
            } else if j == 7 { assert("enable_image_generation"@[0] != "tools_tokens_size_limit"@[0]);
            } else if j == 8 { assert("image_generation_model"@.len() != "tools_tokens_size_limit"@.len());
            } else if j == 9 { assert("toolkits"@.len() != "tools_tokens_size_limit"@.len());
            } else if j == 10 { assert("conversation_starters"@.len() != "tools_tokens_size_limit"@.len());
            } else if j == 11 { assert("shared"@.len() != "tools_tokens_size_limit"@.len());
            } else if j == 12 { assert("is_global"@.len() != "tools_tokens_size_limit"@.len());
            } else if j == 13 { assert("agent_mode"@.len() != "tools_tokens_size_limit"@.len());
            } else if j == 14 { assert("plan_prompt"@.len() != "tools_tokens_size_limit"@.len());
            } else if j == 15 { assert("temperature"@.len() != "tools_tokens_size_limit"@.len());
            } else if j == 16 { assert("top_p"@.len() != "tools_tokens_size_limit"@.len());
            }
        }
        lemma_fold_sends_null(s, t, is_update, 17);
    } else if section == Section::Spec && from == "smart_tool_selection_enabled"@ && to == "smart_tool_selection_enabled"@ {
        assert(t[18] == (Section::Spec, "smart_tool_selection_enabled"@, "smart_tool_selection_enabled"@, Presence::OrNull, When::Always));
        assert forall|j: int| 0 <= j < 18 implies #[trigger] t[j].0 != t[18].0 || t[j].1 != t[18].1 by {
            if j == 2 { assert("name"@.len() != "smart_tool_selection_enabled"@.len());
            } else if j == 3 { assert("description"@.len() != "smart_tool_selection_enabled"@.len());
            } else if j == 4 { assert("system_prompt"@.len() != "smart_tool_selection_enabled"@.len());
            } else if j == 5 { assert("icon_url"@.len() != "smart_tool_selection_enabled"@.len());
            } else if j == 6 { assert("llm_model_type"@.len() != "smart_tool_selection_enabled"@.len());
            } else if j == 7 { assert("enable_image_generation"@.len() != "smart_tool_selection_enabled"@.len());
            } else if j == 8 { assert("image_generation_model"@.len() != "smart_tool_selection_enabled"@.len());
            } else if j == 9 { assert("toolkits"@.len() != "smart_tool_selection_enabled"@.len());
            } else if j == 10 { assert("conversation_starters"@.len() != "smart_tool_selection_enabled"@.len());
            } else if j == 11 { assert("shared"@.len() != "smart_tool_selection_enabled"@.len());
            } else if j == 12 { assert("is_global"@.len() != "smart_tool_selection_enabled"@.len());
            } else if j == 13 { assert("agent_mode"@.len() != "smart_tool_selection_enabled"@.len());
            } else if j == 14 { assert("plan_prompt"@.len() != "smart_tool_selection_enabled"@.len());
            } else if j == 15 { assert("temperature"@.len() != "smart_tool_selection_enabled"@.len());
            } else if j == 16 { assert("top_p"@.len() != "smart_tool_selection_enabled"@.len());
            } else if j == 17 { assert("tools_tokens_size_limit"@.len() != "smart_tool_selection_enabled"@.len());
            }
        }
        lemma_fold_sends_null(s, t, is_update, 18);
    } else if section == Section::Spec && from == "hedging_config"@ && to == "hedging_config"@ {
        assert(t[19] == (Section::Spec, "hedging_config"@, "hedging_config"@, Presence::OrNull, When::Always));
        assert forall|j: int| 0 <= j < 19 implies #[trigger] t[j].0 != t[19].0 || t[j].1 != t[19].1 by {
            if j == 2 { assert("name"@.len() != "hedging_config"@.len());
            } else if j == 3 { assert("description"@.len() != "hedging_config"@.len());
            } else if j == 4 { assert("system_prompt"@.len() != "hedging_config"@.len());
            } else if j == 5 { assert("icon_url"@.len() != "hedging_config"@.len());
            } else if j == 6 { assert("llm_model_type"@[0] != "hedging_config"@[0]);
            } else if j == 7 { assert("enable_image_generation"@.len() != "hedging_config"@.len());
            } else if j == 8 { assert("image_generation_model"@.len() != "hedging_config"@.len());
            } else if j == 9 { assert("toolkits"@.len() != "hedging_config"@.len());
            } else if j == 10 { assert("conversation_starters"@.len() != "hedging_config"@.len());
            } else if j == 11 { assert("shared"@.len() != "hedging_config"@.len());
            } else if j == 12 { assert("is_global"@.len() != "hedging_config"@.len());
            } else if j == 13 { assert("agent_mode"@.len() != "hedging_config"@.len());
            } else if j == 14 { assert("plan_prompt"@.len() != "hedging_config"@.len());
            } else if j == 15 { assert("temperature"@.len() != "hedging_config"@.len());
            } else if j == 16 { assert("top_p"@.len() != "hedging_config"@.len());
            } else if j == 17 { assert("tools_tokens_size_limit"@.len() != "hedging_config"@.len());
            } else if j == 18 { assert("smart_tool_selection_enabled"@.len() != "hedging_config"@.len());
            }
        }
        lemma_fold_sends_null(s, t, is_update, 19);
    } else if section == Section::Spec && from == "interactive_features"@ && to == "interactive_features"@ {
        assert(t[20] == (Section::Spec, "interactive_features"@, "interactive_features"@, Presence::OrNull, When::Always));
        assert forall|j: int| 0 <= j < 20 implies #[trigger] t[j].0 != t[20].0 || t[j].1 != t[20].1 by {
            if j == 2 { assert("name"@.len() != "interactive_features"@.len());
            } else if j == 3 { assert("description"@.len() != "interactive_features"@.len());
            } else if j == 4 { assert("system_prompt"@.len() != "interactive_features"@.len());
            } else if j == 5 { assert("icon_url"@.len() != "interactive_features"@.len());
            } else if j == 6 { assert("llm_model_type"@.len() != "interactive_features"@.len());
            } else if j == 7 { assert("enable_image_generation"@.len() != "interactive_features"@.len());
            } else if j == 8 { assert("image_generation_model"@.len() != "interactive_features"@.len());
            } else if j == 9 { assert("toolkits"@.len() != "interactive_features"@.len());
            } else if j == 10 { assert("conversation_starters"@.len() != "interactive_features"@.len());
            } else if j == 11 { assert("shared"@.len() != "interactive_features"@.len());
            } else if j == 12 { assert("is_global"@.len() != "interactive_features"@.len());
            } else if j == 13 { assert("agent_mode"@.len() != "interactive_features"@.len());
            } else if j == 14 { assert("plan_prompt"@.len() != "interactive_features"@.len());
            } else if j == 15 { assert("temperature"@.len() != "interactive_features"@.len());
            } else if j == 16 { assert("top_p"@.len() != "interactive_features"@.len());
            } else if j == 17 { assert("tools_tokens_size_limit"@.len() != "interactive_features"@.len());
            } else if j == 18 { assert("smart_tool_selection_enabled"@.len() != "interactive_features"@.len());
            } else if j == 19 { assert("hedging_config"@.len() != "interactive_features"@.len());
            }
        }
        lemma_fold_sends_null(s, t, is_update, 20);
    } else if section == Section::Spec && from == "custom_metadata"@ && to == "custom_metadata"@ {
        assert(t[26] == (Section::Spec, "custom_metadata"@, "custom_metadata"@, Presence::OrNull, When::Always));
        assert forall|j: int| 0 <= j < 26 implies #[trigger] t[j].0 != t[26].0 || t[j].1 != t[26].1 by {
            if j == 2 { assert("name"@.len() != "custom_metadata"@.len());
            } else if j == 3 { assert("description"@.len() != "custom_metadata"@.len());
            } else if j == 4 { assert("system_prompt"@.len() != "custom_metadata"@.len());
            } else if j == 5 { assert("icon_url"@.len() != "custom_metadata"@.len());
            } else if j == 6 { assert("llm_model_type"@.len() != "custom_metadata"@.len());
            } else if j == 7 { assert("enable_image_generation"@.len() != "custom_metadata"@.len());
            } else if j == 8 { assert("image_generation_model"@.len() != "custom_metadata"@.len());
            } else if j == 9 { assert("toolkits"@.len() != "custom_metadata"@.len());
            } else if j == 10 { assert("conversation_starters"@.len() != "custom_metadata"@.len());
            } else if j == 11 { assert("shared"@.len() != "custom_metadata"@.len());
            } else if j == 12 { assert("is_global"@.len() != "custom_metadata"@.len());
            } else if j == 13 { assert("agent_mode"@.len() != "custom_metadata"@.len());
            } else if j == 14 { assert("plan_prompt"@.len() != "custom_metadata"@.len());
            } else if j == 15 { assert("temperature"@.len() != "custom_metadata"@.len());
            } else if j == 16 { assert("top_p"@.len() != "custom_metadata"@.len());
            } else if j == 17 { assert("tools_tokens_size_limit"@.len() != "custom_metadata"@.len());
            } else if j == 18 { assert("smart_tool_selection_enabled"@.len() != "custom_metadata"@.len());
            } else if j == 19 { assert("hedging_config"@.len() != "custom_metadata"@.len());
            } else if j == 20 { assert("interactive_features"@.len() != "custom_metadata"@.len());
            } else if j == 21 { assert("mcp_servers"@.len() != "custom_metadata"@.len());
            } else if j == 22 { assert("enabled_builtin_subagents"@.len() != "custom_metadata"@.len());
            } else if j == 23 { assert("type"@.len() != "custom_metadata"@.len());
            } else if j == 24 { assert("categories"@.len() != "custom_metadata"@.len());
            } else if j == 25 { assert("prompt_variables"@.len() != "custom_metadata"@.len());
            }
        }
        lemma_fold_sends_null(s, t, is_update, 26);
    } else if section == Section::Spec && from == "guardrail_assignments"@ && to == "guardrail_assignments"@ {
        assert(t[27] == (Section::Spec, "guardrail_assignments"@, "guardrail_assignments"@, Presence::OrNull, When::Always));
        assert forall|j: int| 0 <= j < 27 implies #[trigger] t[j].0 != t[27].0 || t[j].1 != t[27].1 by {
            if j == 2 { assert("name"@.len() != "guardrail_assignments"@.len());
            } else if j == 3 { assert("description"@.len() != "guardrail_assignments"@.len());
            } else if j == 4 { assert("system_prompt"@.len() != "guardrail_assignments"@.len());
            } else if j == 5 { assert("icon_url"@.len() != "guardrail_assignments"@.len());
            } else if j == 6 { assert("llm_model_type"@.len() != "guardrail_assignments"@.len());
            } else if j == 7 { assert("enable_image_generation"@.len() != "guardrail_assignments"@.len());
            } else if j == 8 { assert("image_generation_model"@.len() != "guardrail_assignments"@.len());
            } else if j == 9 { assert("toolkits"@.len() != "guardrail_assignments"@.len());
            } else if j == 10 { assert("conversation_starters"@[0] != "guardrail_assignments"@[0]);
            } else if j == 11 { assert("shared"@.len() != "guardrail_assignments"@.len());
            } else if j == 12 { assert("is_global"@.len() != "guardrail_assignments"@.len());
            } else if j == 13 { assert("agent_mode"@.len() != "guardrail_assignments"@.len());
            } else if j == 14 { assert("plan_prompt"@.len() != "guardrail_assignments"@.len());
            } else if j == 15 { assert("temperature"@.len() != "guardrail_assignments"@.len());
            } else if j == 16 { assert("top_p"@.len() != "guardrail_assignments"@.len());
            } else if j == 17 { assert("tools_tokens_size_limit"@.len() != "guardrail_assignments"@.len());
            } else if j == 18 { assert("smart_tool_selection_enabled"@.len() != "guardrail_assignments"@.len());
            } else if j == 19 { assert("hedging_config"@.len() != "guardrail_assignments"@.len());
            } else if j == 20 { assert("interactive_features"@.len() != "guardrail_assignments"@.len());
            } else if j == 21 { assert("mcp_servers"@.len() != "guardrail_assignments"@.len());
            } else if j == 22 { assert("enabled_builtin_subagents"@.len() != "guardrail_assignments"@.len());
            } else if j == 23 { assert("type"@.len() != "guardrail_assignments"@.len());
            } else if j == 24 { assert("categories"@.len() != "guardrail_assignments"@.len());
            } else if j == 25 { assert("prompt_variables"@.len() != "guardrail_assignments"@.len());
            } else if j == 26 { assert("custom_metadata"@.len() != "guardrail_assignments"@.len());
            }
        }
        lemma_fold_sends_null(s, t, is_update, 27);
    }
}

/// The members a Workflow body sends as `null` when the declaration leaves
/// them out or sets them to `null`: (section, declared field, sent name).
pub open spec fn workflow_null_field(section: Section, from: Seq<char>, to: Seq<char>) -> bool {
    ||| (section == Section::Spec && from == "start_hint"@ && to == "start_hint"@)
    ||| (section == Section::Spec && from == "icon_url"@ && to == "icon_url"@)
    ||| (section == Section::Spec && from == "supervisor_prompt"@ && to == "supervisor_prompt"@)
    ||| (section == Section::Spec && from == "guardrail_assignments"@ && to == "guardrail_assignments"@)
}

/// The field rules of a Workflow send `null` under the name of each such
/// field that the declaration leaves out or sets to `null`, on every write.
pub proof fn law_workflow_null_fields(
    v: JsonValue,
    is_update: bool,
    b: crate::projection::Body,
    section: Section,
    from: Seq<char>,
    to: Seq<char>,
)
    requires
        workflow_null_field(section, from, to),
        projected_body(v, rules::workflow_rule_table(), is_update) == Some(b),
        member_value(section_of(declaration_sections(v)->0, section), from) is None || member_value(
            section_of(declaration_sections(v)->0, section),
            from,
        ) == Some(JsonValue::Null),
    ensures
        exists|i: int| 0 <= i < b.len() && #[trigger] b[i] == (to, JsonValue::Null),
{
    reveal_strlit("description");
    reveal_strlit("guardrail_assignments");
    reveal_strlit("icon_url");
    reveal_strlit("mode");
    reveal_strlit("name");
    reveal_strlit("project");
    reveal_strlit("shared");
    reveal_strlit("start_hint");
    reveal_strlit("supervisor_prompt");
    let t = rules::workflow_rule_table();
    let s = declaration_sections(v)->0;
    if section == Section::Spec && from == "start_hint"@ && to == "start_hint"@ {
        assert(t[4] == (Section::Spec, "start_hint"@, "start_hint"@, Presence::OrNull, When::Always));
        assert forall|j: int| 0 <= j < 4 implies #[trigger] t[j].0 != t[4].0 || t[j].1 != t[4].1 by {
            if j == 1 { assert("name"@.len() != "start_hint"@.len());
            } else if j == 2 { assert("mode"@.len() != "start_hint"@.len());
            } else if j == 3 { assert("description"@.len() != "start_hint"@.len());
            }
        }
        lemma_fold_sends_null(s, t, is_update, 4);
    } else if section == Section::Spec && from == "icon_url"@ && to == "icon_url"@ {
        assert(t[5] == (Section::Spec, "icon_url"@, "icon_url"@, Presence::OrNull, When::Always));
        assert forall|j: int| 0 <= j < 5 implies #[trigger] t[j].0 != t[5].0 || t[j].1 != t[5].1 by {
            if j == 1 { assert("name"@.len() != "icon_url"@.len());
            } else if j == 2 { assert("mode"@.len() != "icon_url"@.len());
            } else if j == 3 { assert("description"@.len() != "icon_url"@.len());
            } else if j == 4 { assert("start_hint"@.len() != "icon_url"@.len());
            }
        }
        lemma_fold_sends_null(s, t, is_update, 5);
    } else if section == Section::Spec && from == "supervisor_prompt"@ && to == "supervisor_prompt"@ {
        assert(t[7] == (Section::Spec, "supervisor_prompt"@, "supervisor_prompt"@, Presence::OrNull, When::Always));
        assert forall|j: int| 0 <= j < 7 implies #[trigger] t[j].0 != t[7].0 || t[j].1 != t[7].1 by {
            if j == 1 { assert("name"@.len() != "supervisor_prompt"@.len());
            } else if j == 2 { assert("mode"@.len() != "supervisor_prompt"@.len());
            } else if j == 3 { assert("description"@.len() != "supervisor_prompt"@.len());
            } else if j == 4 { assert("start_hint"@.len() != "supervisor_prompt"@.len());
            } else if j == 5 { assert("icon_url"@.len() != "supervisor_prompt"@.len());
            } else if j == 6 { assert("shared"@.len() != "supervisor_prompt"@.len());
            }
        }
        lemma_fold_sends_null(s, t, is_update, 7);
    } else if section == Section::Spec && from == "guardrail_assignments"@ && to == "guardrail_assignments"@ {
        assert(t[8] == (Section::Spec, "guardrail_assignments"@, "guardrail_assignments"@, Presence::OrNull, When::Always));
        assert forall|j: int| 0 <= j < 8 implies #[trigger] t[j].0 != t[8].0 || t[j].1 != t[8].1 by {
            if j == 1 { assert("name"@.len() != "guardrail_assignments"@.len());
            } else if j == 2 { assert("mode"@.len() != "guardrail_assignments"@.len());
            } else if j == 3 { assert("description"@.len() != "guardrail_assignments"@.len());
            } else if j == 4 { assert("start_hint"@.len() != "guardrail_assignments"@.len());
            } else if j == 5 { assert("icon_url"@.len() != "guardrail_assignments"@.len());
            } else if j == 6 { assert("shared"@.len() != "guardrail_assignments"@.len());
            } else if j == 7 { assert("supervisor_prompt"@.len() != "guardrail_assignments"@.len());
            }
        }
        lemma_fold_sends_null(s, t, is_update, 8);
    }
}

/// The query parameters a File Datasource write sends: (section, declared
/// field, parameter name, whether it is sent as compact JSON, which writes
/// send it).
pub open spec fn file_datasource_param(section: Section, from: Seq<char>, to: Seq<char>, json: bool, when: When) -> bool {
    ||| (section == Section::Metadata && from == "project"@ && to == "project_name"@ && !json && when == When::Always)
    ||| (section == Section::Metadata && from == "repo_name"@ && to == "name"@ && !json && when == When::CreateOnly)
    ||| (section == Section::Spec && from == "description"@ && to == "description"@ && !json && when == When::Always)
    ||| (section == Section::Spec && from == "project_space_visible"@ && to == "project_space_visible"@ && !json && when == When::Always)
    ||| (section == Section::Spec && from == "csv_separator"@ && to == "csv_separator"@ && !json && when == When::Always)
    ||| (section == Section::Spec && from == "csv_start_row"@ && to == "csv_start_row"@ && !json && when == When::Always)
    ||| (section == Section::Spec && from == "csv_rows_per_document"@ && to == "csv_rows_per_document"@ && !json && when == When::Always)
    ||| (section == Section::Spec && from == "embedding_model"@ && to == "embedding_model"@ && !json && when == When::Always)
    ||| (section == Section::Spec && from == "guardrail_assignments"@ && to == "guardrail_assignments"@ && json && when == When::Always)
    ||| (section == Section::Spec && from == "include_email_attachments"@ && to == "include_email_attachments"@ && !json && when == When::Always)
    ||| (section == Section::Spec && from == "uploaded_files"@ && to == "uploaded_files"@ && json && when == When::UpdateOnly)
}

/// On a write of a File Datasource, each declared field that the write
/// sends goes out as a query parameter under its name, as the scalar's text
/// or, for a JSON parameter, as compact JSON; a parameter for the other
/// kind of write (the repository name on an update, the uploaded files on
/// a create) is never sent.
pub proof fn law_file_datasource_query(
    v: JsonValue,
    is_update: bool,
    request: RequestBody,
    section: Section,
    from: Seq<char>,
    to: Seq<char>,
    json: bool,
    when: When,
    value: JsonValue,
)
    requires
        file_datasource_param(section, from, to, json, when),
        nested_text(v, "spec"@, "index_type"@) == Some("file"@),
        datasource_request(v, is_update, request) == Some(true),
    ensures
        request is FileMultipart,
        member_value(section_of(declaration_sections(v)->0, section), from) == Some(value) && !(value is Null)
            && applies(when, is_update) ==> exists|i: int|
            0 <= i < request->FileMultipart_query_params@.len() && #[trigger] query_view(request->FileMultipart_query_params@)[i]
                == (to, if json {
                json_text(value)
            } else {
                scalar_text(value)->0
            }),
        !applies(when, is_update) ==> forall|i: int|
            0 <= i < request->FileMultipart_query_params@.len() ==> #[trigger] query_view(request->FileMultipart_query_params@)[i].0 != to,
{
    reveal_strlit("csv_rows_per_document");
    reveal_strlit("csv_separator");
    reveal_strlit("csv_start_row");
    reveal_strlit("description");
    reveal_strlit("embedding_model");
    reveal_strlit("guardrail_assignments");
    reveal_strlit("include_email_attachments");
    reveal_strlit("name");
    reveal_strlit("project");
    reveal_strlit("project_name");
    reveal_strlit("project_space_visible");
    reveal_strlit("repo_name");
    reveal_strlit("uploaded_files");
    let t = rules::file_query_table();
    let s = declaration_sections(v)->0;
    let q = query_view(request->FileMultipart_query_params@);
    assert(projected_query(v, is_update) == Some(q));
    if section == Section::Metadata && from == "project"@ && to == "project_name"@ && !json && when == When::Always {
        assert(t[0] == (Section::Metadata, "project"@, "project_name"@, QueryKind::Scalar, When::Always));
        if member_value(section_of(s, section), from) == Some(value) && !(value is Null) && applies(when, is_update) {
            assert forall|j: int| 0 <= j < 0 implies #[trigger] t[j].0 != t[0].0 || t[j].1 != t[0].1 by {
            }
            lemma_query_fold_sends_field(s, t, is_update, 0, value);
            let fq = query_fold(s, Seq::empty(), t, is_update)->Ok_0.1;
            let i = choose|i: int| 0 <= i < fq.len() && #[trigger] fq[i] == (t[0].2, query_text(t[0].3, value)->0);
            assert(0 <= i < request->FileMultipart_query_params@.len() && query_view(request->FileMultipart_query_params@)[i] == (to, if json { json_text(value) } else { scalar_text(value)->0 }));
        }
    } else if section == Section::Metadata && from == "repo_name"@ && to == "name"@ && !json && when == When::CreateOnly {
        assert(t[1] == (Section::Metadata, "repo_name"@, "name"@, QueryKind::Scalar, When::CreateOnly));
        if member_value(section_of(s, section), from) == Some(value) && !(value is Null) && applies(when, is_update) {
            assert forall|j: int| 0 <= j < 1 implies #[trigger] t[j].0 != t[1].0 || t[j].1 != t[1].1 by {
                if j == 0 { assert("project"@.len() != "repo_name"@.len());
                }
            }
            lemma_query_fold_sends_field(s, t, is_update, 1, value);
            let fq = query_fold(s, Seq::empty(), t, is_update)->Ok_0.1;
            let i = choose|i: int| 0 <= i < fq.len() && #[trigger] fq[i] == (t[1].2, query_text(t[1].3, value)->0);
            assert(0 <= i < request->FileMultipart_query_params@.len() && query_view(request->FileMultipart_query_params@)[i] == (to, if json { json_text(value) } else { scalar_text(value)->0 }));
        }
        if !applies(when, is_update) {
            assert forall|j: int| 0 <= j < t.len() && applies(t[j].4, is_update) implies #[trigger] t[j].2 != to by {
                if j == 0 { assert("project_name"@.len() != "name"@.len());
                } else if j == 2 { assert("description"@.len() != "name"@.len());
                } else if j == 3 { assert("project_space_visible"@.len() != "name"@.len());
                } else if j == 4 { assert("csv_separator"@.len() != "name"@.len());
                } else if j == 5 { assert("csv_start_row"@.len() != "name"@.len());
                } else if j == 6 { assert("csv_rows_per_document"@.len() != "name"@.len());
                } else if j == 7 { assert("embedding_model"@.len() != "name"@.len());
                } else if j == 8 { assert("guardrail_assignments"@.len() != "name"@.len());
                } else if j == 9 { assert("include_email_attachments"@.len() != "name"@.len());
                } else if j == 10 { assert("uploaded_files"@.len() != "name"@.len());
                }
            }
            lemma_query_fold_never_sends(s, t, is_update, to);
        }
    } else if section == Section::Spec && from == "description"@ && to == "description"@ && !json && when == When::Always {
        assert(t[2] == (Section::Spec, "description"@, "description"@, QueryKind::Scalar, When::Always));
        if member_value(section_of(s, section), from) == Some(value) && !(value is Null) && applies(when, is_update) {
            assert forall|j: int| 0 <= j < 2 implies #[trigger] t[j].0 != t[2].0 || t[j].1 != t[2].1 by {
            }
            lemma_query_fold_sends_field(s, t, is_update, 2, value);
            let fq = query_fold(s, Seq::empty(), t, is_update)->Ok_0.1;
            let i = choose|i: int| 0 <= i < fq.len() && #[trigger] fq[i] == (t[2].2, query_text(t[2].3, value)->0);
            assert(0 <= i < request->FileMultipart_query_params@.len() && query_view(request->FileMultipart_query_params@)[i] == (to, if json { json_text(value) } else { scalar_text(value)->0 }));
        }
    } else if section == Section::Spec && from == "project_space_visible"@ && to == "project_space_visible"@ && !json && when == When::Always {
        assert(t[3] == (Section::Spec, "project_space_visible"@, "project_space_visible"@, QueryKind::OptionalScalar, When::Always));
        if member_value(section_of(s, section), from) == Some(value) && !(value is Null) && applies(when, is_update) {
            assert forall|j: int| 0 <= j < 3 implies #[trigger] t[j].0 != t[3].0 || t[j].1 != t[3].1 by {
                if j == 2 { assert("description"@.len() != "project_space_visible"@.len());
                }
            }
            lemma_query_fold_sends_field(s, t, is_update, 3, value);
            let fq = query_fold(s, Seq::empty(), t, is_update)->Ok_0.1;
            let i = choose|i: int| 0 <= i < fq.len() && #[trigger] fq[i] == (t[3].2, query_text(t[3].3, value)->0);
            assert(0 <= i < request->FileMultipart_query_params@.len() && query_view(request->FileMultipart_query_params@)[i] == (to, if json { json_text(value) } else { scalar_text(value)->0 }));
        }
    } else if section == Section::Spec && from == "csv_separator"@ && to == "csv_separator"@ && !json && when == When::Always {
        assert(t[4] == (Section::Spec, "csv_separator"@, "csv_separator"@, QueryKind::OptionalScalar, When::Always));
        if member_value(section_of(s, section), from) == Some(value) && !(value is Null) && applies(when, is_update) {
            assert forall|j: int| 0 <= j < 4 implies #[trigger] t[j].0 != t[4].0 || t[j].1 != t[4].1 by {
                if j == 2 { assert("description"@.len() != "csv_separator"@.len());
                } else if j == 3 { assert("project_space_visible"@.len() != "csv_separator"@.len());
                }
            }
            lemma_query_fold_sends_field(s, t, is_update, 4, value);
            let fq = query_fold(s, Seq::empty(), t, is_update)->Ok_0.1;
            let i = choose|i: int| 0 <= i < fq.len() && #[trigger] fq[i] == (t[4].2, query_text(t[4].3, value)->0);
            assert(0 <= i < request->FileMultipart_query_params@.len() && query_view(request->FileMultipart_query_params@)[i] == (to, if json { json_text(value) } else { scalar_text(value)->0 }));
        }
    } else if section == Section::Spec && from == "csv_start_row"@ && to == "csv_start_row"@ && !json && when == When::Always {
        assert(t[5] == (Section::Spec, "csv_start_row"@, "csv_start_row"@, QueryKind::OptionalScalar, When::Always));
        if member_value(section_of(s, section), from) == Some(value) && !(value is Null) && applies(when, is_update) {
            assert forall|j: int| 0 <= j < 5 implies #[trigger] t[j].0 != t[5].0 || t[j].1 != t[5].1 by {
                if j == 2 { assert("description"@.len() != "csv_start_row"@.len());
                } else if j == 3 { assert("project_space_visible"@.len() != "csv_start_row"@.len());
                } else if j == 4 { assert("csv_separator"@[5] != "csv_start_row"@[5]);
                }
            }
            lemma_query_fold_sends_field(s, t, is_update, 5, value);
            let fq = query_fold(s, Seq::empty(), t, is_update)->Ok_0.1;
            let i = choose|i: int| 0 <= i < fq.len() && #[trigger] fq[i] == (t[5].2, query_text(t[5].3, value)->0);
            assert(0 <= i < request->FileMultipart_query_params@.len() && query_view(request->FileMultipart_query_params@)[i] == (to, if json { json_text(value) } else { scalar_text(value)->0 }));
        }
    } else if section == Section::Spec && from == "csv_rows_per_document"@ && to == "csv_rows_per_document"@ && !json && when == When::Always {
        assert(t[6] == (Section::Spec, "csv_rows_per_document"@, "csv_rows_per_document"@, QueryKind::OptionalScalar, When::Always));
        if member_value(section_of(s, section), from) == Some(value) && !(value is Null) && applies(when, is_update) {
            assert forall|j: int| 0 <= j < 6 implies #[trigger] t[j].0 != t[6].0 || t[j].1 != t[6].1 by {
                if j == 2 { assert("description"@.len() != "csv_rows_per_document"@.len());
                } else if j == 3 { assert("project_space_visible"@[0] != "csv_rows_per_document"@[0]);
                } else if j == 4 { assert("csv_separator"@.len() != "csv_rows_per_document"@.len());
                } else if j == 5 { assert("csv_start_row"@.len() != "csv_rows_per_document"@.len());
                }
            }
            lemma_query_fold_sends_field(s, t, is_update, 6, value);
            let fq = query_fold(s, Seq::empty(), t, is_update)->Ok_0.1;
            let i = choose|i: int| 0 <= i < fq.len() && #[trigger] fq[i] == (t[6].2, query_text(t[6].3, value)->0);
            assert(0 <= i < request->FileMultipart_query_params@.len() && query_view(request->FileMultipart_query_params@)[i] == (to, if json { json_text(value) } else { scalar_text(value)->0 }));
        }
    } else if section == Section::Spec && from == "embedding_model"@ && to == "embedding_model"@ && !json && when == When::Always {
        assert(t[7] == (Section::Spec, "embedding_model"@, "embedding_model"@, QueryKind::OptionalScalar, When::Always));
        if member_value(section_of(s, section), from) == Some(value) && !(value is Null) && applies(when, is_update) {
            assert forall|j: int| 0 <= j < 7 implies #[trigger] t[j].0 != t[7].0 || t[j].1 != t[7].1 by {
                if j == 2 { assert("description"@.len() != "embedding_model"@.len());
                } else if j == 3 { assert("project_space_visible"@.len() != "embedding_model"@.len());
                } else if j == 4 { assert("csv_separator"@.len() != "embedding_model"@.len());
                } else if j == 5 { assert("csv_start_row"@.len() != "embedding_model"@.len());
                } else if j == 6 { assert("csv_rows_per_document"@.len() != "embedding_model"@.len());
                }
            }
            lemma_query_fold_sends_field(s, t, is_update, 7, value);
            let fq = query_fold(s, Seq::empty(), t, is_update)->Ok_0.1;
            let i = choose|i: int| 0 <= i < fq.len() && #[trigger] fq[i] == (t[7].2, query_text(t[7].3, value)->0);
            assert(0 <= i < request->FileMultipart_query_params@.len() && query_view(request->FileMultipart_query_params@)[i] == (to, if json { json_text(value) } else { scalar_text(value)->0 }));
        }
    } else if section == Section::Spec && from == "guardrail_assignments"@ && to == "guardrail_assignments"@ && json && when == When::Always {
        assert(t[8] == (Section::Spec, "guardrail_assignments"@, "guardrail_assignments"@, QueryKind::OptionalJson, When::Always));
        if member_value(section_of(s, section), from) == Some(value) && !(value is Null) && applies(when, is_update) {
            assert forall|j: int| 0 <= j < 8 implies #[trigger] t[j].0 != t[8].0 || t[j].1 != t[8].1 by {
                if j == 2 { assert("description"@.len() != "guardrail_assignments"@.len());
                } else if j == 3 { assert("project_space_visible"@[0] != "guardrail_assignments"@[0]);
                } else if j == 4 { assert("csv_separator"@.len() != "guardrail_assignments"@.len());
                } else if j == 5 { assert("csv_start_row"@.len() != "guardrail_assignments"@.len());
                } else if j == 6 { assert("csv_rows_per_document"@[0] != "guardrail_assignments"@[0]);
                } else if j == 7 { assert("embedding_model"@.len() != "guardrail_assignments"@.len());
                }
            }
            lemma_query_fold_sends_field(s, t, is_update, 8, value);
            let fq = query_fold(s, Seq::empty(), t, is_update)->Ok_0.1;
            let i = choose|i: int| 0 <= i < fq.len() && #[trigger] fq[i] == (t[8].2, query_text(t[8].3, value)->0);
            assert(0 <= i < request->FileMultipart_query_params@.len() && query_view(request->FileMultipart_query_params@)[i] == (to, if json { json_text(value) } else { scalar_text(value)->0 }));
        }
    } else if section == Section::Spec && from == "include_email_attachments"@ && to == "include_email_attachments"@ && !json && when == When::Always {
        assert(t[9] == (Section::Spec, "include_email_attachments"@, "include_email_attachments"@, QueryKind::Scalar, When::Always));
        if member_value(section_of(s, section), from) == Some(value) && !(value is Null) && applies(when, is_update) {
            assert forall|j: int| 0 <= j < 9 implies #[trigger] t[j].0 != t[9].0 || t[j].1 != t[9].1 by {
                if j == 2 { assert("description"@.len() != "include_email_attachments"@.len());
                } else if j == 3 { assert("project_space_visible"@.len() != "include_email_attachments"@.len());
                } else if j == 4 { assert("csv_separator"@.len() != "include_email_attachments"@.len());
                } else if j == 5 { assert("csv_start_row"@.len() != "include_email_attachments"@.len());
                } else if j == 6 { assert("csv_rows_per_document"@.len() != "include_email_attachments"@.len());
                } else if j == 7 { assert("embedding_model"@.len() != "include_email_attachments"@.len());
                } else if j == 8 { assert("guardrail_assignments"@.len() != "include_email_attachments"@.len());
                }
            }
            lemma_query_fold_sends_field(s, t, is_update, 9, value);
            let fq = query_fold(s, Seq::empty(), t, is_update)->Ok_0.1;
            let i = choose|i: int| 0 <= i < fq.len() && #[trigger] fq[i] == (t[9].2, query_text(t[9].3, value)->0);
            assert(0 <= i < request->FileMultipart_query_params@.len() && query_view(request->FileMultipart_query_params@)[i] == (to, if json { json_text(value) } else { scalar_text(value)->0 }));
        }
    } else if section == Section::Spec && from == "uploaded_files"@ && to == "uploaded_files"@ && json && when == When::UpdateOnly {
        assert(t[10] == (Section::Spec, "uploaded_files"@, "uploaded_files"@, QueryKind::OptionalJson, When::UpdateOnly));
        if member_value(section_of(s, section), from) == Some(value) && !(value is Null) && applies(when, is_update) {
            assert forall|j: int| 0 <= j < 10 implies #[trigger] t[j].0 != t[10].0 || t[j].1 != t[10].1 by {
                if j == 2 { assert("description"@.len() != "uploaded_files"@.len());
                } else if j == 3 { assert("project_space_visible"@.len() != "uploaded_files"@.len());
                } else if j == 4 { assert("csv_separator"@.len() != "uploaded_files"@.len());
                } else if j == 5 { assert("csv_start_row"@.len() != "uploaded_files"@.len());
                } else if j == 6 { assert("csv_rows_per_document"@.len() != "uploaded_files"@.len());
                } else if j == 7 { assert("embedding_model"@.len() != "uploaded_files"@.len());
                } else if j == 8 { assert("guardrail_assignments"@.len() != "uploaded_files"@.len());
                } else if j == 9 { assert("include_email_attachments"@.len() != "uploaded_files"@.len());
                }
            }
            lemma_query_fold_sends_field(s, t, is_update, 10, value);
            let fq = query_fold(s, Seq::empty(), t, is_update)->Ok_0.1;
            let i = choose|i: int| 0 <= i < fq.len() && #[trigger] fq[i] == (t[10].2, query_text(t[10].3, value)->0);
            assert(0 <= i < request->FileMultipart_query_params@.len() && query_view(request->FileMultipart_query_params@)[i] == (to, if json { json_text(value) } else { scalar_text(value)->0 }));
        }
        if !applies(when, is_update) {
            assert forall|j: int| 0 <= j < t.len() && applies(t[j].4, is_update) implies #[trigger] t[j].2 != to by {
                if j == 0 { assert("project_name"@.len() != "uploaded_files"@.len());
                } else if j == 1 { assert("name"@.len() != "uploaded_files"@.len());
                } else if j == 2 { assert("description"@.len() != "uploaded_files"@.len());
                } else if j == 3 { assert("project_space_visible"@.len() != "uploaded_files"@.len());
                } else if j == 4 { assert("csv_separator"@.len() != "uploaded_files"@.len());
                } else if j == 5 { assert("csv_start_row"@.len() != "uploaded_files"@.len());
                } else if j == 6 { assert("csv_rows_per_document"@.len() != "uploaded_files"@.len());
                } else if j == 7 { assert("embedding_model"@.len() != "uploaded_files"@.len());
                } else if j == 8 { assert("guardrail_assignments"@.len() != "uploaded_files"@.len());
                } else if j == 9 { assert("include_email_attachments"@.len() != "uploaded_files"@.len());
                }
            }
            lemma_query_fold_never_sends(s, t, is_update, to);
        }
    }
}

} // verus!
