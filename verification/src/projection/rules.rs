use vstd::prelude::*;

use crate::projection::{
    FieldRule, Presence, QueryKind, QueryRule, QueryRuleView, RuleView, Section, When, query_rule,
    query_rules_view, rule, rules_view,
};

verus! {

/// The field rules of an Assistant.
pub open spec fn assistant_rule_table() -> Seq<RuleView> {
    seq![
        (Section::Metadata, "project"@, "project"@, Presence::Required, When::Always),
        (Section::Metadata, "slug"@, "slug"@, Presence::Required, When::Always),
        (Section::Spec, "name"@, "name"@, Presence::Required, When::Always),
        (Section::Spec, "description"@, "description"@, Presence::OrNull, When::Always),
        (Section::Spec, "system_prompt"@, "system_prompt"@, Presence::Required, When::Always),
        (Section::Spec, "icon_url"@, "icon_url"@, Presence::OrNull, When::Always),
        (Section::Spec, "llm_model_type"@, "llm_model_type"@, Presence::Required, When::Always),
        (Section::Spec, "enable_image_generation"@, "enable_image_generation"@, Presence::OrNull, When::Always),
        (Section::Spec, "image_generation_model"@, "image_generation_model"@, Presence::OrNull, When::Always),
        (Section::Spec, "toolkits"@, "toolkits"@, Presence::Required, When::Always),
        (Section::Spec, "conversation_starters"@, "conversation_starters"@, Presence::Required, When::Always),
        (Section::Spec, "shared"@, "shared"@, Presence::Required, When::Always),
        (Section::Spec, "is_global"@, "is_global"@, Presence::OrNull, When::Always),
        (Section::Spec, "agent_mode"@, "agent_mode"@, Presence::OrNull, When::Always),
        (Section::Spec, "plan_prompt"@, "plan_prompt"@, Presence::OrNull, When::Always),
        (Section::Spec, "temperature"@, "temperature"@, Presence::OrNull, When::Always),
        (Section::Spec, "top_p"@, "top_p"@, Presence::OrNull, When::Always),
        (Section::Spec, "tools_tokens_size_limit"@, "tools_tokens_size_limit"@, Presence::OrNull, When::Always),
        (Section::Spec, "smart_tool_selection_enabled"@, "smart_tool_selection_enabled"@, Presence::OrNull, When::Always),
        (Section::Spec, "hedging_config"@, "hedging_config"@, Presence::OrNull, When::Always),
        (Section::Spec, "interactive_features"@, "interactive_features"@, Presence::OrNull, When::Always),
        (Section::Spec, "mcp_servers"@, "mcp_servers"@, Presence::Required, When::Always),
        (Section::Spec, "enabled_builtin_subagents"@, "enabled_builtin_subagents"@, Presence::Required, When::Always),
        (Section::Spec, "type"@, "type"@, Presence::Required, When::Always),
        (Section::Spec, "categories"@, "categories"@, Presence::Required, When::Always),
        (Section::Spec, "prompt_variables"@, "prompt_variables"@, Presence::Required, When::Always),
        (Section::Spec, "custom_metadata"@, "custom_metadata"@, Presence::OrNull, When::Always),
        (Section::Spec, "guardrail_assignments"@, "guardrail_assignments"@, Presence::OrNull, When::Always),
    ]
}

/// The field rules of an Assistant.
pub fn assistant_rules() -> (v: Vec<FieldRule>)
    ensures
        rules_view(v@) == assistant_rule_table(),
{
    let mut v: Vec<FieldRule> = Vec::new();
    v.push(rule(Section::Metadata, "project", "project", Presence::Required, When::Always));
    v.push(rule(Section::Metadata, "slug", "slug", Presence::Required, When::Always));
    v.push(rule(Section::Spec, "name", "name", Presence::Required, When::Always));
    v.push(rule(Section::Spec, "description", "description", Presence::OrNull, When::Always));
    v.push(rule(Section::Spec, "system_prompt", "system_prompt", Presence::Required, When::Always));
    v.push(rule(Section::Spec, "icon_url", "icon_url", Presence::OrNull, When::Always));
    v.push(rule(Section::Spec, "llm_model_type", "llm_model_type", Presence::Required, When::Always));
    v.push(rule(Section::Spec, "enable_image_generation", "enable_image_generation", Presence::OrNull, When::Always));
    v.push(rule(Section::Spec, "image_generation_model", "image_generation_model", Presence::OrNull, When::Always));
    v.push(rule(Section::Spec, "toolkits", "toolkits", Presence::Required, When::Always));
    v.push(rule(Section::Spec, "conversation_starters", "conversation_starters", Presence::Required, When::Always));
    v.push(rule(Section::Spec, "shared", "shared", Presence::Required, When::Always));
    v.push(rule(Section::Spec, "is_global", "is_global", Presence::OrNull, When::Always));
    v.push(rule(Section::Spec, "agent_mode", "agent_mode", Presence::OrNull, When::Always));
    v.push(rule(Section::Spec, "plan_prompt", "plan_prompt", Presence::OrNull, When::Always));
    v.push(rule(Section::Spec, "temperature", "temperature", Presence::OrNull, When::Always));
    v.push(rule(Section::Spec, "top_p", "top_p", Presence::OrNull, When::Always));
    v.push(rule(Section::Spec, "tools_tokens_size_limit", "tools_tokens_size_limit", Presence::OrNull, When::Always));
    v.push(rule(Section::Spec, "smart_tool_selection_enabled", "smart_tool_selection_enabled", Presence::OrNull, When::Always));
    v.push(rule(Section::Spec, "hedging_config", "hedging_config", Presence::OrNull, When::Always));
    v.push(rule(Section::Spec, "interactive_features", "interactive_features", Presence::OrNull, When::Always));
    v.push(rule(Section::Spec, "mcp_servers", "mcp_servers", Presence::Required, When::Always));
    v.push(rule(Section::Spec, "enabled_builtin_subagents", "enabled_builtin_subagents", Presence::Required, When::Always));
    v.push(rule(Section::Spec, "type", "type", Presence::Required, When::Always));
    v.push(rule(Section::Spec, "categories", "categories", Presence::Required, When::Always));
    v.push(rule(Section::Spec, "prompt_variables", "prompt_variables", Presence::Required, When::Always));
    v.push(rule(Section::Spec, "custom_metadata", "custom_metadata", Presence::OrNull, When::Always));
    v.push(rule(Section::Spec, "guardrail_assignments", "guardrail_assignments", Presence::OrNull, When::Always));
    proof {
        assert(rules_view(v@) =~= assistant_rule_table());
    }
    v
}

/// The field rules of a Skill.
pub open spec fn skill_rule_table() -> Seq<RuleView> {
    seq![
        (Section::Metadata, "name"@, "name"@, Presence::Required, When::Always),
        (Section::Metadata, "project"@, "project"@, Presence::Required, When::Always),
        (Section::Spec, "description"@, "description"@, Presence::Required, When::Always),
        (Section::Spec, "content"@, "content"@, Presence::Required, When::Always),
        (Section::Spec, "visibility"@, "visibility"@, Presence::Required, When::Always),
        (Section::Spec, "categories"@, "categories"@, Presence::Required, When::Always),
        (Section::Spec, "toolkits"@, "toolkits"@, Presence::Required, When::Always),
        (Section::Spec, "mcp_servers"@, "mcp_servers"@, Presence::Required, When::Always),
        (Section::Spec, "companion_files"@, "companion_files"@, Presence::Required, When::Always),
        (Section::Spec, "enabled_builtin_subagents"@, "enabled_builtin_subagents"@, Presence::Required, When::Always),
    ]
}

/// The field rules of a Skill.
pub fn skill_rules() -> (v: Vec<FieldRule>)
    ensures
        rules_view(v@) == skill_rule_table(),
{
    let mut v: Vec<FieldRule> = Vec::new();
    v.push(rule(Section::Metadata, "name", "name", Presence::Required, When::Always));
    v.push(rule(Section::Metadata, "project", "project", Presence::Required, When::Always));
    v.push(rule(Section::Spec, "description", "description", Presence::Required, When::Always));
    v.push(rule(Section::Spec, "content", "content", Presence::Required, When::Always));
    v.push(rule(Section::Spec, "visibility", "visibility", Presence::Required, When::Always));
    v.push(rule(Section::Spec, "categories", "categories", Presence::Required, When::Always));
    v.push(rule(Section::Spec, "toolkits", "toolkits", Presence::Required, When::Always));
    v.push(rule(Section::Spec, "mcp_servers", "mcp_servers", Presence::Required, When::Always));
    v.push(rule(Section::Spec, "companion_files", "companion_files", Presence::Required, When::Always));
    v.push(rule(Section::Spec, "enabled_builtin_subagents", "enabled_builtin_subagents", Presence::Required, When::Always));
    proof {
        assert(rules_view(v@) =~= skill_rule_table());
    }
    v
}

/// The field rules of a Workflow.
pub open spec fn workflow_rule_table() -> Seq<RuleView> {
    seq![
        (Section::Metadata, "project"@, "project"@, Presence::Required, When::Always),
        (Section::Spec, "name"@, "name"@, Presence::Required, When::Always),
        (Section::Spec, "mode"@, "mode"@, Presence::Required, When::Always),
        (Section::Spec, "description"@, "description"@, Presence::Required, When::Always),
        (Section::Spec, "start_hint"@, "start_hint"@, Presence::OrNull, When::Always),
        (Section::Spec, "icon_url"@, "icon_url"@, Presence::OrNull, When::Always),
        (Section::Spec, "shared"@, "shared"@, Presence::Required, When::Always),
        (Section::Spec, "supervisor_prompt"@, "supervisor_prompt"@, Presence::OrNull, When::Always),
        (Section::Spec, "guardrail_assignments"@, "guardrail_assignments"@, Presence::OrNull, When::Always),
    ]
}

/// The field rules of a Workflow.
pub fn workflow_rules() -> (v: Vec<FieldRule>)
    ensures
        rules_view(v@) == workflow_rule_table(),
{
    let mut v: Vec<FieldRule> = Vec::new();
    v.push(rule(Section::Metadata, "project", "project", Presence::Required, When::Always));
    v.push(rule(Section::Spec, "name", "name", Presence::Required, When::Always));
    v.push(rule(Section::Spec, "mode", "mode", Presence::Required, When::Always));
    v.push(rule(Section::Spec, "description", "description", Presence::Required, When::Always));
    v.push(rule(Section::Spec, "start_hint", "start_hint", Presence::OrNull, When::Always));
    v.push(rule(Section::Spec, "icon_url", "icon_url", Presence::OrNull, When::Always));
    v.push(rule(Section::Spec, "shared", "shared", Presence::Required, When::Always));
    v.push(rule(Section::Spec, "supervisor_prompt", "supervisor_prompt", Presence::OrNull, When::Always));
    v.push(rule(Section::Spec, "guardrail_assignments", "guardrail_assignments", Presence::OrNull, When::Always));
    proof {
        assert(rules_view(v@) =~= workflow_rule_table());
    }
    v
}

/// The field rules of the git kind.
pub open spec fn git_rule_table() -> Seq<RuleView> {
    seq![
        (Section::Metadata, "repo_name"@, "name"@, Presence::Required, When::CreateOnly),
        (Section::Spec, "description"@, "description"@, Presence::Required, When::Always),
        (Section::Spec, "branch"@, "branch"@, Presence::Required, When::Always),
        (Section::Spec, "link"@, "link"@, Presence::Required, When::Always),
        (Section::Spec, "projectSpaceVisible"@, "projectSpaceVisible"@, Presence::Required, When::Always),
        (Section::Spec, "prompt"@, "prompt"@, Presence::IfPresent, When::Always),
        (Section::Spec, "embeddingsModel"@, "embeddingsModel"@, Presence::IfPresent, When::Always),
        (Section::Spec, "docsGeneration"@, "docsGeneration"@, Presence::IfPresent, When::Always),
        (Section::Spec, "filesFilter"@, "filesFilter"@, Presence::IfPresent, When::Always),
        (Section::Spec, "setting_id"@, "setting_id"@, Presence::IfPresent, When::Always),
        (Section::Spec, "guardrail_assignments"@, "guardrail_assignments"@, Presence::IfPresent, When::Always),
        (Section::Spec, "cron_expression"@, "cron_expression"@, Presence::IfPresent, When::Always),
        (Section::Spec, "timezone"@, "timezone"@, Presence::IfPresent, When::Always),
        (Section::Spec, "indexType"@, "indexType"@, Presence::Required, When::CreateOnly),
        (Section::Spec, "summarizationModel"@, "summarizationModel"@, Presence::IfPresent, When::CreateOnly),
    ]
}

/// The field rules of the git kind.
pub fn git_rules() -> (v: Vec<FieldRule>)
    ensures
        rules_view(v@) == git_rule_table(),
{
    let mut v: Vec<FieldRule> = Vec::new();
    v.push(rule(Section::Metadata, "repo_name", "name", Presence::Required, When::CreateOnly));
    v.push(rule(Section::Spec, "description", "description", Presence::Required, When::Always));
    v.push(rule(Section::Spec, "branch", "branch", Presence::Required, When::Always));
    v.push(rule(Section::Spec, "link", "link", Presence::Required, When::Always));
    v.push(rule(Section::Spec, "projectSpaceVisible", "projectSpaceVisible", Presence::Required, When::Always));
    v.push(rule(Section::Spec, "prompt", "prompt", Presence::IfPresent, When::Always));
    v.push(rule(Section::Spec, "embeddingsModel", "embeddingsModel", Presence::IfPresent, When::Always));
    v.push(rule(Section::Spec, "docsGeneration", "docsGeneration", Presence::IfPresent, When::Always));
    v.push(rule(Section::Spec, "filesFilter", "filesFilter", Presence::IfPresent, When::Always));
    v.push(rule(Section::Spec, "setting_id", "setting_id", Presence::IfPresent, When::Always));
    v.push(rule(Section::Spec, "guardrail_assignments", "guardrail_assignments", Presence::IfPresent, When::Always));
    v.push(rule(Section::Spec, "cron_expression", "cron_expression", Presence::IfPresent, When::Always));
    v.push(rule(Section::Spec, "timezone", "timezone", Presence::IfPresent, When::Always));
    v.push(rule(Section::Spec, "indexType", "indexType", Presence::Required, When::CreateOnly));
    v.push(rule(Section::Spec, "summarizationModel", "summarizationModel", Presence::IfPresent, When::CreateOnly));
    proof {
        assert(rules_view(v@) =~= git_rule_table());
    }
    v
}

/// The field rules of the svn kind.
pub open spec fn svn_rule_table() -> Seq<RuleView> {
    seq![
        (Section::Metadata, "repo_name"@, "name"@, Presence::Required, When::CreateOnly),
        (Section::Spec, "description"@, "description"@, Presence::Required, When::Always),
        (Section::Spec, "branch"@, "branch"@, Presence::Required, When::Always),
        (Section::Spec, "link"@, "link"@, Presence::Required, When::Always),
        (Section::Spec, "projectSpaceVisible"@, "projectSpaceVisible"@, Presence::Required, When::Always),
        (Section::Spec, "prompt"@, "prompt"@, Presence::IfPresent, When::Always),
        (Section::Spec, "embeddingsModel"@, "embeddingsModel"@, Presence::IfPresent, When::Always),
        (Section::Spec, "docsGeneration"@, "docsGeneration"@, Presence::IfPresent, When::Always),
        (Section::Spec, "filesFilter"@, "filesFilter"@, Presence::IfPresent, When::Always),
        (Section::Spec, "setting_id"@, "setting_id"@, Presence::IfPresent, When::Always),
        (Section::Spec, "guardrail_assignments"@, "guardrail_assignments"@, Presence::IfPresent, When::Always),
        (Section::Spec, "cron_expression"@, "cron_expression"@, Presence::IfPresent, When::Always),
        (Section::Spec, "timezone"@, "timezone"@, Presence::IfPresent, When::Always),
        (Section::Spec, "indexType"@, "indexType"@, Presence::Required, When::CreateOnly),
        (Section::Spec, "summarizationModel"@, "summarizationModel"@, Presence::IfPresent, When::CreateOnly),
    ]
}

/// The field rules of the svn kind.
pub fn svn_rules() -> (v: Vec<FieldRule>)
    ensures
        rules_view(v@) == svn_rule_table(),
{
    let mut v: Vec<FieldRule> = Vec::new();
    v.push(rule(Section::Metadata, "repo_name", "name", Presence::Required, When::CreateOnly));
    v.push(rule(Section::Spec, "description", "description", Presence::Required, When::Always));
    v.push(rule(Section::Spec, "branch", "branch", Presence::Required, When::Always));
    v.push(rule(Section::Spec, "link", "link", Presence::Required, When::Always));
    v.push(rule(Section::Spec, "projectSpaceVisible", "projectSpaceVisible", Presence::Required, When::Always));
    v.push(rule(Section::Spec, "prompt", "prompt", Presence::IfPresent, When::Always));
    v.push(rule(Section::Spec, "embeddingsModel", "embeddingsModel", Presence::IfPresent, When::Always));
    v.push(rule(Section::Spec, "docsGeneration", "docsGeneration", Presence::IfPresent, When::Always));
    v.push(rule(Section::Spec, "filesFilter", "filesFilter", Presence::IfPresent, When::Always));
    v.push(rule(Section::Spec, "setting_id", "setting_id", Presence::IfPresent, When::Always));
    v.push(rule(Section::Spec, "guardrail_assignments", "guardrail_assignments", Presence::IfPresent, When::Always));
    v.push(rule(Section::Spec, "cron_expression", "cron_expression", Presence::IfPresent, When::Always));
    v.push(rule(Section::Spec, "timezone", "timezone", Presence::IfPresent, When::Always));
    v.push(rule(Section::Spec, "indexType", "indexType", Presence::Required, When::CreateOnly));
    v.push(rule(Section::Spec, "summarizationModel", "summarizationModel", Presence::IfPresent, When::CreateOnly));
    proof {
        assert(rules_view(v@) =~= svn_rule_table());
    }
    v
}

/// The field rules of the confluence kind.
pub open spec fn confluence_rule_table() -> Seq<RuleView> {
    seq![
        (Section::Metadata, "repo_name"@, "name"@, Presence::Required, When::CreateOnly),
        (Section::Metadata, "project"@, "project_name"@, Presence::Required, When::Always),
        (Section::Spec, "description"@, "description"@, Presence::Required, When::Always),
        (Section::Spec, "cql"@, "cql"@, Presence::Required, When::Always),
        (Section::Spec, "project_space_visible"@, "project_space_visible"@, Presence::IfPresent, When::Always),
        (Section::Spec, "setting_id"@, "setting_id"@, Presence::IfPresent, When::Always),
        (Section::Spec, "cron_expression"@, "cron_expression"@, Presence::IfPresent, When::Always),
        (Section::Spec, "timezone"@, "timezone"@, Presence::IfPresent, When::Always),
        (Section::Spec, "guardrail_assignments"@, "guardrail_assignments"@, Presence::IfPresent, When::Always),
        (Section::Spec, "include_restricted_content"@, "include_restricted_content"@, Presence::IfPresent, When::CreateOnly),
        (Section::Spec, "include_archived_content"@, "include_archived_content"@, Presence::IfPresent, When::CreateOnly),
        (Section::Spec, "include_attachments"@, "include_attachments"@, Presence::IfPresent, When::CreateOnly),
        (Section::Spec, "include_comments"@, "include_comments"@, Presence::IfPresent, When::CreateOnly),
        (Section::Spec, "keep_markdown_format"@, "keep_markdown_format"@, Presence::IfPresent, When::CreateOnly),
        (Section::Spec, "keep_newlines"@, "keep_newlines"@, Presence::IfPresent, When::CreateOnly),
        (Section::Spec, "embedding_model"@, "embedding_model"@, Presence::IfPresent, When::CreateOnly),
    ]
}

/// The field rules of the confluence kind.
pub fn confluence_rules() -> (v: Vec<FieldRule>)
    ensures
        rules_view(v@) == confluence_rule_table(),
{
    let mut v: Vec<FieldRule> = Vec::new();
    v.push(rule(Section::Metadata, "repo_name", "name", Presence::Required, When::CreateOnly));
    v.push(rule(Section::Metadata, "project", "project_name", Presence::Required, When::Always));
    v.push(rule(Section::Spec, "description", "description", Presence::Required, When::Always));
    v.push(rule(Section::Spec, "cql", "cql", Presence::Required, When::Always));
    v.push(rule(Section::Spec, "project_space_visible", "project_space_visible", Presence::IfPresent, When::Always));
    v.push(rule(Section::Spec, "setting_id", "setting_id", Presence::IfPresent, When::Always));
    v.push(rule(Section::Spec, "cron_expression", "cron_expression", Presence::IfPresent, When::Always));
    v.push(rule(Section::Spec, "timezone", "timezone", Presence::IfPresent, When::Always));
    v.push(rule(Section::Spec, "guardrail_assignments", "guardrail_assignments", Presence::IfPresent, When::Always));
    v.push(rule(Section::Spec, "include_restricted_content", "include_restricted_content", Presence::IfPresent, When::CreateOnly));
    v.push(rule(Section::Spec, "include_archived_content", "include_archived_content", Presence::IfPresent, When::CreateOnly));
    v.push(rule(Section::Spec, "include_attachments", "include_attachments", Presence::IfPresent, When::CreateOnly));
    v.push(rule(Section::Spec, "include_comments", "include_comments", Presence::IfPresent, When::CreateOnly));
    v.push(rule(Section::Spec, "keep_markdown_format", "keep_markdown_format", Presence::IfPresent, When::CreateOnly));
    v.push(rule(Section::Spec, "keep_newlines", "keep_newlines", Presence::IfPresent, When::CreateOnly));
    v.push(rule(Section::Spec, "embedding_model", "embedding_model", Presence::IfPresent, When::CreateOnly));
    proof {
        assert(rules_view(v@) =~= confluence_rule_table());
    }
    v
}

/// The field rules of the jira kind.
pub open spec fn jira_rule_table() -> Seq<RuleView> {
    seq![
        (Section::Metadata, "repo_name"@, "name"@, Presence::Required, When::CreateOnly),
        (Section::Metadata, "project"@, "project_name"@, Presence::Required, When::Always),
        (Section::Spec, "description"@, "description"@, Presence::Required, When::Always),
        (Section::Spec, "jql"@, "jql"@, Presence::Required, When::Always),
        (Section::Spec, "project_space_visible"@, "project_space_visible"@, Presence::IfPresent, When::Always),
        (Section::Spec, "setting_id"@, "setting_id"@, Presence::IfPresent, When::Always),
        (Section::Spec, "cron_expression"@, "cron_expression"@, Presence::IfPresent, When::Always),
        (Section::Spec, "timezone"@, "timezone"@, Presence::IfPresent, When::Always),
        (Section::Spec, "guardrail_assignments"@, "guardrail_assignments"@, Presence::IfPresent, When::Always),
        (Section::Spec, "embedding_model"@, "embedding_model"@, Presence::IfPresent, When::CreateOnly),
    ]
}

/// The field rules of the jira kind.
pub fn jira_rules() -> (v: Vec<FieldRule>)
    ensures
        rules_view(v@) == jira_rule_table(),
{
    let mut v: Vec<FieldRule> = Vec::new();
    v.push(rule(Section::Metadata, "repo_name", "name", Presence::Required, When::CreateOnly));
    v.push(rule(Section::Metadata, "project", "project_name", Presence::Required, When::Always));
    v.push(rule(Section::Spec, "description", "description", Presence::Required, When::Always));
    v.push(rule(Section::Spec, "jql", "jql", Presence::Required, When::Always));
    v.push(rule(Section::Spec, "project_space_visible", "project_space_visible", Presence::IfPresent, When::Always));
    v.push(rule(Section::Spec, "setting_id", "setting_id", Presence::IfPresent, When::Always));
    v.push(rule(Section::Spec, "cron_expression", "cron_expression", Presence::IfPresent, When::Always));
    v.push(rule(Section::Spec, "timezone", "timezone", Presence::IfPresent, When::Always));
    v.push(rule(Section::Spec, "guardrail_assignments", "guardrail_assignments", Presence::IfPresent, When::Always));
    v.push(rule(Section::Spec, "embedding_model", "embedding_model", Presence::IfPresent, When::CreateOnly));
    proof {
        assert(rules_view(v@) =~= jira_rule_table());
    }
    v
}

/// The field rules of the xray kind.
pub open spec fn xray_rule_table() -> Seq<RuleView> {
    seq![
        (Section::Metadata, "repo_name"@, "name"@, Presence::Required, When::CreateOnly),
        (Section::Metadata, "project"@, "project_name"@, Presence::Required, When::Always),
        (Section::Spec, "description"@, "description"@, Presence::Required, When::Always),
        (Section::Spec, "jql"@, "jql"@, Presence::Required, When::Always),
        (Section::Spec, "project_space_visible"@, "project_space_visible"@, Presence::IfPresent, When::Always),
        (Section::Spec, "setting_id"@, "setting_id"@, Presence::IfPresent, When::Always),
        (Section::Spec, "cron_expression"@, "cron_expression"@, Presence::IfPresent, When::Always),
        (Section::Spec, "timezone"@, "timezone"@, Presence::IfPresent, When::Always),
        (Section::Spec, "guardrail_assignments"@, "guardrail_assignments"@, Presence::IfPresent, When::Always),
        (Section::Spec, "embedding_model"@, "embedding_model"@, Presence::IfPresent, When::CreateOnly),
    ]
}

/// The field rules of the xray kind.
pub fn xray_rules() -> (v: Vec<FieldRule>)
    ensures
        rules_view(v@) == xray_rule_table(),
{
    let mut v: Vec<FieldRule> = Vec::new();
    v.push(rule(Section::Metadata, "repo_name", "name", Presence::Required, When::CreateOnly));
    v.push(rule(Section::Metadata, "project", "project_name", Presence::Required, When::Always));
    v.push(rule(Section::Spec, "description", "description", Presence::Required, When::Always));
    v.push(rule(Section::Spec, "jql", "jql", Presence::Required, When::Always));
    v.push(rule(Section::Spec, "project_space_visible", "project_space_visible", Presence::IfPresent, When::Always));
    v.push(rule(Section::Spec, "setting_id", "setting_id", Presence::IfPresent, When::Always));
    v.push(rule(Section::Spec, "cron_expression", "cron_expression", Presence::IfPresent, When::Always));
    v.push(rule(Section::Spec, "timezone", "timezone", Presence::IfPresent, When::Always));
    v.push(rule(Section::Spec, "guardrail_assignments", "guardrail_assignments", Presence::IfPresent, When::Always));
    v.push(rule(Section::Spec, "embedding_model", "embedding_model", Presence::IfPresent, When::CreateOnly));
    proof {
        assert(rules_view(v@) =~= xray_rule_table());
    }
    v
}

/// The field rules of the google kind.
pub open spec fn google_rule_table() -> Seq<RuleView> {
    seq![
        (Section::Metadata, "repo_name"@, "name"@, Presence::Required, When::CreateOnly),
        (Section::Metadata, "project"@, "project_name"@, Presence::Required, When::Always),
        (Section::Spec, "description"@, "description"@, Presence::Required, When::Always),
        (Section::Spec, "project_space_visible"@, "project_space_visible"@, Presence::IfPresent, When::Always),
        (Section::Spec, "cron_expression"@, "cron_expression"@, Presence::IfPresent, When::Always),
        (Section::Spec, "timezone"@, "timezone"@, Presence::IfPresent, When::Always),
        (Section::Spec, "guardrail_assignments"@, "guardrail_assignments"@, Presence::IfPresent, When::Always),
        (Section::Spec, "googleDoc"@, "googleDoc"@, Presence::Required, When::CreateOnly),
        (Section::Spec, "setting_id"@, "setting_id"@, Presence::Required, When::CreateOnly),
        (Section::Spec, "embedding_model"@, "embedding_model"@, Presence::IfPresent, When::CreateOnly),
    ]
}

/// The field rules of the google kind.
pub fn google_rules() -> (v: Vec<FieldRule>)
    ensures
        rules_view(v@) == google_rule_table(),
{
    let mut v: Vec<FieldRule> = Vec::new();
    v.push(rule(Section::Metadata, "repo_name", "name", Presence::Required, When::CreateOnly));
    v.push(rule(Section::Metadata, "project", "project_name", Presence::Required, When::Always));
    v.push(rule(Section::Spec, "description", "description", Presence::Required, When::Always));
    v.push(rule(Section::Spec, "project_space_visible", "project_space_visible", Presence::IfPresent, When::Always));
    v.push(rule(Section::Spec, "cron_expression", "cron_expression", Presence::IfPresent, When::Always));
    v.push(rule(Section::Spec, "timezone", "timezone", Presence::IfPresent, When::Always));
    v.push(rule(Section::Spec, "guardrail_assignments", "guardrail_assignments", Presence::IfPresent, When::Always));
    v.push(rule(Section::Spec, "googleDoc", "googleDoc", Presence::Required, When::CreateOnly));
    v.push(rule(Section::Spec, "setting_id", "setting_id", Presence::Required, When::CreateOnly));
    v.push(rule(Section::Spec, "embedding_model", "embedding_model", Presence::IfPresent, When::CreateOnly));
    proof {
        assert(rules_view(v@) =~= google_rule_table());
    }
    v
}

/// The field rules of the azure_devops_wiki kind.
pub open spec fn azure_devops_wiki_rule_table() -> Seq<RuleView> {
    seq![
        (Section::Metadata, "repo_name"@, "name"@, Presence::Required, When::CreateOnly),
        (Section::Metadata, "project"@, "project_name"@, Presence::Required, When::Always),
        (Section::Spec, "description"@, "description"@, Presence::Required, When::Always),
        (Section::Spec, "wiki_query"@, "wiki_query"@, Presence::Required, When::Always),
        (Section::Spec, "project_space_visible"@, "project_space_visible"@, Presence::IfPresent, When::Always),
        (Section::Spec, "wiki_name"@, "wiki_name"@, Presence::IfPresent, When::Always),
        (Section::Spec, "setting_id"@, "setting_id"@, Presence::IfPresent, When::Always),
        (Section::Spec, "cron_expression"@, "cron_expression"@, Presence::IfPresent, When::Always),
        (Section::Spec, "timezone"@, "timezone"@, Presence::IfPresent, When::Always),
        (Section::Spec, "guardrail_assignments"@, "guardrail_assignments"@, Presence::IfPresent, When::Always),
        (Section::Spec, "embedding_model"@, "embedding_model"@, Presence::IfPresent, When::CreateOnly),
    ]
}

/// The field rules of the azure_devops_wiki kind.
pub fn azure_devops_wiki_rules() -> (v: Vec<FieldRule>)
    ensures
        rules_view(v@) == azure_devops_wiki_rule_table(),
{
    let mut v: Vec<FieldRule> = Vec::new();
    v.push(rule(Section::Metadata, "repo_name", "name", Presence::Required, When::CreateOnly));
    v.push(rule(Section::Metadata, "project", "project_name", Presence::Required, When::Always));
    v.push(rule(Section::Spec, "description", "description", Presence::Required, When::Always));
    v.push(rule(Section::Spec, "wiki_query", "wiki_query", Presence::Required, When::Always));
    v.push(rule(Section::Spec, "project_space_visible", "project_space_visible", Presence::IfPresent, When::Always));
    v.push(rule(Section::Spec, "wiki_name", "wiki_name", Presence::IfPresent, When::Always));
    v.push(rule(Section::Spec, "setting_id", "setting_id", Presence::IfPresent, When::Always));
    v.push(rule(Section::Spec, "cron_expression", "cron_expression", Presence::IfPresent, When::Always));
    v.push(rule(Section::Spec, "timezone", "timezone", Presence::IfPresent, When::Always));
    v.push(rule(Section::Spec, "guardrail_assignments", "guardrail_assignments", Presence::IfPresent, When::Always));
    v.push(rule(Section::Spec, "embedding_model", "embedding_model", Presence::IfPresent, When::CreateOnly));
    proof {
        assert(rules_view(v@) =~= azure_devops_wiki_rule_table());
    }
    v
}

/// The field rules of the azure_devops_work_item kind.
pub open spec fn azure_devops_work_item_rule_table() -> Seq<RuleView> {
    seq![
        (Section::Metadata, "repo_name"@, "name"@, Presence::Required, When::CreateOnly),
        (Section::Metadata, "project"@, "project_name"@, Presence::Required, When::Always),
        (Section::Spec, "description"@, "description"@, Presence::Required, When::Always),
        (Section::Spec, "wiql_query"@, "wiql_query"@, Presence::Required, When::Always),
        (Section::Spec, "project_space_visible"@, "project_space_visible"@, Presence::IfPresent, When::Always),
        (Section::Spec, "setting_id"@, "setting_id"@, Presence::IfPresent, When::Always),
        (Section::Spec, "cron_expression"@, "cron_expression"@, Presence::IfPresent, When::Always),
        (Section::Spec, "timezone"@, "timezone"@, Presence::IfPresent, When::Always),
        (Section::Spec, "guardrail_assignments"@, "guardrail_assignments"@, Presence::IfPresent, When::Always),
        (Section::Spec, "embedding_model"@, "embedding_model"@, Presence::IfPresent, When::CreateOnly),
    ]
}

/// The field rules of the azure_devops_work_item kind.
pub fn azure_devops_work_item_rules() -> (v: Vec<FieldRule>)
    ensures
        rules_view(v@) == azure_devops_work_item_rule_table(),
{
    let mut v: Vec<FieldRule> = Vec::new();
    v.push(rule(Section::Metadata, "repo_name", "name", Presence::Required, When::CreateOnly));
    v.push(rule(Section::Metadata, "project", "project_name", Presence::Required, When::Always));
    v.push(rule(Section::Spec, "description", "description", Presence::Required, When::Always));
    v.push(rule(Section::Spec, "wiql_query", "wiql_query", Presence::Required, When::Always));
    v.push(rule(Section::Spec, "project_space_visible", "project_space_visible", Presence::IfPresent, When::Always));
    v.push(rule(Section::Spec, "setting_id", "setting_id", Presence::IfPresent, When::Always));
    v.push(rule(Section::Spec, "cron_expression", "cron_expression", Presence::IfPresent, When::Always));
    v.push(rule(Section::Spec, "timezone", "timezone", Presence::IfPresent, When::Always));
    v.push(rule(Section::Spec, "guardrail_assignments", "guardrail_assignments", Presence::IfPresent, When::Always));
    v.push(rule(Section::Spec, "embedding_model", "embedding_model", Presence::IfPresent, When::CreateOnly));
    proof {
        assert(rules_view(v@) =~= azure_devops_work_item_rule_table());
    }
    v
}

/// The field rules of the sharepoint kind.
pub open spec fn sharepoint_rule_table() -> Seq<RuleView> {
    seq![
        (Section::Metadata, "repo_name"@, "name"@, Presence::Required, When::CreateOnly),
        (Section::Metadata, "project"@, "project_name"@, Presence::Required, When::Always),
        (Section::Spec, "description"@, "description"@, Presence::Required, When::Always),
        (Section::Spec, "site_url"@, "site_url"@, Presence::Required, When::Always),
        (Section::Spec, "auth_type"@, "auth_type"@, Presence::Required, When::Always),
        (Section::Spec, "project_space_visible"@, "project_space_visible"@, Presence::IfPresent, When::Always),
        (Section::Spec, "include_pages"@, "include_pages"@, Presence::IfPresent, When::Always),
        (Section::Spec, "include_documents"@, "include_documents"@, Presence::IfPresent, When::Always),
        (Section::Spec, "include_lists"@, "include_lists"@, Presence::IfPresent, When::Always),
        (Section::Spec, "max_file_size_mb"@, "max_file_size_mb"@, Presence::IfPresent, When::Always),
        (Section::Spec, "files_filter"@, "files_filter"@, Presence::IfPresent, When::Always),
        (Section::Spec, "setting_id"@, "setting_id"@, Presence::IfPresent, When::Always),
        (Section::Spec, "embedding_model"@, "embedding_model"@, Presence::IfPresent, When::Always),
        (Section::Spec, "cron_expression"@, "cron_expression"@, Presence::IfPresent, When::Always),
        (Section::Spec, "timezone"@, "timezone"@, Presence::IfPresent, When::Always),
        (Section::Spec, "oauth_client_id"@, "oauth_client_id"@, Presence::IfPresent, When::Always),
        (Section::Spec, "oauth_tenant_id"@, "oauth_tenant_id"@, Presence::IfPresent, When::Always),
        (Section::Spec, "guardrail_assignments"@, "guardrail_assignments"@, Presence::IfPresent, When::Always),
    ]
}

/// The field rules of the sharepoint kind.
pub fn sharepoint_rules() -> (v: Vec<FieldRule>)
    ensures
        rules_view(v@) == sharepoint_rule_table(),
{
    let mut v: Vec<FieldRule> = Vec::new();
    v.push(rule(Section::Metadata, "repo_name", "name", Presence::Required, When::CreateOnly));
    v.push(rule(Section::Metadata, "project", "project_name", Presence::Required, When::Always));
    v.push(rule(Section::Spec, "description", "description", Presence::Required, When::Always));
    v.push(rule(Section::Spec, "site_url", "site_url", Presence::Required, When::Always));
    v.push(rule(Section::Spec, "auth_type", "auth_type", Presence::Required, When::Always));
    v.push(rule(Section::Spec, "project_space_visible", "project_space_visible", Presence::IfPresent, When::Always));
    v.push(rule(Section::Spec, "include_pages", "include_pages", Presence::IfPresent, When::Always));
    v.push(rule(Section::Spec, "include_documents", "include_documents", Presence::IfPresent, When::Always));
    v.push(rule(Section::Spec, "include_lists", "include_lists", Presence::IfPresent, When::Always));
    v.push(rule(Section::Spec, "max_file_size_mb", "max_file_size_mb", Presence::IfPresent, When::Always));
    v.push(rule(Section::Spec, "files_filter", "files_filter", Presence::IfPresent, When::Always));
    v.push(rule(Section::Spec, "setting_id", "setting_id", Presence::IfPresent, When::Always));
    v.push(rule(Section::Spec, "embedding_model", "embedding_model", Presence::IfPresent, When::Always));
    v.push(rule(Section::Spec, "cron_expression", "cron_expression", Presence::IfPresent, When::Always));
    v.push(rule(Section::Spec, "timezone", "timezone", Presence::IfPresent, When::Always));
    v.push(rule(Section::Spec, "oauth_client_id", "oauth_client_id", Presence::IfPresent, When::Always));
    v.push(rule(Section::Spec, "oauth_tenant_id", "oauth_tenant_id", Presence::IfPresent, When::Always));
    v.push(rule(Section::Spec, "guardrail_assignments", "guardrail_assignments", Presence::IfPresent, When::Always));
    proof {
        assert(rules_view(v@) =~= sharepoint_rule_table());
    }
    v
}

/// The query parameters of a File Datasource.
pub open spec fn file_query_table() -> Seq<QueryRuleView> {
    seq![
        (Section::Metadata, "project"@, "project_name"@, QueryKind::Scalar, When::Always),
        (Section::Metadata, "repo_name"@, "name"@, QueryKind::Scalar, When::CreateOnly),
        (Section::Spec, "description"@, "description"@, QueryKind::Scalar, When::Always),
        (Section::Spec, "project_space_visible"@, "project_space_visible"@, QueryKind::OptionalScalar, When::Always),
        (Section::Spec, "csv_separator"@, "csv_separator"@, QueryKind::OptionalScalar, When::Always),
        (Section::Spec, "csv_start_row"@, "csv_start_row"@, QueryKind::OptionalScalar, When::Always),
        (Section::Spec, "csv_rows_per_document"@, "csv_rows_per_document"@, QueryKind::OptionalScalar, When::Always),
        (Section::Spec, "embedding_model"@, "embedding_model"@, QueryKind::OptionalScalar, When::Always),
        (Section::Spec, "guardrail_assignments"@, "guardrail_assignments"@, QueryKind::OptionalJson, When::Always),
        (Section::Spec, "include_email_attachments"@, "include_email_attachments"@, QueryKind::Scalar, When::Always),
        (Section::Spec, "uploaded_files"@, "uploaded_files"@, QueryKind::OptionalJson, When::UpdateOnly),
    ]
}

/// The query parameters of a File Datasource.
pub fn file_query_rules() -> (v: Vec<QueryRule>)
    ensures
        query_rules_view(v@) == file_query_table(),
{
    let mut v: Vec<QueryRule> = Vec::new();
    v.push(query_rule(Section::Metadata, "project", "project_name", QueryKind::Scalar, When::Always));
    v.push(query_rule(Section::Metadata, "repo_name", "name", QueryKind::Scalar, When::CreateOnly));
    v.push(query_rule(Section::Spec, "description", "description", QueryKind::Scalar, When::Always));
    v.push(query_rule(Section::Spec, "project_space_visible", "project_space_visible", QueryKind::OptionalScalar, When::Always));
    v.push(query_rule(Section::Spec, "csv_separator", "csv_separator", QueryKind::OptionalScalar, When::Always));
    v.push(query_rule(Section::Spec, "csv_start_row", "csv_start_row", QueryKind::OptionalScalar, When::Always));
    v.push(query_rule(Section::Spec, "csv_rows_per_document", "csv_rows_per_document", QueryKind::OptionalScalar, When::Always));
    v.push(query_rule(Section::Spec, "embedding_model", "embedding_model", QueryKind::OptionalScalar, When::Always));
    v.push(query_rule(Section::Spec, "guardrail_assignments", "guardrail_assignments", QueryKind::OptionalJson, When::Always));
    v.push(query_rule(Section::Spec, "include_email_attachments", "include_email_attachments", QueryKind::Scalar, When::Always));
    v.push(query_rule(Section::Spec, "uploaded_files", "uploaded_files", QueryKind::OptionalJson, When::UpdateOnly));
    proof {
        assert(query_rules_view(v@) =~= file_query_table());
    }
    v
}

} // verus!
