//! Tool inputs of the HCP Terraform / Terraform Enterprise tools.
use vstd::prelude::*;

verus! {

/// Pagination parameters for HCP Terraform / Terraform Enterprise list tools
#[derive(Debug)]
pub struct TfePageInput {
    /// Page number (default: 1)
    pub page_number: Option<u16>,
    /// Page size, clamped to 1..=100 (default: 20)
    pub page_size: Option<u16>,
}

/// Organization-scoped HCP Terraform / TFE request
#[derive(Debug)]
pub struct TfeOrganizationInput {
    /// Organization name
    pub organization: String,
    /// Page number (default: 1)
    pub page_number: Option<u16>,
    /// Page size, clamped to 1..=100 (default: 20)
    pub page_size: Option<u16>,
}

/// Workspace details request by ID or organization/name
#[derive(Debug)]
pub struct TfeWorkspaceInput {
    /// Workspace ID (e.g., ws-...)
    pub workspace_id: Option<String>,
    /// Organization name, required when workspace_id is not provided
    pub organization: Option<String>,
    /// Workspace name, required when workspace_id is not provided
    pub workspace_name: Option<String>,
}

/// Private registry module search request
#[derive(Debug)]
pub struct TfePrivateModuleSearchInput {
    /// Organization name
    pub organization: String,
    /// Search query for module name, namespace, or provider
    pub query: Option<String>,
    /// Registry name, usually "private" (default) or "public"
    pub registry_name: Option<String>,
    /// Provider filter (e.g., "aws")
    pub provider: Option<String>,
    /// Page number (default: 1)
    pub page_number: Option<u16>,
    /// Page size, clamped to 1..=100 (default: 20)
    pub page_size: Option<u16>,
}

/// Private registry module details request
#[derive(Debug)]
pub struct TfePrivateModuleDetailsInput {
    /// Organization name
    pub organization: String,
    /// Registry name, usually "private" (default) or "public"
    pub registry_name: Option<String>,
    /// Module namespace. For private modules this usually matches the organization.
    pub namespace: Option<String>,
    /// Module name
    pub name: String,
    /// Module provider (e.g., "aws")
    pub provider: String,
}

/// Private registry provider search request
#[derive(Debug)]
pub struct TfePrivateProviderSearchInput {
    /// Organization name
    pub organization: String,
    /// Search query for provider name or namespace
    pub query: Option<String>,
    /// Registry name, usually "private" (default) or "public"
    pub registry_name: Option<String>,
    /// Page number (default: 1)
    pub page_number: Option<u16>,
    /// Page size, clamped to 1..=100 (default: 20)
    pub page_size: Option<u16>,
}

/// Private registry provider details request
#[derive(Debug)]
pub struct TfePrivateProviderDetailsInput {
    /// Organization name
    pub organization: String,
    /// Registry name, usually "private" (default) or "public"
    pub registry_name: Option<String>,
    /// Provider namespace. For private providers this usually matches the organization.
    pub namespace: Option<String>,
    /// Provider name
    pub name: String,
}

/// Run details request
#[derive(Debug)]
pub struct TfeRunInput {
    /// Run ID (e.g., run-...)
    pub run_id: String,
}

/// Create run request
#[derive(Debug)]
pub struct TfeCreateRunInput {
    /// Workspace ID (e.g., ws-...)
    pub workspace_id: String,
    /// Optional run message
    pub message: Option<String>,
    /// Optional run operation, for example "plan_only", "plan_and_apply", "refresh_only", or "destroy"
    pub operation: Option<String>,
    /// Whether this run should destroy resources
    pub is_destroy: Option<bool>,
    /// Whether to refresh state during this run
    pub refresh: Option<bool>,
    /// Whether this should be a speculative plan-only run
    pub plan_only: Option<bool>,
    /// Optional auto-apply setting for the run
    pub auto_apply: Option<bool>,
}

/// Run action request
#[derive(Debug)]
pub struct TfeActionRunInput {
    /// Run ID (e.g., run-...)
    pub run_id: String,
    /// Action: apply, discard, cancel, force-cancel, or force-execute
    pub action: String,
}

/// Plan request
#[derive(Debug)]
pub struct TfePlanInput {
    /// Plan ID (e.g., plan-...)
    pub plan_id: String,
}

/// Apply request
#[derive(Debug)]
pub struct TfeApplyInput {
    /// Apply ID (e.g., apply-...)
    pub apply_id: String,
}

/// Organization-scoped stack list request
#[derive(Debug)]
pub struct TfeStacksInput {
    /// Organization name
    pub organization: String,
    /// Page number (default: 1)
    pub page_number: Option<u16>,
    /// Page size, clamped to 1..=100 (default: 20)
    pub page_size: Option<u16>,
}

/// Stack details request
#[derive(Debug)]
pub struct TfeStackInput {
    /// Stack ID (e.g., st-...)
    pub stack_id: String,
}

/// Organization-scoped variable set list request
#[derive(Debug)]
pub struct TfeVariableSetsInput {
    /// Organization name
    pub organization: String,
    /// Page number (default: 1)
    pub page_number: Option<u16>,
    /// Page size, clamped to 1..=100 (default: 20)
    pub page_size: Option<u16>,
}

/// Create variable set request
#[derive(Debug)]
pub struct TfeCreateVariableSetInput {
    /// Organization name
    pub organization: String,
    /// Variable set name
    pub name: String,
    /// Optional variable set description
    pub description: Option<String>,
    /// Whether the variable set applies globally
    pub global: Option<bool>,
}

/// Create variable inside variable set request
#[derive(Debug)]
pub struct TfeCreateVariableInVariableSetInput {
    /// Variable set ID (e.g., varset-...)
    pub variable_set_id: String,
    /// Variable key
    pub key: String,
    /// Variable value
    pub value: String,
    /// Variable category: terraform or env
    pub category: Option<String>,
    /// Optional description
    pub description: Option<String>,
    /// Whether the value is HCL
    pub hcl: Option<bool>,
    /// Whether the value is sensitive
    pub sensitive: Option<bool>,
}

/// Delete variable from variable set request
#[derive(Debug)]
pub struct TfeDeleteVariableInVariableSetInput {
    /// Variable set ID (e.g., varset-...)
    pub variable_set_id: String,
    /// Variable ID (e.g., var-...)
    pub variable_id: String,
}

/// Attach or detach variable set to/from workspaces request
#[derive(Debug)]
pub struct TfeVariableSetWorkspacesInput {
    /// Variable set ID (e.g., varset-...)
    pub variable_set_id: String,
    /// Workspace IDs (e.g., ws-...)
    pub workspace_ids: Vec<String>,
}

/// Create workspace request
#[derive(Debug)]
pub struct TfeCreateWorkspaceInput {
    /// Organization name
    pub organization: String,
    /// Workspace name
    pub name: String,
    /// Optional workspace description
    pub description: Option<String>,
    /// Optional Terraform version constraint
    pub terraform_version: Option<String>,
    /// Optional execution mode, for example "remote", "local", or "agent"
    pub execution_mode: Option<String>,
    /// Optional auto-apply setting
    pub auto_apply: Option<bool>,
    /// Optional HCP Terraform project ID
    pub project_id: Option<String>,
}

/// Update workspace request by ID or organization/name
#[derive(Debug)]
pub struct TfeUpdateWorkspaceInput {
    /// Workspace ID (e.g., ws-...)
    pub workspace_id: Option<String>,
    /// Organization name, required when workspace_id is not provided
    pub organization: Option<String>,
    /// Workspace name, required when workspace_id is not provided
    pub workspace_name: Option<String>,
    /// Optional new workspace name
    pub new_name: Option<String>,
    /// Optional workspace description
    pub description: Option<String>,
    /// Optional Terraform version constraint
    pub terraform_version: Option<String>,
    /// Optional execution mode, for example "remote", "local", or "agent"
    pub execution_mode: Option<String>,
    /// Optional auto-apply setting
    pub auto_apply: Option<bool>,
}

/// Workspace reference by ID or organization/name
#[derive(Debug)]
pub struct TfeWorkspaceRefInput {
    /// Workspace ID (e.g., ws-...)
    pub workspace_id: Option<String>,
    /// Organization name, required when workspace_id is not provided
    pub organization: Option<String>,
    /// Workspace name, required when workspace_id is not provided
    pub workspace_name: Option<String>,
}

/// Workspace-scoped list request
#[derive(Debug)]
pub struct TfeWorkspaceRunsInput {
    /// Workspace ID (e.g., ws-...)
    pub workspace_id: String,
    /// Page number (default: 1)
    pub page_number: Option<u16>,
    /// Page size, clamped to 1..=100 (default: 20)
    pub page_size: Option<u16>,
}

/// Workspace variables request
#[derive(Debug)]
pub struct TfeWorkspaceVariablesInput {
    /// Workspace ID (e.g., ws-...)
    pub workspace_id: String,
}

/// Create workspace variable request
#[derive(Debug)]
pub struct TfeCreateWorkspaceVariableInput {
    /// Workspace ID (e.g., ws-...)
    pub workspace_id: String,
    /// Variable key
    pub key: String,
    /// Variable value
    pub value: String,
    /// Variable category: terraform or env
    pub category: Option<String>,
    /// Optional description
    pub description: Option<String>,
    /// Whether the value is HCL
    pub hcl: Option<bool>,
    /// Whether the value is sensitive
    pub sensitive: Option<bool>,
}

/// Update workspace variable request
#[derive(Debug)]
pub struct TfeUpdateWorkspaceVariableInput {
    /// Workspace ID (e.g., ws-...)
    pub workspace_id: String,
    /// Variable ID (e.g., var-...)
    pub variable_id: String,
    /// Optional variable key
    pub key: Option<String>,
    /// Optional variable value
    pub value: Option<String>,
    /// Optional variable category: terraform or env
    pub category: Option<String>,
    /// Optional description
    pub description: Option<String>,
    /// Whether the value is HCL
    pub hcl: Option<bool>,
    /// Whether the value is sensitive
    pub sensitive: Option<bool>,
}

/// Workspace policy set request
#[derive(Debug)]
pub struct TfeWorkspacePolicySetsInput {
    /// Workspace ID (e.g., ws-...)
    pub workspace_id: String,
}

/// Attach policy set to workspace request
#[derive(Debug)]
pub struct TfeAttachPolicySetInput {
    /// Policy set ID (e.g., polset-...)
    pub policy_set_id: String,
    /// Workspace ID (e.g., ws-...)
    pub workspace_id: String,
}

/// Workspace tag read request
#[derive(Debug)]
pub struct TfeWorkspaceTagsInput {
    /// Workspace ID (e.g., ws-...)
    pub workspace_id: String,
}

/// Create workspace tags request
#[derive(Debug)]
pub struct TfeCreateWorkspaceTagsInput {
    /// Workspace ID (e.g., ws-...)
    pub workspace_id: String,
    /// Tag names to create or attach
    pub tags: Vec<String>,
}

} // verus!
