//! The tool calls the server dispatches, what each is named and how its failures
//! are reported, and which remote calls the organization allowlist lets through.
use crate::deployment::DeploymentControls;
use crate::json::{JsonMember, JsonValue};
use crate::text::{contains_text, join_all, joined, text_contains};
use crate::tool_filter::{enables, ToolFilter};
use crate::types::registry::{
    ModuleInput, PolicyDetailsInput, PolicySearchInput, ProviderDocsInput, ProviderInput,
};
use crate::types::terraform::{FmtInput, ImportInput, TaintInput};
use crate::types::tfe::{
    TfeActionRunInput, TfeApplyInput, TfeAttachPolicySetInput, TfeCreateRunInput, TfeCreateVariableInVariableSetInput, TfeCreateVariableSetInput, TfeCreateWorkspaceInput, TfeCreateWorkspaceTagsInput, TfeCreateWorkspaceVariableInput, TfeDeleteVariableInVariableSetInput, TfeOrganizationInput, TfePageInput, TfePlanInput, TfePrivateModuleDetailsInput, TfePrivateModuleSearchInput, TfePrivateProviderDetailsInput, TfePrivateProviderSearchInput, TfeRunInput, TfeStackInput, TfeStacksInput, TfeUpdateWorkspaceInput, TfeUpdateWorkspaceVariableInput, TfeVariableSetWorkspacesInput, TfeVariableSetsInput, TfeWorkspaceInput, TfeWorkspacePolicySetsInput, TfeWorkspaceRefInput, TfeWorkspaceRunsInput, TfeWorkspaceTagsInput, TfeWorkspaceVariablesInput,
};
use vstd::prelude::*;

verus! {

/// A call of a local Terraform tool.
#[derive(Debug)]
pub enum TfmcpToolCall {
    ListResources,
    Plan,
    Apply(bool),
    Destroy(bool),
    Init,
    Validate,
    ValidateDetailed,
    State,
    InspectProject,
    DetectEntrypoints,
    DependencyGraph,
    SuggestRefactoring,
    AnalyzePlan(bool),
    ReviewPlan,
    SummarizePlanForPr,
    AnalyzeState { resource_type: Option<String>, detect_drift: bool },
    Workspace { action: String, name: Option<String> },
    Import(ImportInput),
    Fmt(FmtInput),
    Graph(Option<String>),
    Output(Option<String>),
    Taint(TaintInput),
    Refresh(Option<String>),
    Providers(bool),
    CheckProviderLockfile,
    QualityChecks,
    InspectStateSafety,
    DetectDriftCandidates,
    PrepareTerraformChange,
}

/// The tool name of a local Terraform call.
pub open spec fn tfmcp_tool_name(call: TfmcpToolCall) -> Seq<char> {
    match call {
        TfmcpToolCall::ListResources => "list_terraform_resources"@,
        TfmcpToolCall::Plan => "get_terraform_plan"@,
        TfmcpToolCall::Apply(..) => "apply_terraform"@,
        TfmcpToolCall::Destroy(..) => "destroy_terraform"@,
        TfmcpToolCall::Init => "init_terraform"@,
        TfmcpToolCall::Validate => "validate_terraform"@,
        TfmcpToolCall::ValidateDetailed => "validate_terraform_detailed"@,
        TfmcpToolCall::State => "get_terraform_state"@,
        TfmcpToolCall::InspectProject => "inspect_terraform_project"@,
        TfmcpToolCall::DetectEntrypoints => "detect_terraform_entrypoints"@,
        TfmcpToolCall::DependencyGraph => "get_resource_dependency_graph"@,
        TfmcpToolCall::SuggestRefactoring => "suggest_module_refactoring"@,
        TfmcpToolCall::AnalyzePlan(..) => "analyze_plan"@,
        TfmcpToolCall::ReviewPlan => "review_terraform_plan"@,
        TfmcpToolCall::SummarizePlanForPr => "summarize_plan_for_pr"@,
        TfmcpToolCall::AnalyzeState { .. } => "analyze_state"@,
        TfmcpToolCall::Workspace { .. } => "terraform_workspace"@,
        TfmcpToolCall::Import(..) => "terraform_import"@,
        TfmcpToolCall::Fmt(..) => "terraform_fmt"@,
        TfmcpToolCall::Graph(..) => "terraform_graph"@,
        TfmcpToolCall::Output(..) => "terraform_output"@,
        TfmcpToolCall::Taint(..) => "terraform_taint"@,
        TfmcpToolCall::Refresh(..) => "terraform_refresh"@,
        TfmcpToolCall::Providers(..) => "terraform_providers"@,
        TfmcpToolCall::CheckProviderLockfile => "check_provider_lockfile"@,
        TfmcpToolCall::QualityChecks => "run_terraform_quality_checks"@,
        TfmcpToolCall::InspectStateSafety => "inspect_state_safety"@,
        TfmcpToolCall::DetectDriftCandidates => "detect_drift_candidates"@,
        TfmcpToolCall::PrepareTerraformChange => "prepare_terraform_change"@,
    }
}

/// How a failed local Terraform call is reported.
pub open spec fn tfmcp_error_prefix(call: TfmcpToolCall) -> Seq<char> {
    match call {
        TfmcpToolCall::ListResources => "Failed to list resources"@,
        TfmcpToolCall::Plan => "Failed to get plan"@,
        TfmcpToolCall::Apply(..) => "Failed to apply"@,
        TfmcpToolCall::Destroy(..) => "Failed to destroy"@,
        TfmcpToolCall::Init => "Failed to init"@,
        TfmcpToolCall::Validate => "Validation failed"@,
        TfmcpToolCall::ValidateDetailed => "Detailed validation failed"@,
        TfmcpToolCall::State => "Failed to get state"@,
        TfmcpToolCall::InspectProject => "Failed to inspect Terraform project"@,
        TfmcpToolCall::DetectEntrypoints => "Failed to detect Terraform entrypoints"@,
        TfmcpToolCall::DependencyGraph => "Failed to get dependency graph"@,
        TfmcpToolCall::SuggestRefactoring => "Failed to get refactoring suggestions"@,
        TfmcpToolCall::AnalyzePlan(..) => "Plan analysis failed"@,
        TfmcpToolCall::ReviewPlan => "Plan review failed"@,
        TfmcpToolCall::SummarizePlanForPr => "Plan PR summary failed"@,
        TfmcpToolCall::AnalyzeState { .. } => "State analysis failed"@,
        TfmcpToolCall::Workspace { .. } => "Workspace operation failed"@,
        TfmcpToolCall::Import(..) => "Import failed"@,
        TfmcpToolCall::Fmt(..) => "Format failed"@,
        TfmcpToolCall::Graph(..) => "Graph generation failed"@,
        TfmcpToolCall::Output(..) => "Output retrieval failed"@,
        TfmcpToolCall::Taint(..) => "Taint operation failed"@,
        TfmcpToolCall::Refresh(..) => "Refresh failed"@,
        TfmcpToolCall::Providers(..) => "Provider info failed"@,
        TfmcpToolCall::CheckProviderLockfile => "Provider lockfile check failed"@,
        TfmcpToolCall::QualityChecks => "Terraform quality checks failed"@,
        TfmcpToolCall::InspectStateSafety => "State safety inspection failed"@,
        TfmcpToolCall::DetectDriftCandidates => "Drift candidate detection failed"@,
        TfmcpToolCall::PrepareTerraformChange => "Terraform change preparation failed"@,
    }
}

impl TfmcpToolCall {
    /// The name of the tool.
    pub fn tool_name(&self) -> (r: &'static str)
        ensures
            r@ == tfmcp_tool_name(*self),
    {
        match self {
            TfmcpToolCall::ListResources => "list_terraform_resources",
            TfmcpToolCall::Plan => "get_terraform_plan",
            TfmcpToolCall::Apply(..) => "apply_terraform",
            TfmcpToolCall::Destroy(..) => "destroy_terraform",
            TfmcpToolCall::Init => "init_terraform",
            TfmcpToolCall::Validate => "validate_terraform",
            TfmcpToolCall::ValidateDetailed => "validate_terraform_detailed",
            TfmcpToolCall::State => "get_terraform_state",
            TfmcpToolCall::InspectProject => "inspect_terraform_project",
            TfmcpToolCall::DetectEntrypoints => "detect_terraform_entrypoints",
            TfmcpToolCall::DependencyGraph => "get_resource_dependency_graph",
            TfmcpToolCall::SuggestRefactoring => "suggest_module_refactoring",
            TfmcpToolCall::AnalyzePlan(..) => "analyze_plan",
            TfmcpToolCall::ReviewPlan => "review_terraform_plan",
            TfmcpToolCall::SummarizePlanForPr => "summarize_plan_for_pr",
            TfmcpToolCall::AnalyzeState { .. } => "analyze_state",
            TfmcpToolCall::Workspace { .. } => "terraform_workspace",
            TfmcpToolCall::Import(..) => "terraform_import",
            TfmcpToolCall::Fmt(..) => "terraform_fmt",
            TfmcpToolCall::Graph(..) => "terraform_graph",
            TfmcpToolCall::Output(..) => "terraform_output",
            TfmcpToolCall::Taint(..) => "terraform_taint",
            TfmcpToolCall::Refresh(..) => "terraform_refresh",
            TfmcpToolCall::Providers(..) => "terraform_providers",
            TfmcpToolCall::CheckProviderLockfile => "check_provider_lockfile",
            TfmcpToolCall::QualityChecks => "run_terraform_quality_checks",
            TfmcpToolCall::InspectStateSafety => "inspect_state_safety",
            TfmcpToolCall::DetectDriftCandidates => "detect_drift_candidates",
            TfmcpToolCall::PrepareTerraformChange => "prepare_terraform_change",
        }
    }

    /// What a failure report starts with.
    pub fn error_prefix(&self) -> (r: &'static str)
        ensures
            r@ == tfmcp_error_prefix(*self),
    {
        match self {
            TfmcpToolCall::ListResources => "Failed to list resources",
            TfmcpToolCall::Plan => "Failed to get plan",
            TfmcpToolCall::Apply(..) => "Failed to apply",
            TfmcpToolCall::Destroy(..) => "Failed to destroy",
            TfmcpToolCall::Init => "Failed to init",
            TfmcpToolCall::Validate => "Validation failed",
            TfmcpToolCall::ValidateDetailed => "Detailed validation failed",
            TfmcpToolCall::State => "Failed to get state",
            TfmcpToolCall::InspectProject => "Failed to inspect Terraform project",
            TfmcpToolCall::DetectEntrypoints => "Failed to detect Terraform entrypoints",
            TfmcpToolCall::DependencyGraph => "Failed to get dependency graph",
            TfmcpToolCall::SuggestRefactoring => "Failed to get refactoring suggestions",
            TfmcpToolCall::AnalyzePlan(..) => "Plan analysis failed",
            TfmcpToolCall::ReviewPlan => "Plan review failed",
            TfmcpToolCall::SummarizePlanForPr => "Plan PR summary failed",
            TfmcpToolCall::AnalyzeState { .. } => "State analysis failed",
            TfmcpToolCall::Workspace { .. } => "Workspace operation failed",
            TfmcpToolCall::Import(..) => "Import failed",
            TfmcpToolCall::Fmt(..) => "Format failed",
            TfmcpToolCall::Graph(..) => "Graph generation failed",
            TfmcpToolCall::Output(..) => "Output retrieval failed",
            TfmcpToolCall::Taint(..) => "Taint operation failed",
            TfmcpToolCall::Refresh(..) => "Refresh failed",
            TfmcpToolCall::Providers(..) => "Provider info failed",
            TfmcpToolCall::CheckProviderLockfile => "Provider lockfile check failed",
            TfmcpToolCall::QualityChecks => "Terraform quality checks failed",
            TfmcpToolCall::InspectStateSafety => "State safety inspection failed",
            TfmcpToolCall::DetectDriftCandidates => "Drift candidate detection failed",
            TfmcpToolCall::PrepareTerraformChange => "Terraform change preparation failed",
        }
    }
}

/// A call of a public registry tool.
#[derive(Debug)]
pub enum RegistryToolCall {
    SearchProviders(String),
    ProviderInfo(ProviderInput),
    ProviderDocs(ProviderDocsInput),
    SearchModules(String),
    ModuleDetails(ModuleInput),
    SearchPolicies(PolicySearchInput),
    PolicyDetails(PolicyDetailsInput),
}

/// The tool name of a registry call.
pub open spec fn registry_tool_name(call: RegistryToolCall) -> Seq<char> {
    match call {
        RegistryToolCall::SearchProviders(..) => "search_terraform_providers"@,
        RegistryToolCall::ProviderInfo(..) => "get_provider_info"@,
        RegistryToolCall::ProviderDocs(..) => "get_provider_docs"@,
        RegistryToolCall::SearchModules(..) => "search_terraform_modules"@,
        RegistryToolCall::ModuleDetails(..) => "get_module_details"@,
        RegistryToolCall::SearchPolicies(..) => "search_policies"@,
        RegistryToolCall::PolicyDetails(..) => "get_policy_details"@,
    }
}

/// How a failed registry call is reported.
pub open spec fn registry_error_prefix(call: RegistryToolCall) -> Seq<char> {
    match call {
        RegistryToolCall::SearchProviders(..) => "Provider search failed"@,
        RegistryToolCall::ProviderInfo(..) => "Failed to get provider info"@,
        RegistryToolCall::ProviderDocs(..) => "Failed to get provider docs"@,
        RegistryToolCall::SearchModules(..) => "Module search failed"@,
        RegistryToolCall::ModuleDetails(..) => "Failed to get module details"@,
        RegistryToolCall::SearchPolicies(..) => "Policy search failed"@,
        RegistryToolCall::PolicyDetails(..) => "Policy details failed"@,
    }
}

impl RegistryToolCall {
    /// The name of the tool.
    pub fn tool_name(&self) -> (r: &'static str)
        ensures
            r@ == registry_tool_name(*self),
    {
        match self {
            RegistryToolCall::SearchProviders(..) => "search_terraform_providers",
            RegistryToolCall::ProviderInfo(..) => "get_provider_info",
            RegistryToolCall::ProviderDocs(..) => "get_provider_docs",
            RegistryToolCall::SearchModules(..) => "search_terraform_modules",
            RegistryToolCall::ModuleDetails(..) => "get_module_details",
            RegistryToolCall::SearchPolicies(..) => "search_policies",
            RegistryToolCall::PolicyDetails(..) => "get_policy_details",
        }
    }

    /// What a failure report starts with.
    pub fn error_prefix(&self) -> (r: &'static str)
        ensures
            r@ == registry_error_prefix(*self),
    {
        match self {
            RegistryToolCall::SearchProviders(..) => "Provider search failed",
            RegistryToolCall::ProviderInfo(..) => "Failed to get provider info",
            RegistryToolCall::ProviderDocs(..) => "Failed to get provider docs",
            RegistryToolCall::SearchModules(..) => "Module search failed",
            RegistryToolCall::ModuleDetails(..) => "Failed to get module details",
            RegistryToolCall::SearchPolicies(..) => "Policy search failed",
            RegistryToolCall::PolicyDetails(..) => "Policy details failed",
        }
    }
}

/// A call of a remote HCP Terraform / Terraform Enterprise tool.
#[derive(Debug)]
pub enum TfeToolCall {
    TokenPermissions,
    ListOrganizations(TfePageInput),
    ListProjects(TfeOrganizationInput),
    ListWorkspaces(TfeOrganizationInput),
    WorkspaceDetails(TfeWorkspaceInput),
    ListRuns(TfeWorkspaceRunsInput),
    RunDetails(TfeRunInput),
    PlanDetails(TfePlanInput),
    PlanLogs(TfePlanInput),
    PlanJsonOutput(TfePlanInput),
    ApplyDetails(TfeApplyInput),
    ApplyLogs(TfeApplyInput),
    SearchPrivateModules(TfePrivateModuleSearchInput),
    PrivateModuleDetails(TfePrivateModuleDetailsInput),
    SearchPrivateProviders(TfePrivateProviderSearchInput),
    PrivateProviderDetails(TfePrivateProviderDetailsInput),
    CreateWorkspace(TfeCreateWorkspaceInput),
    UpdateWorkspace(TfeUpdateWorkspaceInput),
    DeleteWorkspaceSafely(TfeWorkspaceRefInput),
    CreateRun(TfeCreateRunInput),
    ActionRun(TfeActionRunInput),
    ListWorkspaceVariables(TfeWorkspaceVariablesInput),
    CreateWorkspaceVariable(TfeCreateWorkspaceVariableInput),
    UpdateWorkspaceVariable(TfeUpdateWorkspaceVariableInput),
    WorkspacePolicySets(TfeWorkspacePolicySetsInput),
    AttachPolicySetToWorkspace(TfeAttachPolicySetInput),
    ListVariableSets(TfeVariableSetsInput),
    CreateVariableSet(TfeCreateVariableSetInput),
    CreateVariableInVariableSet(TfeCreateVariableInVariableSetInput),
    DeleteVariableInVariableSet(TfeDeleteVariableInVariableSetInput),
    AttachVariableSetToWorkspaces(TfeVariableSetWorkspacesInput),
    DetachVariableSetFromWorkspaces(TfeVariableSetWorkspacesInput),
    ReadWorkspaceTags(TfeWorkspaceTagsInput),
    CreateWorkspaceTags(TfeCreateWorkspaceTagsInput),
    ListStacks(TfeStacksInput),
    StackDetails(TfeStackInput),
}

/// The tool name and failure prefix of a remote call.
pub open spec fn tfe_metadata(call: TfeToolCall) -> (Seq<char>, Seq<char>) {
    match call {
        TfeToolCall::TokenPermissions => ("get_token_permissions"@, "Token permission lookup failed"@),
        TfeToolCall::ListOrganizations(..) => ("list_terraform_orgs"@, "Organization listing failed"@),
        TfeToolCall::ListProjects(..) => ("list_terraform_projects"@, "Project listing failed"@),
        TfeToolCall::ListWorkspaces(..) => ("list_workspaces"@, "Workspace listing failed"@),
        TfeToolCall::WorkspaceDetails(..) => ("get_workspace_details"@, "Workspace lookup failed"@),
        TfeToolCall::ListRuns(..) => ("list_runs"@, "Run listing failed"@),
        TfeToolCall::RunDetails(..) => ("get_run_details"@, "Run lookup failed"@),
        TfeToolCall::PlanDetails(..) => ("get_plan_details"@, "Plan lookup failed"@),
        TfeToolCall::PlanLogs(..) => ("get_plan_logs"@, "Plan log lookup failed"@),
        TfeToolCall::PlanJsonOutput(..) => ("get_plan_json_output"@, "Plan JSON output lookup failed"@),
        TfeToolCall::ApplyDetails(..) => ("get_apply_details"@, "Apply lookup failed"@),
        TfeToolCall::ApplyLogs(..) => ("get_apply_logs"@, "Apply log lookup failed"@),
        TfeToolCall::SearchPrivateModules(..) => ("search_private_modules"@, "Private module search failed"@),
        TfeToolCall::PrivateModuleDetails(..) => ("get_private_module_details"@, "Private module lookup failed"@),
        TfeToolCall::SearchPrivateProviders(..) => ("search_private_providers"@, "Private provider search failed"@),
        TfeToolCall::PrivateProviderDetails(..) => ("get_private_provider_details"@, "Private provider lookup failed"@),
        TfeToolCall::CreateWorkspace(..) => ("create_workspace"@, "Workspace creation failed"@),
        TfeToolCall::UpdateWorkspace(..) => ("update_workspace"@, "Workspace update failed"@),
        TfeToolCall::DeleteWorkspaceSafely(..) => ("delete_workspace_safely"@, "Safe workspace deletion failed"@),
        TfeToolCall::CreateRun(..) => ("create_run"@, "Run creation failed"@),
        TfeToolCall::ActionRun(..) => ("action_run"@, "Run action failed"@),
        TfeToolCall::ListWorkspaceVariables(..) => ("list_workspace_variables"@, "Workspace variable listing failed"@),
        TfeToolCall::CreateWorkspaceVariable(..) => ("create_workspace_variable"@, "Workspace variable creation failed"@),
        TfeToolCall::UpdateWorkspaceVariable(..) => ("update_workspace_variable"@, "Workspace variable update failed"@),
        TfeToolCall::WorkspacePolicySets(..) => ("get_workspace_policy_sets"@, "Workspace policy set listing failed"@),
        TfeToolCall::AttachPolicySetToWorkspace(..) => ("attach_policy_set_to_workspace"@, "Policy set workspace attachment failed"@),
        TfeToolCall::ListVariableSets(..) => ("list_variable_sets"@, "Variable set listing failed"@),
        TfeToolCall::CreateVariableSet(..) => ("create_variable_set"@, "Variable set creation failed"@),
        TfeToolCall::CreateVariableInVariableSet(..) => ("create_variable_in_variable_set"@, "Variable set variable creation failed"@),
        TfeToolCall::DeleteVariableInVariableSet(..) => ("delete_variable_in_variable_set"@, "Variable set variable deletion failed"@),
        TfeToolCall::AttachVariableSetToWorkspaces(..) => ("attach_variable_set_to_workspaces"@, "Variable set workspace attachment failed"@),
        TfeToolCall::DetachVariableSetFromWorkspaces(..) => ("detach_variable_set_from_workspaces"@, "Variable set workspace detachment failed"@),
        TfeToolCall::ReadWorkspaceTags(..) => ("read_workspace_tags"@, "Workspace tag lookup failed"@),
        TfeToolCall::CreateWorkspaceTags(..) => ("create_workspace_tags"@, "Workspace tag creation failed"@),
        TfeToolCall::ListStacks(..) => ("list_stacks"@, "Stack listing failed"@),
        TfeToolCall::StackDetails(..) => ("get_stack_details"@, "Stack lookup failed"@),
    }
}

/// Whether a remote call changes something and is written to the audit log.
pub open spec fn tfe_requires_audit(call: TfeToolCall) -> bool {
    match call {
        TfeToolCall::CreateWorkspace(..) => true,
        TfeToolCall::UpdateWorkspace(..) => true,
        TfeToolCall::DeleteWorkspaceSafely(..) => true,
        TfeToolCall::CreateRun(..) => true,
        TfeToolCall::ActionRun(..) => true,
        TfeToolCall::CreateWorkspaceVariable(..) => true,
        TfeToolCall::UpdateWorkspaceVariable(..) => true,
        TfeToolCall::AttachPolicySetToWorkspace(..) => true,
        TfeToolCall::CreateVariableSet(..) => true,
        TfeToolCall::CreateVariableInVariableSet(..) => true,
        TfeToolCall::DeleteVariableInVariableSet(..) => true,
        TfeToolCall::AttachVariableSetToWorkspaces(..) => true,
        TfeToolCall::DetachVariableSetFromWorkspaces(..) => true,
        TfeToolCall::CreateWorkspaceTags(..) => true,
        _ => false,
    }
}

/// The organization a remote call is scoped to, when the call names one: calls by
/// workspace id are not scoped to an organization.
pub open spec fn tfe_organization(call: TfeToolCall) -> Option<Seq<char>> {
    match call {
        TfeToolCall::ListProjects(input) => Some(input.organization@),
        TfeToolCall::ListWorkspaces(input) => Some(input.organization@),
        TfeToolCall::WorkspaceDetails(input) => if input.workspace_id is None {
            match input.organization {
                Some(o) => Some(o@),
                None => None,
            }
        } else {
            None
        },
        TfeToolCall::SearchPrivateModules(input) => Some(input.organization@),
        TfeToolCall::PrivateModuleDetails(input) => Some(input.organization@),
        TfeToolCall::SearchPrivateProviders(input) => Some(input.organization@),
        TfeToolCall::PrivateProviderDetails(input) => Some(input.organization@),
        TfeToolCall::CreateWorkspace(input) => Some(input.organization@),
        TfeToolCall::UpdateWorkspace(input) => if input.workspace_id is None {
            match input.organization {
                Some(o) => Some(o@),
                None => None,
            }
        } else {
            None
        },
        TfeToolCall::DeleteWorkspaceSafely(input) => if input.workspace_id is None {
            match input.organization {
                Some(o) => Some(o@),
                None => None,
            }
        } else {
            None
        },
        TfeToolCall::ListVariableSets(input) => Some(input.organization@),
        TfeToolCall::CreateVariableSet(input) => Some(input.organization@),
        TfeToolCall::ListStacks(input) => Some(input.organization@),
        _ => None,
    }
}

impl TfeToolCall {
    /// The tool name and what a failure report starts with.
    pub fn metadata(&self) -> (r: (&'static str, &'static str))
        ensures
            (r.0@, r.1@) == tfe_metadata(*self),
    {
        match self {
            TfeToolCall::TokenPermissions => ("get_token_permissions", "Token permission lookup failed"),
            TfeToolCall::ListOrganizations(..) => ("list_terraform_orgs", "Organization listing failed"),
            TfeToolCall::ListProjects(..) => ("list_terraform_projects", "Project listing failed"),
            TfeToolCall::ListWorkspaces(..) => ("list_workspaces", "Workspace listing failed"),
            TfeToolCall::WorkspaceDetails(..) => ("get_workspace_details", "Workspace lookup failed"),
            TfeToolCall::ListRuns(..) => ("list_runs", "Run listing failed"),
            TfeToolCall::RunDetails(..) => ("get_run_details", "Run lookup failed"),
            TfeToolCall::PlanDetails(..) => ("get_plan_details", "Plan lookup failed"),
            TfeToolCall::PlanLogs(..) => ("get_plan_logs", "Plan log lookup failed"),
            TfeToolCall::PlanJsonOutput(..) => ("get_plan_json_output", "Plan JSON output lookup failed"),
            TfeToolCall::ApplyDetails(..) => ("get_apply_details", "Apply lookup failed"),
            TfeToolCall::ApplyLogs(..) => ("get_apply_logs", "Apply log lookup failed"),
            TfeToolCall::SearchPrivateModules(..) => ("search_private_modules", "Private module search failed"),
            TfeToolCall::PrivateModuleDetails(..) => ("get_private_module_details", "Private module lookup failed"),
            TfeToolCall::SearchPrivateProviders(..) => ("search_private_providers", "Private provider search failed"),
            TfeToolCall::PrivateProviderDetails(..) => ("get_private_provider_details", "Private provider lookup failed"),
            TfeToolCall::CreateWorkspace(..) => ("create_workspace", "Workspace creation failed"),
            TfeToolCall::UpdateWorkspace(..) => ("update_workspace", "Workspace update failed"),
            TfeToolCall::DeleteWorkspaceSafely(..) => ("delete_workspace_safely", "Safe workspace deletion failed"),
            TfeToolCall::CreateRun(..) => ("create_run", "Run creation failed"),
            TfeToolCall::ActionRun(..) => ("action_run", "Run action failed"),
            TfeToolCall::ListWorkspaceVariables(..) => ("list_workspace_variables", "Workspace variable listing failed"),
            TfeToolCall::CreateWorkspaceVariable(..) => ("create_workspace_variable", "Workspace variable creation failed"),
            TfeToolCall::UpdateWorkspaceVariable(..) => ("update_workspace_variable", "Workspace variable update failed"),
            TfeToolCall::WorkspacePolicySets(..) => ("get_workspace_policy_sets", "Workspace policy set listing failed"),
            TfeToolCall::AttachPolicySetToWorkspace(..) => ("attach_policy_set_to_workspace", "Policy set workspace attachment failed"),
            TfeToolCall::ListVariableSets(..) => ("list_variable_sets", "Variable set listing failed"),
            TfeToolCall::CreateVariableSet(..) => ("create_variable_set", "Variable set creation failed"),
            TfeToolCall::CreateVariableInVariableSet(..) => ("create_variable_in_variable_set", "Variable set variable creation failed"),
            TfeToolCall::DeleteVariableInVariableSet(..) => ("delete_variable_in_variable_set", "Variable set variable deletion failed"),
            TfeToolCall::AttachVariableSetToWorkspaces(..) => ("attach_variable_set_to_workspaces", "Variable set workspace attachment failed"),
            TfeToolCall::DetachVariableSetFromWorkspaces(..) => ("detach_variable_set_from_workspaces", "Variable set workspace detachment failed"),
            TfeToolCall::ReadWorkspaceTags(..) => ("read_workspace_tags", "Workspace tag lookup failed"),
            TfeToolCall::CreateWorkspaceTags(..) => ("create_workspace_tags", "Workspace tag creation failed"),
            TfeToolCall::ListStacks(..) => ("list_stacks", "Stack listing failed"),
            TfeToolCall::StackDetails(..) => ("get_stack_details", "Stack lookup failed"),
        }
    }

    /// Whether the call changes something and is written to the audit log.
    pub fn requires_audit(&self) -> (r: bool)
        ensures
            r == tfe_requires_audit(*self),
    {
        match self {
            TfeToolCall::CreateWorkspace(..) => true,
            TfeToolCall::UpdateWorkspace(..) => true,
            TfeToolCall::DeleteWorkspaceSafely(..) => true,
            TfeToolCall::CreateRun(..) => true,
            TfeToolCall::ActionRun(..) => true,
            TfeToolCall::CreateWorkspaceVariable(..) => true,
            TfeToolCall::UpdateWorkspaceVariable(..) => true,
            TfeToolCall::AttachPolicySetToWorkspace(..) => true,
            TfeToolCall::CreateVariableSet(..) => true,
            TfeToolCall::CreateVariableInVariableSet(..) => true,
            TfeToolCall::DeleteVariableInVariableSet(..) => true,
            TfeToolCall::AttachVariableSetToWorkspaces(..) => true,
            TfeToolCall::DetachVariableSetFromWorkspaces(..) => true,
            TfeToolCall::CreateWorkspaceTags(..) => true,
            _ => false,
        }
    }

    /// The organization the call is scoped to, if any.
    pub fn organization(&self) -> (r: Option<&str>)
        ensures
            match r {
                Some(o) => tfe_organization(*self) == Some(o@),
                None => tfe_organization(*self) is None,
            },
    {
        match self {
            TfeToolCall::ListProjects(input) => Some(input.organization.as_str()),
            TfeToolCall::ListWorkspaces(input) => Some(input.organization.as_str()),
            TfeToolCall::WorkspaceDetails(input) => if input.workspace_id.is_none() {
                match &input.organization {
                    Some(o) => Some(o.as_str()),
                    None => None,
                }
            } else {
                None
            },
            TfeToolCall::SearchPrivateModules(input) => Some(input.organization.as_str()),
            TfeToolCall::PrivateModuleDetails(input) => Some(input.organization.as_str()),
            TfeToolCall::SearchPrivateProviders(input) => Some(input.organization.as_str()),
            TfeToolCall::PrivateProviderDetails(input) => Some(input.organization.as_str()),
            TfeToolCall::CreateWorkspace(input) => Some(input.organization.as_str()),
            TfeToolCall::UpdateWorkspace(input) => if input.workspace_id.is_none() {
                match &input.organization {
                    Some(o) => Some(o.as_str()),
                    None => None,
                }
            } else {
                None
            },
            TfeToolCall::DeleteWorkspaceSafely(input) => if input.workspace_id.is_none() {
                match &input.organization {
                    Some(o) => Some(o.as_str()),
                    None => None,
                }
            } else {
                None
            },
            TfeToolCall::ListVariableSets(input) => Some(input.organization.as_str()),
            TfeToolCall::CreateVariableSet(input) => Some(input.organization.as_str()),
            TfeToolCall::ListStacks(input) => Some(input.organization.as_str()),
            _ => None,
        }
    }
}

/// The refusal of a remote call the allowlist cannot place in an organization.
pub open spec fn unscoped_refusal() -> Seq<char> {
    "MCP_ORGANIZATION_ALLOWLIST cannot verify account-wide or ID-scoped TFE requests; use an organization-scoped tool or disable remote TFE access"@
}

/// The refusal of a remote call for an organization the allowlist does not hold.
pub open spec fn organization_refusal(organization: Seq<char>) -> Seq<char> {
    "organization '"@ + organization + "' is not allowed by MCP_ORGANIZATION_ALLOWLIST"@
}

/// Whether the organization allowlist lets a remote call through, and if not, why.
pub open spec fn tfe_validation(allowlist: Seq<Seq<char>>, call: TfeToolCall) -> Result<(), Seq<char>> {
    if allowlist.len() == 0 {
        Ok(())
    } else {
        match tfe_organization(call) {
            None => Err(unscoped_refusal()),
            Some(o) => if allowlist.contains(o) {
                Ok(())
            } else {
                Err(organization_refusal(o))
            },
        }
    }
}

/// Checks a remote call against the organization allowlist: with an allowlist, only
/// calls scoped to a listed organization go through.
pub fn validate_tfe_call(controls: &DeploymentControls, call: &TfeToolCall) -> (r: Result<(), String>)
    ensures
        match r {
            Ok(()) => tfe_validation(controls@.organization_allowlist, *call) == Ok::<(), Seq<char>>(()),
            Err(m) => tfe_validation(controls@.organization_allowlist, *call) == Err::<(), Seq<char>>(m@),
        },
{
    if controls.organization_allowlist.len() == 0 {
        return Ok(());
    }
    let organization = match call.organization() {
        Some(o) => o,
        None => return Err(
            "MCP_ORGANIZATION_ALLOWLIST cannot verify account-wide or ID-scoped TFE requests; use an organization-scoped tool or disable remote TFE access".to_owned(),
        ),
    };
    if !controls.organization_allowed(organization) {
        let m = join_all(&vec!["organization '", organization, "' is not allowed by MCP_ORGANIZATION_ALLOWLIST"]);
        proof {
            reveal_with_fuel(joined, 4);
        }
        return Err(m);
    }
    Ok(())
}

/// Without an allowlist every remote call goes through; with one, a call goes through
/// exactly when it is scoped to a listed organization.
pub proof fn law_allowlist_gates_remote_calls(allowlist: Seq<Seq<char>>, call: TfeToolCall)
    ensures
        allowlist.len() == 0 ==> tfe_validation(allowlist, call) is Ok,
        allowlist.len() > 0 ==> (tfe_validation(allowlist, call) is Ok <==> (tfe_organization(call) matches Some(o) && allowlist.contains(o))),
{
}

/// A call of a Terraform analysis tool.
#[derive(Debug, Clone, Copy, PartialEq, Eq, Structural)]
pub enum AnalysisToolCall {
    Terraform,
    ModuleHealth,
}

impl AnalysisToolCall {
    /// The tool name and what a failure report starts with.
    pub fn metadata(&self) -> (r: (&'static str, &'static str))
        ensures
            (r.0@, r.1@) == match *self {
                AnalysisToolCall::Terraform => ("analyze_terraform"@, "Analysis failed"@),
                AnalysisToolCall::ModuleHealth => ("analyze_module_health"@, "Module health analysis failed"@),
            },
    {
        match self {
            AnalysisToolCall::Terraform => ("analyze_terraform", "Analysis failed"),
            AnalysisToolCall::ModuleHealth => ("analyze_module_health", "Module health analysis failed"),
        }
    }
}

/// The text of a failed tool call: its prefix, a colon, and the error.
pub fn text_error(prefix: &str, error: &str) -> (r: String)
    ensures
        r@ == prefix@ + ": "@ + error@,
{
    let r = join_all(&vec![prefix, ": ", error]);
    proof {
        reveal_with_fuel(joined, 4);
    }
    r
}

/// The answer of `validate_terraform` for the validator's `message`: the
/// configuration is valid exactly when the message holds no `Error:`, and the message
/// itself follows.
pub fn validation_answer(message: &str) -> (r: JsonValue)
    ensures
        r matches JsonValue::Object(m) && m@.len() == 2 && m@[0].key@ == "valid"@ && m@[0].value
            == JsonValue::Bool(!contains_text(message@, "Error:"@)) && m@[1].key@ == "message"@ && (m@[1].value matches JsonValue::String(t)
            && t@ == message@),
{
    let valid = !text_contains(message, "Error:");
    let m = vec![
        JsonMember { key: "valid".to_owned(), value: JsonValue::Bool(valid) },
        JsonMember { key: "message".to_owned(), value: JsonValue::String(message.to_owned()) },
    ];
    JsonValue::Object(m)
}

/// The refusal of a tool that the configured toolsets do not enable.
pub open spec fn disabled_tool_refusal(name: Seq<char>) -> Seq<char> {
    "Tool '"@ + name + "' is not enabled. Check --toolsets configuration."@
}

/// Lets a tool call through when the filter enables the tool, and says why not
/// otherwise.
pub fn check_tool_enabled(filter: &ToolFilter, name: &str) -> (r: Result<(), String>)
    ensures
        match r {
            Ok(()) => enables(filter@, name@),
            Err(m) => !enables(filter@, name@) && m@ == disabled_tool_refusal(name@),
        },
{
    if filter.is_enabled(name) {
        Ok(())
    } else {
        let m = join_all(&vec!["Tool '", name, "' is not enabled. Check --toolsets configuration."]);
        proof {
            reveal_with_fuel(joined, 4);
        }
        Err(m)
    }
}

/// The namespace and kind of documentation a documentation call asks for: `hashicorp`
/// and `resources` unless it names others.
pub fn docs_request_defaults(input: &ProviderDocsInput) -> (r: (String, String))
    ensures
        r.0@ == match input.namespace {
            Some(n) => n@,
            None => "hashicorp"@,
        },
        r.1@ == match input.data_type {
            Some(d) => d@,
            None => "resources"@,
        },
{
    let namespace = match &input.namespace {
        Some(n) => n.clone(),
        None => "hashicorp".to_owned(),
    };
    let data_type = match &input.data_type {
        Some(d) => d.clone(),
        None => "resources".to_owned(),
    };
    (namespace, data_type)
}

/// The private registry a private registry call looks in: `private` unless it names
/// another.
pub fn private_registry_name(registry_name: Option<&str>) -> (r: &str)
    ensures
        r@ == match registry_name {
            Some(n) => n@,
            None => "private"@,
        },
{
    match registry_name {
        Some(n) => n,
        None => "private",
    }
}

/// The namespace of a private registry item: the one named, else the organization.
pub fn private_namespace<'a>(namespace: Option<&'a str>, organization: &'a str) -> (r: &'a str)
    ensures
        r@ == match namespace {
            Some(n) => n@,
            None => organization@,
        },
{
    match namespace {
        Some(n) => n,
        None => organization,
    }
}

/// How a workspace is looked up.
#[derive(Debug, PartialEq, Eq)]
pub enum WorkspaceLookup {
    ById(String),
    ByName { organization: String, name: String },
}

/// How a workspace details call looks its workspace up: by id when one is given,
/// else by organization and name, both of which it then needs.
pub fn workspace_lookup(input: &TfeWorkspaceInput) -> (r: Result<WorkspaceLookup, String>)
    ensures
        match input.workspace_id {
            Some(id) => r matches Ok(WorkspaceLookup::ById(x)) && x@ == id@,
            None => match (input.organization, input.workspace_name) {
                (Some(o), Some(n)) => r matches Ok(WorkspaceLookup::ByName { organization, name })
                    && organization@ == o@ && name@ == n@,
                (None, _) => r matches Err(m) && m@
                    == "organization is required when workspace_id is not provided"@,
                (Some(_), None) => r matches Err(m) && m@
                    == "workspace_name is required when workspace_id is not provided"@,
            },
        },
{
    if let Some(id) = &input.workspace_id {
        return Ok(WorkspaceLookup::ById(id.clone()));
    }
    let organization = match &input.organization {
        Some(o) => o.clone(),
        None => return Err("organization is required when workspace_id is not provided".to_owned()),
    };
    let name = match &input.workspace_name {
        Some(n) => n.clone(),
        None => return Err("workspace_name is required when workspace_id is not provided".to_owned()),
    };
    Ok(WorkspaceLookup::ByName { organization, name })
}

/// The names among `names` that the filter enables, in order.
pub open spec fn enabled_names(filter: Option<Set<Seq<char>>>, names: Seq<Seq<char>>) -> Seq<Seq<char>>
    decreases names.len(),
{
    if names.len() == 0 {
        Seq::empty()
    } else if enables(filter, names.last()) {
        enabled_names(filter, names.drop_last()).push(names.last())
    } else {
        enabled_names(filter, names.drop_last())
    }
}

/// The tools a listing shows: those the filter enables, in order.
pub fn filtered_tools(filter: &ToolFilter, names: Vec<String>) -> (r: Vec<String>)
    ensures
        crate::text::texts(r@) == enabled_names(filter@, crate::text::texts(names@)),
{
    let ghost all = crate::text::texts(names@);
    let mut r: Vec<String> = Vec::new();
    let mut i: usize = 0;
    while i < names.len()
        invariant
            i <= names@.len(),
            all == crate::text::texts(names@),
            crate::text::texts(r@) == enabled_names(filter@, all.take(i as int)),
        decreases names.len() - i,
    {
        proof {
            assert(all.take(i + 1).drop_last() =~= all.take(i as int));
            assert(all.take(i + 1).last() == names@[i as int]@);
        }
        if filter.is_enabled(names[i].as_str()) {
            let ghost before = r@;
            r.push(names[i].clone());
            proof {
                assert(crate::text::texts(r@) =~= crate::text::texts(before).push(names@[i as int]@));
            }
        }
        i = i + 1;
    }
    proof {
        assert(all.take(names@.len() as int) =~= all);
    }
    r
}

/// What the audit log records of a remote call: the target `remote:<address>` and the
/// command `tfe <tool>`.
pub fn tfe_audit_fields(tool_name: &str, address: &str) -> (r: (String, Vec<String>))
    ensures
        r.0@ == "remote:"@ + address@,
        r.1@.len() == 2,
        r.1@[0]@ == "tfe"@,
        r.1@[1]@ == tool_name@,
{
    let target = join_all(&vec!["remote:", address]);
    proof {
        reveal_with_fuel(joined, 3);
    }
    (target, vec!["tfe".to_owned(), tool_name.to_owned()])
}

} // verus!
