//! Tool inputs of the local Terraform tools.
use vstd::prelude::*;

verus! {

/// Input for setting Terraform directory
#[derive(Debug)]
pub struct DirectoryInput {
    /// Path to the new Terraform project directory
    pub directory: String,
}

/// Input for apply/destroy operations
#[derive(Debug)]
pub struct AutoApproveInput {
    /// Whether to automatically approve the operation (default: false)
    pub auto_approve: bool,
}

/// Create a saved plan, or retrieve an existing plan without re-running Terraform.
#[derive(Debug, Default)]
pub struct PlanInput {
    /// Existing plan ID returned by get_terraform_plan or review_terraform_plan.
    pub plan_id: Option<String>,
    /// Variable files, resolved relative to the selected project directory.
    pub var_files: Vec<String>,
    /// Resource addresses to replace in the saved plan.
    pub replace: Vec<String>,
    /// Preview externally changed objects without changing state.
    pub refresh_only: bool,
}

#[derive(Debug, Default)]
pub struct PlanReferenceInput {
    /// Reuse this saved plan. Omitting it creates a new plan; pass the returned ID to subsequent tools.
    pub plan_id: Option<String>,
}

#[derive(Debug)]
pub struct ApplyPlanInput {
    /// Saved plan to apply, returned by get_terraform_plan or review_terraform_plan.
    pub plan_id: Option<String>,
    /// Explicit approval of the saved plan; also requires both dangerous-operation environment gates.
    pub auto_approve: bool,
}

/// Input for analyze_terraform operation
#[derive(Debug)]
pub struct AnalyzeInput {
    /// Optional path to analyze (defaults to current project directory)
    pub path: Option<String>,
}

/// Input for analyze_plan operation
#[derive(Debug)]
pub struct AnalyzePlanInput {
    /// Reuse this saved plan instead of generating another plan.
    pub plan_id: Option<String>,
    /// Include risk assessment in the analysis (default: true)
    pub include_risk: bool,
}

/// Input for analyze_state operation
#[derive(Debug)]
pub struct AnalyzeStateInput {
    /// Filter by resource type (e.g., "aws_instance")
    pub resource_type: Option<String>,
    /// Enable drift detection (default: false)
    pub detect_drift: bool,
}

/// Input for workspace operations
#[derive(Debug)]
pub struct WorkspaceInput {
    /// Action to perform: list, show, new, select, delete
    pub action: String,
    /// Workspace name (required for new, select, delete)
    pub name: Option<String>,
}

/// Input for terraform import
#[derive(Debug)]
pub struct ImportInput {
    /// Resource type (e.g., "aws_instance")
    pub resource_type: String,
    /// Resource ID in the cloud provider
    pub resource_id: String,
    /// Name to use in Terraform configuration
    pub name: String,
    /// Execute the import (false = preview only)
    pub execute: bool,
}

/// Input for terraform fmt
#[derive(Debug)]
pub struct FmtInput {
    /// Check only, don't modify files
    pub check: bool,
    /// Show diff of changes
    pub diff: bool,
    /// Specific file to format (optional)
    pub file: Option<String>,
}

/// Input for terraform graph
#[derive(Debug)]
pub struct GraphInput {
    /// Graph type: "plan" or "apply" (optional)
    pub graph_type: Option<String>,
}

/// Input for terraform output
#[derive(Debug)]
pub struct OutputInput {
    /// Specific output name (optional, returns all if not specified)
    pub name: Option<String>,
}

/// Input for taint/untaint operations
#[derive(Debug)]
pub struct TaintInput {
    /// Action: "taint" or "untaint"
    pub action: String,
    /// Resource address (e.g., "aws_instance.example")
    pub address: String,
}

/// Input for terraform refresh
#[derive(Debug)]
pub struct RefreshInput {
    /// Target specific resource (optional)
    pub target: Option<String>,
}

/// Input for terraform providers
#[derive(Debug)]
pub struct ProvidersInput {
    /// Include lock file information (default: false)
    pub include_lock: bool,
}

/// The default of flags that are on unless switched off.
pub fn default_true() -> (r: bool)
    ensures
        r,
{
    true
}

} // verus!
