//! Detailed descriptions of the local Terraform tools: summary, usage guide,
//! constraints, error hints, security notes and examples.
use crate::deployment::opt_text;
use crate::json::{empty_object, json_is_string, object_with_bool, object_with_str, JsonValue};
use crate::text::{text_eq, texts};
use crate::tool_filter::strs;
use vstd::prelude::*;

verus! {

/// One worked example of calling a tool.
#[derive(Debug)]
pub struct ToolExample {
    pub title: String,
    pub description: String,
    pub input: JsonValue,
    pub expected_output: String,
}

/// A tool description as shown to a model.
#[derive(Debug)]
pub struct ToolDescription {
    pub summary: String,
    pub usage_guide: Option<String>,
    pub constraints: Vec<String>,
    pub error_hints: Vec<(String, String)>,
    pub security_notes: Vec<String>,
    pub examples: Vec<ToolExample>,
}

/// The argument of an example call.
pub enum ExampleArg {
    Flag(bool),
    Text(Seq<char>),
}

/// The content of an example; its input is an object with at most one member.
pub struct ExampleView {
    pub title: Seq<char>,
    pub description: Seq<char>,
    pub input: Option<(Seq<char>, ExampleArg)>,
    pub expected_output: Seq<char>,
}

/// The content of a tool description.
pub struct DescriptionView {
    pub summary: Seq<char>,
    pub usage_guide: Option<Seq<char>>,
    pub constraints: Seq<Seq<char>>,
    pub error_hints: Seq<(Seq<char>, Seq<char>)>,
    pub security_notes: Seq<Seq<char>>,
    pub examples: Seq<ExampleView>,
}

/// Whether a JSON value is the example input `arg` describes.
pub open spec fn input_matches(v: JsonValue, arg: Option<(Seq<char>, ExampleArg)>) -> bool {
    match arg {
        None => v matches JsonValue::Object(m) && m@.len() == 0,
        Some((k, ExampleArg::Flag(b))) => v matches JsonValue::Object(m) && m@.len() == 1
            && m@[0].key@ == k && m@[0].value == JsonValue::Bool(b),
        Some((k, ExampleArg::Text(t))) => v matches JsonValue::Object(m) && m@.len() == 1
            && m@[0].key@ == k && json_is_string(m@[0].value, t),
    }
}

pub open spec fn example_matches(e: ToolExample, v: ExampleView) -> bool {
    &&& e.title@ == v.title
    &&& e.description@ == v.description
    &&& input_matches(e.input, v.input)
    &&& e.expected_output@ == v.expected_output
}

pub open spec fn examples_match(e: Seq<ToolExample>, v: Seq<ExampleView>) -> bool {
    &&& e.len() == v.len()
    &&& forall|i: int| 0 <= i < e.len() ==> example_matches(#[trigger] e[i], v[i])
}

pub open spec fn hint_texts(h: Seq<(String, String)>) -> Seq<(Seq<char>, Seq<char>)> {
    Seq::new(h.len(), |i: int| (h[i].0@, h[i].1@))
}

pub open spec fn hint_strs(h: Seq<(&str, &str)>) -> Seq<(Seq<char>, Seq<char>)> {
    Seq::new(h.len(), |i: int| (h[i].0@, h[i].1@))
}

/// Whether `d` is the description `v` describes.
pub open spec fn describes(d: ToolDescription, v: DescriptionView) -> bool {
    &&& d.summary@ == v.summary
    &&& opt_text(d.usage_guide) == v.usage_guide
    &&& texts(d.constraints@) == v.constraints
    &&& hint_texts(d.error_hints@) == v.error_hints
    &&& texts(d.security_notes@) == v.security_notes
    &&& examples_match(d.examples@, v.examples)
}

impl ToolDescription {
    /// A description with only a summary.
    pub fn new(summary: &str) -> (r: Self)
        ensures
            r.summary@ == summary@,
            r.usage_guide is None,
            r.constraints@.len() == 0,
            r.error_hints@.len() == 0,
            r.security_notes@.len() == 0,
            r.examples@.len() == 0,
    {
        ToolDescription {
            summary: summary.to_owned(),
            usage_guide: None,
            constraints: Vec::new(),
            error_hints: Vec::new(),
            security_notes: Vec::new(),
            examples: Vec::new(),
        }
    }

    /// Sets the usage guide.
    pub fn with_usage_guide(self, guide: &str) -> (r: Self)
        ensures
            r.summary == self.summary,
            opt_text(r.usage_guide) == Some(guide@),
            r.constraints == self.constraints,
            r.error_hints == self.error_hints,
            r.security_notes == self.security_notes,
            r.examples == self.examples,
    {
        let mut d = self;
        d.usage_guide = Some(guide.to_owned());
        d
    }

    /// Adds a constraint.
    pub fn with_constraint(self, constraint: &str) -> (r: Self)
        ensures
            r.summary == self.summary,
            r.usage_guide == self.usage_guide,
            texts(r.constraints@) == texts(self.constraints@).push(constraint@),
            r.error_hints == self.error_hints,
            r.security_notes == self.security_notes,
            r.examples == self.examples,
    {
        let mut d = self;
        d.constraints.push(constraint.to_owned());
        proof {
            assert(texts(d.constraints@) =~= texts(self.constraints@).push(constraint@));
        }
        d
    }

    /// Adds an error and the hint that helps with it.
    pub fn with_error_hint(self, error: &str, hint: &str) -> (r: Self)
        ensures
            r.summary == self.summary,
            r.usage_guide == self.usage_guide,
            r.constraints == self.constraints,
            hint_texts(r.error_hints@) == hint_texts(self.error_hints@).push((error@, hint@)),
            r.security_notes == self.security_notes,
            r.examples == self.examples,
    {
        let mut d = self;
        d.error_hints.push((error.to_owned(), hint.to_owned()));
        proof {
            assert(hint_texts(d.error_hints@) =~= hint_texts(self.error_hints@).push(
                (error@, hint@),
            ));
        }
        d
    }

    /// Adds a security note.
    pub fn with_security_note(self, note: &str) -> (r: Self)
        ensures
            r.summary == self.summary,
            r.usage_guide == self.usage_guide,
            r.constraints == self.constraints,
            r.error_hints == self.error_hints,
            texts(r.security_notes@) == texts(self.security_notes@).push(note@),
            r.examples == self.examples,
    {
        let mut d = self;
        d.security_notes.push(note.to_owned());
        proof {
            assert(texts(d.security_notes@) =~= texts(self.security_notes@).push(note@));
        }
        d
    }

    /// Adds an example.
    pub fn with_example(self, example: ToolExample) -> (r: Self)
        ensures
            r.summary == self.summary,
            r.usage_guide == self.usage_guide,
            r.constraints == self.constraints,
            r.error_hints == self.error_hints,
            r.security_notes == self.security_notes,
            r.examples@ == self.examples@.push(example),
    {
        let mut d = self;
        d.examples.push(example);
        d
    }
}

/// The tools that have a detailed description.
#[derive(Debug, Clone, Copy, PartialEq, Eq, Structural)]
pub enum ToolDescriptionKind {
    TerraformPlan,
    TerraformApply,
    TerraformValidate,
    TerraformValidateDetailed,
    TerraformDestroy,
    TerraformAnalyze,
    ListResources,
    GetState,
    InitTerraform,
    SetDirectory,
    SecurityStatus,
}

/// The parts a description is built from.
pub struct DescriptionSpec {
    pub summary: &'static str,
    pub usage_guide: &'static str,
    pub constraints: Vec<&'static str>,
    pub error_hints: Vec<(&'static str, &'static str)>,
    pub security_notes: Vec<&'static str>,
    pub examples: Vec<ToolExample>,
}

/// Whether the parts `d` are those of the description `v`.
pub open spec fn spec_describes(d: DescriptionSpec, v: DescriptionView) -> bool {
    &&& d.summary@ == v.summary
    &&& Some(d.usage_guide@) == v.usage_guide
    &&& strs(d.constraints@) == v.constraints
    &&& hint_strs(d.error_hints@) == v.error_hints
    &&& strs(d.security_notes@) == v.security_notes
    &&& examples_match(d.examples@, v.examples)
}

/// What each tool's description says.
pub open spec fn description_data(kind: ToolDescriptionKind) -> DescriptionView {
    match kind {
        ToolDescriptionKind::TerraformPlan => DescriptionView {
            summary: "Execute 'terraform plan' to show changes that would be made to infrastructure"@,
            usage_guide: Some("This tool generates an execution plan showing what Terraform will do when you apply the configuration. It's a safe operation that doesn't make any changes to real infrastructure."@),
            constraints: seq!["Terraform must be initialized in the target directory"@, "Valid Terraform configuration files must exist"@],
            error_hints: seq![("Init Required"@, "Run terraform init first to initialize the working directory"@), ("No Configuration"@, "Ensure .tf files exist in the project directory"@)],
            security_notes: seq!["This is a read-only operation - no infrastructure changes are made"@],
            examples: seq![
                ExampleView { title: "Basic Plan Generation"@, description: "Generate a plan for the current Terraform configuration"@, input: None, expected_output: "JSON-formatted plan showing resources to be created, modified, or destroyed"@ }
            ],
        },
        ToolDescriptionKind::TerraformApply => DescriptionView {
            summary: "Apply Terraform configuration to create, update, or delete infrastructure resources"@,
            usage_guide: Some("This tool executes the changes shown in a terraform plan. It will modify real infrastructure according to your configuration. Always review the plan before applying changes."@),
            constraints: seq!["TFMCP_ALLOW_DANGEROUS_OPS must be set to true"@, "Terraform must be initialized"@, "Valid configuration files must exist"@],
            error_hints: seq![("Permission Denied"@, "Set TFMCP_ALLOW_DANGEROUS_OPS=true to enable apply operations"@), ("Init Required"@, "Run terraform init first"@), ("Auto-approve Blocked"@, "Set TFMCP_ALLOW_AUTO_APPROVE=true for auto-approval"@)],
            security_notes: seq!["This operation modifies real infrastructure - use with caution"@, "All apply operations are logged for audit purposes"@, "Production directory patterns are automatically blocked"@],
            examples: seq![
                ExampleView { title: "Apply with Manual Approval"@, description: "Apply changes with interactive approval"@, input: Some(("auto_approve"@, ExampleArg::Flag(false))), expected_output: "Terraform apply output showing resources created/modified"@ },
                ExampleView { title: "Auto-approved Apply"@, description: "Apply changes automatically without manual confirmation"@, input: Some(("auto_approve"@, ExampleArg::Flag(true))), expected_output: "Terraform apply output with automatic approval"@ }
            ],
        },
        ToolDescriptionKind::TerraformValidate => DescriptionView {
            summary: "Validate Terraform configuration files for syntax and semantic correctness"@,
            usage_guide: Some("This tool checks your Terraform configuration for syntax errors, missing required arguments, and other validation issues. It's a safe operation that doesn't access remote state."@),
            constraints: seq!["Terraform configuration files must exist in the directory"@],
            error_hints: seq![("No Configuration"@, "Ensure .tf files exist in the project directory"@), ("Syntax Error"@, "Check Terraform configuration syntax using terraform fmt"@)],
            security_notes: seq!["This is a safe, local operation that doesn't modify anything"@],
            examples: seq![
                ExampleView { title: "Basic Validation"@, description: "Validate the current Terraform configuration"@, input: None, expected_output: "Validation result with success status and any error messages"@ }
            ],
        },
        ToolDescriptionKind::TerraformValidateDetailed => DescriptionView {
            summary: "Perform comprehensive validation with best practice analysis and detailed diagnostics"@,
            usage_guide: Some("This tool performs detailed validation including Terraform's built-in checks plus additional best practice recommendations. It provides detailed diagnostics with file locations and actionable suggestions."@),
            constraints: seq!["Terraform configuration files must exist"@],
            error_hints: seq![("No Configuration"@, "Add .tf files to the project directory"@), ("Best Practice Violation"@, "Review suggestions to improve configuration quality"@)],
            security_notes: seq!["Includes security best practice checks"@, "No infrastructure access required - purely local analysis"@],
            examples: seq![
                ExampleView { title: "Comprehensive Analysis"@, description: "Get detailed validation with best practices"@, input: None, expected_output: "Detailed report with errors, warnings, suggestions, and file locations"@ }
            ],
        },
        ToolDescriptionKind::TerraformDestroy => DescriptionView {
            summary: "Destroy all resources defined in the Terraform configuration"@,
            usage_guide: Some("This tool destroys all infrastructure resources managed by Terraform in the current configuration. This is a destructive operation that cannot be undone. Use with extreme caution."@),
            constraints: seq!["TFMCP_ALLOW_DANGEROUS_OPS must be set to true"@, "Terraform must be initialized"@, "State file must exist with managed resources"@],
            error_hints: seq![("Permission Denied"@, "Set TFMCP_ALLOW_DANGEROUS_OPS=true to enable destroy operations"@), ("No State"@, "No Terraform state found - nothing to destroy"@), ("Auto-approve Blocked"@, "Set TFMCP_ALLOW_AUTO_APPROVE=true for auto-approval"@)],
            security_notes: seq!["⚠️ DESTRUCTIVE OPERATION - destroys real infrastructure"@, "All destroy operations are logged for audit purposes"@, "Production directory patterns are automatically blocked"@, "Consider backing up important data before destruction"@],
            examples: seq![
                ExampleView { title: "Destroy with Confirmation"@, description: "Destroy resources with manual confirmation"@, input: Some(("auto_approve"@, ExampleArg::Flag(false))), expected_output: "Terraform destroy output showing resources removed"@ }
            ],
        },
        ToolDescriptionKind::TerraformAnalyze => DescriptionView {
            summary: "Analyze Terraform configuration files to extract detailed information about resources, variables, and providers"@,
            usage_guide: Some("This tool parses your Terraform configuration files and provides comprehensive analysis including resources, variables, outputs, and provider information. Useful for understanding configuration structure and dependencies."@),
            constraints: seq!["Terraform configuration files must exist in the directory"@],
            error_hints: seq![("No Configuration"@, "Add .tf files to the project directory to analyze"@), ("Parse Error"@, "Check Terraform syntax - configuration files may be malformed"@)],
            security_notes: seq!["Analysis is performed locally without accessing remote resources"@],
            examples: seq![
                ExampleView { title: "Analyze Current Configuration"@, description: "Analyze all .tf files in the current directory"@, input: None, expected_output: "Structured analysis showing resources, variables, outputs, and providers"@ },
                ExampleView { title: "Analyze Specific Path"@, description: "Analyze configuration in a specific directory"@, input: Some(("path"@, ExampleArg::Text("/path/to/terraform/config"@))), expected_output: "Analysis results for the specified directory"@ }
            ],
        },
        ToolDescriptionKind::ListResources => DescriptionView {
            summary: "List all resources currently managed by Terraform in the state file"@,
            usage_guide: Some("This tool shows all infrastructure resources that are currently being managed by Terraform according to the state file. Useful for understanding what resources exist and their identifiers."@),
            constraints: seq!["Terraform must be initialized"@, "State file must exist"@],
            error_hints: seq![("No State"@, "Run terraform apply to create managed resources first"@), ("Init Required"@, "Initialize Terraform working directory first"@)],
            security_notes: seq!["Reads from local state file - no remote access required"@],
            examples: seq![
                ExampleView { title: "List All Resources"@, description: "Show all resources in the current state"@, input: None, expected_output: "Array of resource identifiers managed by Terraform"@ }
            ],
        },
        ToolDescriptionKind::GetState => DescriptionView {
            summary: "Retrieve the current Terraform state information"@,
            usage_guide: Some("This tool provides access to the current Terraform state, showing the real-world resources that Terraform is managing and their current configuration."@),
            constraints: seq!["Terraform must be initialized"@, "State file must exist"@],
            error_hints: seq![("No State"@, "No state file found - apply configuration first"@), ("Corrupted State"@, "State file may be corrupted - check terraform state list"@)],
            security_notes: seq!["State may contain sensitive information"@, "Read-only operation - state is not modified"@],
            examples: seq![
                ExampleView { title: "Get Current State"@, description: "Retrieve the complete Terraform state"@, input: None, expected_output: "Terraform state information including resource details"@ }
            ],
        },
        ToolDescriptionKind::InitTerraform => DescriptionView {
            summary: "Initialize a Terraform working directory and download required providers"@,
            usage_guide: Some("This tool initializes a Terraform working directory by downloading and installing provider plugins, modules, and setting up the backend. This is typically the first command to run in a new Terraform configuration."@),
            constraints: seq!["Terraform configuration files must exist"@, "Network access required for downloading providers"@],
            error_hints: seq![("No Configuration"@, "Create .tf files with provider configuration first"@), ("Network Error"@, "Check internet connectivity for provider downloads"@), ("Backend Error"@, "Verify backend configuration if using remote state"@)],
            security_notes: seq!["Downloads providers from trusted Terraform Registry"@, "May create local state file containing infrastructure information"@],
            examples: seq![
                ExampleView { title: "Initialize Working Directory"@, description: "Set up Terraform environment for the current configuration"@, input: None, expected_output: "Initialization results showing downloaded providers and modules"@ }
            ],
        },
        ToolDescriptionKind::SetDirectory => DescriptionView {
            summary: "Change the active Terraform project directory for subsequent operations"@,
            usage_guide: Some("This tool allows you to switch between different Terraform projects by changing the working directory. All subsequent Terraform operations will use the new directory."@),
            constraints: seq!["Target directory must exist or be creatable"@, "Directory path must be valid"@],
            error_hints: seq![("Invalid Path"@, "Ensure the directory path exists and is accessible"@), ("Permission Error"@, "Check read/write permissions for the target directory"@)],
            security_notes: seq!["Automatically creates sample project if no .tf files exist"@, "Directory changes are logged for audit purposes"@],
            examples: seq![
                ExampleView { title: "Switch to Project Directory"@, description: "Change to a specific Terraform project"@, input: Some(("directory"@, ExampleArg::Text("/path/to/terraform/project"@))), expected_output: "Confirmation of directory change with current path"@ }
            ],
        },
        ToolDescriptionKind::SecurityStatus => DescriptionView {
            summary: "Get current security policy configuration and operational permissions"@,
            usage_guide: Some("This tool provides information about the current security settings, including which operations are allowed, audit logging status, and security policy configuration."@),
            constraints: seq![],
            error_hints: seq![],
            security_notes: seq!["Shows current security policy without exposing sensitive data"@, "Helps understand why certain operations might be blocked"@],
            examples: seq![
                ExampleView { title: "Check Security Configuration"@, description: "Review current security settings and permissions"@, input: None, expected_output: "Security policy details, permissions, and audit status"@ }
            ],
        },
    }
}

fn example(title: &str, description: &str, input: JsonValue, expected_output: &str) -> (r: ToolExample)
    ensures
        r.title@ == title@,
        r.description@ == description@,
        r.input == input,
        r.expected_output@ == expected_output@,
{
    ToolExample {
        title: title.to_owned(),
        description: description.to_owned(),
        input,
        expected_output: expected_output.to_owned(),
    }
}

/// The parts of a tool's description.
pub fn description_spec(kind: ToolDescriptionKind) -> (r: DescriptionSpec)
    ensures
        spec_describes(r, description_data(kind)),
{
    match kind {
        ToolDescriptionKind::TerraformPlan => {
            let r = DescriptionSpec {
                summary: "Execute 'terraform plan' to show changes that would be made to infrastructure",
                usage_guide: "This tool generates an execution plan showing what Terraform will do when you apply the configuration. It's a safe operation that doesn't make any changes to real infrastructure.",
                constraints: vec!["Terraform must be initialized in the target directory", "Valid Terraform configuration files must exist"],
                error_hints: vec![("Init Required", "Run terraform init first to initialize the working directory"), ("No Configuration", "Ensure .tf files exist in the project directory")],
                security_notes: vec!["This is a read-only operation - no infrastructure changes are made"],
                examples: vec![
                    example("Basic Plan Generation", "Generate a plan for the current Terraform configuration", empty_object(), "JSON-formatted plan showing resources to be created, modified, or destroyed")
                ],
            };
            proof {
                let v = description_data(kind);
                assert(strs(r.constraints@) =~= v.constraints);
                assert(hint_strs(r.error_hints@) =~= v.error_hints);
                assert(strs(r.security_notes@) =~= v.security_notes);
                assert(examples_match(r.examples@, v.examples));
            }
            r
        },
        ToolDescriptionKind::TerraformApply => {
            let r = DescriptionSpec {
                summary: "Apply Terraform configuration to create, update, or delete infrastructure resources",
                usage_guide: "This tool executes the changes shown in a terraform plan. It will modify real infrastructure according to your configuration. Always review the plan before applying changes.",
                constraints: vec!["TFMCP_ALLOW_DANGEROUS_OPS must be set to true", "Terraform must be initialized", "Valid configuration files must exist"],
                error_hints: vec![("Permission Denied", "Set TFMCP_ALLOW_DANGEROUS_OPS=true to enable apply operations"), ("Init Required", "Run terraform init first"), ("Auto-approve Blocked", "Set TFMCP_ALLOW_AUTO_APPROVE=true for auto-approval")],
                security_notes: vec!["This operation modifies real infrastructure - use with caution", "All apply operations are logged for audit purposes", "Production directory patterns are automatically blocked"],
                examples: vec![
                    example("Apply with Manual Approval", "Apply changes with interactive approval", object_with_bool("auto_approve", false), "Terraform apply output showing resources created/modified"),
                example("Auto-approved Apply", "Apply changes automatically without manual confirmation", object_with_bool("auto_approve", true), "Terraform apply output with automatic approval")
                ],
            };
            proof {
                let v = description_data(kind);
                assert(strs(r.constraints@) =~= v.constraints);
                assert(hint_strs(r.error_hints@) =~= v.error_hints);
                assert(strs(r.security_notes@) =~= v.security_notes);
                assert(examples_match(r.examples@, v.examples));
            }
            r
        },
        ToolDescriptionKind::TerraformValidate => {
            let r = DescriptionSpec {
                summary: "Validate Terraform configuration files for syntax and semantic correctness",
                usage_guide: "This tool checks your Terraform configuration for syntax errors, missing required arguments, and other validation issues. It's a safe operation that doesn't access remote state.",
                constraints: vec!["Terraform configuration files must exist in the directory"],
                error_hints: vec![("No Configuration", "Ensure .tf files exist in the project directory"), ("Syntax Error", "Check Terraform configuration syntax using terraform fmt")],
                security_notes: vec!["This is a safe, local operation that doesn't modify anything"],
                examples: vec![
                    example("Basic Validation", "Validate the current Terraform configuration", empty_object(), "Validation result with success status and any error messages")
                ],
            };
            proof {
                let v = description_data(kind);
                assert(strs(r.constraints@) =~= v.constraints);
                assert(hint_strs(r.error_hints@) =~= v.error_hints);
                assert(strs(r.security_notes@) =~= v.security_notes);
                assert(examples_match(r.examples@, v.examples));
            }
            r
        },
        ToolDescriptionKind::TerraformValidateDetailed => {
            let r = DescriptionSpec {
                summary: "Perform comprehensive validation with best practice analysis and detailed diagnostics",
                usage_guide: "This tool performs detailed validation including Terraform's built-in checks plus additional best practice recommendations. It provides detailed diagnostics with file locations and actionable suggestions.",
                constraints: vec!["Terraform configuration files must exist"],
                error_hints: vec![("No Configuration", "Add .tf files to the project directory"), ("Best Practice Violation", "Review suggestions to improve configuration quality")],
                security_notes: vec!["Includes security best practice checks", "No infrastructure access required - purely local analysis"],
                examples: vec![
                    example("Comprehensive Analysis", "Get detailed validation with best practices", empty_object(), "Detailed report with errors, warnings, suggestions, and file locations")
                ],
            };
            proof {
                let v = description_data(kind);
                assert(strs(r.constraints@) =~= v.constraints);
                assert(hint_strs(r.error_hints@) =~= v.error_hints);
                assert(strs(r.security_notes@) =~= v.security_notes);
                assert(examples_match(r.examples@, v.examples));
            }
            r
        },
        ToolDescriptionKind::TerraformDestroy => {
            let r = DescriptionSpec {
                summary: "Destroy all resources defined in the Terraform configuration",
                usage_guide: "This tool destroys all infrastructure resources managed by Terraform in the current configuration. This is a destructive operation that cannot be undone. Use with extreme caution.",
                constraints: vec!["TFMCP_ALLOW_DANGEROUS_OPS must be set to true", "Terraform must be initialized", "State file must exist with managed resources"],
                error_hints: vec![("Permission Denied", "Set TFMCP_ALLOW_DANGEROUS_OPS=true to enable destroy operations"), ("No State", "No Terraform state found - nothing to destroy"), ("Auto-approve Blocked", "Set TFMCP_ALLOW_AUTO_APPROVE=true for auto-approval")],
                security_notes: vec!["⚠️ DESTRUCTIVE OPERATION - destroys real infrastructure", "All destroy operations are logged for audit purposes", "Production directory patterns are automatically blocked", "Consider backing up important data before destruction"],
                examples: vec![
                    example("Destroy with Confirmation", "Destroy resources with manual confirmation", object_with_bool("auto_approve", false), "Terraform destroy output showing resources removed")
                ],
            };
            proof {
                let v = description_data(kind);
                assert(strs(r.constraints@) =~= v.constraints);
                assert(hint_strs(r.error_hints@) =~= v.error_hints);
                assert(strs(r.security_notes@) =~= v.security_notes);
                assert(examples_match(r.examples@, v.examples));
            }
            r
        },
        ToolDescriptionKind::TerraformAnalyze => {
            let r = DescriptionSpec {
                summary: "Analyze Terraform configuration files to extract detailed information about resources, variables, and providers",
                usage_guide: "This tool parses your Terraform configuration files and provides comprehensive analysis including resources, variables, outputs, and provider information. Useful for understanding configuration structure and dependencies.",
                constraints: vec!["Terraform configuration files must exist in the directory"],
                error_hints: vec![("No Configuration", "Add .tf files to the project directory to analyze"), ("Parse Error", "Check Terraform syntax - configuration files may be malformed")],
                security_notes: vec!["Analysis is performed locally without accessing remote resources"],
                examples: vec![
                    example("Analyze Current Configuration", "Analyze all .tf files in the current directory", empty_object(), "Structured analysis showing resources, variables, outputs, and providers"),
                example("Analyze Specific Path", "Analyze configuration in a specific directory", object_with_str("path", "/path/to/terraform/config"), "Analysis results for the specified directory")
                ],
            };
            proof {
                let v = description_data(kind);
                assert(strs(r.constraints@) =~= v.constraints);
                assert(hint_strs(r.error_hints@) =~= v.error_hints);
                assert(strs(r.security_notes@) =~= v.security_notes);
                assert(examples_match(r.examples@, v.examples));
            }
            r
        },
        ToolDescriptionKind::ListResources => {
            let r = DescriptionSpec {
                summary: "List all resources currently managed by Terraform in the state file",
                usage_guide: "This tool shows all infrastructure resources that are currently being managed by Terraform according to the state file. Useful for understanding what resources exist and their identifiers.",
                constraints: vec!["Terraform must be initialized", "State file must exist"],
                error_hints: vec![("No State", "Run terraform apply to create managed resources first"), ("Init Required", "Initialize Terraform working directory first")],
                security_notes: vec!["Reads from local state file - no remote access required"],
                examples: vec![
                    example("List All Resources", "Show all resources in the current state", empty_object(), "Array of resource identifiers managed by Terraform")
                ],
            };
            proof {
                let v = description_data(kind);
                assert(strs(r.constraints@) =~= v.constraints);
                assert(hint_strs(r.error_hints@) =~= v.error_hints);
                assert(strs(r.security_notes@) =~= v.security_notes);
                assert(examples_match(r.examples@, v.examples));
            }
            r
        },
        ToolDescriptionKind::GetState => {
            let r = DescriptionSpec {
                summary: "Retrieve the current Terraform state information",
                usage_guide: "This tool provides access to the current Terraform state, showing the real-world resources that Terraform is managing and their current configuration.",
                constraints: vec!["Terraform must be initialized", "State file must exist"],
                error_hints: vec![("No State", "No state file found - apply configuration first"), ("Corrupted State", "State file may be corrupted - check terraform state list")],
                security_notes: vec!["State may contain sensitive information", "Read-only operation - state is not modified"],
                examples: vec![
                    example("Get Current State", "Retrieve the complete Terraform state", empty_object(), "Terraform state information including resource details")
                ],
            };
            proof {
                let v = description_data(kind);
                assert(strs(r.constraints@) =~= v.constraints);
                assert(hint_strs(r.error_hints@) =~= v.error_hints);
                assert(strs(r.security_notes@) =~= v.security_notes);
                assert(examples_match(r.examples@, v.examples));
            }
            r
        },
        ToolDescriptionKind::InitTerraform => {
            let r = DescriptionSpec {
                summary: "Initialize a Terraform working directory and download required providers",
                usage_guide: "This tool initializes a Terraform working directory by downloading and installing provider plugins, modules, and setting up the backend. This is typically the first command to run in a new Terraform configuration.",
                constraints: vec!["Terraform configuration files must exist", "Network access required for downloading providers"],
                error_hints: vec![("No Configuration", "Create .tf files with provider configuration first"), ("Network Error", "Check internet connectivity for provider downloads"), ("Backend Error", "Verify backend configuration if using remote state")],
                security_notes: vec!["Downloads providers from trusted Terraform Registry", "May create local state file containing infrastructure information"],
                examples: vec![
                    example("Initialize Working Directory", "Set up Terraform environment for the current configuration", empty_object(), "Initialization results showing downloaded providers and modules")
                ],
            };
            proof {
                let v = description_data(kind);
                assert(strs(r.constraints@) =~= v.constraints);
                assert(hint_strs(r.error_hints@) =~= v.error_hints);
                assert(strs(r.security_notes@) =~= v.security_notes);
                assert(examples_match(r.examples@, v.examples));
            }
            r
        },
        ToolDescriptionKind::SetDirectory => {
            let r = DescriptionSpec {
                summary: "Change the active Terraform project directory for subsequent operations",
                usage_guide: "This tool allows you to switch between different Terraform projects by changing the working directory. All subsequent Terraform operations will use the new directory.",
                constraints: vec!["Target directory must exist or be creatable", "Directory path must be valid"],
                error_hints: vec![("Invalid Path", "Ensure the directory path exists and is accessible"), ("Permission Error", "Check read/write permissions for the target directory")],
                security_notes: vec!["Automatically creates sample project if no .tf files exist", "Directory changes are logged for audit purposes"],
                examples: vec![
                    example("Switch to Project Directory", "Change to a specific Terraform project", object_with_str("directory", "/path/to/terraform/project"), "Confirmation of directory change with current path")
                ],
            };
            proof {
                let v = description_data(kind);
                assert(strs(r.constraints@) =~= v.constraints);
                assert(hint_strs(r.error_hints@) =~= v.error_hints);
                assert(strs(r.security_notes@) =~= v.security_notes);
                assert(examples_match(r.examples@, v.examples));
            }
            r
        },
        ToolDescriptionKind::SecurityStatus => {
            let r = DescriptionSpec {
                summary: "Get current security policy configuration and operational permissions",
                usage_guide: "This tool provides information about the current security settings, including which operations are allowed, audit logging status, and security policy configuration.",
                constraints: vec![],
                error_hints: vec![],
                security_notes: vec!["Shows current security policy without exposing sensitive data", "Helps understand why certain operations might be blocked"],
                examples: vec![
                    example("Check Security Configuration", "Review current security settings and permissions", empty_object(), "Security policy details, permissions, and audit status")
                ],
            };
            proof {
                let v = description_data(kind);
                assert(strs(r.constraints@) =~= v.constraints);
                assert(hint_strs(r.error_hints@) =~= v.error_hints);
                assert(strs(r.security_notes@) =~= v.security_notes);
                assert(examples_match(r.examples@, v.examples));
            }
            r
        },
    }
}

/// Assembles a description from its parts.
pub fn build_description(spec: DescriptionSpec) -> (r: ToolDescription)
    ensures
        forall|v: DescriptionView| spec_describes(spec, v) ==> describes(r, v),
{
    let ghost sp = spec;
    let DescriptionSpec { summary, usage_guide, constraints, error_hints, security_notes, examples } =
        spec;
    let mut description = ToolDescription::new(summary).with_usage_guide(usage_guide);
    let mut i: usize = 0;
    while i < constraints.len()
        invariant
            i <= constraints@.len(),
            description.summary@ == summary@,
            opt_text(description.usage_guide) == Some(usage_guide@),
            texts(description.constraints@) == strs(constraints@).take(i as int),
            description.error_hints@.len() == 0,
            description.security_notes@.len() == 0,
            description.examples@.len() == 0,
        decreases constraints.len() - i,
    {
        description = description.with_constraint(constraints[i]);
        proof {
            assert(strs(constraints@).take(i + 1) =~= strs(constraints@).take(i as int).push(
                constraints@[i as int]@,
            ));
        }
        i = i + 1;
    }
    proof {
        assert(strs(constraints@).take(constraints@.len() as int) =~= strs(constraints@));
    }
    let mut i: usize = 0;
    while i < error_hints.len()
        invariant
            i <= error_hints@.len(),
            description.summary@ == summary@,
            opt_text(description.usage_guide) == Some(usage_guide@),
            texts(description.constraints@) == strs(constraints@),
            hint_texts(description.error_hints@) == hint_strs(error_hints@).take(i as int),
            description.security_notes@.len() == 0,
            description.examples@.len() == 0,
        decreases error_hints.len() - i,
    {
        let (error, hint) = error_hints[i];
        description = description.with_error_hint(error, hint);
        proof {
            assert(hint_strs(error_hints@).take(i + 1) =~= hint_strs(error_hints@).take(
                i as int,
            ).push((error@, hint@)));
        }
        i = i + 1;
    }
    proof {
        assert(hint_strs(error_hints@).take(error_hints@.len() as int) =~= hint_strs(error_hints@));
    }
    let mut i: usize = 0;
    while i < security_notes.len()
        invariant
            i <= security_notes@.len(),
            description.summary@ == summary@,
            opt_text(description.usage_guide) == Some(usage_guide@),
            texts(description.constraints@) == strs(constraints@),
            hint_texts(description.error_hints@) == hint_strs(error_hints@),
            texts(description.security_notes@) == strs(security_notes@).take(i as int),
            description.examples@.len() == 0,
        decreases security_notes.len() - i,
    {
        description = description.with_security_note(security_notes[i]);
        proof {
            assert(strs(security_notes@).take(i + 1) =~= strs(security_notes@).take(i as int).push(
                security_notes@[i as int]@,
            ));
        }
        i = i + 1;
    }
    proof {
        assert(strs(security_notes@).take(security_notes@.len() as int) =~= strs(security_notes@));
    }
    let ghost all_examples = examples@;
    let _count = examples.len();
    let mut rest = examples;
    let mut n: usize = 0;
    while rest.len() > 0
        invariant
            n + rest@.len() == all_examples.len(),
            all_examples.len() <= usize::MAX,
            rest@ == all_examples.skip(n as int),
            description.summary@ == summary@,
            opt_text(description.usage_guide) == Some(usage_guide@),
            texts(description.constraints@) == strs(constraints@),
            hint_texts(description.error_hints@) == hint_strs(error_hints@),
            texts(description.security_notes@) == strs(security_notes@),
            description.examples@ == all_examples.take(n as int),
        decreases rest.len(),
    {
        let e = rest.remove(0);
        proof {
            assert(e == all_examples[n as int]);
            assert(all_examples.take(n + 1) =~= all_examples.take(n as int).push(e));
            assert(rest@ =~= all_examples.skip(n + 1));
        }
        description = description.with_example(e);
        n = n + 1;
    }
    proof {
        assert(all_examples.take(n as int) =~= all_examples);
    }
    description
}

fn create_description(kind: ToolDescriptionKind) -> (r: ToolDescription)
    ensures
        describes(r, description_data(kind)),
{
    build_description(description_spec(kind))
}

/// Create tool description for terraform plan operation
pub fn create_terraform_plan_description() -> (r: ToolDescription)
    ensures
        describes(r, description_data(ToolDescriptionKind::TerraformPlan)),
{
    create_description(ToolDescriptionKind::TerraformPlan)
}

/// Create tool description for terraform apply operation
pub fn create_terraform_apply_description() -> (r: ToolDescription)
    ensures
        describes(r, description_data(ToolDescriptionKind::TerraformApply)),
{
    create_description(ToolDescriptionKind::TerraformApply)
}

/// Create tool description for terraform validate operation
pub fn create_terraform_validate_description() -> (r: ToolDescription)
    ensures
        describes(r, description_data(ToolDescriptionKind::TerraformValidate)),
{
    create_description(ToolDescriptionKind::TerraformValidate)
}

/// Create tool description for terraform validate detailed operation
pub fn create_terraform_validate_detailed_description() -> (r: ToolDescription)
    ensures
        describes(r, description_data(ToolDescriptionKind::TerraformValidateDetailed)),
{
    create_description(ToolDescriptionKind::TerraformValidateDetailed)
}

/// Create tool description for terraform destroy operation
pub fn create_terraform_destroy_description() -> (r: ToolDescription)
    ensures
        describes(r, description_data(ToolDescriptionKind::TerraformDestroy)),
{
    create_description(ToolDescriptionKind::TerraformDestroy)
}

/// Create tool description for analyzing terraform configurations
pub fn create_terraform_analyze_description() -> (r: ToolDescription)
    ensures
        describes(r, description_data(ToolDescriptionKind::TerraformAnalyze)),
{
    create_description(ToolDescriptionKind::TerraformAnalyze)
}

/// Create tool description for listing terraform resources
pub fn create_list_resources_description() -> (r: ToolDescription)
    ensures
        describes(r, description_data(ToolDescriptionKind::ListResources)),
{
    create_description(ToolDescriptionKind::ListResources)
}

/// Create tool description for getting terraform state
pub fn create_get_state_description() -> (r: ToolDescription)
    ensures
        describes(r, description_data(ToolDescriptionKind::GetState)),
{
    create_description(ToolDescriptionKind::GetState)
}

/// Create tool description for initializing terraform
pub fn create_init_terraform_description() -> (r: ToolDescription)
    ensures
        describes(r, description_data(ToolDescriptionKind::InitTerraform)),
{
    create_description(ToolDescriptionKind::InitTerraform)
}

/// Create tool description for setting terraform directory
pub fn create_set_directory_description() -> (r: ToolDescription)
    ensures
        describes(r, description_data(ToolDescriptionKind::SetDirectory)),
{
    create_description(ToolDescriptionKind::SetDirectory)
}

/// Create tool description for getting security status
pub fn create_security_status_description() -> (r: ToolDescription)
    ensures
        describes(r, description_data(ToolDescriptionKind::SecurityStatus)),
{
    create_description(ToolDescriptionKind::SecurityStatus)
}

/// Tool names with their descriptions, each name once.
#[derive(Debug)]
pub struct ToolDescriptions {
    entries: Vec<(String, ToolDescription)>,
}

/// The tools that have a detailed description, in order, with their kinds.
pub open spec fn described_tools() -> Seq<(Seq<char>, ToolDescriptionKind)> {
    seq![
        ("get_terraform_plan"@, ToolDescriptionKind::TerraformPlan),
        ("apply_terraform"@, ToolDescriptionKind::TerraformApply),
        ("validate_terraform"@, ToolDescriptionKind::TerraformValidate),
        ("validate_terraform_detailed"@, ToolDescriptionKind::TerraformValidateDetailed),
        ("destroy_terraform"@, ToolDescriptionKind::TerraformDestroy),
        ("analyze_terraform"@, ToolDescriptionKind::TerraformAnalyze),
        ("list_terraform_resources"@, ToolDescriptionKind::ListResources),
        ("get_terraform_state"@, ToolDescriptionKind::GetState),
        ("init_terraform"@, ToolDescriptionKind::InitTerraform),
        ("set_terraform_directory"@, ToolDescriptionKind::SetDirectory),
        ("get_security_status"@, ToolDescriptionKind::SecurityStatus)
    ]
}

impl ToolDescriptions {
    /// The names, in order.
    pub closed spec fn names(&self) -> Seq<Seq<char>> {
        Seq::new(self.entries@.len(), |i: int| self.entries@[i].0@)
    }

    /// The description stored at position `i`.
    pub closed spec fn description_at(&self, i: int) -> ToolDescription {
        self.entries@[i].1
    }

    /// How many tools are described.
    pub fn len(&self) -> (r: usize)
        ensures
            r == self.names().len(),
    {
        self.entries.len()
    }

    /// Whether `name` is described.
    pub fn contains_key(&self, name: &str) -> (r: bool)
        ensures
            r == self.names().contains(name@),
    {
        let mut i: usize = 0;
        while i < self.entries.len()
            invariant
                i <= self.entries@.len(),
                forall|k: int| 0 <= k < i ==> #[trigger] self.names()[k] != name@,
            decreases self.entries.len() - i,
        {
            if text_eq(self.entries[i].0.as_str(), name) {
                assert(self.names()[i as int] == name@);
                return true;
            }
            i = i + 1;
        }
        false
    }

    /// The description of `name`.
    pub fn get(&self, name: &str) -> (r: Option<&ToolDescription>)
        ensures
            r is Some <==> self.names().contains(name@),
            r matches Some(d) ==> exists|i: int|
                0 <= i < self.names().len() && self.names()[i] == name@ && *d
                    == #[trigger] self.description_at(i),
    {
        let mut i: usize = 0;
        while i < self.entries.len()
            invariant
                i <= self.entries@.len(),
                forall|k: int| 0 <= k < i ==> #[trigger] self.names()[k] != name@,
            decreases self.entries.len() - i,
        {
            if text_eq(self.entries[i].0.as_str(), name) {
                assert(self.names()[i as int] == name@);
                assert(self.description_at(i as int) == self.entries@[i as int].1);
                return Some(&self.entries[i].1);
            }
            i = i + 1;
        }
        None
    }

    /// The names and descriptions, in order.
    pub fn into_entries(self) -> (r: Vec<(String, ToolDescription)>)
        ensures
            r@.len() == self.names().len(),
            forall|i: int| 0 <= i < r@.len() ==> (#[trigger] r@[i]).0@ == self.names()[i] && r@[i].1 == self.description_at(i),
    {
        self.entries
    }
}

/// Get all improved tool descriptions
pub fn get_all_tool_descriptions() -> (r: ToolDescriptions)
    ensures
        r.names().len() == described_tools().len(),
        forall|i: int|
            0 <= i < described_tools().len() ==> #[trigger] r.names()[i] == described_tools()[i].0
                && describes(r.description_at(i), description_data(described_tools()[i].1)),
{
    let mut entries: Vec<(String, ToolDescription)> = Vec::new();
    entries.push(("get_terraform_plan".to_owned(), create_terraform_plan_description()));
    entries.push(("apply_terraform".to_owned(), create_terraform_apply_description()));
    entries.push(("validate_terraform".to_owned(), create_terraform_validate_description()));
    entries.push(("validate_terraform_detailed".to_owned(), create_terraform_validate_detailed_description()));
    entries.push(("destroy_terraform".to_owned(), create_terraform_destroy_description()));
    entries.push(("analyze_terraform".to_owned(), create_terraform_analyze_description()));
    entries.push(("list_terraform_resources".to_owned(), create_list_resources_description()));
    entries.push(("get_terraform_state".to_owned(), create_get_state_description()));
    entries.push(("init_terraform".to_owned(), create_init_terraform_description()));
    entries.push(("set_terraform_directory".to_owned(), create_set_directory_description()));
    entries.push(("get_security_status".to_owned(), create_security_status_description()));
    let r = ToolDescriptions { entries };
    proof {
        assert forall|i: int|
            0 <= i < described_tools().len() implies #[trigger] r.names()[i] == described_tools()[i].0
                && describes(r.description_at(i), description_data(described_tools()[i].1)) by {
            assert(r.names()[i] == r.entries@[i].0@);
        }
    }
    r
}


/// Every described tool has a summary.
pub proof fn law_every_description_has_summary(kind: ToolDescriptionKind)
    ensures
        description_data(kind).summary.len() > 0,
{
    match kind {
        ToolDescriptionKind::TerraformPlan => {
            reveal_strlit("Execute 'terraform plan' to show changes that would be made to infrastructure");
        },
        ToolDescriptionKind::TerraformApply => {
            reveal_strlit("Apply Terraform configuration to create, update, or delete infrastructure resources");
        },
        ToolDescriptionKind::TerraformValidate => {
            reveal_strlit("Validate Terraform configuration files for syntax and semantic correctness");
        },
        ToolDescriptionKind::TerraformValidateDetailed => {
            reveal_strlit("Perform comprehensive validation with best practice analysis and detailed diagnostics");
        },
        ToolDescriptionKind::TerraformDestroy => {
            reveal_strlit("Destroy all resources defined in the Terraform configuration");
        },
        ToolDescriptionKind::TerraformAnalyze => {
            reveal_strlit("Analyze Terraform configuration files to extract detailed information about resources, variables, and providers");
        },
        ToolDescriptionKind::ListResources => {
            reveal_strlit("List all resources currently managed by Terraform in the state file");
        },
        ToolDescriptionKind::GetState => {
            reveal_strlit("Retrieve the current Terraform state information");
        },
        ToolDescriptionKind::InitTerraform => {
            reveal_strlit("Initialize a Terraform working directory and download required providers");
        },
        ToolDescriptionKind::SetDirectory => {
            reveal_strlit("Change the active Terraform project directory for subsequent operations");
        },
        ToolDescriptionKind::SecurityStatus => {
            reveal_strlit("Get current security policy configuration and operational permissions");
        },
    }
}

/// The tools that change infrastructure, apply and destroy, carry security notes, and
/// apply and analyze come with examples.
pub proof fn law_dangerous_tools_carry_security_notes()
    ensures
        description_data(ToolDescriptionKind::TerraformApply).security_notes.len() > 0,
        description_data(ToolDescriptionKind::TerraformDestroy).security_notes.len() > 0,
        description_data(ToolDescriptionKind::TerraformApply).examples.len() > 0,
        description_data(ToolDescriptionKind::TerraformAnalyze).examples.len() > 0,
{
}

} // verus!
