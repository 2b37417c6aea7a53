//! Which MCP tools a server exposes, chosen by toolset names or an explicit list.
use crate::text::{text_eq, texts};
use vstd::prelude::*;

verus! {

/// The tools of the `terraform` toolset.
pub open spec fn terraform_toolset() -> Seq<Seq<char>> {
    seq![
        "init_terraform"@,
        "get_terraform_plan"@,
        "apply_terraform"@,
        "destroy_terraform"@,
        "validate_terraform"@,
        "validate_terraform_detailed"@,
        "get_terraform_state"@,
        "inspect_terraform_project"@,
        "detect_terraform_entrypoints"@,
        "list_terraform_resources"@,
        "set_terraform_directory"@,
        "terraform_workspace"@,
        "terraform_fmt"@,
        "terraform_graph"@,
        "terraform_output"@,
        "terraform_providers"@,
        "run_terraform_quality_checks"@,
        "inspect_state_safety"@,
        "detect_drift_candidates"@,
        "prepare_terraform_change"@,
        "terraform_import"@,
        "terraform_taint"@,
        "terraform_refresh"@,
        "get_token_permissions"@,
        "list_terraform_orgs"@,
        "list_terraform_projects"@,
        "list_workspaces"@,
        "get_workspace_details"@,
        "list_runs"@,
        "get_run_details"@,
        "get_plan_details"@,
        "get_plan_logs"@,
        "get_plan_json_output"@,
        "get_apply_details"@,
        "get_apply_logs"@,
        "get_workspace_policy_sets"@,
        "list_workspace_variables"@,
        "list_variable_sets"@,
        "read_workspace_tags"@,
        "list_stacks"@,
        "get_stack_details"@,
    ]
}

fn terraform_tools() -> (r: Vec<&'static str>)
    ensures
        strs(r@) == terraform_toolset(),
{
    let r = vec![
        "init_terraform",
        "get_terraform_plan",
        "apply_terraform",
        "destroy_terraform",
        "validate_terraform",
        "validate_terraform_detailed",
        "get_terraform_state",
        "inspect_terraform_project",
        "detect_terraform_entrypoints",
        "list_terraform_resources",
        "set_terraform_directory",
        "terraform_workspace",
        "terraform_fmt",
        "terraform_graph",
        "terraform_output",
        "terraform_providers",
        "run_terraform_quality_checks",
        "inspect_state_safety",
        "detect_drift_candidates",
        "prepare_terraform_change",
        "terraform_import",
        "terraform_taint",
        "terraform_refresh",
        "get_token_permissions",
        "list_terraform_orgs",
        "list_terraform_projects",
        "list_workspaces",
        "get_workspace_details",
        "list_runs",
        "get_run_details",
        "get_plan_details",
        "get_plan_logs",
        "get_plan_json_output",
        "get_apply_details",
        "get_apply_logs",
        "get_workspace_policy_sets",
        "list_workspace_variables",
        "list_variable_sets",
        "read_workspace_tags",
        "list_stacks",
        "get_stack_details",
    ];
    proof {
        assert(strs(r@) =~= terraform_toolset());
    }
    r
}

/// The tools of the `registry` toolset.
pub open spec fn registry_toolset() -> Seq<Seq<char>> {
    seq![
        "search_providers"@,
        "search_terraform_providers"@,
        "get_provider_details"@,
        "get_provider_info"@,
        "get_provider_docs"@,
        "get_provider_capabilities"@,
        "search_modules"@,
        "search_terraform_modules"@,
        "get_module_details"@,
        "get_latest_module_version"@,
        "get_latest_provider_version"@,
        "search_policies"@,
        "get_policy_details"@,
        "search_private_modules"@,
        "get_private_module_details"@,
        "search_private_providers"@,
        "get_private_provider_details"@,
    ]
}

fn registry_tools() -> (r: Vec<&'static str>)
    ensures
        strs(r@) == registry_toolset(),
{
    let r = vec![
        "search_providers",
        "search_terraform_providers",
        "get_provider_details",
        "get_provider_info",
        "get_provider_docs",
        "get_provider_capabilities",
        "search_modules",
        "search_terraform_modules",
        "get_module_details",
        "get_latest_module_version",
        "get_latest_provider_version",
        "search_policies",
        "get_policy_details",
        "search_private_modules",
        "get_private_module_details",
        "search_private_providers",
        "get_private_provider_details",
    ];
    proof {
        assert(strs(r@) =~= registry_toolset());
    }
    r
}

/// The tools of the `registry-private` toolset.
pub open spec fn registry_private_toolset() -> Seq<Seq<char>> {
    seq![
        "search_private_modules"@,
        "get_private_module_details"@,
        "search_private_providers"@,
        "get_private_provider_details"@,
    ]
}

fn registry_private_tools() -> (r: Vec<&'static str>)
    ensures
        strs(r@) == registry_private_toolset(),
{
    let r = vec![
        "search_private_modules",
        "get_private_module_details",
        "search_private_providers",
        "get_private_provider_details",
    ];
    proof {
        assert(strs(r@) =~= registry_private_toolset());
    }
    r
}

/// The tools of the `analysis` toolset.
pub open spec fn analysis_toolset() -> Seq<Seq<char>> {
    seq![
        "analyze_terraform"@,
        "analyze_module_health"@,
        "get_resource_dependency_graph"@,
        "suggest_module_refactoring"@,
        "get_security_status"@,
        "analyze_plan"@,
        "review_terraform_plan"@,
        "summarize_plan_for_pr"@,
        "check_provider_lockfile"@,
        "run_terraform_quality_checks"@,
        "inspect_state_safety"@,
        "detect_drift_candidates"@,
        "prepare_terraform_change"@,
        "analyze_state"@,
        "inspect_terraform_project"@,
        "detect_terraform_entrypoints"@,
    ]
}

fn analysis_tools() -> (r: Vec<&'static str>)
    ensures
        strs(r@) == analysis_toolset(),
{
    let r = vec![
        "analyze_terraform",
        "analyze_module_health",
        "get_resource_dependency_graph",
        "suggest_module_refactoring",
        "get_security_status",
        "analyze_plan",
        "review_terraform_plan",
        "summarize_plan_for_pr",
        "check_provider_lockfile",
        "run_terraform_quality_checks",
        "inspect_state_safety",
        "detect_drift_candidates",
        "prepare_terraform_change",
        "analyze_state",
        "inspect_terraform_project",
        "detect_terraform_entrypoints",
    ];
    proof {
        assert(strs(r@) =~= analysis_toolset());
    }
    r
}

/// The tools of the `operations` toolset.
pub open spec fn operations_toolset() -> Seq<Seq<char>> {
    seq![
        "create_workspace"@,
        "update_workspace"@,
        "delete_workspace_safely"@,
        "create_run"@,
        "action_run"@,
        "create_workspace_variable"@,
        "update_workspace_variable"@,
        "attach_policy_set_to_workspace"@,
        "create_variable_set"@,
        "create_variable_in_variable_set"@,
        "delete_variable_in_variable_set"@,
        "attach_variable_set_to_workspaces"@,
        "detach_variable_set_from_workspaces"@,
        "create_workspace_tags"@,
    ]
}

fn operations_tools() -> (r: Vec<&'static str>)
    ensures
        strs(r@) == operations_toolset(),
{
    let r = vec![
        "create_workspace",
        "update_workspace",
        "delete_workspace_safely",
        "create_run",
        "action_run",
        "create_workspace_variable",
        "update_workspace_variable",
        "attach_policy_set_to_workspace",
        "create_variable_set",
        "create_variable_in_variable_set",
        "delete_variable_in_variable_set",
        "attach_variable_set_to_workspaces",
        "detach_variable_set_from_workspaces",
        "create_workspace_tags",
    ];
    proof {
        assert(strs(r@) =~= operations_toolset());
    }
    r
}

/// The tools of the `default` toolset.
pub open spec fn default_toolset() -> Seq<Seq<char>> {
    seq![
        "search_providers"@,
        "get_provider_details"@,
        "get_provider_capabilities"@,
        "get_latest_provider_version"@,
        "search_modules"@,
        "get_module_details"@,
        "get_latest_module_version"@,
        "search_policies"@,
        "get_policy_details"@,
        "inspect_terraform_project"@,
        "detect_terraform_entrypoints"@,
        "analyze_terraform"@,
        "analyze_module_health"@,
        "review_terraform_plan"@,
        "summarize_plan_for_pr"@,
        "check_provider_lockfile"@,
        "run_terraform_quality_checks"@,
        "inspect_state_safety"@,
        "detect_drift_candidates"@,
        "prepare_terraform_change"@,
        "validate_terraform"@,
        "validate_terraform_detailed"@,
        "get_security_status"@,
        "get_token_permissions"@,
        "list_terraform_orgs"@,
        "list_terraform_projects"@,
        "list_workspaces"@,
        "get_workspace_details"@,
        "list_runs"@,
        "get_run_details"@,
        "get_plan_details"@,
        "get_apply_details"@,
        "get_workspace_policy_sets"@,
        "list_workspace_variables"@,
        "list_variable_sets"@,
        "read_workspace_tags"@,
        "list_stacks"@,
        "get_stack_details"@,
        "search_private_modules"@,
        "get_private_module_details"@,
        "search_private_providers"@,
        "get_private_provider_details"@,
    ]
}

fn default_tools() -> (r: Vec<&'static str>)
    ensures
        strs(r@) == default_toolset(),
{
    let r = vec![
        "search_providers",
        "get_provider_details",
        "get_provider_capabilities",
        "get_latest_provider_version",
        "search_modules",
        "get_module_details",
        "get_latest_module_version",
        "search_policies",
        "get_policy_details",
        "inspect_terraform_project",
        "detect_terraform_entrypoints",
        "analyze_terraform",
        "analyze_module_health",
        "review_terraform_plan",
        "summarize_plan_for_pr",
        "check_provider_lockfile",
        "run_terraform_quality_checks",
        "inspect_state_safety",
        "detect_drift_candidates",
        "prepare_terraform_change",
        "validate_terraform",
        "validate_terraform_detailed",
        "get_security_status",
        "get_token_permissions",
        "list_terraform_orgs",
        "list_terraform_projects",
        "list_workspaces",
        "get_workspace_details",
        "list_runs",
        "get_run_details",
        "get_plan_details",
        "get_apply_details",
        "get_workspace_policy_sets",
        "list_workspace_variables",
        "list_variable_sets",
        "read_workspace_tags",
        "list_stacks",
        "get_stack_details",
        "search_private_modules",
        "get_private_module_details",
        "search_private_providers",
        "get_private_provider_details",
    ];
    proof {
        assert(strs(r@) =~= default_toolset());
    }
    r
}
proof fn lemma_concat_to_set(a: Seq<Seq<char>>, b: Seq<Seq<char>>)
    ensures
        (a + b).to_set() == a.to_set().union(b.to_set()),
{
    assert forall|x: Seq<char>| (a + b).to_set().contains(x) <==> a.to_set().union(
        b.to_set(),
    ).contains(x) by {
        if (a + b).contains(x) {
            let w = choose|w: int| 0 <= w < (a + b).len() && (a + b)[w] == x;
            if w < a.len() {
                assert(a[w] == x);
            } else {
                assert(b[w - a.len()] == x);
            }
        }
        if a.contains(x) {
            let w = choose|w: int| 0 <= w < a.len() && a[w] == x;
            assert((a + b)[w] == x);
        }
        if b.contains(x) {
            let w = choose|w: int| 0 <= w < b.len() && b[w] == x;
            assert((a + b)[w + a.len()] == x);
        }
    }
    assert((a + b).to_set() =~= a.to_set().union(b.to_set()));
}

/// The view of a list of string slices as a sequence of texts.
pub open spec fn strs(v: Seq<&str>) -> Seq<Seq<char>> {
    Seq::new(v.len(), |i: int| v[i]@)
}

/// The tools a recognized toolset name stands for; `None` for `all` and for unknown
/// names.
pub open spec fn toolset_tools(name: Seq<char>) -> Option<Seq<Seq<char>>> {
    if name == "terraform"@ {
        Some(terraform_toolset())
    } else if name == "registry"@ {
        Some(registry_toolset())
    } else if name == "registry-private"@ {
        Some(registry_private_toolset())
    } else if name == "default"@ {
        Some(default_toolset())
    } else if name == "analysis"@ {
        Some(analysis_toolset())
    } else if name == "operations"@ {
        Some(operations_toolset())
    } else {
        None
    }
}

/// The tools of all recognized toolsets among `toolsets`.
pub open spec fn toolsets_union(toolsets: Seq<Seq<char>>) -> Set<Seq<char>>
    decreases toolsets.len(),
{
    if toolsets.len() == 0 {
        Set::empty()
    } else {
        toolsets_union(toolsets.drop_last()).union(
            match toolset_tools(toolsets.last()) {
                Some(t) => t.to_set(),
                None => Set::empty(),
            },
        )
    }
}

/// The enabled tools that the command line selects (`None`: every tool). An explicit
/// tool list wins; otherwise `all` anywhere enables everything, no toolset at all
/// enables everything, and else the recognized toolsets' tools are enabled (unknown
/// names add none).
pub open spec fn from_cli_spec(toolsets: Seq<Seq<char>>, tools: Option<Seq<Seq<char>>>) -> Option<
    Set<Seq<char>>,
> {
    match tools {
        Some(t) => Some(t.to_set()),
        None => if toolsets.contains("all"@) || toolsets.len() == 0 {
            None
        } else {
            Some(toolsets_union(toolsets))
        },
    }
}

/// Tool filtering configuration.
#[derive(Clone, Debug)]
pub struct ToolFilter {
    enabled_tools: Option<Vec<String>>,
}

impl View for ToolFilter {
    type V = Option<Set<Seq<char>>>;

    closed spec fn view(&self) -> Option<Set<Seq<char>>> {
        match self.enabled_tools {
            Some(v) => Some(texts(v@).to_set()),
            None => None,
        }
    }
}

/// Whether the filter with view `f` enables `tool`.
pub open spec fn enables(f: Option<Set<Seq<char>>>, tool: Seq<char>) -> bool {
    match f {
        None => true,
        Some(s) => s.contains(tool),
    }
}

fn add_tools(enabled: &mut Vec<String>, tools: &Vec<&'static str>)
    ensures
        texts(final(enabled)@) == texts(old(enabled)@) + strs(tools@),
{
    let mut i: usize = 0;
    while i < tools.len()
        invariant
            i <= tools@.len(),
            texts(enabled@) == texts(old(enabled)@) + strs(tools@).take(i as int),
        decreases tools.len() - i,
    {
        let ghost before = enabled@;
        enabled.push(tools[i].to_owned());
        proof {
            assert(texts(enabled@) =~= texts(before).push(tools@[i as int]@));
            assert(strs(tools@).take(i + 1) =~= strs(tools@).take(i as int).push(tools@[i as int]@));
        }
        i = i + 1;
    }
    proof {
        assert(strs(tools@).take(tools@.len() as int) =~= strs(tools@));
    }
}

/// The tools of a recognized toolset name.
fn toolset_for(name: &str) -> (r: Option<Vec<&'static str>>)
    ensures
        match toolset_tools(name@) {
            Some(t) => r matches Some(v) && strs(v@) == t,
            None => r is None,
        },
{
    if text_eq(name, "terraform") {
        Some(terraform_tools())
    } else if text_eq(name, "registry") {
        Some(registry_tools())
    } else if text_eq(name, "registry-private") {
        Some(registry_private_tools())
    } else if text_eq(name, "default") {
        Some(default_tools())
    } else if text_eq(name, "analysis") {
        Some(analysis_tools())
    } else if text_eq(name, "operations") {
        Some(operations_tools())
    } else {
        None
    }
}

impl ToolFilter {
    /// Create a filter that enables all tools.
    pub fn all() -> (r: Self)
        ensures
            r@ is None,
    {
        ToolFilter { enabled_tools: None }
    }

    /// Create a filter from toolset categories and optional individual tool list.
    pub fn from_cli(toolsets: &[String], tools: Option<&[String]>) -> (r: Self)
        ensures
            r@ == from_cli_spec(
                texts(toolsets@),
                match tools {
                    Some(t) => Some(texts(t@)),
                    None => None,
                },
            ),
    {
        if let Some(tool_list) = tools {
            let mut v: Vec<String> = Vec::new();
            let mut i: usize = 0;
            while i < tool_list.len()
                invariant
                    i <= tool_list@.len(),
                    texts(v@) == texts(tool_list@).take(i as int),
                decreases tool_list.len() - i,
            {
                let ghost before = v@;
                v.push(tool_list[i].clone());
                proof {
                    assert(texts(v@) =~= texts(before).push(tool_list@[i as int]@));
                    assert(texts(tool_list@).take(i + 1) =~= texts(tool_list@).take(i as int).push(
                        tool_list@[i as int]@,
                    ));
                }
                i = i + 1;
            }
            proof {
                assert(texts(tool_list@).take(tool_list@.len() as int) =~= texts(tool_list@));
            }
            return ToolFilter { enabled_tools: Some(v) };
        }
        let ghost ts = texts(toolsets@);
        let mut enabled: Vec<String> = Vec::new();
        let mut recognized_toolset = false;
        let mut i: usize = 0;
        while i < toolsets.len()
            invariant
                i <= toolsets@.len(),
                ts == texts(toolsets@),
                tools is None,
                texts(enabled@).to_set() == toolsets_union(ts.take(i as int)),
                forall|k: int| 0 <= k < i ==> #[trigger] ts[k] != "all"@,
            decreases toolsets.len() - i,
        {
            proof {
                assert(ts.take(i + 1).drop_last() =~= ts.take(i as int));
                assert(ts.take(i + 1).last() == toolsets@[i as int]@);
            }
            if text_eq(toolsets[i].as_str(), "all") {
                proof {
                    assert(ts[i as int] == "all"@);
                    assert(ts.contains("all"@));
                }
                return Self::all();
            }
            let ghost before = texts(enabled@);
            match toolset_for(toolsets[i].as_str()) {
                Some(list) => {
                    recognized_toolset = true;
                    add_tools(&mut enabled, &list);
                    proof {
                        lemma_concat_to_set(before, strs(list@));
                    }
                },
                None => {
                    proof {
                        assert(toolsets_union(ts.take(i + 1)) =~= toolsets_union(ts.take(i as int)));
                    }
                },
            }
            i = i + 1;
        }
        proof {
            assert(ts.take(toolsets@.len() as int) =~= ts);
            if ts.contains("all"@) {
                let w = choose|w: int| 0 <= w < ts.len() && #[trigger] ts[w] == "all"@;
                assert(ts[w] != "all"@);
            }
        }
        if toolsets.len() == 0 {
            Self::all()
        } else {
            ToolFilter { enabled_tools: Some(enabled) }
        }
    }

    /// Check if a tool is enabled.
    pub fn is_enabled(&self, tool_name: &str) -> (r: bool)
        ensures
            r == enables(self@, tool_name@),
    {
        match &self.enabled_tools {
            None => true,
            Some(set) => {
                let mut i: usize = 0;
                while i < set.len()
                    invariant
                        i <= set@.len(),
                        self@ == Some(texts(set@).to_set()),
                        forall|k: int| 0 <= k < i ==> #[trigger] texts(set@)[k] != tool_name@,
                    decreases set.len() - i,
                {
                    if text_eq(set[i].as_str(), tool_name) {
                        proof {
                            assert(texts(set@)[i as int] == tool_name@);
                            assert(texts(set@).contains(tool_name@));
                        }
                        return true;
                    }
                    i = i + 1;
                }
                false
            },
        }
    }
}


proof fn lemma_union_has_member_tools(ts: Seq<Seq<char>>, k: int)
    requires
        0 <= k < ts.len(),
        toolset_tools(ts[k]) is Some,
    ensures
        toolset_tools(ts[k]).unwrap().to_set().subset_of(toolsets_union(ts)),
    decreases ts.len(),
{
    if k < ts.len() - 1 {
        assert(ts.drop_last()[k] == ts[k]);
        lemma_union_has_member_tools(ts.drop_last(), k);
    }
}

/// An explicit tool list enables exactly the listed tools, whatever the toolsets say.
pub proof fn law_explicit_tools_win(toolsets: Seq<Seq<char>>, tools: Seq<Seq<char>>, tool: Seq<char>)
    ensures
        enables(from_cli_spec(toolsets, Some(tools)), tool) == tools.contains(tool),
{
}

/// Without an explicit list, naming `all`, or naming no toolset, enables every tool.
pub proof fn law_all_enables_everything(toolsets: Seq<Seq<char>>, tool: Seq<char>)
    requires
        toolsets.contains("all"@) || toolsets.len() == 0,
    ensures
        enables(from_cli_spec(toolsets, None), tool),
{
}

/// A named toolset enables each of its tools.
pub proof fn law_toolset_enables_its_tools(toolsets: Seq<Seq<char>>, k: int, tool: Seq<char>)
    requires
        0 <= k < toolsets.len(),
        toolset_tools(toolsets[k]) matches Some(t) && t.contains(tool),
    ensures
        enables(from_cli_spec(toolsets, None), tool),
{
    if !toolsets.contains("all"@) {
        lemma_union_has_member_tools(toolsets, k);
        assert(toolset_tools(toolsets[k]).unwrap().to_set().contains(tool));
    }
}

/// The `registry` toolset includes every tool of `registry-private`.
pub proof fn law_registry_covers_private_registry(tool: Seq<char>)
    requires
        registry_private_toolset().contains(tool),
    ensures
        registry_toolset().contains(tool),
{
    let p = registry_private_toolset();
    let r = registry_toolset();
    let w = choose|w: int| 0 <= w < p.len() && p[w] == tool;
    assert(r[w + 13] == p[w]);
}

/// Toolset names that are all unknown enable no tool at all.
pub proof fn law_unknown_toolsets_enable_nothing(toolsets: Seq<Seq<char>>, tool: Seq<char>)
    requires
        toolsets.len() > 0,
        forall|k: int| 0 <= k < toolsets.len() ==> toolset_tools(#[trigger] toolsets[k]) is None && toolsets[k] != "all"@,
    ensures
        !enables(from_cli_spec(toolsets, None), tool),
    decreases toolsets.len(),
{
    if toolsets.contains("all"@) {
        let w = choose|w: int| 0 <= w < toolsets.len() && toolsets[w] == "all"@;
        assert(toolsets[w] != "all"@);
    }
    lemma_union_of_unknown_is_empty(toolsets);
}

proof fn lemma_union_of_unknown_is_empty(toolsets: Seq<Seq<char>>)
    requires
        forall|k: int| 0 <= k < toolsets.len() ==> toolset_tools(#[trigger] toolsets[k]) is None,
    ensures
        toolsets_union(toolsets) == Set::<Seq<char>>::empty(),
    decreases toolsets.len(),
{
    if toolsets.len() > 0 {
        let p = toolsets.drop_last();
        assert forall|k: int| 0 <= k < p.len() implies toolset_tools(#[trigger] p[k]) is None by {
            assert(p[k] == toolsets[k]);
        }
        lemma_union_of_unknown_is_empty(p);
        assert(toolset_tools(toolsets[toolsets.len() - 1]) is None);
        assert(toolsets_union(toolsets) =~= Set::<Seq<char>>::empty());
    }
}

proof fn lemma_union_member_source(ts: Seq<Seq<char>>, x: Seq<char>)
    requires
        toolsets_union(ts).contains(x),
    ensures
        exists|k: int|
            0 <= k < ts.len() && toolset_tools(#[trigger] ts[k]) is Some && toolset_tools(
                ts[k],
            ).unwrap().to_set().contains(x),
    decreases ts.len(),
{
    let p = ts.drop_last();
    if toolsets_union(p).contains(x) {
        lemma_union_member_source(p, x);
        let k = choose|k: int|
            0 <= k < p.len() && toolset_tools(#[trigger] p[k]) is Some && toolset_tools(
                p[k],
            ).unwrap().to_set().contains(x);
        assert(ts[k] == p[k]);
    } else {
        assert(ts[ts.len() - 1] == ts.last());
    }
}

/// Naming one more toolset never disables a tool that a non-empty list of toolsets
/// enabled.
pub proof fn law_more_toolsets_enable_more(toolsets: Seq<Seq<char>>, extra: Seq<char>, tool: Seq<char>)
    requires
        toolsets.len() > 0,
        enables(from_cli_spec(toolsets, None), tool),
    ensures
        enables(from_cli_spec(toolsets.push(extra), None), tool),
{
    let longer = toolsets.push(extra);
    assert(longer.drop_last() =~= toolsets);
    if toolsets.contains("all"@) {
        let w = choose|w: int| 0 <= w < toolsets.len() && toolsets[w] == "all"@;
        assert(longer[w] == "all"@);
    } else if extra == "all"@ {
        assert(longer[longer.len() - 1] == "all"@);
    }
}

/// The order in which toolsets are named does not matter: any rearrangement of the
/// same names enables the same tools.
pub proof fn law_toolset_order_is_irrelevant(
    toolsets: Seq<Seq<char>>,
    rearranged: Seq<Seq<char>>,
    tool: Seq<char>,
)
    requires
        rearranged.to_multiset() == toolsets.to_multiset(),
    ensures
        enables(from_cli_spec(rearranged, None), tool) == enables(from_cli_spec(toolsets, None), tool),
{
    toolsets.to_multiset_ensures();
    rearranged.to_multiset_ensures();
    let all = "all"@;
    assert(toolsets.contains(all) <==> toolsets.to_multiset().count(all) > 0);
    assert(rearranged.contains(all) <==> rearranged.to_multiset().count(all) > 0);
    assert(toolsets.contains(all) == rearranged.contains(all));
    assert forall|a: Seq<Seq<char>>, b: Seq<Seq<char>>|
        a.to_multiset() == b.to_multiset() && #[trigger] toolsets_union(a).contains(tool) implies #[trigger] toolsets_union(b).contains(tool) by {
        a.to_multiset_ensures();
        b.to_multiset_ensures();
        lemma_union_member_source(a, tool);
        let k = choose|k: int|
            0 <= k < a.len() && toolset_tools(#[trigger] a[k]) is Some && toolset_tools(
                a[k],
            ).unwrap().to_set().contains(tool);
        assert(a.contains(a[k]));
        assert(a.to_multiset().count(a[k]) > 0);
        assert(b.to_multiset().count(a[k]) > 0);
        assert(b.contains(a[k]));
        let w = choose|w: int| 0 <= w < b.len() && b[w] == a[k];
        lemma_union_has_member_tools(b, w);
    }
    assert(toolsets_union(rearranged).contains(tool) ==> toolsets_union(toolsets).contains(tool));
    assert(toolsets_union(toolsets).contains(tool) ==> toolsets_union(rearranged).contains(tool));
}

/// Naming only the `terraform` toolset enables exactly its tools, as listed here.
pub proof fn law_terraform_toolset_tools()
    ensures
        from_cli_spec(seq!["terraform"@], None) == Some(
            seq![
            "init_terraform"@,
            "get_terraform_plan"@,
            "apply_terraform"@,
            "destroy_terraform"@,
            "validate_terraform"@,
            "validate_terraform_detailed"@,
            "get_terraform_state"@,
            "inspect_terraform_project"@,
            "detect_terraform_entrypoints"@,
            "list_terraform_resources"@,
            "set_terraform_directory"@,
            "terraform_workspace"@,
            "terraform_fmt"@,
            "terraform_graph"@,
            "terraform_output"@,
            "terraform_providers"@,
            "run_terraform_quality_checks"@,
            "inspect_state_safety"@,
            "detect_drift_candidates"@,
            "prepare_terraform_change"@,
            "terraform_import"@,
            "terraform_taint"@,
            "terraform_refresh"@,
            "get_token_permissions"@,
            "list_terraform_orgs"@,
            "list_terraform_projects"@,
            "list_workspaces"@,
            "get_workspace_details"@,
            "list_runs"@,
            "get_run_details"@,
            "get_plan_details"@,
            "get_plan_logs"@,
            "get_plan_json_output"@,
            "get_apply_details"@,
            "get_apply_logs"@,
            "get_workspace_policy_sets"@,
            "list_workspace_variables"@,
            "list_variable_sets"@,
            "read_workspace_tags"@,
            "list_stacks"@,
            "get_stack_details"@,
            ].to_set(),
        ),
{
    reveal_strlit("terraform");
    reveal_strlit("all");
    assert("terraform"@.len() != "all"@.len());
    let ts = seq!["terraform"@];
    assert(ts.drop_last() =~= Seq::<Seq<char>>::empty());
    assert(ts.last() == "terraform"@);
    assert(!ts.contains("all"@));
    assert(terraform_toolset() =~= seq![
            "init_terraform"@,
            "get_terraform_plan"@,
            "apply_terraform"@,
            "destroy_terraform"@,
            "validate_terraform"@,
            "validate_terraform_detailed"@,
            "get_terraform_state"@,
            "inspect_terraform_project"@,
            "detect_terraform_entrypoints"@,
            "list_terraform_resources"@,
            "set_terraform_directory"@,
            "terraform_workspace"@,
            "terraform_fmt"@,
            "terraform_graph"@,
            "terraform_output"@,
            "terraform_providers"@,
            "run_terraform_quality_checks"@,
            "inspect_state_safety"@,
            "detect_drift_candidates"@,
            "prepare_terraform_change"@,
            "terraform_import"@,
            "terraform_taint"@,
            "terraform_refresh"@,
            "get_token_permissions"@,
            "list_terraform_orgs"@,
            "list_terraform_projects"@,
            "list_workspaces"@,
            "get_workspace_details"@,
            "list_runs"@,
            "get_run_details"@,
            "get_plan_details"@,
            "get_plan_logs"@,
            "get_plan_json_output"@,
            "get_apply_details"@,
            "get_apply_logs"@,
            "get_workspace_policy_sets"@,
            "list_workspace_variables"@,
            "list_variable_sets"@,
            "read_workspace_tags"@,
            "list_stacks"@,
            "get_stack_details"@,
        ]);
    assert(toolsets_union(ts.drop_last()) == Set::<Seq<char>>::empty());
    assert(toolset_tools(ts.last()) == Some(terraform_toolset()));
    assert(toolsets_union(ts) =~= Set::<Seq<char>>::empty().union(terraform_toolset().to_set()));
}

/// Naming only the `registry` toolset enables exactly its tools, as listed here.
pub proof fn law_registry_toolset_tools()
    ensures
        from_cli_spec(seq!["registry"@], None) == Some(
            seq![
            "search_providers"@,
            "search_terraform_providers"@,
            "get_provider_details"@,
            "get_provider_info"@,
            "get_provider_docs"@,
            "get_provider_capabilities"@,
            "search_modules"@,
            "search_terraform_modules"@,
            "get_module_details"@,
            "get_latest_module_version"@,
            "get_latest_provider_version"@,
            "search_policies"@,
            "get_policy_details"@,
            "search_private_modules"@,
            "get_private_module_details"@,
            "search_private_providers"@,
            "get_private_provider_details"@,
            ].to_set(),
        ),
{
    reveal_strlit("registry");
    reveal_strlit("all");
    assert("registry"@.len() != "all"@.len());
    reveal_strlit("terraform");
    assert("registry"@.len() != "terraform"@.len());
    let ts = seq!["registry"@];
    assert(ts.drop_last() =~= Seq::<Seq<char>>::empty());
    assert(ts.last() == "registry"@);
    assert(!ts.contains("all"@));
    assert(registry_toolset() =~= seq![
            "search_providers"@,
            "search_terraform_providers"@,
            "get_provider_details"@,
            "get_provider_info"@,
            "get_provider_docs"@,
            "get_provider_capabilities"@,
            "search_modules"@,
            "search_terraform_modules"@,
            "get_module_details"@,
            "get_latest_module_version"@,
            "get_latest_provider_version"@,
            "search_policies"@,
            "get_policy_details"@,
            "search_private_modules"@,
            "get_private_module_details"@,
            "search_private_providers"@,
            "get_private_provider_details"@,
        ]);
    assert(toolsets_union(ts.drop_last()) == Set::<Seq<char>>::empty());
    assert(toolset_tools(ts.last()) == Some(registry_toolset()));
    assert(toolsets_union(ts) =~= Set::<Seq<char>>::empty().union(registry_toolset().to_set()));
}

/// Naming only the `registry-private` toolset enables exactly its tools, as listed here.
pub proof fn law_registry_private_toolset_tools()
    ensures
        from_cli_spec(seq!["registry-private"@], None) == Some(
            seq![
            "search_private_modules"@,
            "get_private_module_details"@,
            "search_private_providers"@,
            "get_private_provider_details"@,
            ].to_set(),
        ),
{
    reveal_strlit("registry-private");
    reveal_strlit("all");
    assert("registry-private"@.len() != "all"@.len());
    reveal_strlit("terraform");
    assert("registry-private"@.len() != "terraform"@.len());
    reveal_strlit("registry");
    assert("registry-private"@.len() != "registry"@.len());
    let ts = seq!["registry-private"@];
    assert(ts.drop_last() =~= Seq::<Seq<char>>::empty());
    assert(ts.last() == "registry-private"@);
    assert(!ts.contains("all"@));
    assert(registry_private_toolset() =~= seq![
            "search_private_modules"@,
            "get_private_module_details"@,
            "search_private_providers"@,
            "get_private_provider_details"@,
        ]);
    assert(toolsets_union(ts.drop_last()) == Set::<Seq<char>>::empty());
    assert(toolset_tools(ts.last()) == Some(registry_private_toolset()));
    assert(toolsets_union(ts) =~= Set::<Seq<char>>::empty().union(registry_private_toolset().to_set()));
}

/// Naming only the `default` toolset enables exactly its tools, as listed here.
pub proof fn law_default_toolset_tools()
    ensures
        from_cli_spec(seq!["default"@], None) == Some(
            seq![
            "search_providers"@,
            "get_provider_details"@,
            "get_provider_capabilities"@,
            "get_latest_provider_version"@,
            "search_modules"@,
            "get_module_details"@,
            "get_latest_module_version"@,
            "search_policies"@,
            "get_policy_details"@,
            "inspect_terraform_project"@,
            "detect_terraform_entrypoints"@,
            "analyze_terraform"@,
            "analyze_module_health"@,
            "review_terraform_plan"@,
            "summarize_plan_for_pr"@,
            "check_provider_lockfile"@,
            "run_terraform_quality_checks"@,
            "inspect_state_safety"@,
            "detect_drift_candidates"@,
            "prepare_terraform_change"@,
            "validate_terraform"@,
            "validate_terraform_detailed"@,
            "get_security_status"@,
            "get_token_permissions"@,
            "list_terraform_orgs"@,
            "list_terraform_projects"@,
            "list_workspaces"@,
            "get_workspace_details"@,
            "list_runs"@,
            "get_run_details"@,
            "get_plan_details"@,
            "get_apply_details"@,
            "get_workspace_policy_sets"@,
            "list_workspace_variables"@,
            "list_variable_sets"@,
            "read_workspace_tags"@,
            "list_stacks"@,
            "get_stack_details"@,
            "search_private_modules"@,
            "get_private_module_details"@,
            "search_private_providers"@,
            "get_private_provider_details"@,
            ].to_set(),
        ),
{
    reveal_strlit("default");
    reveal_strlit("all");
    assert("default"@.len() != "all"@.len());
    reveal_strlit("terraform");
    assert("default"@.len() != "terraform"@.len());
    reveal_strlit("registry");
    assert("default"@.len() != "registry"@.len());
    reveal_strlit("registry-private");
    assert("default"@.len() != "registry-private"@.len());
    let ts = seq!["default"@];
    assert(ts.drop_last() =~= Seq::<Seq<char>>::empty());
    assert(ts.last() == "default"@);
    assert(!ts.contains("all"@));
    assert(default_toolset() =~= seq![
            "search_providers"@,
            "get_provider_details"@,
            "get_provider_capabilities"@,
            "get_latest_provider_version"@,
            "search_modules"@,
            "get_module_details"@,
            "get_latest_module_version"@,
            "search_policies"@,
            "get_policy_details"@,
            "inspect_terraform_project"@,
            "detect_terraform_entrypoints"@,
            "analyze_terraform"@,
            "analyze_module_health"@,
            "review_terraform_plan"@,
            "summarize_plan_for_pr"@,
            "check_provider_lockfile"@,
            "run_terraform_quality_checks"@,
            "inspect_state_safety"@,
            "detect_drift_candidates"@,
            "prepare_terraform_change"@,
            "validate_terraform"@,
            "validate_terraform_detailed"@,
            "get_security_status"@,
            "get_token_permissions"@,
            "list_terraform_orgs"@,
            "list_terraform_projects"@,
            "list_workspaces"@,
            "get_workspace_details"@,
            "list_runs"@,
            "get_run_details"@,
            "get_plan_details"@,
            "get_apply_details"@,
            "get_workspace_policy_sets"@,
            "list_workspace_variables"@,
            "list_variable_sets"@,
            "read_workspace_tags"@,
            "list_stacks"@,
            "get_stack_details"@,
            "search_private_modules"@,
            "get_private_module_details"@,
            "search_private_providers"@,
            "get_private_provider_details"@,
        ]);
    assert(toolsets_union(ts.drop_last()) == Set::<Seq<char>>::empty());
    assert(toolset_tools(ts.last()) == Some(default_toolset()));
    assert(toolsets_union(ts) =~= Set::<Seq<char>>::empty().union(default_toolset().to_set()));
}

/// Naming only the `analysis` toolset enables exactly its tools, as listed here.
pub proof fn law_analysis_toolset_tools()
    ensures
        from_cli_spec(seq!["analysis"@], None) == Some(
            seq![
            "analyze_terraform"@,
            "analyze_module_health"@,
            "get_resource_dependency_graph"@,
            "suggest_module_refactoring"@,
            "get_security_status"@,
            "analyze_plan"@,
            "review_terraform_plan"@,
            "summarize_plan_for_pr"@,
            "check_provider_lockfile"@,
            "run_terraform_quality_checks"@,
            "inspect_state_safety"@,
            "detect_drift_candidates"@,
            "prepare_terraform_change"@,
            "analyze_state"@,
            "inspect_terraform_project"@,
            "detect_terraform_entrypoints"@,
            ].to_set(),
        ),
{
    reveal_strlit("analysis");
    reveal_strlit("all");
    assert("analysis"@.len() != "all"@.len());
    reveal_strlit("terraform");
    assert("analysis"@.len() != "terraform"@.len());
    reveal_strlit("registry");
    assert("analysis"@[0] != "registry"@[0]);
    reveal_strlit("registry-private");
    assert("analysis"@.len() != "registry-private"@.len());
    reveal_strlit("default");
    assert("analysis"@.len() != "default"@.len());
    let ts = seq!["analysis"@];
    assert(ts.drop_last() =~= Seq::<Seq<char>>::empty());
    assert(ts.last() == "analysis"@);
    assert(!ts.contains("all"@));
    assert(analysis_toolset() =~= seq![
            "analyze_terraform"@,
            "analyze_module_health"@,
            "get_resource_dependency_graph"@,
            "suggest_module_refactoring"@,
            "get_security_status"@,
            "analyze_plan"@,
            "review_terraform_plan"@,
            "summarize_plan_for_pr"@,
            "check_provider_lockfile"@,
            "run_terraform_quality_checks"@,
            "inspect_state_safety"@,
            "detect_drift_candidates"@,
            "prepare_terraform_change"@,
            "analyze_state"@,
            "inspect_terraform_project"@,
            "detect_terraform_entrypoints"@,
        ]);
    assert(toolsets_union(ts.drop_last()) == Set::<Seq<char>>::empty());
    assert(toolset_tools(ts.last()) == Some(analysis_toolset()));
    assert(toolsets_union(ts) =~= Set::<Seq<char>>::empty().union(analysis_toolset().to_set()));
}

/// Naming only the `operations` toolset enables exactly its tools, as listed here.
pub proof fn law_operations_toolset_tools()
    ensures
        from_cli_spec(seq!["operations"@], None) == Some(
            seq![
            "create_workspace"@,
            "update_workspace"@,
            "delete_workspace_safely"@,
            "create_run"@,
            "action_run"@,
            "create_workspace_variable"@,
            "update_workspace_variable"@,
            "attach_policy_set_to_workspace"@,
            "create_variable_set"@,
            "create_variable_in_variable_set"@,
            "delete_variable_in_variable_set"@,
            "attach_variable_set_to_workspaces"@,
            "detach_variable_set_from_workspaces"@,
            "create_workspace_tags"@,
            ].to_set(),
        ),
{
    reveal_strlit("operations");
    reveal_strlit("all");
    assert("operations"@.len() != "all"@.len());
    reveal_strlit("terraform");
    assert("operations"@.len() != "terraform"@.len());
    reveal_strlit("registry");
    assert("operations"@.len() != "registry"@.len());
    reveal_strlit("registry-private");
    assert("operations"@.len() != "registry-private"@.len());
    reveal_strlit("default");
    assert("operations"@.len() != "default"@.len());
    reveal_strlit("analysis");
    assert("operations"@.len() != "analysis"@.len());
    let ts = seq!["operations"@];
    assert(ts.drop_last() =~= Seq::<Seq<char>>::empty());
    assert(ts.last() == "operations"@);
    assert(!ts.contains("all"@));
    assert(operations_toolset() =~= seq![
            "create_workspace"@,
            "update_workspace"@,
            "delete_workspace_safely"@,
            "create_run"@,
            "action_run"@,
            "create_workspace_variable"@,
            "update_workspace_variable"@,
            "attach_policy_set_to_workspace"@,
            "create_variable_set"@,
            "create_variable_in_variable_set"@,
            "delete_variable_in_variable_set"@,
            "attach_variable_set_to_workspaces"@,
            "detach_variable_set_from_workspaces"@,
            "create_workspace_tags"@,
        ]);
    assert(toolsets_union(ts.drop_last()) == Set::<Seq<char>>::empty());
    assert(toolset_tools(ts.last()) == Some(operations_toolset()));
    assert(toolsets_union(ts) =~= Set::<Seq<char>>::empty().union(operations_toolset().to_set()));
}

} // verus!
