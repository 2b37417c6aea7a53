use tfmcp::tool_filter::ToolFilter;

fn strings(v: &[&str]) -> Vec<String> {
    v.iter().map(|s| s.to_string()).collect()
}

#[test]
fn all_filter_enables_everything() {
    let f = ToolFilter::all();
    assert!(f.is_enabled("apply_terraform"));
    assert!(f.is_enabled("anything"));
}

#[test]
fn explicit_tool_list_wins_over_toolsets() {
    let toolsets = strings(&["terraform"]);
    let tools = strings(&["search_modules"]);
    let f = ToolFilter::from_cli(&toolsets, Some(&tools));
    assert!(f.is_enabled("search_modules"));
    assert!(!f.is_enabled("init_terraform"));
}

#[test]
fn no_toolsets_enable_everything() {
    let f = ToolFilter::from_cli(&[], None);
    assert!(f.is_enabled("destroy_terraform"));
}

#[test]
fn all_toolset_anywhere_enables_everything() {
    let f = ToolFilter::from_cli(&strings(&["registry", "all"]), None);
    assert!(f.is_enabled("create_workspace"));
}

#[test]
fn registry_toolset_selects_registry_tools() {
    let f = ToolFilter::from_cli(&strings(&["registry"]), None);
    assert!(f.is_enabled("search_providers"));
    assert!(f.is_enabled("get_private_provider_details"));
    assert!(!f.is_enabled("apply_terraform"));
}

#[test]
fn unknown_toolsets_enable_nothing() {
    let f = ToolFilter::from_cli(&strings(&["bogus"]), None);
    assert!(!f.is_enabled("search_providers"));
    assert!(!f.is_enabled("bogus"));
}

#[test]
fn default_toolset_excludes_dangerous_operations() {
    let f = ToolFilter::from_cli(&strings(&["default"]), None);
    assert!(f.is_enabled("validate_terraform"));
    assert!(!f.is_enabled("apply_terraform"));
    assert!(!f.is_enabled("destroy_terraform"));
    assert!(!f.is_enabled("create_workspace"));
}

#[test]
fn toolsets_combine() {
    let f = ToolFilter::from_cli(&strings(&["operations", "analysis", "nope"]), None);
    assert!(f.is_enabled("create_run"));
    assert!(f.is_enabled("analyze_plan"));
    assert!(!f.is_enabled("search_modules"));
}

#[test]
fn naming_another_toolset_keeps_enabled_tools() {
    let base = vec!["registry".to_string()];
    let more = vec!["registry".to_string(), "no-such-set".to_string()];
    let a = ToolFilter::from_cli(&base, None);
    let b = ToolFilter::from_cli(&more, None);
    for tool in ["search_providers", "get_provider_docs"] {
        assert_eq!(a.is_enabled(tool), b.is_enabled(tool));
    }
}

#[test]
fn toolset_order_does_not_change_filter() {
    let one = vec!["registry".to_string(), "operations".to_string()];
    let two = vec!["operations".to_string(), "registry".to_string()];
    let a = ToolFilter::from_cli(&one, None);
    let b = ToolFilter::from_cli(&two, None);
    for tool in ["search_providers", "apply_terraform", "get_terraform_plan", "nothing"] {
        assert_eq!(a.is_enabled(tool), b.is_enabled(tool));
    }
}
