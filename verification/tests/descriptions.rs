use tfmcp::descriptions::{
    create_get_state_description, create_security_status_description,
    create_set_directory_description, create_terraform_analyze_description,
    create_terraform_apply_description, create_terraform_destroy_description,
    create_terraform_plan_description, get_all_tool_descriptions, ToolDescription, ToolExample,
};
use tfmcp::json::JsonValue;

#[test]
fn test_all_descriptions_created() {
    let descriptions = get_all_tool_descriptions();

    // Verify all expected tools have descriptions
    assert!(descriptions.contains_key("get_terraform_plan"));
    assert!(descriptions.contains_key("apply_terraform"));
    assert!(descriptions.contains_key("validate_terraform"));
    assert!(descriptions.contains_key("destroy_terraform"));

    // Verify descriptions have content
    for (name, desc) in descriptions.into_entries() {
        assert!(!desc.summary.is_empty(), "Tool {name} missing summary");
    }
}

#[test]
fn test_security_notes_present() {
    let apply_desc = create_terraform_apply_description();
    assert!(!apply_desc.security_notes.is_empty());

    let destroy_desc = create_terraform_destroy_description();
    assert!(!destroy_desc.security_notes.is_empty());
}

#[test]
fn test_examples_present() {
    let apply_desc = create_terraform_apply_description();
    assert!(!apply_desc.examples.is_empty());

    let analyze_desc = create_terraform_analyze_description();
    assert!(!analyze_desc.examples.is_empty());
}

#[test]
fn all_eleven_tools_are_described() {
    let d = get_all_tool_descriptions();
    assert_eq!(d.len(), 11);
    assert!(d.contains_key("get_security_status"));
    assert!(!d.contains_key("search_modules"));
    assert!(d.get("init_terraform").is_some());
    assert!(d.get("unknown").is_none());
}

#[test]
fn plan_description_text() {
    let d = create_terraform_plan_description();
    assert_eq!(
        d.summary,
        "Execute 'terraform plan' to show changes that would be made to infrastructure"
    );
    assert_eq!(d.constraints.len(), 2);
    assert_eq!(d.error_hints[0].0, "Init Required");
    assert!(d.usage_guide.as_deref().unwrap().starts_with("This tool generates an execution plan"));
    assert!(d
        .usage_guide
        .as_deref()
        .unwrap()
        .contains("when you apply the configuration."));
}

#[test]
fn example_inputs() {
    let apply = create_terraform_apply_description();
    match &apply.examples[1].input {
        JsonValue::Object(m) => {
            assert_eq!(m.len(), 1);
            assert_eq!(m[0].key, "auto_approve");
            assert!(matches!(m[0].value, JsonValue::Bool(true)));
        }
        _ => panic!("object expected"),
    }
    let dir = create_set_directory_description();
    assert_eq!(
        dir.examples[0].input.get("directory").and_then(|v| v.as_str()),
        Some("/path/to/terraform/project")
    );
    let status = create_security_status_description();
    assert!(status.constraints.is_empty());
    assert!(status.error_hints.is_empty());
    let state = create_get_state_description();
    assert_eq!(state.security_notes.len(), 2);
}

#[test]
fn builder_accumulates_parts() {
    let d = ToolDescription::new("s")
        .with_usage_guide("g")
        .with_constraint("c1")
        .with_constraint("c2")
        .with_error_hint("e", "h")
        .with_security_note("n")
        .with_example(ToolExample {
            title: "t".to_string(),
            description: "d".to_string(),
            input: JsonValue::Null,
            expected_output: "o".to_string(),
        });
    assert_eq!(d.summary, "s");
    assert_eq!(d.usage_guide.as_deref(), Some("g"));
    assert_eq!(d.constraints, vec!["c1".to_string(), "c2".to_string()]);
    assert_eq!(d.error_hints, vec![("e".to_string(), "h".to_string())]);
    assert_eq!(d.security_notes, vec!["n".to_string()]);
    assert_eq!(d.examples.len(), 1);
}
