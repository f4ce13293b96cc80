use just_llm_client::client::families::FamilyTable;
use just_llm_client::error::BackendConstructError;
use just_llm_client::tools::{function_tool, ToolCallError, ToolIndex, ToolRegistrationError};
use just_llm_client::types::shared::ToolType;

#[test]
fn rejects_duplicate_tool_names() {
    let mut index = ToolIndex::new();
    index.insert("echo").unwrap();
    let error = index.insert("echo").unwrap_err();
    assert!(matches!(error, ToolRegistrationError::DuplicateTool { .. }));
    assert_eq!(index.len(), 1);
}

#[test]
fn tool_definitions_follow_normalized_shape() {
    let schema = r#"{"type":"object","properties":{"message":{"type":"string"}},"required":["message"]}"#;
    let definition = function_tool("echo", "Echo the provided message.", schema.to_owned());
    assert_eq!(definition.kind, ToolType::Function);
    assert_eq!(definition.function.name, "echo");
    assert_eq!(definition.function.description.as_deref(), Some("Echo the provided message."));
    assert_eq!(definition.function.parameters.as_deref(), Some(schema));
    assert_eq!(definition.function.strict, None);
}

#[test]
fn names_are_kept_in_byte_order_and_found_again() {
    let mut index = ToolIndex::new();
    assert!(index.is_empty());
    assert_eq!(index.insert("search").unwrap(), 0);
    assert_eq!(index.insert("echo").unwrap(), 0);
    assert_eq!(index.insert("fetch").unwrap(), 1);
    assert_eq!(index.insert("Zeta").unwrap(), 0);
    assert_eq!(index.insert("échec").unwrap(), 4);
    assert_eq!(index.names(), &vec!["Zeta".to_owned(), "echo".to_owned(), "fetch".to_owned(), "search".to_owned(), "échec".to_owned()]);
    assert_eq!(index.position("fetch"), Some(2));
    assert_eq!(index.position("missing"), None);
    assert_eq!(index.len(), 5);
}

#[test]
fn unknown_tool_error_lists_available_names() {
    let mut index = ToolIndex::new();
    index.insert("echo").unwrap();
    match ToolCallError::unknown_tool("missing", index.names()) {
        ToolCallError::UnknownTool { name, available } => {
            assert_eq!(name, "missing");
            assert_eq!(available, "echo");
        }
        other => panic!("unexpected error: {other:?}"),
    }
    index.insert("add").unwrap();
    match ToolCallError::unknown_tool("x", index.names()) {
        ToolCallError::UnknownTool { available, .. } => assert_eq!(available, "add, echo"),
        other => panic!("unexpected error: {other:?}"),
    }
}

#[test]
fn execution_errors_preserve_tool_name() {
    let error = ToolCallError::execution("fail", anyhow::Error::msg("boom"));
    assert!(matches!(error, ToolCallError::Execution { name, .. } if name == "fail"));
}

#[test]
fn factory_register_replaces_same_family() {
    let mut families = FamilyTable::new();
    let first = families.register("dup");
    let second = families.register("dup");
    // The second registration takes the same slot, so its constructor replaces the first.
    assert_eq!(first, second);
    // Replaced, not appended.
    assert_eq!(families.names().len(), 1);
}

#[test]
fn factory_create_rejects_unknown_family() {
    let families = FamilyTable::new();
    let error = families.lookup("missing").err().expect("expected unknown-family error");
    assert!(matches!(error, BackendConstructError::UnknownFamily { .. }));
    assert_eq!(error.message(), "no backend registered for family 'missing'");
}

#[test]
fn family_table_keeps_registration_order() {
    let mut families = FamilyTable::new();
    assert_eq!(families.register("openai"), 0);
    assert_eq!(families.register("anthropic"), 1);
    assert_eq!(families.register("openai"), 0);
    assert_eq!(families.lookup("anthropic").unwrap(), 1);
    let names: Vec<&str> = families.names().iter().map(String::as_str).collect();
    assert_eq!(names, vec!["openai", "anthropic"]);
}
