use agent_core::tools::{DefaultToolRegistry, Tool, ToolRegistry};
use agent_core::turn::{lookup_tool, ParsedToolCall, ToolOutcome};
use serde_json::Value;

struct FakeTool {
    tool_name: String,
}

impl FakeTool {
    fn new(name: &str) -> Self {
        Self { tool_name: name.to_string() }
    }
}

impl Tool for FakeTool {
    fn name(&self) -> &str {
        &self.tool_name
    }

    fn description(&self) -> &str {
        "fake"
    }

    fn parameters_schema(&self) -> Value {
        let mut schema = serde_json::Map::new();
        schema.insert("type".to_string(), Value::String("object".to_string()));
        schema.insert("properties".to_string(), Value::Object(serde_json::Map::new()));
        Value::Object(schema)
    }
}

#[test]
fn tool_registry_empty_registry() {
    let registry: DefaultToolRegistry<FakeTool> = DefaultToolRegistry::new();
    assert_eq!(registry.count(), 0);
    assert!(registry.list().is_empty());
    assert!(registry.get("anything").is_none());
}

#[test]
fn register_and_get() {
    let mut registry = DefaultToolRegistry::new();
    registry.register(FakeTool::new("shell"));
    assert_eq!(registry.count(), 1);
    assert!(registry.contains("shell"));
    assert!(!registry.contains("unknown"));

    let tool = registry.get("shell").unwrap();
    assert_eq!(tool.name(), "shell");
}

#[test]
fn register_replaces_existing() {
    let mut registry = DefaultToolRegistry::new();
    registry.register(FakeTool::new("shell"));
    registry.register(FakeTool::new("shell"));
    assert_eq!(registry.count(), 1);
}

#[test]
fn with_tools_constructor() {
    let tools = vec![FakeTool::new("a"), FakeTool::new("b")];
    let registry = DefaultToolRegistry::with_tools(tools);
    assert_eq!(registry.count(), 2);
    assert!(registry.contains("a"));
    assert!(registry.contains("b"));
}

#[test]
fn remove_tool() {
    let mut registry = DefaultToolRegistry::new();
    registry.register(FakeTool::new("shell"));
    assert!(registry.remove("shell"));
    assert_eq!(registry.count(), 0);
    assert!(!registry.remove("shell"));
}

#[test]
fn specs_returns_all() {
    let mut registry = DefaultToolRegistry::new();
    registry.register(FakeTool::new("a"));
    registry.register(FakeTool::new("b"));
    let specs = registry.specs();
    assert_eq!(specs.len(), 2);
    assert_eq!(specs[0].name, "a");
    assert_eq!(specs[1].name, "b");
}

#[test]
fn replaced_tool_moves_to_the_end() {
    let mut registry = DefaultToolRegistry::new();
    registry.register(FakeTool::new("a"));
    registry.register(FakeTool::new("b"));
    registry.register(FakeTool::new("a"));
    let names: Vec<&str> = registry.list().iter().map(|t| t.name()).collect();
    assert_eq!(names, vec!["b", "a"]);
}

#[test]
fn remove_drops_every_duplicate_from_with_tools() {
    let tools = vec![FakeTool::new("a"), FakeTool::new("b"), FakeTool::new("a")];
    let mut registry = DefaultToolRegistry::with_tools(tools);
    assert!(registry.remove("a"));
    assert_eq!(registry.count(), 1);
    assert!(!registry.contains("a"));
    assert!(registry.contains("b"));
}

#[test]
fn tool_lookup_is_case_sensitive() {
    let mut registry = DefaultToolRegistry::new();
    registry.register(FakeTool::new("shell"));
    assert!(!registry.contains("Shell"));
}

#[test]
fn spec_carries_description_and_schema() {
    let tool = FakeTool::new("x");
    let spec = tool.spec();
    assert_eq!(spec.description, "fake");
    assert_eq!(spec.parameters["type"], Value::String("object".to_string()));
}

#[test]
fn lookup_tool_finds_registered_or_reports_unknown() {
    let mut registry = DefaultToolRegistry::new();
    registry.register(FakeTool::new("shell"));
    let call = |name: &str| ParsedToolCall {
        name: name.to_string(),
        arguments: Value::Null,
        tool_call_id: None,
    };
    match lookup_tool(&registry, &call("shell")) {
        Ok(tool) => assert_eq!(tool.name(), "shell"),
        Err(_) => panic!("expected the registered tool"),
    }
    assert!(matches!(lookup_tool(&registry, &call("Shell")), Err(ToolOutcome::UnknownTool)));
    assert!(matches!(lookup_tool(&registry, &call("missing")), Err(ToolOutcome::UnknownTool)));
}
