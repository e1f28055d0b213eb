use grok_core::events::ToolName;
use grok_core::json::Json;
use grok_core::tools::registry::ToolRegistry;

fn doc(text: &str) -> Json {
    Json::parse(text).unwrap()
}

#[test]
fn test_tool_registry_creation() {
    let _registry = ToolRegistry::new();
    assert!(true);
}

#[test]
fn test_tool_registry_get_all_specs() {
    let registry = ToolRegistry::new();

    let specs = registry.get_all_specs();

    let spec_names: Vec<&ToolName> = specs.iter().map(|s| &s.name).collect();

    assert!(spec_names.contains(&&ToolName::FsRead));
    assert!(spec_names.contains(&&ToolName::FsWrite));
    assert!(spec_names.contains(&&ToolName::FsSearch));
    assert!(spec_names.contains(&&ToolName::FsFind));
    assert!(spec_names.contains(&&ToolName::FsApplyPatch));
    assert!(spec_names.contains(&&ToolName::ShellExec));
    assert!(spec_names.contains(&&ToolName::CodeSymbols));

    for spec in specs {
        assert!(spec.input_schema.is_object());
        assert!(spec.output_schema.is_object());
        assert!(spec.timeout_ms.is_some());
    }
}

#[test]
fn test_tool_registry_get_spec_by_name() {
    let registry = ToolRegistry::new();

    let fs_read_spec = registry.get_spec(&ToolName::FsRead);
    assert!(fs_read_spec.is_some());
    let spec = fs_read_spec.unwrap();
    assert_eq!(spec.name, ToolName::FsRead);
    assert!(!spec.side_effects);
    assert!(!spec.needs_approval);

    let shell_spec = registry.get_spec(&ToolName::ShellExec).unwrap();
    assert_eq!(shell_spec.name, ToolName::ShellExec);
    assert!(shell_spec.side_effects);
    assert!(shell_spec.needs_approval);
    assert!(shell_spec.streaming);
}

#[test]
fn test_tool_registry_validate_args_success() {
    let registry = ToolRegistry::new();

    let valid_args = doc("{\"path\": \"/test/file.txt\", \"encoding\": \"utf-8\"}");

    let result = registry.validate_args(&ToolName::FsRead, &valid_args);
    assert!(result.is_ok());
}

#[test]
fn test_tool_registry_validate_args_missing_required() {
    let registry = ToolRegistry::new();

    let invalid_args = doc("{\"encoding\": \"utf-8\"}");

    let result = registry.validate_args(&ToolName::FsRead, &invalid_args);
    assert!(result.is_err());
    assert!(result.unwrap_err().contains("Missing required field: path"));
}

#[test]
fn test_tool_registry_validate_args_not_object() {
    let registry = ToolRegistry::new();

    let invalid_args = doc("\"not an object\"");

    let result = registry.validate_args(&ToolName::FsRead, &invalid_args);
    assert!(result.is_err());
    assert!(result.unwrap_err().contains("Arguments must be an object"));
}

#[test]
fn test_tool_registry_validate_args_unknown_tool() {
    let registry = ToolRegistry::new();

    let args = doc("{\"path\": \"/test/file.txt\"}");

    let result = registry.validate_args(&ToolName::FsRead, &args);
    assert!(result.is_ok());
}

#[test]
fn test_tool_registry_fs_write_validation() {
    let registry = ToolRegistry::new();

    let valid_args = doc(
        "{\"path\": \"/test/output.txt\", \"contents\": \"file content\", \"create_if_missing\": true, \"overwrite\": false}",
    );

    let result = registry.validate_args(&ToolName::FsWrite, &valid_args);
    assert!(result.is_ok());

    let invalid_args = doc("{\"path\": \"/test/output.txt\"}");

    let result = registry.validate_args(&ToolName::FsWrite, &invalid_args);
    assert!(result.is_err());
    assert_eq!(result.unwrap_err(), "Missing required field: contents");
}

#[test]
fn test_tool_registry_shell_exec_validation() {
    let registry = ToolRegistry::new();

    let valid_args = doc("{\"command\": [\"echo\", \"hello\"], \"timeout_ms\": 5000}");

    let result = registry.validate_args(&ToolName::ShellExec, &valid_args);
    assert!(result.is_ok());

    let invalid_args = doc("{\"timeout_ms\": 5000}");

    let result = registry.validate_args(&ToolName::ShellExec, &invalid_args);
    assert!(result.is_err());
    assert!(result.unwrap_err().contains("Missing required field: command"));
}

#[test]
fn test_tool_registry_code_symbols_validation() {
    let registry = ToolRegistry::new();

    let valid_args = doc(
        "{\"path\": \"/test/file.rs\", \"language\": \"rust\", \"symbol_types\": [\"functions\", \"structs\"]}",
    );

    let result = registry.validate_args(&ToolName::CodeSymbols, &valid_args);
    assert!(result.is_ok());

    let invalid_args = doc("{\"language\": \"rust\"}");

    let result = registry.validate_args(&ToolName::CodeSymbols, &invalid_args);
    assert!(result.is_err());
}

#[test]
fn test_tool_registry_schema_structure() {
    let registry = ToolRegistry::new();
    let specs = registry.get_all_specs();

    let fs_read_spec = specs.iter().find(|s| s.name == ToolName::FsRead).unwrap();
    let input_schema = &fs_read_spec.input_schema;

    let properties = input_schema.get("properties").unwrap();
    assert!(properties.is_object());

    assert!(properties.get("path").unwrap().is_object());
    assert_eq!(properties.get("path").unwrap().get("type"), Some(&Json::string("string")));

    assert!(properties.get("range").unwrap().is_object());
    assert!(properties.get("encoding").unwrap().is_object());

    assert!(input_schema.get("required").unwrap().is_array());
    let required_fields = input_schema.get("required").unwrap().as_array().unwrap();
    assert!(required_fields.contains(&Json::string("path")));
}

#[test]
fn test_tool_registry_output_schemas() {
    let registry = ToolRegistry::new();

    let fs_read_spec = registry.get_spec(&ToolName::FsRead).unwrap();
    let output_schema = &fs_read_spec.output_schema;

    let properties = output_schema.get("properties").unwrap();
    assert!(properties.is_object());

    assert!(properties.get("contents").unwrap().is_object());
    assert!(properties.get("encoding").unwrap().is_object());
    assert!(properties.get("truncated").unwrap().is_object());

    assert_eq!(properties.get("contents").unwrap().get("type"), Some(&Json::string("string")));
    assert_eq!(properties.get("encoding").unwrap().get("type"), Some(&Json::string("string")));
    assert_eq!(properties.get("truncated").unwrap().get("type"), Some(&Json::string("boolean")));
}

#[test]
fn test_tool_registry_tool_characteristics() {
    let registry = ToolRegistry::new();

    let fs_read_spec = registry.get_spec(&ToolName::FsRead).unwrap();
    assert!(!fs_read_spec.side_effects);
    assert!(!fs_read_spec.needs_approval);
    assert!(!fs_read_spec.streaming);

    let fs_write_spec = registry.get_spec(&ToolName::FsWrite).unwrap();
    assert!(fs_write_spec.side_effects);
    assert!(fs_write_spec.needs_approval);
    assert!(!fs_write_spec.streaming);

    let shell_spec = registry.get_spec(&ToolName::ShellExec).unwrap();
    assert!(shell_spec.side_effects);
    assert!(shell_spec.needs_approval);
    assert!(shell_spec.streaming);

    let code_spec = registry.get_spec(&ToolName::CodeSymbols).unwrap();
    assert!(!code_spec.side_effects);
    assert!(!code_spec.needs_approval);
    assert!(!code_spec.streaming);
}

#[test]
fn test_tool_registry_timeout_values() {
    let registry = ToolRegistry::new();
    let specs = registry.get_all_specs();

    for spec in specs {
        assert!(spec.timeout_ms.is_some());

        let timeout = spec.timeout_ms.unwrap();
        assert!(timeout >= 1000);
        assert!(timeout <= 300000);

        if spec.name == ToolName::ShellExec {
            assert!(timeout >= 30000);
        }
    }
}

#[test]
fn test_tool_registry_default_trait() {
    let registry1 = ToolRegistry::new();
    let registry2 = ToolRegistry::default();

    let specs1 = registry1.get_all_specs();
    let specs2 = registry2.get_all_specs();

    assert_eq!(specs1.len(), specs2.len());

    for spec1 in specs1 {
        assert!(specs2.iter().any(|s2| s2.name == spec1.name));
    }
}

#[test]
fn test_tool_registry_comprehensive_validation() {
    let registry = ToolRegistry::new();

    let test_cases = vec![
        (ToolName::FsRead, doc("{\"path\": \"/test/file.txt\"}")),
        (
            ToolName::FsWrite,
            doc("{\"path\": \"/test/output.txt\", \"contents\": \"content\", \"create_if_missing\": true, \"overwrite\": false}"),
        ),
        (
            ToolName::FsSearch,
            doc("{\"query\": \"pattern\", \"regex\": false, \"case_insensitive\": false, \"multiline\": false}"),
        ),
        (ToolName::FsFind, doc("{\"pattern\": \"*.rs\"}")),
        (
            ToolName::FsApplyPatch,
            doc("{\"ops\": [{\"op\": \"set_file\", \"path\": \"a\", \"contents\": \"new\"}], \"dry_run\": false}"),
        ),
        (ToolName::ShellExec, doc("{\"command\": [\"echo\", \"test\"]}")),
        (ToolName::CodeSymbols, doc("{\"path\": \"/test/file.rs\"}")),
    ];

    for (tool_name, args) in test_cases {
        let result = registry.validate_args(&tool_name, &args);
        assert!(result.is_ok(), "Validation failed for {:?}: {:?}", tool_name, result);
    }
}

#[test]
fn test_tool_name_in_registry() {
    let registry = ToolRegistry::new();
    let spec = registry.get_spec(&ToolName::LargeContextFetch);

    assert!(spec.is_some());
    assert_eq!(spec.unwrap().name, ToolName::LargeContextFetch);
}

#[test]
fn catalog_is_in_order_with_its_timeouts() {
    let registry = ToolRegistry::new();
    let shown: Vec<(&str, Option<u64>, bool, bool)> = registry
        .get_all_specs()
        .iter()
        .map(|s| (s.name.wire_name(), s.timeout_ms, s.side_effects, s.streaming))
        .collect();
    assert_eq!(
        shown,
        vec![
            ("fs.read", Some(5000), false, false),
            ("fs.search", Some(10000), false, false),
            ("fs.write", Some(5000), true, false),
            ("fs.apply_patch", Some(10000), true, false),
            ("fs.find", Some(10000), false, false),
            ("shell.exec", Some(30000), true, true),
            ("code.symbols", Some(5000), false, false),
            ("large_context_fetch", Some(60000), false, false),
        ]
    );
    for name in ["fs.read", "fs.search", "fs.write", "fs.apply_patch", "fs.find", "shell.exec", "code.symbols", "large_context_fetch"] {
        assert_eq!(ToolName::from_wire_name(name).unwrap().wire_name(), name);
    }
    assert_eq!(ToolName::from_wire_name("fs.read_all_code"), None);
    assert_eq!(ToolName::from_variant_name("FsFind"), Some(ToolName::FsFind));
    assert_eq!(ToolName::FsApplyPatch.variant_name(), "FsApplyPatch");
}

#[test]
fn validation_reports_the_first_missing_field() {
    let registry = ToolRegistry::new();
    let nothing = doc("{}");
    assert_eq!(
        registry.validate_args(&ToolName::FsWrite, &nothing).unwrap_err(),
        "Missing required field: path"
    );
    assert_eq!(
        registry.validate_args(&ToolName::FsApplyPatch, &nothing).unwrap_err(),
        "Missing required field: ops"
    );
    assert_eq!(
        registry.validate_args(&ToolName::LargeContextFetch, &doc("[1]")).unwrap_err(),
        "Arguments must be an object"
    );
    let null_member = doc("{\"path\": null, \"contents\": 3}");
    assert!(registry.validate_args(&ToolName::FsWrite, &null_member).is_ok());
}
