use grok_core::events::{AppEvent, EventBus, ToolName};
use grok_core::tools::executor::ToolRun;
use grok_core::tools::executors::code::{
    detect_language_from_path, extract_java_class, extract_java_method, extract_js_class,
    extract_js_function, extract_python_class, extract_python_function, extract_rust_enum,
    extract_rust_function, extract_rust_module, extract_rust_struct, extract_rust_trait,
    extract_symbols, get_java_visibility, get_rust_visibility, CodeExecutor,
};
use grok_core::tools::executors::fs::FileProbe;
use grok_core::tools::types::{CodeSymbolsArgs, CodeSymbolsResult};

fn drain(receiver: &mut tokio::sync::mpsc::UnboundedReceiver<AppEvent>) -> Vec<AppEvent> {
    let mut events = Vec::new();
    while let Ok(ev) = receiver.try_recv() {
        events.push(ev);
    }
    events
}

fn count_progress_events(events: &[AppEvent]) -> usize {
    events.iter().filter(|e| matches!(e, AppEvent::ToolProgress { .. })).count()
}

fn find_tool_result_event(events: &[AppEvent]) -> Option<&AppEvent> {
    events.iter().find(|e| matches!(e, AppEvent::ToolResult { .. }))
}

fn analyze(
    path: &str,
    language: Option<&str>,
    content: &str,
) -> (CodeSymbolsResult, Vec<AppEvent>) {
    let bus = EventBus::new();
    let executor = CodeExecutor::new(bus.sender(), 1024 * 1024);
    let mut receiver = bus.into_receiver();
    let (mut run, _) =
        ToolRun::begin("test_id", ToolName::CodeSymbols, "Analyzing symbols".to_string(), None);
    let args = CodeSymbolsArgs {
        path: path.to_string(),
        symbol_types: None,
        language: language.map(|l| l.to_string()),
    };
    let result = executor.execute_symbols_with_result(
        &mut run,
        &args,
        &FileProbe::Contents(content.to_string()),
    );
    assert!(result.is_ok());
    let symbols_result = CodeSymbolsResult::from_json(&result.unwrap()).unwrap();
    (symbols_result, drain(&mut receiver))
}

#[test]
fn test_code_symbols_rust_file() {
    let rust_content = r#"
pub struct MyStruct {
    field: String,
}

impl MyStruct {
    pub fn new(field: String) -> Self {
        Self { field }
    }
    
    fn private_method(&self) -> &str {
        &self.field
    }
}

pub enum MyEnum {
    Variant1,
    Variant2(i32),
}

pub trait MyTrait {
    fn trait_method(&self);
}

pub mod submodule {
    pub fn module_function() {}
}

fn main() {
    println!("Hello, world!");
}
"#;

    let (symbols_result, events) = analyze("/tmp/test.rs", Some("rust"), rust_content);

    assert_eq!(symbols_result.language, "rust");
    assert!(!symbols_result.symbols.is_empty());

    let symbol_names: Vec<&str> = symbols_result.symbols.iter().map(|s| s.name.as_str()).collect();

    assert!(symbol_names.contains(&"MyStruct"));
    assert!(symbol_names.contains(&"new"));
    assert!(symbol_names.contains(&"private_method"));
    assert!(symbol_names.contains(&"MyEnum"));
    assert!(symbol_names.contains(&"MyTrait"));
    assert!(symbol_names.contains(&"submodule"));
    assert!(symbol_names.contains(&"main"));

    let struct_symbol = symbols_result.symbols.iter().find(|s| s.name == "MyStruct").unwrap();
    assert_eq!(struct_symbol.symbol_type, "struct");
    assert_eq!(struct_symbol.visibility.as_ref().unwrap(), "public");
    assert_eq!(struct_symbol.line_start, 2);
    assert_eq!(struct_symbol.line_end, 2);

    let function_symbol = symbols_result.symbols.iter().find(|s| s.name == "main").unwrap();
    assert_eq!(function_symbol.symbol_type, "function");
    assert_eq!(function_symbol.visibility.as_ref().unwrap(), "private");
    assert_eq!(function_symbol.line_start, 29);

    assert_eq!(
        symbol_names,
        vec![
            "MyStruct",
            "new",
            "private_method",
            "MyEnum",
            "MyTrait",
            "trait_method",
            "submodule",
            "module_function",
            "main"
        ]
    );

    assert_eq!(count_progress_events(&events), 1);
    assert!(find_tool_result_event(&events).is_some());
}

#[test]
fn test_code_symbols_javascript_file() {
    let js_content = r#"
function regularFunction(param) {
    return param * 2;
}

class MyClass {
    constructor(value) {
        this.value = value;
    }
    
    method() {
        return this.value;
    }
}

const arrowFunction = (x) => {
    return x + 1;
};

export default MyClass;
"#;

    let (symbols_result, events) = analyze("/tmp/test.js", Some("javascript"), js_content);

    assert_eq!(symbols_result.language, "javascript");
    assert!(!symbols_result.symbols.is_empty());

    let symbol_names: Vec<&str> = symbols_result.symbols.iter().map(|s| s.name.as_str()).collect();

    assert!(symbol_names.contains(&"regularFunction"));
    assert!(symbol_names.contains(&"MyClass"));
    assert!(symbol_names.contains(&"arrowFunction"));

    assert_eq!(count_progress_events(&events), 1);
}

#[test]
fn test_code_symbols_python_file() {
    let python_content = r#"
def regular_function(param):
    return param * 2

class MyClass:
    def __init__(self, value):
        self.value = value
    
    def method(self):
        return self.value
    
    def _private_method(self):
        pass

class AnotherClass(MyClass):
    pass

def main():
    print("Hello, world!")

if __name__ == "__main__":
    main()
"#;

    let (symbols_result, events) = analyze("/tmp/test.py", Some("python"), python_content);

    assert_eq!(symbols_result.language, "python");

    let symbol_names: Vec<&str> = symbols_result.symbols.iter().map(|s| s.name.as_str()).collect();

    assert!(symbol_names.contains(&"regular_function"));
    assert!(symbol_names.contains(&"MyClass"));
    assert!(symbol_names.contains(&"AnotherClass"));
    assert!(symbol_names.contains(&"__init__"));
    assert!(symbol_names.contains(&"method"));
    assert!(symbol_names.contains(&"main"));

    assert_eq!(count_progress_events(&events), 1);
}

#[test]
fn test_code_symbols_java_file() {
    let java_content = r#"
public class MyClass {
    private String field;
    
    public MyClass(String field) {
        this.field = field;
    }
    
    public String getField() {
        return field;
    }
    
    private void privateMethod() {
        // private implementation
    }
    
    protected void protectedMethod() {
        // protected implementation
    }
}

interface MyInterface {
    void interfaceMethod();
}
"#;

    let (symbols_result, events) = analyze("/tmp/MyClass.java", Some("java"), java_content);

    assert_eq!(symbols_result.language, "java");

    let symbol_names: Vec<&str> = symbols_result.symbols.iter().map(|s| s.name.as_str()).collect();

    assert!(symbol_names.contains(&"MyClass"));

    let method_symbols: Vec<_> =
        symbols_result.symbols.iter().filter(|s| s.symbol_type == "function").collect();

    assert!(!method_symbols.is_empty());
    let get_field = method_symbols.iter().find(|s| s.name == "getField").unwrap();
    assert_eq!(get_field.visibility.as_ref().unwrap(), "public");
    let private_method = method_symbols.iter().find(|s| s.name == "privateMethod").unwrap();
    assert_eq!(private_method.visibility.as_ref().unwrap(), "private");

    assert_eq!(count_progress_events(&events), 1);
}

#[test]
fn test_code_symbols_unknown_language() {
    let (symbols_result, _) = analyze("/tmp/test.xyz", None, "some content in an unknown language");
    assert_eq!(symbols_result.language, "unknown");
    assert!(symbols_result.symbols.is_empty());
}

#[test]
fn test_code_symbols_file_not_found() {
    let bus = EventBus::new();
    let executor = CodeExecutor::new(bus.sender(), 1024 * 1024);
    let (mut run, _) =
        ToolRun::begin("test_id", ToolName::CodeSymbols, "Analyzing symbols".to_string(), None);
    let args = CodeSymbolsArgs {
        path: "/nonexistent/file.rs".to_string(),
        symbol_types: None,
        language: None,
    };
    let result = executor.execute_symbols_with_result(&mut run, &args, &FileProbe::Missing);
    assert!(result.is_err());
    assert!(result.unwrap_err().contains("File not found"));
}

#[test]
fn test_code_symbols_directory_instead_of_file() {
    let args = CodeSymbolsArgs { path: "/tmp".to_string(), symbol_types: None, language: None };
    let result = CodeExecutor::analyze(&args, &FileProbe::NotAFile);
    assert_eq!(result.unwrap_err(), "Path is not a file: /tmp");
    let unreadable = CodeExecutor::analyze(&args, &FileProbe::Unreadable("denied".to_string()));
    assert_eq!(unreadable.unwrap_err(), "Failed to read file /tmp: denied");
}

#[test]
fn test_code_symbols_legacy_method() {
    let bus = EventBus::new();
    let executor = CodeExecutor::new(bus.sender(), 1024 * 1024);
    let mut receiver = bus.into_receiver();
    let (mut run, _) =
        ToolRun::begin("test_id", ToolName::CodeSymbols, "Analyzing symbols".to_string(), None);
    let args =
        CodeSymbolsArgs { path: "test.rs".to_string(), symbol_types: None, language: None };
    let result =
        executor.execute_symbols(&mut run, &args, &FileProbe::Contents("fn test() {}".to_string()));
    assert!(result.is_ok());
    let events = drain(&mut receiver);
    assert_eq!(count_progress_events(&events), 1);
    assert!(find_tool_result_event(&events).is_some());
}

#[test]
fn test_code_symbols_output_truncation() {
    let bus = EventBus::new();
    let executor = CodeExecutor::new(bus.sender(), 100);
    let (mut run, _) =
        ToolRun::begin("test_id", ToolName::CodeSymbols, "Analyzing symbols".to_string(), None);
    let mut content = String::new();
    for i in 0..50 {
        content.push_str(&format!("fn function_{}() {{}}\n", i));
    }
    let args =
        CodeSymbolsArgs { path: "large.rs".to_string(), symbol_types: None, language: None };
    let result = executor
        .execute_symbols_with_result(&mut run, &args, &FileProbe::Contents(content))
        .unwrap();
    assert_eq!(result.get("truncated"), Some(&grok_core::json::Json::Bool(true)));
    assert!(result.get("original_size_bytes").unwrap().as_u64().unwrap() > 100);
}

#[test]
fn test_language_detection_from_extension() {
    let test_cases = vec![
        ("test.ts", "typescript", "function test() {}"),
        ("test.jsx", "javascript", "function Component() {}"),
        ("test.py", "python", "def test(): pass"),
        ("test.java", "java", "class Test {}"),
        ("test.cpp", "cpp", "int main() {}"),
        ("test.go", "go", "func main() {}"),
        ("test.rb", "ruby", "def test; end"),
    ];

    for (filename, expected_lang, content) in test_cases {
        let (symbols_result, _) = analyze(filename, None, content);
        assert_eq!(
            symbols_result.language, expected_lang,
            "Language detection failed for {}",
            filename
        );
    }
    assert_eq!(detect_language_from_path("src/main.rs"), Some("rust".to_string()));
    assert_eq!(detect_language_from_path("notes.txt"), Some("unknown".to_string()));
    assert_eq!(detect_language_from_path("Makefile"), None);
}

#[test]
fn names_are_what_stands_behind_the_keyword() {
    assert_eq!(extract_rust_function("pub fn new(field: String) -> Self {"), Some("new".to_string()));
    assert_eq!(extract_rust_function("fn  spaced (x: u8)"), Some("spaced".to_string()));
    assert_eq!(extract_rust_function("let x = 1;"), None);
    assert_eq!(extract_rust_function("fn (x)"), None);
    assert_eq!(extract_rust_function("fn a() { fn b() {} }"), Some("a".to_string()));
    assert_eq!(extract_rust_struct("pub struct Point<T> {"), Some("Point".to_string()));
    assert_eq!(extract_rust_struct("struct  Late"), None);
    assert_eq!(extract_rust_enum("enum Color{"), Some("Color".to_string()));
    assert_eq!(extract_rust_trait("pub trait Shape {"), Some("Shape".to_string()));
    assert_eq!(extract_rust_module("pub mod tools;"), Some("tools".to_string()));
    assert_eq!(extract_rust_module("mod tools; // the tools"), None);
    assert_eq!(get_rust_visibility("pub fn a()"), Some("public".to_string()));
    assert_eq!(get_rust_visibility("pub(crate) fn a()"), Some("restricted".to_string()));
    assert_eq!(get_rust_visibility("fn a()"), Some("private".to_string()));
}

#[test]
fn names_in_other_languages() {
    assert_eq!(extract_js_function("function regularFunction(param) {"), Some("regularFunction".to_string()));
    assert_eq!(extract_js_function("const arrowFunction = (x) => {"), Some("arrowFunction".to_string()));
    assert_eq!(extract_js_function("const value = 3;"), None);
    assert_eq!(extract_js_class("class MyClass {"), Some("MyClass".to_string()));
    assert_eq!(extract_js_class("class Tree {"), Some("Tr".to_string()));
    assert_eq!(extract_python_function("def regular_function(param):"), Some("regular_function".to_string()));
    assert_eq!(extract_python_function("x = undefined()"), None);
    assert_eq!(extract_python_class("class AnotherClass(MyClass):"), Some("AnotherClass".to_string()));
    assert_eq!(extract_python_class("class Plain:"), Some("Plain".to_string()));
    assert_eq!(extract_java_class("public class MyClass {"), Some("MyClass".to_string()));
    assert_eq!(extract_java_class("  // class Hidden {"), None);
    assert_eq!(extract_java_method("public String getField() {"), Some("getField".to_string()));
    assert_eq!(extract_java_method("String getField() {"), None);
    assert_eq!(extract_java_method("public void a.b() {"), None);
    assert_eq!(get_java_visibility("public class A"), Some("public".to_string()));
    assert_eq!(get_java_visibility("private int x;"), Some("private".to_string()));
    assert_eq!(get_java_visibility("protected void m()"), Some("protected".to_string()));
    assert_eq!(get_java_visibility("int x;"), Some("package".to_string()));
}

#[test]
fn symbols_of_a_text_come_in_the_order_of_its_lines() {
    let symbols = extract_symbols("struct A;\r\nfn b() {}\n\n  mod c;", "rust", None);
    let shown: Vec<(String, String, u32)> =
        symbols.iter().map(|s| (s.name.clone(), s.symbol_type.clone(), s.line_start)).collect();
    assert_eq!(
        shown,
        vec![
            ("A;".to_string(), "struct".to_string(), 1),
            ("b".to_string(), "function".to_string(), 2),
            ("c".to_string(), "module".to_string(), 4),
        ]
    );
    assert!(extract_symbols("fn a() {}", "cobol", None).is_empty());
    assert_eq!(extract_symbols("function f() {}", "typescript", None).len(), 1);
}

#[test]
fn test_code_symbols_with_symbol_types_filter() {
    let rust_content = r#"
pub struct MyStruct {
    field: String,
}

impl MyStruct {
    pub fn new() -> Self {
        Self { field: String::new() }
    }
}

pub enum MyEnum {
    Variant,
}

fn standalone_function() {}
"#;
    let args = grok_core::json::Json::parse(
        "{\"path\": \"/tmp/test.rs\", \"language\": \"rust\", \"symbol_types\": [\"functions\"]}",
    )
    .unwrap();
    let args = CodeSymbolsArgs::from_json(&args).unwrap();
    assert_eq!(args.symbol_types, Some(vec!["functions".to_string()]));

    let bus = EventBus::new();
    let executor = CodeExecutor::new(bus.sender(), 1024 * 1024);
    let mut receiver = bus.into_receiver();
    let (mut run, _) =
        ToolRun::begin("test_id", ToolName::CodeSymbols, "Analyzing symbols".to_string(), None);
    let result = executor.execute_symbols_with_result(
        &mut run,
        &args,
        &FileProbe::Contents(rust_content.to_string()),
    );
    assert!(result.is_ok());
    let symbols_result = CodeSymbolsResult::from_json(&result.unwrap()).unwrap();
    assert_eq!(symbols_result.language, "rust");
    assert!(!symbols_result.symbols.is_empty());
    // The kinds that are asked for do not narrow what is found.
    assert!(symbols_result.symbols.iter().any(|s| s.symbol_type == "struct"));

    let events = drain(&mut receiver);
    assert_eq!(events.len(), 2);
    assert_eq!(count_progress_events(&events), 1);
    assert!(find_tool_result_event(&events).is_some());
}

#[test]
fn test_code_symbols_invalid_args() {
    let invalid_args = grok_core::json::Json::parse("{\"invalid_field\": \"value\"}").unwrap();
    let result = CodeSymbolsArgs::from_json(&invalid_args);
    assert!(result.is_err());
    assert!(result.unwrap_err().contains("Invalid CodeSymbols arguments"));
}
