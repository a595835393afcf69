use liath::error::{LiathError, LiathResult};
use liath::errors::{
    available_functions, blocked_functions, ErrorType, ExecutionResult, FunctionInfo, RuntimeError,
    RuntimeErrorType, ValidationError, ValidationResult, ValidationWarning, WarningType,
};
use liath::value::ScriptValue;

#[test]
fn test_error_display() {
    let err = LiathError::NamespaceNotFound("test".to_string());
    assert_eq!(err.to_string(), "Namespace 'test' not found");

    let err = LiathError::Unauthorized("admin access required".to_string());
    assert_eq!(err.to_string(), "Unauthorized: admin access required");
}

#[test]
fn test_runtime_error_namespace() {
    let error = RuntimeError::namespace_not_found("myns", vec!["default".to_string()]);
    assert!(error.suggestion.contains("default"));
}

#[test]
fn test_library_structure() {
    let result: LiathResult<i32> = Ok(42);
    assert!(result.is_ok());
}

#[test]
fn test_error_types() {
    let err: LiathError = LiathError::NamespaceNotFound("test".to_string());
    assert!(err.to_string().contains("test"));

    let result: LiathResult<()> = Err(LiathError::Unauthorized("not allowed".to_string()));
    assert!(result.is_err());
}

#[test]
fn test_execution_result_success() {
    let value = ScriptValue::Object(vec![(
        "key".to_string(),
        ScriptValue::String("value".to_string()),
    )]);
    let result = ExecutionResult::success(value);
    assert!(result.success);
    assert!(result.value.is_some());
    assert!(result.validation_errors.is_empty());
    assert!(result.runtime_error.is_none());
}

#[test]
fn execution_result_failures() {
    let refused = ExecutionResult::validation_failed(vec![ValidationError::syntax(
        "bad",
        Some(2),
        "fix it",
    )]);
    assert!(!refused.success);
    assert!(refused.value.is_none());
    assert_eq!(refused.validation_errors.len(), 1);
    assert!(refused.runtime_error.is_none());

    let failed = ExecutionResult::runtime_failed(RuntimeError::timeout(1500));
    assert!(!failed.success);
    assert!(failed.validation_errors.is_empty());
    assert_eq!(
        failed.runtime_error.unwrap().message,
        "Execution timed out after 1500ms"
    );
}

#[test]
fn every_liath_error_has_its_text() {
    let s = |t: &str| t.to_string();
    assert_eq!(
        LiathError::NamespaceExists(s("a")).to_string(),
        "Namespace 'a' already exists"
    );
    assert_eq!(
        LiathError::KeyNotFound(s("a")).to_string(),
        "Key not found in namespace 'a'"
    );
    assert_eq!(LiathError::Storage(s("x")).to_string(), "Storage error: x");
    assert_eq!(LiathError::Embedding(s("x")).to_string(), "Embedding error: x");
    assert_eq!(
        LiathError::VectorSearch(s("x")).to_string(),
        "Vector search error: x"
    );
    assert_eq!(
        LiathError::Serialization(s("x")).to_string(),
        "Serialization error: x"
    );
    assert_eq!(
        LiathError::Configuration(s("x")).to_string(),
        "Configuration error: x"
    );
    assert_eq!(LiathError::Agent(s("x")).to_string(), "Agent error: x");
    assert_eq!(
        LiathError::ConversationNotFound(s("c")).to_string(),
        "Conversation 'c' not found"
    );
    assert_eq!(LiathError::Io(s("x")).to_string(), "IO error: x");
    assert_eq!(LiathError::InvalidInput(s("x")).to_string(), "Invalid input: x");
}

#[test]
fn validation_error_builders() {
    let e = ValidationError::forbidden_function("os.execute", "Use Liath functions instead");
    assert_eq!(e.error_type, ErrorType::ForbiddenFunction);
    assert_eq!(
        e.message,
        "Function 'os.execute' is not allowed for security reasons"
    );
    assert_eq!(e.suggestion, "Use Liath functions instead");
    assert_eq!(e.line, None);
    assert_eq!(e.code_snippet, None);

    let e = e.with_snippet("os.execute('ls')").at_location(3, Some(7));
    assert_eq!(e.code_snippet.as_deref(), Some("os.execute('ls')"));
    assert_eq!(e.line, Some(3));
    assert_eq!(e.column, Some(7));

    let e = ValidationError::undefined_variable("x", Some("y"));
    assert_eq!(e.error_type, ErrorType::UndefinedVariable);
    assert_eq!(e.message, "Undefined variable 'x'");
    assert_eq!(e.suggestion, "Did you mean 'y'?");
    let e = ValidationError::undefined_variable("x", None);
    assert_eq!(e.suggestion, "Check that the variable is defined before use");

    let e = ValidationError::syntax("oops", Some(4), "look again");
    assert_eq!(e.error_type, ErrorType::SyntaxError);
    assert_eq!(e.message, "oops");
    assert_eq!(e.line, Some(4));
    assert_eq!(e.column, None);
}

#[test]
fn validation_warning_builders() {
    let w = ValidationWarning::missing_return();
    assert_eq!(w.warning_type, WarningType::MissingReturn);
    assert_eq!(w.message, "Code does not have an explicit return statement");
    assert_eq!(w.line, None);
    assert_eq!(
        w.suggestion,
        "Add 'return <value>' at the end to return a result"
    );

    let w = ValidationWarning::unused_variable("tmp", Some(9));
    assert_eq!(w.warning_type, WarningType::UnusedVariable);
    assert_eq!(w.message, "Variable 'tmp' is defined but never used");
    assert_eq!(w.line, Some(9));
}

#[test]
fn validation_result_builders() {
    let r = ValidationResult::valid();
    assert!(r.valid);
    assert!(r.errors.is_empty() && r.warnings.is_empty() && r.available_functions.is_empty());

    let r = ValidationResult::invalid(vec![ValidationError::syntax("m", None, "s")])
        .with_functions(available_functions());
    assert!(!r.valid);
    assert_eq!(r.errors.len(), 1);
    assert_eq!(r.available_functions.len(), 12);
}

#[test]
fn runtime_error_builders() {
    let e = RuntimeError::namespace_not_found("docs", vec![]);
    assert_eq!(e.message, "Namespace 'docs' not found");
    assert_eq!(
        e.suggestion,
        "No namespaces exist. Create one first with create_namespace()."
    );
    let e = RuntimeError::namespace_not_found("docs", vec!["a".to_string(), "b".to_string()]);
    assert_eq!(
        e.suggestion,
        "Available namespaces: a, b. Use one of these or create 'docs'."
    );
    assert!(matches!(
        e.error_type,
        RuntimeErrorType::NamespaceNotFound { ref namespace, ref available }
            if namespace == "docs" && available.len() == 2
    ));

    let e = RuntimeError::key_not_found("k", "ns");
    assert_eq!(e.message, "Key 'k' not found in namespace 'ns'");
    assert!(matches!(e.error_type, RuntimeErrorType::KeyNotFound { ref key } if key == "k"));

    let e = RuntimeError::type_error("string", "table", "put");
    assert_eq!(e.message, "Type error in put: expected string, got table");
    assert_eq!(
        e.suggestion,
        "Convert the value to string or use a different function."
    );

    let e = RuntimeError::unauthorized("put", "bob");
    assert_eq!(e.message, "User 'bob' is not authorized to call 'put'");
    assert!(matches!(
        e.error_type,
        RuntimeErrorType::AuthorizationDenied { ref function, ref user }
            if function == "put" && user == "bob"
    ));

    let e = RuntimeError::timeout(0);
    assert_eq!(e.message, "Execution timed out after 0ms");
    assert!(matches!(e.error_type, RuntimeErrorType::Timeout));
    let e = RuntimeError::timeout(18446744073709551615);
    assert_eq!(e.message, "Execution timed out after 18446744073709551615ms");

    let e = RuntimeError::lua_error("boom").with_traceback("stack");
    assert_eq!(e.message, "boom");
    assert_eq!(e.lua_traceback.as_deref(), Some("stack"));
    assert!(matches!(e.error_type, RuntimeErrorType::LuaError));
}

#[test]
fn function_info_builders() {
    let f = FunctionInfo::new("put", "put(namespace, key, value)", "Store a value", "nil");
    assert_eq!(f.name, "put");
    assert_eq!(f.return_type, "nil");
    assert_eq!(f.example, None);
    let f = f.with_example("put('a', 'b', 'c')");
    assert_eq!(f.example.as_deref(), Some("put('a', 'b', 'c')"));
    assert_eq!(f.duplicate().signature, "put(namespace, key, value)");
}

#[test]
fn catalog_and_blocklist_tables() {
    let functions = available_functions();
    assert_eq!(functions.len(), 12);
    assert_eq!(functions[0].name, "put");
    assert_eq!(functions[4].name, "semantic_search");
    assert_eq!(
        functions[4].return_type,
        "list of {id, content, distance}"
    );
    assert_eq!(functions[11].name, "id");
    assert!(functions.iter().all(|f| f.example.is_some()));

    let blocked = blocked_functions();
    assert_eq!(blocked.len(), 18);
    assert_eq!(
        blocked[0],
        ("io.open", "File I/O is not allowed. Store data using put() instead.")
    );
    assert_eq!(blocked[17], ("getmetatable", "Metatable access is not allowed."));
}

#[test]
fn kinds_have_their_names() {
    assert_eq!(ErrorType::SyntaxError.as_str(), "syntax_error");
    assert_eq!(ErrorType::ForbiddenFunction.as_str(), "forbidden_function");
    assert_eq!(ErrorType::UndefinedVariable.as_str(), "undefined_variable");
    assert_eq!(ErrorType::TypeMismatch.as_str(), "type_mismatch");
    assert_eq!(ErrorType::MissingReturn.as_str(), "missing_return");
    assert_eq!(ErrorType::ComplexityExceeded.as_str(), "complexity_exceeded");
    assert_eq!(WarningType::MissingReturn.as_str(), "missing_return");
    assert_eq!(WarningType::UnusedVariable.as_str(), "unused_variable");
    assert_eq!(WarningType::DeprecatedFunction.as_str(), "deprecated_function");
    assert_eq!(RuntimeErrorType::Timeout.as_str(), "timeout");
    assert_eq!(RuntimeErrorType::LuaError.as_str(), "lua_error");
    assert_eq!(
        RuntimeError::key_not_found("k", "n").error_type.as_str(),
        "key_not_found"
    );
    assert_eq!(
        RuntimeError::unauthorized("f", "u").error_type.as_str(),
        "authorization_denied"
    );
    assert_eq!(
        RuntimeError::type_error("a", "b", "c").error_type.as_str(),
        "type_error"
    );
    assert_eq!(
        RuntimeError::namespace_not_found("n", vec![]).error_type.as_str(),
        "namespace_not_found"
    );
}

#[test]
fn test_validation_error_serialization() {
    let error = ValidationError::forbidden_function("os.execute", "Use Liath functions instead");
    let mut fields = serde_json::Map::new();
    fields.insert(
        "error_type".to_string(),
        serde_json::Value::String(error.error_type.as_str().to_string()),
    );
    fields.insert(
        "message".to_string(),
        serde_json::Value::String(error.message.clone()),
    );
    fields.insert(
        "suggestion".to_string(),
        serde_json::Value::String(error.suggestion.clone()),
    );
    let json = serde_json::to_string(&serde_json::Value::Object(fields)).unwrap();
    assert!(json.contains("forbidden_function"));
    assert!(json.contains("os.execute"));
}
