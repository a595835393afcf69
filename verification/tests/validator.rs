use liath::errors::ErrorType;
use liath::syntax::{
    extract_function_name, find_similar_function, line_from, mark, name_from, parse_lua_error,
    remedy, similar_among, suggest_fix, CHUNK_NAME,
};
use liath::validator::{
    extract_snippet, forbidden_error_at, get_line, has_return_statement, line_number,
    syntax_error_for, LuaValidator,
};

#[test]
fn test_valid_code() {
    let validator = LuaValidator::new();
    let result = validator.validate("return 1 + 1");
    assert!(result.valid);
    assert!(result.errors.is_empty());
}

#[test]
fn test_syntax_error() {
    let validator = LuaValidator::new();
    let result = validator.validate("return 1 +");
    assert!(!result.valid);
    assert!(!result.errors.is_empty());
    assert_eq!(result.errors[0].error_type, ErrorType::SyntaxError);
}

#[test]
fn test_forbidden_function_io() {
    let validator = LuaValidator::new();
    let result = validator.validate("io.open('/etc/passwd')");
    assert!(!result.valid);
    assert!(!result.errors.is_empty());
    assert_eq!(result.errors[0].error_type, ErrorType::ForbiddenFunction);
    assert!(result.errors[0].suggestion.contains("put"));
}

#[test]
fn test_forbidden_function_os() {
    let validator = LuaValidator::new();
    let result = validator.validate("os.execute('rm -rf /')");
    assert!(!result.valid);
    assert_eq!(result.errors[0].error_type, ErrorType::ForbiddenFunction);
}

#[test]
fn test_missing_return_warning() {
    let validator = LuaValidator::new();
    let result = validator.validate("local x = 1");
    // Should be valid but with warning
    assert!(result.valid);
    assert!(!result.warnings.is_empty());
}

#[test]
fn test_levenshtein() {
    assert_eq!(LuaValidator::levenshtein("put", "put"), 0);
    assert_eq!(LuaValidator::levenshtein("put", "get"), 2);
    assert_eq!(
        LuaValidator::levenshtein("semantic_search", "semanticsearch"),
        1
    );
}

#[test]
fn test_available_functions() {
    let validator = LuaValidator::new();
    let funcs = validator.get_available_functions();
    assert!(!funcs.is_empty());
    assert!(funcs.iter().any(|f| f.name == "put"));
    assert!(funcs.iter().any(|f| f.name == "semantic_search"));
}

#[test]
fn levenshtein_edges() {
    assert_eq!(LuaValidator::levenshtein("", ""), 0);
    assert_eq!(LuaValidator::levenshtein("", "abc"), 3);
    assert_eq!(LuaValidator::levenshtein("abc", ""), 3);
    assert_eq!(LuaValidator::levenshtein("kitten", "sitting"), 3);
    assert_eq!(LuaValidator::levenshtein("flaw", "lawn"), 2);
    assert_eq!(LuaValidator::levenshtein("héllo", "hello"), 1);
}

#[test]
fn forbidden_call_is_reported_with_place_and_text() {
    let validator = LuaValidator::new();
    let code = "local a = 1\nlocal f = io.open('/etc/passwd')\nreturn a";
    let result = validator.validate(code);
    assert!(!result.valid);
    // the call pattern matches, and so does the module pattern of each of
    // the three blocked symbols of the module
    assert_eq!(result.errors.len(), 4);
    let call = &result.errors[0];
    assert_eq!(call.error_type, ErrorType::ForbiddenFunction);
    assert_eq!(call.message, "Forbidden function call detected: 'io.open'");
    assert_eq!(call.line, Some(2));
    assert_eq!(call.column, None);
    assert_eq!(
        call.suggestion,
        "File I/O is not allowed. Store data using put() instead."
    );
    assert_eq!(
        call.code_snippet.as_deref(),
        Some("local a = 1\nlocal f = io.open('/etc/passwd')\nreturn a")
    );
    let module = &result.errors[1];
    assert_eq!(module.message, "Forbidden function call detected: 'io.'");
    assert_eq!(
        module.suggestion,
        "The 'io' module is not available. File I/O is not allowed. Store data using put() instead."
    );
    assert_eq!(result.available_functions.len(), 12);
    assert!(result.warnings.is_empty());
}

#[test]
fn every_blocked_symbol_is_caught() {
    let validator = LuaValidator::new();
    for symbol in [
        "io.open", "io.read", "io.write", "os.execute", "os.remove", "os.rename", "os.exit",
        "require", "loadfile", "dofile", "load", "loadstring", "debug.getinfo", "debug.sethook",
        "rawget", "rawset", "setmetatable", "getmetatable",
    ] {
        let code = format!("return {} ('x')", symbol);
        let result = validator.validate(&code);
        assert!(!result.valid);
        assert_eq!(result.errors[0].error_type, ErrorType::ForbiddenFunction);
    }
}

#[test]
fn validator_reads_text_not_structure() {
    let validator = LuaValidator::new();
    // a blocked name inside a longer word is no call of it
    assert!(validator.validate("return preload(1)").valid);
    // a call inside a string is still found
    let result = validator.validate("return 'os.exit()'");
    assert!(!result.valid);
    // a syntax error and a blocked call are both reported, the call first
    let result = validator.validate("dofile('x') +");
    assert_eq!(result.errors.len(), 2);
    assert_eq!(result.errors[0].error_type, ErrorType::ForbiddenFunction);
    assert_eq!(result.errors[1].error_type, ErrorType::SyntaxError);
}

#[test]
fn syntax_error_carries_line_and_remedy() {
    let validator = LuaValidator::new();
    let result = validator.validate("local x = 1\nif x then\nreturn x");
    assert!(!result.valid);
    let e = &result.errors[0];
    assert_eq!(e.error_type, ErrorType::SyntaxError);
    assert_eq!(e.line, Some(3));
    assert!(e.message.contains("Line 3:"));
    assert_eq!(
        e.suggestion,
        "Add 'end' to close your function, if, for, or while block."
    );
    assert_eq!(e.code_snippet.as_deref(), Some("return x"));
}

#[test]
fn blank_and_commented_scripts() {
    let validator = LuaValidator::new();
    let result = validator.validate("");
    assert!(result.valid);
    assert!(result.warnings.is_empty());
    let result = validator.validate("   \n\t ");
    assert!(result.warnings.is_empty());
    let result = validator.validate("-- return 1\nlocal x = 2");
    assert!(result.valid);
    assert_eq!(result.warnings.len(), 1);
    let result = validator.validate("local x = 2 -- return later");
    assert_eq!(result.warnings.len(), 1);
    let result = validator.validate("local x = 2\n  return x -- done");
    assert!(result.warnings.is_empty());
}

#[test]
fn return_detection() {
    assert!(has_return_statement("return 1"));
    assert!(has_return_statement("x = 1\r\n  return x\r\n"));
    assert!(!has_return_statement("x = 1 -- return"));
    assert!(!has_return_statement("--return 1"));
    assert!(has_return_statement("a - - b return"));
    assert!(!has_return_statement("retur\nn"));
    assert!(!has_return_statement(""));
}

#[test]
fn line_numbers_and_lines() {
    let code = "a\nbb\nccc";
    assert_eq!(line_number(code, 0), 1);
    assert_eq!(line_number(code, 1), 1);
    assert_eq!(line_number(code, 2), 2);
    assert_eq!(line_number(code, 5), 3);
    assert_eq!(line_number(code, 500), 3);
    // offsets are byte offsets: 'é' takes two bytes
    assert_eq!(line_number("é\nx", 3), 2);
    assert_eq!(get_line(code, 1), "a");
    assert_eq!(get_line(code, 2), "bb");
    assert_eq!(get_line(code, 3), "ccc");
    assert_eq!(get_line(code, 4), "");
    assert_eq!(get_line(code, 0), "a");
    assert_eq!(get_line("one\r\ntwo\r", 1), "one");
    assert_eq!(get_line("one\r\ntwo\r", 2), "two\r");
    assert_eq!(get_line("one\n", 2), "");
}

#[test]
fn snippets() {
    assert_eq!(extract_snippet("io.open('x')", 0, 40), "io.open('x')");
    let long: String = "a".repeat(50) + "io.open" + &"b".repeat(50);
    let snippet = extract_snippet(&long, 50, 40);
    assert_eq!(
        snippet,
        format!("...{}io.open{}...", "a".repeat(40), "b".repeat(33))
    );
    assert_eq!(extract_snippet("  x  ", 2, 40), "x");
    assert_eq!(extract_snippet("abcdef", 3, 2), "...bcde...");
    assert_eq!(extract_snippet("ab   cdef", 4, 2), "...c...");
}

#[test]
fn forbidden_error_from_given_match() {
    let e = forbidden_error_at("x = rawget  (t, 1)", "advice", (4, 13));
    assert_eq!(e.message, "Forbidden function call detected: 'rawget  '");
    assert_eq!(e.line, Some(1));
    assert_eq!(e.suggestion, "advice");
    let e = forbidden_error_at("a\nb((", "advice", (2, 5));
    assert_eq!(e.message, "Forbidden function call detected: 'b'");
    assert_eq!(e.line, Some(2));
    // a span that runs backwards stands for the empty text
    let e = forbidden_error_at("abc", "advice", (2, 1));
    assert_eq!(e.message, "Forbidden function call detected: ''");
}

#[test]
fn diagnostics_are_parsed() {
    let (message, line) = parse_lua_error("[string \"...\"]:3: unexpected symbol near '='");
    assert_eq!(message, "Line 3: unexpected symbol near '='");
    assert_eq!(line, Some(3));
    let (message, line) = parse_lua_error("[string \"<eval>\"]:12: 'end' expected");
    assert_eq!(message, "Line 12: 'end' expected");
    assert_eq!(line, Some(12));
    let (message, line) = parse_lua_error("no place given");
    assert_eq!(message, "no place given");
    assert_eq!(line, None);
    assert_eq!(line_from("x]:42:", Some((3, 5))), Some(42));
    assert_eq!(line_from("x]:42:", None), None);
    assert_eq!(line_from("x]:4a:", Some((3, 5))), None);
    assert_eq!(line_from("abc", Some((1, 1))), None);
    assert_eq!(
        line_from("99999999999999999999999999", Some((0, 26))),
        None
    );
}

#[test]
fn remedies() {
    assert_eq!(
        remedy("unexpected symbol near '='", None),
        "Check for assignment vs comparison: use '=' for assignment, '==' for comparison."
    );
    assert_eq!(
        remedy("unexpected symbol near ')'", None),
        "Check for matching parentheses. You may have an extra ')'."
    );
    assert_eq!(
        remedy("unexpected symbol near '('", None),
        "Check for matching parentheses. You may be missing '(' or have an extra one."
    );
    assert_eq!(
        remedy("unexpected symbol near 'x'", None),
        "Check the syntax around the unexpected symbol."
    );
    assert_eq!(
        remedy("'then' expected near 'x'", None),
        "Add 'then' after your 'if' condition."
    );
    assert_eq!(
        remedy("'do' expected near 'x'", None),
        "Add 'do' after your 'for' or 'while' statement."
    );
    assert_eq!(
        remedy("unfinished string near 'x'", None),
        "Close your string with a matching quote (' or \")."
    );
    assert_eq!(
        remedy("attempt to call a nil value", Some("put")),
        "Did you mean 'put'? Check the function name."
    );
    assert_eq!(
        remedy("attempt to call a nil value", None),
        "Check that the function exists and is spelled correctly."
    );
    assert_eq!(
        remedy("something else", Some("put")),
        "Review the Lua syntax. Ensure all blocks are properly closed and punctuation is correct."
    );
}

#[test]
fn similar_names() {
    let names = vec!["put".to_string(), "get".to_string(), "semantic_search".to_string()];
    let lowered = names.clone();
    assert_eq!(similar_among("putt", &lowered, &names), Some("put".to_string()));
    assert_eq!(similar_among("gett", &lowered, &names), Some("get".to_string()));
    assert_eq!(similar_among("pet", &lowered, &names), Some("put".to_string()));
    assert_eq!(
        similar_among("semantic_serch", &lowered, &names),
        Some("semantic_search".to_string())
    );
    assert_eq!(similar_among("zzzzzzzz", &lowered, &names), None);
    // the case of the letters does not count
    assert_eq!(
        find_similar_function(&names, "SEMANTIC_SEARCH"),
        Some("semantic_search".to_string())
    );
    assert_eq!(find_similar_function(&names, "Frobnicate"), None);
}

#[test]
fn called_names_are_found() {
    assert_eq!(
        extract_function_name("attempt to call a nil value (global 'putt')"),
        Some("putt".to_string())
    );
    assert_eq!(extract_function_name("attempt to call a nil value"), None);
    assert_eq!(name_from("global 'abc'", Some((8, 11))), Some("abc".to_string()));
    assert_eq!(name_from("global 'abc'", None), None);
    let names = vec!["put".to_string(), "get".to_string()];
    assert_eq!(
        suggest_fix(&names, "Attempt to call a nil value (global 'gte')"),
        "Did you mean 'get'? Check the function name."
    );
    assert_eq!(
        suggest_fix(&names, "UNEXPECTED SYMBOL NEAR '='"),
        "Check for assignment vs comparison: use '=' for assignment, '==' for comparison."
    );
    let e = syntax_error_for(&names, "a\nb", "[string \"...\"]:2: 'then' expected near 'b'");
    assert_eq!(e.error_type, ErrorType::SyntaxError);
    assert_eq!(e.message, "Line 2: 'then' expected near 'b'");
    assert_eq!(e.line, Some(2));
    assert_eq!(e.suggestion, "Add 'then' after your 'if' condition.");
    assert_eq!(e.code_snippet.as_deref(), Some("b"));
}

#[test]
fn help_lists_every_function() {
    let validator = LuaValidator::new();
    let help = validator.format_help();
    assert!(help.starts_with(
        "Available Liath functions:\n\n  put(namespace, key, value) - Store a value\n    Example: put('config', 'theme', 'dark')\n\n  get(namespace, key) - Retrieve a value\n"
    ));
    assert!(help.ends_with("  id() - Generate unique ID\n    Example: local unique_id = id()\n\n"));
    assert_eq!(help.matches("Example: ").count(), 12);
}

#[test]
fn the_compiler_cites_the_script_by_the_name_it_was_given() {
    assert_eq!(CHUNK_NAME, "...");
    let cited: String = mark(CHUNK_NAME).into_iter().collect();
    assert_eq!(cited, "[string \"...\"]:");
    let cited: String = mark("<eval>").into_iter().collect();
    assert_eq!(cited, "[string \"<eval>\"]:");
    let cited: String = mark("").into_iter().collect();
    assert_eq!(cited, "[string \"\"]:");
    // a script that does not compile is cited under that name, and the
    // citation is replaced in the message
    let result = LuaValidator::new().validate("local = 1");
    assert!(!result.valid);
    assert!(result.errors[0].message.contains("Line 1:"));
    assert!(!result.errors[0].message.contains("[string"));
}
