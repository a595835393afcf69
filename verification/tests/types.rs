use liath::agent::{AgentMetadata, Message, Role};
use liath::catalog::CatalogFunction;
use liath::config::Config;
use liath::effect::{Effect, Event};
use liath::local::perform_local;
use liath::mcp::{
    AgentRecallByTagsInput, CallToolResult, Content, CreateNamespaceInput, StoreDocumentInput,
};
use liath::permits::EmbeddingPermits;
use liath::sandbox::{
    all_approved, builtin_globals, denied_globals, is_approved_global, is_denied_global, is_sealed,
    root, seal, sealing_succeeded,
};
use liath::text::{
    chars_of, contains_sub, decimal_string, join, replace_all, signed_decimal_string, starts_with,
    string_of, trim_range,
};
use liath::transport::{coerce_result, Transport};
use liath::value::{LuaValue, ScriptValue, TableKey};

#[test]
fn test_config_default() {
    let config = Config::default();
    assert_eq!(config.data_dir.as_str(), "./data");
    assert!(config.luarocks_path.is_none());
}

#[test]
fn test_agent_types() {
    let msg = Message {
        id: 1,
        role: Role::User,
        content: "Hello".to_string(),
        timestamp: 12345,
    };

    assert_eq!(msg.role.as_str(), "user");
    assert_eq!(msg.content, "Hello");

    let tool_role = Role::Tool("calculator".to_string());
    assert_eq!(tool_role.as_str(), "tool");
}

#[test]
fn roles_and_agent_records() {
    assert_eq!(Role::Assistant.as_str(), "assistant");
    assert_eq!(Role::System.as_str(), "system");
    let record = AgentMetadata {
        id: "a".to_string(),
        created_at: 7,
        description: None,
    };
    assert_eq!(record.clone().id, "a");
}

#[test]
fn tool_results() {
    let item = Content::text("hello");
    assert_eq!(item.content_type, "text");
    assert_eq!(item.text, "hello");
    assert!(item.as_text().is_some());
    let other = Content {
        content_type: "image".to_string(),
        text: String::new(),
    };
    assert!(other.as_text().is_none());
    let ok = CallToolResult::success(vec![item.clone()]);
    assert_eq!(ok.is_error, Some(false));
    assert_eq!(ok.content.len(), 1);
    let failed = CallToolResult::error(vec![item]);
    assert_eq!(failed.is_error, Some(true));
}

#[test]
fn catalog_names_and_lookup() {
    let all = CatalogFunction::all();
    assert_eq!(all.len(), 25);
    for function in &all {
        assert_eq!(CatalogFunction::lookup(function.name()), Some(*function));
    }
    assert_eq!(CatalogFunction::lookup("get"), Some(CatalogFunction::Get));
    assert_eq!(
        CatalogFunction::lookup("semantic_search"),
        Some(CatalogFunction::SemanticSearch)
    );
    assert_eq!(CatalogFunction::lookup("io.open"), None);
    assert_eq!(CatalogFunction::lookup(""), None);
    assert_eq!(CatalogFunction::lookup("Get"), None);
}

#[test]
fn no_catalog_function_is_a_denied_global() {
    for function in CatalogFunction::all() {
        assert!(!is_denied_global(function.name()));
    }
}

#[test]
fn denied_globals_are_the_roots_of_the_blocked_symbols() {
    let denied = denied_globals();
    assert_eq!(
        denied,
        vec![
            "io", "os", "require", "loadfile", "dofile", "load", "loadstring", "debug", "rawget",
            "rawset", "setmetatable", "getmetatable"
        ]
    );
    assert!(is_denied_global("io"));
    assert!(is_denied_global("debug"));
    assert!(!is_denied_global("print"));
    assert!(!is_denied_global("io.open"));
    assert_eq!(root("os.execute"), "os");
    assert_eq!(root("require"), "require");
    assert_eq!(root(""), "");
}

#[test]
fn permits_never_exceed_the_limit() {
    let mut permits = EmbeddingPermits::new(2);
    assert_eq!(permits.available(), 2);
    assert!(permits.try_acquire());
    assert!(permits.try_acquire());
    assert!(!permits.try_acquire());
    assert_eq!(permits.available(), 0);
    permits.release();
    assert_eq!(permits.available(), 1);
    assert!(permits.try_acquire());
    permits.release();
    permits.release();
    permits.release();
    assert_eq!(permits.available(), 2);
    let mut none = EmbeddingPermits::new(0);
    assert!(!none.try_acquire());
}

#[test]
fn only_scalars_leave_a_script() {
    assert_eq!(
        coerce_result(&LuaValue::String("hi".to_string())).unwrap(),
        Transport::Text("hi".to_string())
    );
    assert_eq!(
        coerce_result(&LuaValue::Integer(2)).unwrap(),
        Transport::Text("2".to_string())
    );
    assert_eq!(
        coerce_result(&LuaValue::Integer(i64::MIN)).unwrap(),
        Transport::Text("-9223372036854775808".to_string())
    );
    assert_eq!(
        coerce_result(&LuaValue::Boolean(true)).unwrap(),
        Transport::Text("true".to_string())
    );
    assert_eq!(
        coerce_result(&LuaValue::Boolean(false)).unwrap(),
        Transport::Text("false".to_string())
    );
    assert_eq!(
        coerce_result(&LuaValue::Nil).unwrap(),
        Transport::Text("nil".to_string())
    );
    assert_eq!(
        coerce_result(&LuaValue::Number(1.5f64.to_bits())).unwrap(),
        Transport::Number(1.5f64.to_bits())
    );
    let table = LuaValue::Table(vec![(TableKey::Index(1), LuaValue::Integer(1))]);
    let error = coerce_result(&table).unwrap_err();
    assert_eq!(
        error.message,
        "Type error in return value: expected string, number, boolean or nil, got table"
    );
    let error = coerce_result(&LuaValue::Other).unwrap_err();
    assert!(error.message.ends_with("got function"));
}

#[test]
fn fresh_ids_are_made_on_the_spot() {
    let first = perform_local(&Effect::FreshUuid);
    let second = perform_local(&Effect::FreshUuid);
    let text = |event: Option<Event>| match event {
        Some(Event::Reply(ScriptValue::String(s))) => s,
        other => panic!("no id: {:?}", other),
    };
    let (first, second) = (text(first), text(second));
    assert_eq!(first.len(), 36);
    assert_eq!(first.matches('-').count(), 4);
    assert_ne!(first, second);
    for id in [&first, &second] {
        let chars: Vec<char> = id.chars().collect();
        assert_eq!(chars.len(), 36);
        for (i, c) in chars.iter().enumerate() {
            if i == 8 || i == 13 || i == 18 || i == 23 {
                assert_eq!(*c, '-');
            } else {
                assert!(matches!(*c, '0'..='9' | 'a'..='f'));
            }
        }
        assert_eq!(chars[14], '4');
        assert!(matches!(chars[19], '8' | '9' | 'a' | 'b'));
    }
    assert!(perform_local(&Effect::Clock).is_none());
    assert!(perform_local(&Effect::SaveAll).is_none());
}

#[test]
fn numerals() {
    assert_eq!(decimal_string(0), "0");
    assert_eq!(decimal_string(7), "7");
    assert_eq!(decimal_string(10), "10");
    assert_eq!(decimal_string(1234567890), "1234567890");
    assert_eq!(decimal_string(u64::MAX), "18446744073709551615");
    assert_eq!(signed_decimal_string(0), "0");
    assert_eq!(signed_decimal_string(-1), "-1");
    assert_eq!(signed_decimal_string(i64::MAX), "9223372036854775807");
    assert_eq!(signed_decimal_string(i64::MIN), "-9223372036854775808");
}

#[test]
fn text_helpers() {
    let s = |t: &str| t.to_string();
    assert_eq!(join(&vec![], ", "), "");
    assert_eq!(join(&vec![s("a")], ", "), "a");
    assert_eq!(join(&vec![s("a"), s("b"), s("c")], ", "), "a, b, c");
    assert!(starts_with("_vidx:12", "_vidx:"));
    assert!(starts_with("abc", ""));
    assert!(!starts_with("ab", "abc"));
    assert!(!starts_with("xbc", "ab"));
    let text = chars_of("a.b.c");
    assert_eq!(
        string_of(&replace_all(&text, &chars_of("."), &chars_of("\\."))),
        "a\\.b\\.c"
    );
    assert_eq!(
        string_of(&replace_all(&chars_of("aaa"), &chars_of("aa"), &chars_of("b"))),
        "ba"
    );
    assert_eq!(
        string_of(&replace_all(&chars_of("abc"), &chars_of(""), &chars_of("x"))),
        "abc"
    );
    assert!(contains_sub(&chars_of("hello"), &chars_of("ell")));
    assert!(contains_sub(&chars_of("hello"), &chars_of("")));
    assert!(!contains_sub(&chars_of("hello"), &chars_of("elo")));
    let padded = chars_of(" \t x y \u{3000}\n");
    assert_eq!(trim_range(&padded, 0, padded.len()), (3, 6));
    let blank = chars_of("  ");
    assert_eq!(trim_range(&blank, 0, 2), (2, 2));
}

fn bound(lua: &rlua::Lua) -> Vec<String> {
    let mut names = Vec::new();
    for pair in lua.globals().pairs::<String, rlua::Value>() {
        names.push(pair.unwrap().0);
    }
    names.sort();
    names
}

#[test]
fn sealing_takes_the_denied_globals_away() {
    let mut lua = rlua::Lua::new();
    assert!(lua
        .load("return io ~= nil and os ~= nil and load ~= nil and package ~= nil")
        .eval::<bool>()
        .unwrap());
    assert_eq!(is_sealed(&lua), Some(false));
    assert!(seal(&mut lua));
    assert_eq!(is_sealed(&lua), Some(true));
    for name in denied_globals() {
        assert!(lua.globals().raw_get::<_, rlua::Value>(name.as_str()).unwrap().is_nil());
    }
    for name in ["package", "collectgarbage", "dofile", "loadstring", "require"] {
        assert!(lua.globals().raw_get::<_, rlua::Value>(name).unwrap().is_nil());
    }
    // a script finds none of them
    assert!(lua
        .load("return io == nil and os == nil and debug == nil and package == nil")
        .eval::<bool>()
        .unwrap());
    assert!(lua.load("return io.open('/etc/passwd')").eval::<rlua::Value>().is_err());
    // what a script may find is left alone
    assert!(lua
        .load("return type(print) == 'function' and type(string.len) == 'function'")
        .eval::<bool>()
        .unwrap());
    lua.globals().set("os", 1).unwrap();
    assert_eq!(is_sealed(&lua), Some(false));
    assert!(seal(&mut lua));
    assert_eq!(is_sealed(&lua), Some(true));
    assert!(lua.globals().raw_get::<_, rlua::Value>("os").unwrap().is_nil());
}

#[test]
fn sealing_succeeds_where_every_removal_does() {
    assert!(sealing_succeeded(&vec![]));
    assert!(sealing_succeeded(&vec![true]));
    assert!(sealing_succeeded(&vec![true, true, true]));
    assert!(!sealing_succeeded(&vec![false]));
    assert!(!sealing_succeeded(&vec![true, false, true]));
    assert!(!sealing_succeeded(&vec![true, true, false]));
}

#[test]
fn a_script_may_find_the_safe_library_the_helpers_and_the_catalog() {
    assert_eq!(
        builtin_globals(),
        vec![
            "assert", "error", "ipairs", "next", "pairs", "pcall", "print", "rawequal", "rawlen",
            "select", "tonumber", "tostring", "type", "xpcall", "_G", "_VERSION", "coroutine",
            "math", "string", "table", "utf8"
        ]
    );
    for name in builtin_globals() {
        assert!(is_approved_global(name));
        assert!(!is_denied_global(name));
    }
    assert!(is_approved_global("liath"));
    for function in CatalogFunction::all() {
        assert!(is_approved_global(function.name()));
    }
    for name in denied_globals() {
        assert!(!is_approved_global(name.as_str()));
    }
    for name in ["package", "collectgarbage", "answer", "", "Print", "print ", "io.open"] {
        assert!(!is_approved_global(name));
    }
    assert!(all_approved(&vec![]));
    assert!(all_approved(&vec!["print".to_string(), "get".to_string(), "liath".to_string()]));
    assert!(!all_approved(&vec!["print".to_string(), "package".to_string()]));
    assert!(!all_approved(&vec!["os".to_string()]));
}

#[test]
fn sealing_leaves_what_is_allowed() {
    let mut lua = rlua::Lua::new();
    lua.globals().set("answer", 42).unwrap();
    lua.globals().set("liath", 7).unwrap();
    lua.globals().set("put", "bound").unwrap();
    let before = bound(&lua);
    assert!(seal(&mut lua));
    // what is bound afterwards is what was bound before and a script may find
    let kept: Vec<String> = before
        .into_iter()
        .filter(|name| is_approved_global(name))
        .collect();
    assert_eq!(bound(&lua), kept);
    assert!(bound(&lua).contains(&"pairs".to_string()));
    assert!(!bound(&lua).contains(&"answer".to_string()));
    assert_eq!(lua.globals().get::<_, i64>("liath").unwrap(), 7);
    assert_eq!(lua.globals().get::<_, String>("put").unwrap(), "bound");
    assert!(lua
        .load("return type(math.floor) == 'function' and type(pairs) == 'function'")
        .eval::<bool>()
        .unwrap());
    // sealing what is sealed changes nothing
    let sealed = bound(&lua);
    assert!(seal(&mut lua));
    assert_eq!(is_sealed(&lua), Some(true));
    assert_eq!(bound(&lua), sealed);
}

#[test]
fn a_scope_with_a_key_that_is_no_name_is_not_judged() {
    let mut lua = rlua::Lua::new();
    lua.globals().set(1, true).unwrap();
    assert_eq!(is_sealed(&lua), None);
    let before = bound(&lua);
    assert!(!seal(&mut lua));
    assert_eq!(bound(&lua), before);
    assert!(lua.load("return os ~= nil").eval::<bool>().unwrap());
    lua.globals().set(1, rlua::Value::Nil).unwrap();
    assert_eq!(is_sealed(&lua), Some(false));
    assert!(seal(&mut lua));
    assert_eq!(is_sealed(&lua), Some(true));
}

#[test]
fn tool_inputs_hold_what_they_are_given() {
    let create = CreateNamespaceInput {
        name: "docs".to_string(),
        dimensions: Some(3),
        metric: None,
    };
    assert_eq!(create.name, "docs");
    assert_eq!(create.dimensions, Some(3));
    assert!(create.metric.is_none());
    let store = StoreDocumentInput {
        namespace: "docs".to_string(),
        key: "a".to_string(),
        text: "first".to_string(),
        id: 1,
    };
    assert_eq!((store.key.as_str(), store.id), ("a", 1));
    let recall = AgentRecallByTagsInput {
        agent_id: "agent".to_string(),
        tags: vec!["x".to_string()],
        k: None,
    };
    assert_eq!(recall.tags, vec!["x"]);
    assert!(format!("{:?}", recall).contains("agent"));
}
