use liath::value::{
    is_finite, json_to_lua_value, lua_value_to_json, LuaValue, MarshalError, ScriptValue, TableKey,
};

fn text(s: &str) -> String {
    s.to_string()
}

#[test]
fn test_lua_value_to_json_nil() {
    let nil = LuaValue::Nil;
    let json = lua_value_to_json(&nil).unwrap();
    assert_eq!(json, ScriptValue::Null);
}

#[test]
fn test_lua_value_to_json_bool() {
    let val = LuaValue::Boolean(true);
    let json = lua_value_to_json(&val).unwrap();
    assert_eq!(json, ScriptValue::Bool(true));
}

#[test]
fn test_lua_value_to_json_integer() {
    let val = LuaValue::Integer(42);
    let json = lua_value_to_json(&val).unwrap();
    assert_eq!(json, ScriptValue::Int(42));
}

#[test]
fn test_lua_value_to_json_number() {
    let val = LuaValue::Number(3.14f64.to_bits());
    let json = lua_value_to_json(&val).unwrap();
    assert_eq!(json, ScriptValue::Float(3.14f64.to_bits()));
}

#[test]
fn test_lua_value_to_json_string() {
    let val = LuaValue::String(text("hello"));
    let json = lua_value_to_json(&val).unwrap();
    assert_eq!(json, ScriptValue::String(text("hello")));
}

#[test]
fn test_lua_value_to_json_array() {
    let table = vec![
        (TableKey::Index(1), LuaValue::Integer(10)),
        (TableKey::Index(2), LuaValue::Integer(20)),
        (TableKey::Index(3), LuaValue::Integer(30)),
    ];

    let val = LuaValue::Table(table);
    let json = lua_value_to_json(&val).unwrap();
    assert_eq!(
        json,
        ScriptValue::Array(vec![
            ScriptValue::Int(10),
            ScriptValue::Int(20),
            ScriptValue::Int(30)
        ])
    );
}

#[test]
fn test_lua_value_to_json_object() {
    let table = vec![
        (TableKey::Name(text("name")), LuaValue::String(text("Alice"))),
        (TableKey::Name(text("age")), LuaValue::Integer(30)),
    ];

    let val = LuaValue::Table(table);
    let json = lua_value_to_json(&val).unwrap();

    assert_eq!(
        json,
        ScriptValue::Object(vec![
            (text("name"), ScriptValue::String(text("Alice"))),
            (text("age"), ScriptValue::Int(30)),
        ])
    );
}

#[test]
fn test_json_to_lua_value_null() {
    let json = ScriptValue::Null;
    let lua_val = json_to_lua_value(&json);
    assert!(matches!(lua_val, LuaValue::Nil));
}

#[test]
fn test_json_to_lua_value_bool() {
    let json = ScriptValue::Bool(true);
    let lua_val = json_to_lua_value(&json);
    assert!(matches!(lua_val, LuaValue::Boolean(true)));
}

#[test]
fn test_json_to_lua_value_integer() {
    let json = ScriptValue::Int(42);
    let lua_val = json_to_lua_value(&json);
    assert!(matches!(lua_val, LuaValue::Integer(42)));
}

#[test]
fn test_json_to_lua_value_string() {
    let json = ScriptValue::String(text("hello"));
    let lua_val = json_to_lua_value(&json);
    if let LuaValue::String(s) = lua_val {
        assert_eq!(s, "hello");
    } else {
        panic!("Expected LuaValue::String");
    }
}

#[test]
fn test_json_to_lua_value_array() {
    let json = ScriptValue::Array(vec![
        ScriptValue::Int(1),
        ScriptValue::Int(2),
        ScriptValue::Int(3),
    ]);
    let lua_val = json_to_lua_value(&json);
    if let LuaValue::Table(t) = lua_val {
        assert_eq!(
            t,
            vec![
                (TableKey::Index(1), LuaValue::Integer(1)),
                (TableKey::Index(2), LuaValue::Integer(2)),
                (TableKey::Index(3), LuaValue::Integer(3)),
            ]
        );
    } else {
        panic!("Expected LuaValue::Table");
    }
}

#[test]
fn test_json_to_lua_value_object() {
    let json = ScriptValue::Object(vec![
        (text("name"), ScriptValue::String(text("Bob"))),
        (text("age"), ScriptValue::Int(25)),
    ]);
    let lua_val = json_to_lua_value(&json);
    if let LuaValue::Table(t) = lua_val {
        assert_eq!(
            t,
            vec![
                (TableKey::Name(text("name")), LuaValue::String(text("Bob"))),
                (TableKey::Name(text("age")), LuaValue::Integer(25)),
            ]
        );
    } else {
        panic!("Expected LuaValue::Table");
    }
}

#[test]
fn test_json_roundtrip() {
    // Create a complex Lua table
    let nested = vec![(TableKey::Name(text("inner")), LuaValue::String(text("value")))];
    let table = vec![
        (TableKey::Name(text("string")), LuaValue::String(text("hello"))),
        (TableKey::Name(text("number")), LuaValue::Integer(42)),
        (TableKey::Name(text("bool")), LuaValue::Boolean(true)),
        (TableKey::Name(text("nested")), LuaValue::Table(nested)),
    ];

    // Convert to JSON
    let json = lua_value_to_json(&LuaValue::Table(table)).unwrap();

    // Convert back to Lua
    let lua_val = json_to_lua_value(&json);

    // Verify
    assert_eq!(
        lua_val,
        LuaValue::Table(vec![
            (TableKey::Name(text("string")), LuaValue::String(text("hello"))),
            (TableKey::Name(text("number")), LuaValue::Integer(42)),
            (TableKey::Name(text("bool")), LuaValue::Boolean(true)),
            (
                TableKey::Name(text("nested")),
                LuaValue::Table(vec![(
                    TableKey::Name(text("inner")),
                    LuaValue::String(text("value"))
                )])
            ),
        ])
    );
}

#[test]
fn arrays_are_tables_with_exactly_the_keys_one_to_n() {
    let int = |i: i64| LuaValue::Integer(i);
    // the order in which the entries are walked does not count
    let shuffled = LuaValue::Table(vec![
        (TableKey::Index(3), int(30)),
        (TableKey::Index(1), int(10)),
        (TableKey::Index(2), int(20)),
    ]);
    assert_eq!(
        lua_value_to_json(&shuffled).unwrap(),
        ScriptValue::Array(vec![
            ScriptValue::Int(10),
            ScriptValue::Int(20),
            ScriptValue::Int(30)
        ])
    );
    // a gap makes an object
    let gap = LuaValue::Table(vec![(TableKey::Index(1), int(10)), (TableKey::Index(3), int(30))]);
    assert_eq!(
        lua_value_to_json(&gap).unwrap(),
        ScriptValue::Object(vec![
            (text("1"), ScriptValue::Int(10)),
            (text("3"), ScriptValue::Int(30)),
        ])
    );
    // so does a key zero, a negative key, a key beyond the count, a mixed table
    for keys in [vec![0, 1], vec![-1, 1], vec![1, 3], vec![2]] {
        let table = LuaValue::Table(keys.iter().map(|k| (TableKey::Index(*k), int(0))).collect());
        assert!(matches!(
            lua_value_to_json(&table).unwrap(),
            ScriptValue::Object(_)
        ));
    }
    let mixed = LuaValue::Table(vec![
        (TableKey::Index(1), int(1)),
        (TableKey::Name(text("x")), int(2)),
    ]);
    assert_eq!(
        lua_value_to_json(&mixed).unwrap(),
        ScriptValue::Object(vec![
            (text("1"), ScriptValue::Int(1)),
            (text("x"), ScriptValue::Int(2)),
        ])
    );
    // the empty table is an object
    assert_eq!(
        lua_value_to_json(&LuaValue::Table(vec![])).unwrap(),
        ScriptValue::Object(vec![])
    );
    // a key that occurs twice leaves another one out
    let twice = LuaValue::Table(vec![(TableKey::Index(1), int(1)), (TableKey::Index(1), int(2))]);
    assert!(matches!(
        lua_value_to_json(&twice).unwrap(),
        ScriptValue::Object(_)
    ));
    let negative = LuaValue::Table(vec![(TableKey::Index(-7), int(1))]);
    assert_eq!(
        lua_value_to_json(&negative).unwrap(),
        ScriptValue::Object(vec![(text("-7"), ScriptValue::Int(1))])
    );
}

#[test]
fn values_without_exchange_form() {
    assert_eq!(
        lua_value_to_json(&LuaValue::Other),
        Err(MarshalError::UnsupportedValue)
    );
    assert_eq!(
        lua_value_to_json(&LuaValue::Number(f64::NAN.to_bits())),
        Err(MarshalError::InvalidNumber)
    );
    assert_eq!(
        lua_value_to_json(&LuaValue::Number(f64::INFINITY.to_bits())),
        Err(MarshalError::InvalidNumber)
    );
    assert_eq!(
        lua_value_to_json(&LuaValue::Number(f64::NEG_INFINITY.to_bits())),
        Err(MarshalError::InvalidNumber)
    );
    let bad_key = LuaValue::Table(vec![(TableKey::Unsupported, LuaValue::Nil)]);
    assert_eq!(lua_value_to_json(&bad_key), Err(MarshalError::UnsupportedKey));
    // the first error in the order of the entries is the one reported
    let nested = LuaValue::Table(vec![
        (TableKey::Name(text("a")), LuaValue::Number(f64::NAN.to_bits())),
        (TableKey::Name(text("b")), LuaValue::Other),
    ]);
    assert_eq!(lua_value_to_json(&nested), Err(MarshalError::InvalidNumber));
    let in_array = LuaValue::Table(vec![
        (TableKey::Index(2), LuaValue::Number(f64::NAN.to_bits())),
        (TableKey::Index(1), LuaValue::Other),
    ]);
    assert_eq!(
        lua_value_to_json(&in_array),
        Err(MarshalError::UnsupportedValue)
    );
    assert_eq!(
        MarshalError::UnsupportedValue.message(),
        "Cannot convert value to JSON"
    );
    assert_eq!(MarshalError::InvalidNumber.message(), "Invalid number for JSON");
    assert_eq!(
        MarshalError::UnsupportedKey.message(),
        "Cannot convert table key to a JSON object key"
    );
}

#[test]
fn finite_numbers() {
    for x in [0.0f64, -0.0, 1.5, f64::MAX, f64::MIN_POSITIVE, 5e-324] {
        assert!(is_finite(x.to_bits()));
    }
    for x in [f64::NAN, f64::INFINITY, f64::NEG_INFINITY] {
        assert!(!is_finite(x.to_bits()));
    }
}

#[test]
fn portable_values_round_trip() {
    let value = ScriptValue::Object(vec![
        (text("n"), ScriptValue::Int(-3)),
        (text("x"), ScriptValue::Float(2.5f64.to_bits())),
        (text("s"), ScriptValue::String(text("é"))),
        (text("b"), ScriptValue::Bool(false)),
        (
            text("list"),
            ScriptValue::Array(vec![
                ScriptValue::Int(1),
                ScriptValue::Array(vec![ScriptValue::String(text("deep"))]),
                ScriptValue::Object(vec![]),
            ]),
        ),
        (text("1"), ScriptValue::Int(1)),
    ]);
    let back = lua_value_to_json(&json_to_lua_value(&value)).unwrap();
    assert_eq!(back, value);
    assert_eq!(back.duplicate(), value);
    // integers stay integers and numbers stay numbers
    let numbers = ScriptValue::Array(vec![
        ScriptValue::Int(1),
        ScriptValue::Float(1.0f64.to_bits()),
    ]);
    assert_eq!(
        lua_value_to_json(&json_to_lua_value(&numbers)).unwrap(),
        numbers
    );
}

#[test]
fn what_does_not_round_trip() {
    // an empty array comes back as an empty object
    let empty = ScriptValue::Array(vec![]);
    assert_eq!(
        lua_value_to_json(&json_to_lua_value(&empty)).unwrap(),
        ScriptValue::Object(vec![])
    );
    // a table holds no nil, so a null in an array leaves a gap
    let holed = ScriptValue::Array(vec![
        ScriptValue::Int(1),
        ScriptValue::Null,
        ScriptValue::Int(3),
    ]);
    assert_eq!(
        json_to_lua_value(&holed),
        LuaValue::Table(vec![
            (TableKey::Index(1), LuaValue::Integer(1)),
            (TableKey::Index(3), LuaValue::Integer(3)),
        ])
    );
    assert_eq!(
        lua_value_to_json(&json_to_lua_value(&holed)).unwrap(),
        ScriptValue::Object(vec![
            (text("1"), ScriptValue::Int(1)),
            (text("3"), ScriptValue::Int(3)),
        ])
    );
    let with_null = ScriptValue::Object(vec![(text("a"), ScriptValue::Null)]);
    assert_eq!(
        lua_value_to_json(&json_to_lua_value(&with_null)).unwrap(),
        ScriptValue::Object(vec![])
    );
    assert_eq!(ScriptValue::Null.kind_name(), "nil");
    assert_eq!(ScriptValue::Array(vec![]).kind_name(), "array");
    assert_eq!(ScriptValue::Float(0).kind_name(), "number");
}

#[test]
fn a_table_walked_out_of_order_comes_back_in_order() {
    let inner = LuaValue::Table(vec![
        (TableKey::Index(3), LuaValue::String(text("c"))),
        (TableKey::Index(1), LuaValue::String(text("a"))),
        (TableKey::Index(2), LuaValue::String(text("b"))),
    ]);
    let table = LuaValue::Table(vec![
        (TableKey::Name(text("list")), inner),
        (TableKey::Name(text("n")), LuaValue::Integer(7)),
    ]);
    let json = lua_value_to_json(&table).unwrap();
    assert_eq!(
        json,
        ScriptValue::Object(vec![
            (
                text("list"),
                ScriptValue::Array(vec![
                    ScriptValue::String(text("a")),
                    ScriptValue::String(text("b")),
                    ScriptValue::String(text("c")),
                ])
            ),
            (text("n"), ScriptValue::Int(7)),
        ])
    );
    // the same entries come back, the list in the order of its keys
    assert_eq!(
        json_to_lua_value(&json),
        LuaValue::Table(vec![
            (
                TableKey::Name(text("list")),
                LuaValue::Table(vec![
                    (TableKey::Index(1), LuaValue::String(text("a"))),
                    (TableKey::Index(2), LuaValue::String(text("b"))),
                    (TableKey::Index(3), LuaValue::String(text("c"))),
                ])
            ),
            (TableKey::Name(text("n")), LuaValue::Integer(7)),
        ])
    );
    // integer keys that are no sequence come back as strings
    let sparse = LuaValue::Table(vec![
        (TableKey::Index(1), LuaValue::Boolean(true)),
        (TableKey::Index(3), LuaValue::Boolean(false)),
    ]);
    assert_eq!(
        json_to_lua_value(&lua_value_to_json(&sparse).unwrap()),
        LuaValue::Table(vec![
            (TableKey::Name(text("1")), LuaValue::Boolean(true)),
            (TableKey::Name(text("3")), LuaValue::Boolean(false)),
        ])
    );
}
