use agent_t::args::{
    optional_bool, optional_str, optional_str_list, optional_uint, required_str, required_uint,
    ArgValue,
};
use agent_t::error::ToolError;
use serde_json::{Number, Value};

fn s(text: &str) -> ArgValue {
    ArgValue::Str(text.to_string())
}

fn obj(entries: Vec<(&str, ArgValue)>) -> ArgValue {
    ArgValue::Object(entries.into_iter().map(|(k, v)| (k.to_string(), v)).collect())
}

fn to_json(v: &ArgValue) -> Value {
    match v {
        ArgValue::Null => Value::Null,
        ArgValue::Bool(b) => Value::Bool(*b),
        ArgValue::UInt(n) => Value::Number(Number::from(*n)),
        ArgValue::Int(i) => Value::Number(Number::from(*i)),
        ArgValue::Float(t) => Value::Number(t.parse::<Number>().unwrap()),
        ArgValue::Str(t) => Value::String(t.clone()),
        ArgValue::List(items) => Value::Array(items.iter().map(to_json).collect()),
        ArgValue::Object(entries) => {
            let mut m = serde_json::Map::new();
            for (k, v) in entries {
                m.insert(k.clone(), to_json(v));
            }
            Value::Object(m)
        }
    }
}

fn sample_values() -> Vec<ArgValue> {
    vec![
        ArgValue::Null,
        ArgValue::Bool(true),
        ArgValue::Bool(false),
        ArgValue::UInt(0),
        ArgValue::UInt(u64::MAX),
        ArgValue::Int(-1),
        ArgValue::Int(i64::MIN),
        ArgValue::Float("1.5".to_string()),
        ArgValue::Float("1e+21".to_string()),
        s(""),
        s("plain"),
        s("quote \" backslash \\ slash / tab \t newline \n return \r"),
        s("controls \u{0}\u{1}\u{8}\u{c}\u{1f}\u{7f} end"),
        s("unicode \u{e9} \u{2713} \u{1F600}"),
        ArgValue::List(vec![]),
        ArgValue::Object(vec![]),
        ArgValue::List(vec![ArgValue::UInt(1), s("two"), ArgValue::Null]),
        ArgValue::List(vec![ArgValue::List(vec![]), ArgValue::Object(vec![])]),
        obj(vec![("a", ArgValue::UInt(1))]),
        obj(vec![
            ("command", s("ls -la")),
            ("flags", ArgValue::List(vec![s("x"), s("y")])),
            ("nested", obj(vec![("deep", obj(vec![("er", ArgValue::Bool(true))]))])),
            ("timeout_secs", ArgValue::UInt(30)),
            ("we\"ird\nkey", ArgValue::Null),
        ]),
    ]
}

#[test]
fn compact_text_is_what_serde_json_writes() {
    for v in sample_values() {
        assert_eq!(v.to_compact(), serde_json::to_string(&to_json(&v)).unwrap());
    }
}

#[test]
fn pretty_text_is_what_serde_json_writes() {
    for v in sample_values() {
        assert_eq!(v.to_pretty(), serde_json::to_string_pretty(&to_json(&v)).unwrap());
    }
}

#[test]
fn exact_json_texts() {
    let v = obj(vec![("a", ArgValue::UInt(1)), ("b", ArgValue::List(vec![s("x"), ArgValue::Null]))]);
    assert_eq!(v.to_compact(), "{\"a\":1,\"b\":[\"x\",null]}");
    assert_eq!(
        v.to_pretty(),
        "{\n  \"a\": 1,\n  \"b\": [\n    \"x\",\n    null\n  ]\n}"
    );
    assert_eq!(s("a\u{1}b").to_compact(), "\"a\\u0001b\"");
    // the fields of an object are written in the order of their names
    let unordered = obj(vec![("b", ArgValue::UInt(2)), ("a", ArgValue::Bool(true))]);
    assert_eq!(unordered.to_compact(), "{\"a\":true,\"b\":2}");
    assert_eq!(unordered.to_pretty(), "{\n  \"a\": true,\n  \"b\": 2\n}");
    assert_eq!(ArgValue::Float("2.50".to_string()).to_compact(), "2.5");
    assert_eq!(ArgValue::List(vec![]).to_pretty(), "[]");
    assert_eq!(ArgValue::Int(-42).to_compact(), "-42");
}

#[test]
fn fields_are_looked_up() {
    let v = obj(vec![("a", s("1")), ("b", ArgValue::UInt(2)), ("a", s("later"))]);
    assert!(v.is_object());
    assert!(matches!(v.get("a"), Some(ArgValue::Str(t)) if t == "1"));
    assert!(matches!(v.get("b"), Some(ArgValue::UInt(2))));
    assert!(v.get("c").is_none());
    assert_eq!(v.get_str("a"), Some(&"1".to_string()));
    assert_eq!(v.get_str("b"), None);
    assert!(s("x").get("a").is_none());
    assert!(!ArgValue::Null.is_object());
}

fn message(e: ToolError) -> String {
    e.message()
}

#[test]
fn typed_fields() {
    let v = obj(vec![
        ("text", s("hi")),
        ("flag", ArgValue::Bool(true)),
        ("count", ArgValue::UInt(7)),
        ("negative", ArgValue::Int(-7)),
        ("nothing", ArgValue::Null),
        ("tags", ArgValue::List(vec![s("a"), s("b")])),
        ("mixed", ArgValue::List(vec![s("a"), ArgValue::UInt(1)])),
    ]);
    assert_eq!(required_str(&v, "text").unwrap(), "hi");
    assert_eq!(
        message(required_str(&v, "missing").unwrap_err()),
        "Invalid arguments: missing field `missing`"
    );
    assert_eq!(
        message(required_str(&v, "count").unwrap_err()),
        "Invalid arguments: invalid type for field `count`: expected a string"
    );
    assert_eq!(
        message(required_str(&v, "nothing").unwrap_err()),
        "Invalid arguments: invalid type for field `nothing`: expected a string"
    );
    assert_eq!(optional_str(&v, "text").unwrap(), Some("hi".to_string()));
    assert_eq!(optional_str(&v, "missing").unwrap(), None);
    assert_eq!(optional_str(&v, "nothing").unwrap(), None);
    assert!(optional_str(&v, "flag").is_err());
    assert_eq!(optional_bool(&v, "flag").unwrap(), Some(true));
    assert_eq!(optional_bool(&v, "missing").unwrap(), None);
    assert_eq!(
        message(optional_bool(&v, "text").unwrap_err()),
        "Invalid arguments: invalid type for field `text`: expected a boolean"
    );
    assert_eq!(optional_uint(&v, "count", 10).unwrap(), Some(7));
    assert_eq!(optional_uint(&v, "count", 7).unwrap(), Some(7));
    assert_eq!(
        message(optional_uint(&v, "count", 6).unwrap_err()),
        "Invalid arguments: invalid type for field `count`: expected an unsigned integer in range"
    );
    assert!(optional_uint(&v, "negative", 10).is_err());
    assert_eq!(optional_uint(&v, "nothing", 10).unwrap(), None);
    assert_eq!(required_uint(&v, "count", 10).unwrap(), 7);
    assert_eq!(
        message(required_uint(&v, "missing", 10).unwrap_err()),
        "Invalid arguments: missing field `missing`"
    );
    assert!(required_uint(&v, "nothing", 10).is_err());
    assert_eq!(
        optional_str_list(&v, "tags").unwrap(),
        Some(vec!["a".to_string(), "b".to_string()])
    );
    assert_eq!(optional_str_list(&v, "missing").unwrap(), None);
    assert_eq!(
        message(optional_str_list(&v, "mixed").unwrap_err()),
        "Invalid arguments: invalid type for field `mixed`: expected a list of strings"
    );
    assert!(optional_str_list(&v, "text").is_err());
}
