use smart_is_default::expand::{expand, Expansion};
use smart_is_default::source::parse_type_def;
use smart_is_default::value::Value;

const CONFIG: &str = r#"
#[derive(SmartDefault, SmartIsDefault, PartialEq, Debug)]
struct Config(
    #[default = 12] i32,
    #[default("four".to_string())] String,
    #[default = true] bool,
    #[default(None)] Option<String>,
    #[default(Vec::new())] Vec<i32>,
);
"#;

const SKIPPED_TUPLE: &str = r#"
#[derive(SmartDefault, SmartIsDefault, PartialEq, Debug)]
struct SkippedTuple(
    #[default = 0] i32,
    #[smart_is_default(skip)]
    #[default = 0]
    i32,
    #[default = 1] i32,
);
"#;

fn derived() -> Expansion {
    expand(&parse_type_def(CONFIG).unwrap())
}

fn text(s: &str) -> Value {
    Value::Text(s.to_string())
}

fn config(a: i128, e: &str, flag: bool, opt: Option<&str>, list: Vec<i128>) -> Value {
    Value::Record(
        "Config".to_string(),
        vec![
            Value::Int(a),
            text(e),
            Value::Bool(flag),
            match opt {
                Some(s) => Value::Present(Box::new(text(s))),
                None => Value::Absent,
            },
            Value::List(list.into_iter().map(Value::Int).collect()),
        ],
    )
}

fn config_default() -> Value {
    config(12, "four", true, None, Vec::new())
}

fn all_non_default() -> Value {
    config(1, "hi", false, Some("x"), vec![1, 2])
}

fn helper(exp: &Expansion, name: &str, v: &Value) -> bool {
    exp.call_helper(name, &config_default(), v).expect("the helper is generated")
}

#[test]
fn helpers_report_true_for_default_tuple_values() {
    let exp = derived();
    let def = config_default();
    assert!(helper(&exp, "is_default__0", def.field(0).unwrap()));
    assert!(helper(&exp, "is_default__1", def.field(1).unwrap()));
    assert!(helper(&exp, "is_default__2", def.field(2).unwrap()));
    assert!(helper(&exp, "is_default__3", def.field(3).unwrap()));
    assert!(helper(&exp, "is_default__4", def.field(4).unwrap()));
}

#[test]
fn helpers_report_false_for_non_default_tuple_values() {
    let exp = derived();
    let other = all_non_default();
    assert!(!helper(&exp, "is_default__0", other.field(0).unwrap()));
    assert!(!helper(&exp, "is_default__1", other.field(1).unwrap()));
    assert!(!helper(&exp, "is_default__2", other.field(2).unwrap()));
    assert!(!helper(&exp, "is_default__3", other.field(3).unwrap()));
    assert!(!helper(&exp, "is_default__4", other.field(4).unwrap()));
}

#[test]
fn helpers_compare_tuple_fields_by_value_not_identity() {
    let exp = derived();
    assert!(helper(&exp, "is_default__0", &Value::Int(12)));
    assert!(helper(&exp, "is_default__1", &text("four")));
    assert!(helper(&exp, "is_default__2", &Value::Bool(true)));
    assert!(helper(&exp, "is_default__3", &Value::Absent));
    assert!(helper(&exp, "is_default__4", &Value::List(Vec::new())));
}

#[test]
fn is_default_works_for_tuple_structs() {
    let exp = derived();
    assert!(exp.call_is_default(&config_default(), &config_default()).unwrap());
    assert!(!exp.call_is_default(&config_default(), &all_non_default()).unwrap());
    let same = config(12, "four", true, None, Vec::new());
    assert!(exp.call_is_default(&config_default(), &same).unwrap());
}

/// The user's own `SkippedTuple::is_default__1`.
fn user_is_default_1(v: &Value) -> bool {
    matches!(v, Value::Int(42))
}

#[test]
fn tuple_field_skip_suppresses_generated_helper() {
    let exp = expand(&parse_type_def(SKIPPED_TUPLE).unwrap());
    let def = Value::Record(
        "SkippedTuple".to_string(),
        vec![Value::Int(0), Value::Int(0), Value::Int(1)],
    );
    assert!(exp.call_helper("is_default__0", &def, def.field(0).unwrap()).unwrap());
    assert!(exp.call_helper("is_default__2", &def, def.field(2).unwrap()).unwrap());

    // No `is_default__1` is generated; the user's own runs.
    assert!(exp.call_helper("is_default__1", &def, &Value::Int(42)).is_none());
    assert!(user_is_default_1(&Value::Int(42)));
    assert!(!user_is_default_1(&Value::Int(0)));
}

#[test]
fn tuple_helpers_are_named_by_index() {
    let exp = derived();
    let names: Vec<&str> = exp.helpers.iter().map(|h| h.fn_name.as_str()).collect();
    assert_eq!(names, vec!["is_default__0", "is_default__1", "is_default__2", "is_default__3", "is_default__4"]);
    let members: Vec<&str> = exp.helpers.iter().map(|h| h.member.as_str()).collect();
    assert_eq!(members, vec!["0", "1", "2", "3", "4"]);
}
