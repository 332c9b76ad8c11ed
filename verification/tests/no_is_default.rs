use smart_is_default::expand::expand;
use smart_is_default::source::parse_type_def;
use smart_is_default::value::Value;

const ITEM: &str = r#"
#[derive(SmartDefault, SmartIsDefault, PartialEq, Debug)]
#[smart_is_default(no_is_default)]
struct Item {
    #[default = 0]
    count: i32,
}
"#;

fn item(count: i128) -> Value {
    Value::Record("Item".to_string(), vec![Value::Int(count)])
}

/// The user's own `Item::is_default`.
fn user_is_default(v: &Value) -> bool {
    matches!(v.field(0), Some(Value::Int(1)))
}

#[test]
fn user_declared_is_default_is_used() {
    let exp = expand(&parse_type_def(ITEM).unwrap());
    let default = item(0);
    // The derive does not generate `is_default`, so the user's runs.
    assert!(exp.call_is_default(&default, &item(0)).is_none());

    let it = item(0);
    assert!(!user_is_default(&it));

    let other = item(1);
    assert!(user_is_default(&other));

    let it = item(0);
    assert!(exp.call_helper("is_default__count", &default, it.field(0).unwrap()).unwrap());

    let other = item(5);
    assert!(!exp.call_helper("is_default__count", &default, other.field(0).unwrap()).unwrap());
}
