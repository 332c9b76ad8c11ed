use smart_is_default::expand::expand;
use smart_is_default::source::parse_type_def;
use smart_is_default::value::Value;

const MARKER: &str = r#"
#[derive(Default, SmartIsDefault, PartialEq, Debug)]
struct Marker;
"#;

const CUSTOM_MARKER: &str = r#"
#[derive(Default, SmartIsDefault, PartialEq, Debug)]
#[smart_is_default(no_is_default)]
struct CustomMarker;
"#;

fn unit(name: &str) -> Value {
    Value::Record(name.to_string(), Vec::new())
}

/// The user's own `CustomMarker::is_default`.
fn custom_is_default(_v: &Value) -> bool {
    false
}

#[test]
fn unit_struct_is_default_reports_true() {
    let exp = expand(&parse_type_def(MARKER).unwrap());
    assert!(exp.call_is_default(&unit("Marker"), &unit("Marker")).unwrap());
    assert!(exp.helpers.is_empty());
}

#[test]
fn unit_struct_respects_no_is_default() {
    let exp = expand(&parse_type_def(CUSTOM_MARKER).unwrap());
    assert!(exp.call_is_default(&unit("CustomMarker"), &unit("CustomMarker")).is_none());
    assert!(!custom_is_default(&unit("CustomMarker")));
}
