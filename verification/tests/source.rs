use smart_is_default::expand::expand;
use smart_is_default::flags::{container_has_flag, field_has_flag};
use smart_is_default::model::{Attr, Body};
use smart_is_default::source::{derive_smart_is_default, parse_type_def, DeriveError};
use smart_is_default::value::{eq_value, Value};

#[test]
fn text_that_is_not_a_type_definition_is_a_parse_error() {
    match derive_smart_is_default("fn main() {}") {
        Err(DeriveError::Parse(msg)) => assert!(!msg.is_empty()),
        other => panic!("expected a parse error, got {:?}", other),
    }
    assert!(matches!(parse_type_def("struct"), Err(DeriveError::Parse(_))));
}

#[test]
fn the_derive_writes_one_impl_block() {
    let out = derive_smart_is_default("struct Point { x: i32, y: i32 }").unwrap();
    assert_eq!(
        out,
        "impl Point {\n    #[doc = \" Returns `true` if `self` compares equal to `Self::default()`.\"]\n    #[doc = \"\"]\n    #[doc = \" This is a whole-struct check: every field must match its default\"]\n    #[doc = \" value. Only available when the struct\"]\n    #[doc = \" derives [`PartialEq`] and has [`Default::default()`](https://doc.rust-lang.org/std/default/trait.Default.html#tymethod.default) implemented.\"]\n    #[doc = \"\"]\n    #[doc = \" Suppress this method with `#[smart_is_default(no_is_default)]` if\"]\n    #[doc = \" you want to provide your own `is_default`.\"]\n    fn is_default(&self) -> bool where Self: PartialEq {\n        self == &Self::default()\n    }\n    #[allow(non_snake_case)]\n    pub fn is_default__x(v: &i32) -> bool {\n        v == &Self::default().x\n    }\n    #[allow(non_snake_case)]\n    pub fn is_default__y(v: &i32) -> bool {\n        v == &Self::default().y\n    }\n}\n"
    );
}

#[test]
fn enums_and_unions_only_get_is_default() {
    let out = derive_smart_is_default("enum E { A, B(u8) }").unwrap();
    assert_eq!(
        out,
        "impl E {\n    #[doc = \" Returns `true` if `self` compares equal to `Self::default()`.\"]\n    #[doc = \"\"]\n    #[doc = \" This is a whole-struct check: every field must match its default\"]\n    #[doc = \" value. Only available when the struct\"]\n    #[doc = \" derives [`PartialEq`] and has [`Default::default()`](https://doc.rust-lang.org/std/default/trait.Default.html#tymethod.default) implemented.\"]\n    #[doc = \"\"]\n    #[doc = \" Suppress this method with `#[smart_is_default(no_is_default)]` if\"]\n    #[doc = \" you want to provide your own `is_default`.\"]\n    fn is_default(&self) -> bool where Self: PartialEq {\n        self == &Self::default()\n    }\n}\n"
    );
    let u = expand(&parse_type_def("union U { a: u8, b: i8 }").unwrap());
    assert!(u.helpers.is_empty());
    assert!(u.is_default_method);
}

#[test]
fn raw_identifiers_lose_their_prefix_in_helper_names() {
    let exp = expand(&parse_type_def("struct S { r#type: u8 }").unwrap());
    assert_eq!(exp.helpers[0].fn_name, "is_default__type");
    assert_eq!(exp.helpers[0].member, "r#type");
}

#[test]
fn container_skip_also_suppresses_is_default() {
    let exp = expand(&parse_type_def("#[smart_is_default(skip)] struct S { a: u8 }").unwrap());
    assert!(!exp.is_default_method);
    assert_eq!(exp.helpers.len(), 1);
    let code = derive_smart_is_default("#[smart_is_default(skip)] struct S { a: u8 }").unwrap();
    assert!(!code.contains("fn is_default("));
}

#[test]
fn several_flags_in_one_attribute_are_all_seen() {
    let def = parse_type_def("#[smart_is_default(serde, no_pub)] struct S { a: u8 }").unwrap();
    assert!(container_has_flag(&def, "smart_is_default", "serde"));
    assert!(container_has_flag(&def, "smart_is_default", "no_pub"));
    assert!(!container_has_flag(&def, "smart_is_default", "no_is_default"));
    let exp = expand(&def);
    assert!(!exp.public);
    assert!(exp.serialize.is_some());
}

#[test]
fn flags_after_an_unparsable_item_are_not_seen() {
    // `skip = true` is not a bare path, so reading stops there.
    let def = parse_type_def("#[smart_is_default(skip = true, serde)] struct S { a: u8 }").unwrap();
    assert!(container_has_flag(&def, "smart_is_default", "skip"));
    assert!(!container_has_flag(&def, "smart_is_default", "serde"));
}

#[test]
fn flags_under_other_attributes_or_paths_are_ignored() {
    let def = parse_type_def(
        "#[serde(skip)] #[smart_is_default(x::skip)] struct S { #[serde(skip)] a: u8, #[smart_is_default(skip)] b: u8 }",
    )
    .unwrap();
    assert!(!container_has_flag(&def, "smart_is_default", "skip"));
    assert!(container_has_flag(&def, "serde", "skip"));
    match &def.data {
        Body::Named(fields) => {
            assert!(!field_has_flag(&fields[0], "smart_is_default", "skip"));
            assert!(field_has_flag(&fields[1], "smart_is_default", "skip"));
        },
        _ => panic!("named fields expected"),
    }
    let exp = expand(&def);
    assert_eq!(exp.helpers.len(), 1);
    assert_eq!(exp.helpers[0].fn_name, "is_default__a");
}

#[test]
fn attributes_are_read_as_path_and_nested_idents() {
    let def = parse_type_def("#[smart_is_default(no_pub, a::b)] #[doc = \"x\"] struct S;").unwrap();
    let first: &Attr = &def.attrs[0];
    assert_eq!(first.path_ident.as_deref(), Some("smart_is_default"));
    assert_eq!(first.nested, vec![Some("no_pub".to_string()), None]);
    assert_eq!(def.attrs[1].path_ident.as_deref(), Some("doc"));
    assert!(def.attrs[1].nested.is_empty());
}

#[test]
fn where_predicates_carry_into_the_impls() {
    let out = derive_smart_is_default(
        "#[smart_is_default(serde)] struct W<T> where T: Clone { t: T }",
    )
    .unwrap();
    assert!(out.starts_with("impl< T > W< T > where T : Clone {\n"));
    assert!(out.contains(
        "impl< T > ::serde::Serialize for W< T > where T : Clone, T: ::serde::Serialize {\n"
    ));
}

#[test]
fn unit_struct_with_serde_writes_a_unit() {
    let exp = expand(&parse_type_def("#[smart_is_default(serde)] struct U;").unwrap());
    let u = Value::Record("U".to_string(), Vec::new());
    assert_eq!(exp.fields_written(&u, &u), Some(vec![]));
    let out = derive_smart_is_default("#[smart_is_default(serde)] struct U;").unwrap();
    assert!(out.contains("::serde::Serializer::serialize_unit_struct(__serializer, \"U\")"));
}

#[test]
fn enums_with_serde_get_no_serialize_impl() {
    let exp = expand(&parse_type_def("#[smart_is_default(serde)] enum E { A }").unwrap());
    assert!(exp.serialize.is_none());
}

#[test]
fn values_compare_structurally() {
    let a = Value::List(vec![Value::Present(Box::new(Value::Text("x".to_string()))), Value::Absent]);
    let b = Value::List(vec![Value::Present(Box::new(Value::Text("x".to_string()))), Value::Absent]);
    let c = Value::List(vec![Value::Present(Box::new(Value::Text("y".to_string()))), Value::Absent]);
    assert!(eq_value(&a, &b));
    assert!(!eq_value(&a, &c));
    assert!(!eq_value(&Value::Int(1), &Value::Bool(true)));
    assert!(!eq_value(
        &Value::Record("A".to_string(), vec![]),
        &Value::Record("B".to_string(), vec![])
    ));
}

#[test]
fn helper_on_a_default_without_that_field_has_no_result() {
    let exp = expand(&parse_type_def("struct S { a: u8, b: u8 }").unwrap());
    let short = Value::Record("S".to_string(), vec![Value::Int(0)]);
    assert_eq!(exp.call_helper("is_default__b", &short, &Value::Int(0)), None);
    assert_eq!(exp.call_helper("is_default__a", &short, &Value::Int(0)), Some(true));
}
