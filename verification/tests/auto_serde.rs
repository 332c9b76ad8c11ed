//! Tests for the `#[smart_is_default(serde)]` flag, which generates a
//! `serde::Serialize` impl that skips fields whose value equals
//! `Self::default()`.
//!
//! The impls below are the derive's output for the definitions in the
//! `*_SRC` constants (`generated_code_is_what_the_derive_writes` checks the
//! text), copied as code so that `serde_json` can run them; the `#[doc]`
//! attribute is written as the doc comment it stands for.
#![allow(dead_code)]

use smart_is_default::expand::expand;
use smart_is_default::source::{derive_smart_is_default, parse_type_def};
use smart_is_default::value::Value;

// Named struct: the main use case.

const CONFIG_SRC: &str = r#"
#[derive(SmartDefault, SmartIsDefault, PartialEq, Debug)]
#[smart_is_default(serde)]
struct Config {
    #[default = 12]
    a: i32,

    #[default("four".to_string())]
    e: String,

    #[default = true]
    flag: bool,

    #[default(None)]
    opt: Option<String>,

    #[default(Vec::new())]
    list: Vec<i32>,
}
"#;

#[derive(PartialEq, Debug)]
struct Config {
    a: i32,
    e: String,
    flag: bool,
    opt: Option<String>,
    list: Vec<i32>,
}

impl Default for Config {
    fn default() -> Self {
        Config { a: 12, e: "four".to_string(), flag: true, opt: None, list: Vec::new() }
    }
}

const CONFIG_GENERATED: &str = r#"impl Config {
    #[doc = " Returns `true` if `self` compares equal to `Self::default()`."]
    #[doc = ""]
    #[doc = " This is a whole-struct check: every field must match its default"]
    #[doc = " value. Only available when the struct"]
    #[doc = " derives [`PartialEq`] and has [`Default::default()`](https://doc.rust-lang.org/std/default/trait.Default.html#tymethod.default) implemented."]
    #[doc = ""]
    #[doc = " Suppress this method with `#[smart_is_default(no_is_default)]` if"]
    #[doc = " you want to provide your own `is_default`."]
    fn is_default(&self) -> bool where Self: PartialEq {
        self == &Self::default()
    }
    #[allow(non_snake_case)]
    pub fn is_default__a(v: &i32) -> bool {
        v == &Self::default().a
    }
    #[allow(non_snake_case)]
    pub fn is_default__e(v: &String) -> bool {
        v == &Self::default().e
    }
    #[allow(non_snake_case)]
    pub fn is_default__flag(v: &bool) -> bool {
        v == &Self::default().flag
    }
    #[allow(non_snake_case)]
    pub fn is_default__opt(v: &Option < String >) -> bool {
        v == &Self::default().opt
    }
    #[allow(non_snake_case)]
    pub fn is_default__list(v: &Vec < i32 >) -> bool {
        v == &Self::default().list
    }
}
impl ::serde::Serialize for Config where i32: ::serde::Serialize, String: ::serde::Serialize, bool: ::serde::Serialize, Option < String >: ::serde::Serialize, Vec < i32 >: ::serde::Serialize {
    #[allow(unused_mut)]
    fn serialize<__S: ::serde::Serializer>(&self, __serializer: __S) -> ::core::result::Result<__S::Ok, __S::Error> {
        let mut __len: usize = 0;
        if !Self::is_default__a(&self.a) { __len += 1; }
        if !Self::is_default__e(&self.e) { __len += 1; }
        if !Self::is_default__flag(&self.flag) { __len += 1; }
        if !Self::is_default__opt(&self.opt) { __len += 1; }
        if !Self::is_default__list(&self.list) { __len += 1; }
        let mut __state = ::serde::Serializer::serialize_struct(__serializer, "Config", __len)?;
        if !Self::is_default__a(&self.a) { ::serde::ser::SerializeStruct::serialize_field(&mut __state, "a", &self.a)?; } else { ::serde::ser::SerializeStruct::skip_field(&mut __state, "a")?; }
        if !Self::is_default__e(&self.e) { ::serde::ser::SerializeStruct::serialize_field(&mut __state, "e", &self.e)?; } else { ::serde::ser::SerializeStruct::skip_field(&mut __state, "e")?; }
        if !Self::is_default__flag(&self.flag) { ::serde::ser::SerializeStruct::serialize_field(&mut __state, "flag", &self.flag)?; } else { ::serde::ser::SerializeStruct::skip_field(&mut __state, "flag")?; }
        if !Self::is_default__opt(&self.opt) { ::serde::ser::SerializeStruct::serialize_field(&mut __state, "opt", &self.opt)?; } else { ::serde::ser::SerializeStruct::skip_field(&mut __state, "opt")?; }
        if !Self::is_default__list(&self.list) { ::serde::ser::SerializeStruct::serialize_field(&mut __state, "list", &self.list)?; } else { ::serde::ser::SerializeStruct::skip_field(&mut __state, "list")?; }
        ::serde::ser::SerializeStruct::end(__state)
    }
}
"#;

impl Config {
    /// Returns `true` if `self` compares equal to `Self::default()`.
    ///
    /// This is a whole-struct check: every field must match its default
    /// value. Only available when the struct
    /// derives [`PartialEq`] and has [`Default::default()`](https://doc.rust-lang.org/std/default/trait.Default.html#tymethod.default) implemented.
    ///
    /// Suppress this method with `#[smart_is_default(no_is_default)]` if
    /// you want to provide your own `is_default`.
    fn is_default(&self) -> bool where Self: PartialEq {
        self == &Self::default()
    }
    #[allow(non_snake_case)]
    pub fn is_default__a(v: &i32) -> bool {
        v == &Self::default().a
    }
    #[allow(non_snake_case)]
    pub fn is_default__e(v: &String) -> bool {
        v == &Self::default().e
    }
    #[allow(non_snake_case)]
    pub fn is_default__flag(v: &bool) -> bool {
        v == &Self::default().flag
    }
    #[allow(non_snake_case)]
    pub fn is_default__opt(v: &Option < String >) -> bool {
        v == &Self::default().opt
    }
    #[allow(non_snake_case)]
    pub fn is_default__list(v: &Vec < i32 >) -> bool {
        v == &Self::default().list
    }
}
impl ::serde::Serialize for Config where i32: ::serde::Serialize, String: ::serde::Serialize, bool: ::serde::Serialize, Option < String >: ::serde::Serialize, Vec < i32 >: ::serde::Serialize {
    #[allow(unused_mut)]
    fn serialize<__S: ::serde::Serializer>(&self, __serializer: __S) -> ::core::result::Result<__S::Ok, __S::Error> {
        let mut __len: usize = 0;
        if !Self::is_default__a(&self.a) { __len += 1; }
        if !Self::is_default__e(&self.e) { __len += 1; }
        if !Self::is_default__flag(&self.flag) { __len += 1; }
        if !Self::is_default__opt(&self.opt) { __len += 1; }
        if !Self::is_default__list(&self.list) { __len += 1; }
        let mut __state = ::serde::Serializer::serialize_struct(__serializer, "Config", __len)?;
        if !Self::is_default__a(&self.a) { ::serde::ser::SerializeStruct::serialize_field(&mut __state, "a", &self.a)?; } else { ::serde::ser::SerializeStruct::skip_field(&mut __state, "a")?; }
        if !Self::is_default__e(&self.e) { ::serde::ser::SerializeStruct::serialize_field(&mut __state, "e", &self.e)?; } else { ::serde::ser::SerializeStruct::skip_field(&mut __state, "e")?; }
        if !Self::is_default__flag(&self.flag) { ::serde::ser::SerializeStruct::serialize_field(&mut __state, "flag", &self.flag)?; } else { ::serde::ser::SerializeStruct::skip_field(&mut __state, "flag")?; }
        if !Self::is_default__opt(&self.opt) { ::serde::ser::SerializeStruct::serialize_field(&mut __state, "opt", &self.opt)?; } else { ::serde::ser::SerializeStruct::skip_field(&mut __state, "opt")?; }
        if !Self::is_default__list(&self.list) { ::serde::ser::SerializeStruct::serialize_field(&mut __state, "list", &self.list)?; } else { ::serde::ser::SerializeStruct::skip_field(&mut __state, "list")?; }
        ::serde::ser::SerializeStruct::end(__state)
    }
}

// Interaction with `#[smart_is_default(skip)]`: skipped fields have no
// helper, so the generated impl always emits them.

const WITH_SKIPPED_SRC: &str = r#"
#[derive(SmartDefault, SmartIsDefault, PartialEq, Debug)]
#[smart_is_default(serde)]
struct WithSkipped {
    #[default = 0]
    count: i32,

    #[smart_is_default(skip)]
    #[default = 0]
    always_emitted: i32,
}
"#;

#[derive(PartialEq, Debug, Default)]
struct WithSkipped {
    count: i32,
    always_emitted: i32,
}

const WITH_SKIPPED_GENERATED: &str = r#"impl WithSkipped {
    #[doc = " Returns `true` if `self` compares equal to `Self::default()`."]
    #[doc = ""]
    #[doc = " This is a whole-struct check: every field must match its default"]
    #[doc = " value. Only available when the struct"]
    #[doc = " derives [`PartialEq`] and has [`Default::default()`](https://doc.rust-lang.org/std/default/trait.Default.html#tymethod.default) implemented."]
    #[doc = ""]
    #[doc = " Suppress this method with `#[smart_is_default(no_is_default)]` if"]
    #[doc = " you want to provide your own `is_default`."]
    fn is_default(&self) -> bool where Self: PartialEq {
        self == &Self::default()
    }
    #[allow(non_snake_case)]
    pub fn is_default__count(v: &i32) -> bool {
        v == &Self::default().count
    }
}
impl ::serde::Serialize for WithSkipped where i32: ::serde::Serialize, i32: ::serde::Serialize {
    #[allow(unused_mut)]
    fn serialize<__S: ::serde::Serializer>(&self, __serializer: __S) -> ::core::result::Result<__S::Ok, __S::Error> {
        let mut __len: usize = 0;
        if !Self::is_default__count(&self.count) { __len += 1; }
        __len += 1;
        let mut __state = ::serde::Serializer::serialize_struct(__serializer, "WithSkipped", __len)?;
        if !Self::is_default__count(&self.count) { ::serde::ser::SerializeStruct::serialize_field(&mut __state, "count", &self.count)?; } else { ::serde::ser::SerializeStruct::skip_field(&mut __state, "count")?; }
        ::serde::ser::SerializeStruct::serialize_field(&mut __state, "always_emitted", &self.always_emitted)?;
        ::serde::ser::SerializeStruct::end(__state)
    }
}
"#;

impl WithSkipped {
    /// Returns `true` if `self` compares equal to `Self::default()`.
    ///
    /// This is a whole-struct check: every field must match its default
    /// value. Only available when the struct
    /// derives [`PartialEq`] and has [`Default::default()`](https://doc.rust-lang.org/std/default/trait.Default.html#tymethod.default) implemented.
    ///
    /// Suppress this method with `#[smart_is_default(no_is_default)]` if
    /// you want to provide your own `is_default`.
    fn is_default(&self) -> bool where Self: PartialEq {
        self == &Self::default()
    }
    #[allow(non_snake_case)]
    pub fn is_default__count(v: &i32) -> bool {
        v == &Self::default().count
    }
}
impl ::serde::Serialize for WithSkipped where i32: ::serde::Serialize, i32: ::serde::Serialize {
    #[allow(unused_mut)]
    fn serialize<__S: ::serde::Serializer>(&self, __serializer: __S) -> ::core::result::Result<__S::Ok, __S::Error> {
        let mut __len: usize = 0;
        if !Self::is_default__count(&self.count) { __len += 1; }
        __len += 1;
        let mut __state = ::serde::Serializer::serialize_struct(__serializer, "WithSkipped", __len)?;
        if !Self::is_default__count(&self.count) { ::serde::ser::SerializeStruct::serialize_field(&mut __state, "count", &self.count)?; } else { ::serde::ser::SerializeStruct::skip_field(&mut __state, "count")?; }
        ::serde::ser::SerializeStruct::serialize_field(&mut __state, "always_emitted", &self.always_emitted)?;
        ::serde::ser::SerializeStruct::end(__state)
    }
}

// Tuple struct: the flag is a no-op for skipping (skipping tuple elements
// would break deserialization), but the user still gets a `Serialize` impl.

const TUPLE_SRC: &str = r#"
#[derive(SmartDefault, SmartIsDefault, PartialEq, Debug)]
#[smart_is_default(serde)]
struct Tuple(i32, String, bool);
"#;

#[derive(PartialEq, Debug, Default)]
struct Tuple(i32, String, bool);

const TUPLE_GENERATED: &str = r#"impl Tuple {
    #[doc = " Returns `true` if `self` compares equal to `Self::default()`."]
    #[doc = ""]
    #[doc = " This is a whole-struct check: every field must match its default"]
    #[doc = " value. Only available when the struct"]
    #[doc = " derives [`PartialEq`] and has [`Default::default()`](https://doc.rust-lang.org/std/default/trait.Default.html#tymethod.default) implemented."]
    #[doc = ""]
    #[doc = " Suppress this method with `#[smart_is_default(no_is_default)]` if"]
    #[doc = " you want to provide your own `is_default`."]
    fn is_default(&self) -> bool where Self: PartialEq {
        self == &Self::default()
    }
    #[allow(non_snake_case)]
    pub fn is_default__0(v: &i32) -> bool {
        v == &Self::default().0
    }
    #[allow(non_snake_case)]
    pub fn is_default__1(v: &String) -> bool {
        v == &Self::default().1
    }
    #[allow(non_snake_case)]
    pub fn is_default__2(v: &bool) -> bool {
        v == &Self::default().2
    }
}
impl ::serde::Serialize for Tuple where i32: ::serde::Serialize, String: ::serde::Serialize, bool: ::serde::Serialize {
    #[allow(unused_mut)]
    fn serialize<__S: ::serde::Serializer>(&self, __serializer: __S) -> ::core::result::Result<__S::Ok, __S::Error> {
        let mut __state = ::serde::Serializer::serialize_tuple_struct(__serializer, "Tuple", 3)?;
        ::serde::ser::SerializeTupleStruct::serialize_field(&mut __state, &self.0)?;
        ::serde::ser::SerializeTupleStruct::serialize_field(&mut __state, &self.1)?;
        ::serde::ser::SerializeTupleStruct::serialize_field(&mut __state, &self.2)?;
        ::serde::ser::SerializeTupleStruct::end(__state)
    }
}
"#;

impl Tuple {
    /// Returns `true` if `self` compares equal to `Self::default()`.
    ///
    /// This is a whole-struct check: every field must match its default
    /// value. Only available when the struct
    /// derives [`PartialEq`] and has [`Default::default()`](https://doc.rust-lang.org/std/default/trait.Default.html#tymethod.default) implemented.
    ///
    /// Suppress this method with `#[smart_is_default(no_is_default)]` if
    /// you want to provide your own `is_default`.
    fn is_default(&self) -> bool where Self: PartialEq {
        self == &Self::default()
    }
    #[allow(non_snake_case)]
    pub fn is_default__0(v: &i32) -> bool {
        v == &Self::default().0
    }
    #[allow(non_snake_case)]
    pub fn is_default__1(v: &String) -> bool {
        v == &Self::default().1
    }
    #[allow(non_snake_case)]
    pub fn is_default__2(v: &bool) -> bool {
        v == &Self::default().2
    }
}
impl ::serde::Serialize for Tuple where i32: ::serde::Serialize, String: ::serde::Serialize, bool: ::serde::Serialize {
    #[allow(unused_mut)]
    fn serialize<__S: ::serde::Serializer>(&self, __serializer: __S) -> ::core::result::Result<__S::Ok, __S::Error> {
        let mut __state = ::serde::Serializer::serialize_tuple_struct(__serializer, "Tuple", 3)?;
        ::serde::ser::SerializeTupleStruct::serialize_field(&mut __state, &self.0)?;
        ::serde::ser::SerializeTupleStruct::serialize_field(&mut __state, &self.1)?;
        ::serde::ser::SerializeTupleStruct::serialize_field(&mut __state, &self.2)?;
        ::serde::ser::SerializeTupleStruct::end(__state)
    }
}

fn assert_same_text(actual: &str, expected: &str) {
    for (i, (a, e)) in actual.lines().zip(expected.lines()).enumerate() {
        assert_eq!(a, e, "line {} differs", i + 1);
    }
    assert_eq!(actual.lines().count(), expected.lines().count());
    assert_eq!(actual, expected);
}

#[test]
fn generated_code_is_what_the_derive_writes() {
    assert_same_text(&derive_smart_is_default(CONFIG_SRC).unwrap(), CONFIG_GENERATED);
    assert_same_text(&derive_smart_is_default(WITH_SKIPPED_SRC).unwrap(), WITH_SKIPPED_GENERATED);
    assert_same_text(&derive_smart_is_default(TUPLE_SRC).unwrap(), TUPLE_GENERATED);
}

#[test]
fn auto_serde_fully_default_struct_serializes_to_empty_object() {
    let cfg = Config::default();
    let json = serde_json::to_string(&cfg).unwrap();
    assert_eq!(json, "{}");
}

#[test]
fn auto_serde_only_non_default_fields_are_emitted() {
    let cfg = Config { a: 99, ..Config::default() };
    let json = serde_json::to_string(&cfg).unwrap();
    assert_eq!(json, r#"{"a":99}"#);
}

#[test]
fn value_that_compares_equal_to_default_is_still_skipped() {
    // `a` is set to 12, which is the default value, so it must be skipped.
    let cfg = Config { a: 12, ..Config::default() };
    let json = serde_json::to_string(&cfg).unwrap();
    assert_eq!(json, "{}");
}

#[test]
fn auto_serde_all_fields_are_emitted_when_none_match_default() {
    let cfg = Config {
        a: 1,
        e: "hi".to_string(),
        flag: false,
        opt: Some("x".to_string()),
        list: vec![1, 2],
    };
    let json = serde_json::to_string(&cfg).unwrap();
    assert_eq!(json, r#"{"a":1,"e":"hi","flag":false,"opt":"x","list":[1,2]}"#);
}

#[test]
fn fields_appear_in_declared_order() {
    let cfg = Config {
        a: 1,
        e: "x".to_string(),
        flag: false,
        opt: Some("y".to_string()),
        list: vec![9],
    };
    let json = serde_json::to_string(&cfg).unwrap();
    assert_eq!(json, r#"{"a":1,"e":"x","flag":false,"opt":"y","list":[9]}"#);
}

#[test]
fn skipped_field_is_always_serialized() {
    let v = WithSkipped::default();
    // `count` matches the default and is skipped, but `always_emitted` is
    // always emitted because its helper was suppressed.
    let json = serde_json::to_string(&v).unwrap();
    assert_eq!(json, r#"{"always_emitted":0}"#);
}

#[test]
fn skipped_field_appears_alongside_non_default_field() {
    let v = WithSkipped { count: 5, always_emitted: 7 };
    let json = serde_json::to_string(&v).unwrap();
    assert_eq!(json, r#"{"count":5,"always_emitted":7}"#);
}

#[test]
fn tuple_struct_serializes_all_fields() {
    let v = Tuple(1, "hi".to_string(), false);
    let json = serde_json::to_string(&v).unwrap();
    assert_eq!(json, r#"[1,"hi",false]"#);
}

#[test]
fn tuple_struct_serializes_default_value() {
    let v = Tuple::default();
    let json = serde_json::to_string(&v).unwrap();
    assert_eq!(json, r#"[0,"",false]"#);
}

fn text(s: &str) -> Value {
    Value::Text(s.to_string())
}

fn config_value(a: i128, e: &str, flag: bool, opt: Option<&str>, list: Vec<i128>) -> Value {
    Value::Record(
        "Config".to_string(),
        vec![
            Value::Int(a),
            text(e),
            Value::Bool(flag),
            match opt {
                Some(s) => Value::Present(Box::new(text(s))),
                None => Value::Absent,
            },
            Value::List(list.into_iter().map(Value::Int).collect()),
        ],
    )
}

#[test]
fn written_fields_follow_the_defaults() {
    let exp = expand(&parse_type_def(CONFIG_SRC).unwrap());
    let def = config_value(12, "four", true, None, Vec::new());
    assert_eq!(exp.fields_written(&def, &def), Some(vec![]));
    let cfg = config_value(99, "four", true, None, Vec::new());
    assert_eq!(exp.fields_written(&def, &cfg), Some(vec![0]));
    let all = config_value(1, "hi", false, Some("x"), vec![1, 2]);
    assert_eq!(exp.fields_written(&def, &all), Some(vec![0, 1, 2, 3, 4]));
}

#[test]
fn written_fields_keep_skipped_ones() {
    let exp = expand(&parse_type_def(WITH_SKIPPED_SRC).unwrap());
    let item = |c: i128, a: i128| Value::Record("WithSkipped".to_string(), vec![Value::Int(c), Value::Int(a)]);
    assert_eq!(exp.fields_written(&item(0, 0), &item(0, 0)), Some(vec![1]));
    assert_eq!(exp.fields_written(&item(0, 0), &item(5, 7)), Some(vec![0, 1]));
}

#[test]
fn written_fields_of_a_tuple_struct_are_all_of_them() {
    let exp = expand(&parse_type_def(TUPLE_SRC).unwrap());
    let t = |a: i128, b: &str, c: bool| Value::Record("Tuple".to_string(), vec![Value::Int(a), text(b), Value::Bool(c)]);
    assert_eq!(exp.fields_written(&t(0, "", false), &t(0, "", false)), Some(vec![0, 1, 2]));
    assert_eq!(exp.fields_written(&t(0, "", false), &Value::Int(3)), None);
}

const NO_FLAG: &str = r#"
#[derive(SmartDefault, SmartIsDefault, PartialEq, Debug)]
struct NoFlag {
    #[default = 0]
    a: i32,
}
"#;

#[test]
fn no_serde_flag_means_helpers_only() {
    // Helper still works; this just proves the flag is opt-in.
    let exp = expand(&parse_type_def(NO_FLAG).unwrap());
    let v = Value::Record("NoFlag".to_string(), vec![Value::Int(0)]);
    assert!(exp.call_helper("is_default__a", &v, v.field(0).unwrap()).unwrap());
    assert!(exp.serialize.is_none());
    assert_eq!(exp.fields_written(&v, &v), None);
}
