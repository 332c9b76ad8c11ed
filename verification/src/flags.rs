//! Finding `#[smart_is_default(<flag>)]` among a container's or a field's
//! attributes.

use vstd::prelude::*;
use crate::model::{Attr, TypeDef, FieldDef};

verus! {

/// Whether an optional identifier is present and reads `s`.
pub open spec fn names(o: Option<String>, s: Seq<char>) -> bool {
    match o {
        Some(x) => x@ == s,
        None => false,
    }
}

/// Whether the attribute is `#[<attr_path>(..)]` and `flag` is among the
/// nested meta paths read from its arguments.
pub open spec fn attr_marks(a: Attr, attr_path: Seq<char>, flag: Seq<char>) -> bool {
    &&& names(a.path_ident, attr_path)
    &&& exists|j: int| 0 <= j < a.nested@.len() && names(#[trigger] a.nested@[j], flag)
}

/// Whether one of the attributes marks `flag` under `attr_path`.
pub open spec fn attrs_mark(attrs: Seq<Attr>, attr_path: Seq<char>, flag: Seq<char>) -> bool {
    exists|i: int| 0 <= i < attrs.len() && attr_marks(#[trigger] attrs[i], attr_path, flag)
}

/// The name of the derive's own attribute.
pub open spec fn own_attr() -> Seq<char> {
    "smart_is_default"@
}

/// Whether `#[smart_is_default(<flag>)]` stands on the container.
pub open spec fn container_marked(input: TypeDef, flag: Seq<char>) -> bool {
    attrs_mark(input.attrs@, own_attr(), flag)
}

/// Whether `#[smart_is_default(<flag>)]` stands on the field.
pub open spec fn field_marked(field: FieldDef, flag: Seq<char>) -> bool {
    attrs_mark(field.attrs@, own_attr(), flag)
}

fn opt_names(o: &Option<String>, s: &String) -> (r: bool)
    ensures
        r == names(*o, s@),
{
    match o {
        Some(x) => x.eq(s),
        None => false,
    }
}

/// Whether `attr` is `#[<attr_path>(..)]` with `flag` among its nested metas.
pub fn attr_has_flag(attr: &Attr, attr_path: &str, flag: &str) -> (r: bool)
    ensures
        r == attr_marks(*attr, attr_path@, flag@),
{
    let path = String::from_str(attr_path);
    let wanted = String::from_str(flag);
    if !opt_names(&attr.path_ident, &path) {
        return false;
    }
    let mut j: usize = 0;
    while j < attr.nested.len()
        invariant
            j <= attr.nested@.len(),
            wanted@ == flag@,
            names(attr.path_ident, attr_path@),
            forall|k: int| 0 <= k < j ==> !names(#[trigger] attr.nested@[k], flag@),
        decreases attr.nested@.len() - j,
    {
        if opt_names(&attr.nested[j], &wanted) {
            assert(names(attr.nested@[j as int], flag@));
            return true;
        }
        j = j + 1;
    }
    false
}

/// Scans attributes for `#[<attr_path>(<flag>)]`.
pub fn attrs_have_flag(attrs: &Vec<Attr>, attr_path: &str, flag: &str) -> (r: bool)
    ensures
        r == attrs_mark(attrs@, attr_path@, flag@),
{
    let mut i: usize = 0;
    while i < attrs.len()
        invariant
            i <= attrs@.len(),
            forall|k: int| 0 <= k < i ==> !attr_marks(#[trigger] attrs@[k], attr_path@, flag@),
        decreases attrs@.len() - i,
    {
        if attr_has_flag(&attrs[i], attr_path, flag) {
            return true;
        }
        i = i + 1;
    }
    false
}

/// Scans the container attributes for `#[<attr_path>(<flag>)]` and returns
/// `true` if the given flag is present.
pub fn container_has_flag(input: &TypeDef, attr_path: &str, flag: &str) -> (r: bool)
    ensures
        r == attrs_mark(input.attrs@, attr_path@, flag@),
{
    attrs_have_flag(&input.attrs, attr_path, flag)
}

/// Scans a single field's attributes for `#[<attr_path>(<flag>)]` and
/// returns `true` if the given flag is present.
pub fn field_has_flag(field: &FieldDef, attr_path: &str, flag: &str) -> (r: bool)
    ensures
        r == attrs_mark(field.attrs@, attr_path@, flag@),
{
    attrs_have_flag(&field.attrs, attr_path, flag)
}

} // verus!
