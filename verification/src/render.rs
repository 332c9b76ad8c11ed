//! Writing an [`Expansion`] out as Rust source: the inherent impl with
//! `is_default` and the helpers, then the `Serialize` impl if there is one.

use vstd::prelude::*;
use crate::expand::{Expansion, Helper, SerField, SerializeImpl};
use crate::naming::{copy_string, decimal, decimal_text, index_text, unraw, unraw_ident};

verus! {

/// The views of a list of strings.
pub open spec fn views(v: Seq<String>) -> Seq<Seq<char>> {
    v.map_values(|s: String| s@)
}

/// The items separated by `", "`.
pub open spec fn joined(items: Seq<Seq<char>>) -> Seq<char>
    decreases items.len(),
{
    if items.len() == 0 {
        Seq::empty()
    } else if items.len() == 1 {
        items[0]
    } else {
        joined(items.drop_last()) + ", "@ + items.last()
    }
}

/// A `where` clause over the predicates, followed by a space; empty when
/// there are none.
pub open spec fn where_text(preds: Seq<Seq<char>>) -> Seq<char> {
    if preds.len() == 0 {
        Seq::empty()
    } else {
        "where "@ + joined(preds) + " "@
    }
}

/// `pub ` or nothing.
pub open spec fn vis_text(public: bool) -> Seq<char> {
    if public {
        "pub "@
    } else {
        Seq::empty()
    }
}

/// The doc attributes of the generated `is_default`, each line of its doc
/// comment as one `#[doc]`, as the derive's tokens carry it.
pub const IS_DEFAULT_DOC: &'static str = "    #[doc = \" Returns `true` if `self` compares equal to `Self::default()`.\"]\n    #[doc = \"\"]\n    #[doc = \" This is a whole-struct check: every field must match its default\"]\n    #[doc = \" value. Only available when the struct\"]\n    #[doc = \" derives [`PartialEq`] and has [`Default::default()`](https://doc.rust-lang.org/std/default/trait.Default.html#tymethod.default) implemented.\"]\n    #[doc = \"\"]\n    #[doc = \" Suppress this method with `#[smart_is_default(no_is_default)]` if\"]\n    #[doc = \" you want to provide your own `is_default`.\"]\n    ";

/// The text of [`IS_DEFAULT_DOC`].
pub open spec fn is_default_doc() -> Seq<char> {
    IS_DEFAULT_DOC@
}

/// The generated `is_default` method, or nothing. It is private to the
/// type's module whatever the flags say; the user may wrap it.
pub open spec fn is_default_text(e: Expansion) -> Seq<char> {
    if e.is_default_method {
        is_default_doc()
            + "fn is_default(&self) -> bool where Self: PartialEq {\n        self == &Self::default()\n    }\n"@
    } else {
        Seq::empty()
    }
}

/// One generated helper.
pub open spec fn helper_text(h: Helper, public: bool) -> Seq<char> {
    "    #[allow(non_snake_case)]\n    "@ + vis_text(public) + "fn "@ + h.fn_name@ + "(v: &"@
        + h.field_ty@ + ") -> bool {\n        v == &Self::default()."@ + h.member@
        + "\n    }\n"@
}

/// The helpers, in order.
pub open spec fn helpers_text(hs: Seq<Helper>, public: bool) -> Seq<char>
    decreases hs.len(),
{
    if hs.len() == 0 {
        Seq::empty()
    } else {
        helpers_text(hs.drop_last(), public) + helper_text(hs.last(), public)
    }
}

/// `impl<..> Name<..> where .. {` up to the opening brace's line end.
pub open spec fn impl_head(e: Expansion, trait_path: Seq<char>, preds: Seq<Seq<char>>) -> Seq<char> {
    "impl"@ + e.generics.impl_generics@ + " "@ + trait_path + e.type_ident@ + e.generics.ty_generics@
        + " "@ + where_text(preds) + "{\n"@
}

/// The inherent impl that holds `is_default` and the helpers.
pub open spec fn inherent_text(e: Expansion) -> Seq<char> {
    impl_head(e, Seq::empty(), views(e.generics.where_predicates@)) + is_default_text(e)
        + helpers_text(e.helpers@, e.public) + "}\n"@
}

/// `<type>: ::serde::Serialize`.
pub open spec fn serialize_bound(ty: Seq<char>) -> Seq<char> {
    ty + ": ::serde::Serialize"@
}

/// The where predicates of the `Serialize` impl: the type's own, then one
/// bound per field type.
pub open spec fn serialize_preds(e: Expansion, tys: Seq<Seq<char>>) -> Seq<Seq<char>> {
    views(e.generics.where_predicates@) + tys.map_values(|t: Seq<char>| serialize_bound(t))
}

/// The types of the fields that a `Serialize` impl writes.
pub open spec fn serialized_types(s: SerializeImpl) -> Seq<Seq<char>> {
    match s {
        SerializeImpl::Struct(sfs) => sfs@.map_values(|f: SerField| f.field_ty@),
        SerializeImpl::Tuple(tys) => views(tys@),
        SerializeImpl::UnitStruct => Seq::empty(),
    }
}

/// `!Self::<helper>(&self.<member>)`.
pub open spec fn not_default_test(helper: Seq<char>, member: Seq<char>) -> Seq<char> {
    "!Self::"@ + helper + "(&self."@ + member + ")"@
}

/// `serialize_field` of a struct field under its key.
pub open spec fn write_field_text(f: SerField) -> Seq<char> {
    "::serde::ser::SerializeStruct::serialize_field(&mut __state, \""@ + f.key@ + "\", &self."@
        + f.member@ + ")?;"@
}

/// The line that counts a field if it is written.
pub open spec fn count_line(f: SerField) -> Seq<char> {
    match f.helper {
        Some(h) => "        if "@ + not_default_test(h@, f.member@) + " { __len += 1; }\n"@,
        None => "        __len += 1;\n"@,
    }
}

/// The line that writes a field, or skips it when it equals the default.
pub open spec fn field_line(f: SerField) -> Seq<char> {
    match f.helper {
        Some(h) => "        if "@ + not_default_test(h@, f.member@) + " { "@ + write_field_text(f)
            + " } else { ::serde::ser::SerializeStruct::skip_field(&mut __state, \""@ + f.key@
            + "\")?; }\n"@,
        None => "        "@ + write_field_text(f) + "\n"@,
    }
}

/// The count lines of all fields.
pub open spec fn count_lines(fs: Seq<SerField>) -> Seq<char>
    decreases fs.len(),
{
    if fs.len() == 0 {
        Seq::empty()
    } else {
        count_lines(fs.drop_last()) + count_line(fs.last())
    }
}

/// The write lines of all fields.
pub open spec fn field_lines(fs: Seq<SerField>) -> Seq<char>
    decreases fs.len(),
{
    if fs.len() == 0 {
        Seq::empty()
    } else {
        field_lines(fs.drop_last()) + field_line(fs.last())
    }
}

/// The lines that write tuple fields `0..n`.
pub open spec fn tuple_lines(n: nat) -> Seq<char>
    decreases n,
{
    if n == 0 {
        Seq::empty()
    } else {
        tuple_lines((n - 1) as nat)
            + "        ::serde::ser::SerializeTupleStruct::serialize_field(&mut __state, &self."@
            + decimal((n - 1) as nat) + ")?;\n"@
    }
}

/// The body of the generated `serialize`.
pub open spec fn serialize_body(e: Expansion, s: SerializeImpl) -> Seq<char> {
    let key = unraw(e.type_ident@);
    match s {
        SerializeImpl::Struct(sfs) => "        let mut __len: usize = 0;\n"@ + count_lines(sfs@)
            + "        let mut __state = ::serde::Serializer::serialize_struct(__serializer, \""@
            + key + "\", __len)?;\n"@ + field_lines(sfs@)
            + "        ::serde::ser::SerializeStruct::end(__state)\n"@,
        SerializeImpl::Tuple(tys) =>
            "        let mut __state = ::serde::Serializer::serialize_tuple_struct(__serializer, \""@
            + key + "\", "@ + decimal(tys@.len()) + ")?;\n"@ + tuple_lines(tys@.len())
            + "        ::serde::ser::SerializeTupleStruct::end(__state)\n"@,
        SerializeImpl::UnitStruct => "        ::serde::Serializer::serialize_unit_struct(__serializer, \""@
            + key + "\")\n"@,
    }
}

/// The opening of the generated `serialize` method, up to its body.
pub open spec fn serialize_fn_head() -> Seq<char> {
    "    #[allow(unused_mut)]\n    fn serialize<__S: ::serde::Serializer>(&self, __serializer: __S) -> ::core::result::Result<__S::Ok, __S::Error> {\n"@
}

/// The generated `Serialize` impl, or nothing.
pub open spec fn serialize_text(e: Expansion) -> Seq<char> {
    match e.serialize {
        Some(s) => impl_head(e, "::serde::Serialize for "@, serialize_preds(e, serialized_types(s)))
            + serialize_fn_head() + serialize_body(e, s) + "    }\n}\n"@,
        None => Seq::empty(),
    }
}

/// The Rust source of everything the derive generates.
pub open spec fn expansion_text(e: Expansion) -> Seq<char> {
    inherent_text(e) + serialize_text(e)
}

/// Whether the expansion can be written out: tuple sizes stay below what
/// `syn::Index` holds.
pub open spec fn renderable(e: Expansion) -> bool {
    e.serialize matches Some(SerializeImpl::Tuple(tys)) ==> tys@.len() < 0xffff_ffff
}

/// Joins the strings with `", "`.
pub fn join(items: &Vec<String>) -> (r: String)
    ensures
        r@ == joined(views(items@)),
{
    let ghost vs = views(items@);
    let mut r = String::new();
    let mut i: usize = 0;
    while i < items.len()
        invariant
            vs == views(items@),
            i <= items@.len(),
            r@ == joined(vs.take(i as int)),
        decreases items@.len() - i,
    {
        proof {
            assert(vs.take(i as int + 1).drop_last() =~= vs.take(i as int));
        }
        if i == 0 {
            r = copy_string(&items[0]);
        } else {
            r.append(", ");
            r.append(items[i].as_str());
        }
        i = i + 1;
    }
    assert(vs.take(items@.len() as int) =~= vs);
    r
}

/// The `where` clause over the predicates.
pub fn where_clause(preds: &Vec<String>) -> (r: String)
    ensures
        r@ == where_text(views(preds@)),
{
    if preds.len() == 0 {
        String::new()
    } else {
        let mut r = String::from_str("where ");
        let j = join(preds);
        r.append(j.as_str());
        r.append(" ");
        r
    }
}

fn vis(public: bool) -> (r: String)
    ensures
        r@ == vis_text(public),
{
    if public {
        String::from_str("pub ")
    } else {
        String::new()
    }
}

fn impl_head_text(e: &Expansion, trait_path: &str, preds: &Vec<String>) -> (r: String)
    ensures
        r@ == impl_head(*e, trait_path@, views(preds@)),
{
    let mut r = String::from_str("impl");
    r.append(e.generics.impl_generics.as_str());
    r.append(" ");
    r.append(trait_path);
    r.append(e.type_ident.as_str());
    r.append(e.generics.ty_generics.as_str());
    r.append(" ");
    let w = where_clause(preds);
    r.append(w.as_str());
    r.append("{\n");
    r
}

fn render_helper(h: &Helper, public: bool) -> (r: String)
    ensures
        r@ == helper_text(*h, public),
{
    let mut r = String::from_str("    #[allow(non_snake_case)]\n    ");
    let v = vis(public);
    r.append(v.as_str());
    r.append("fn ");
    r.append(h.fn_name.as_str());
    r.append("(v: &");
    r.append(h.field_ty.as_str());
    r.append(") -> bool {\n        v == &Self::default().");
    r.append(h.member.as_str());
    r.append("\n    }\n");
    r
}

fn render_helpers(hs: &Vec<Helper>, public: bool) -> (r: String)
    ensures
        r@ == helpers_text(hs@, public),
{
    let mut r = String::new();
    let mut i: usize = 0;
    while i < hs.len()
        invariant
            i <= hs@.len(),
            r@ == helpers_text(hs@.take(i as int), public),
        decreases hs@.len() - i,
    {
        proof {
            assert(hs@.take(i as int + 1).drop_last() =~= hs@.take(i as int));
        }
        let t = render_helper(&hs[i], public);
        r.append(t.as_str());
        i = i + 1;
    }
    assert(hs@.take(hs@.len() as int) =~= hs@);
    r
}

fn render_is_default(e: &Expansion) -> (r: String)
    ensures
        r@ == is_default_text(*e),
{
    if e.is_default_method {
        let mut r = String::from_str(IS_DEFAULT_DOC);
        r.append(
            "fn is_default(&self) -> bool where Self: PartialEq {\n        self == &Self::default()\n    }\n",
        );
        r
    } else {
        String::new()
    }
}

/// Writes the inherent impl with `is_default` and the helpers.
pub fn render_inherent(e: &Expansion) -> (r: String)
    ensures
        r@ == inherent_text(*e),
{
    let mut r = impl_head_text(e, "", &e.generics.where_predicates);
    proof {
        assert(""@ =~= Seq::<char>::empty()) by {
            reveal_strlit("");
        }
    }
    let d = render_is_default(e);
    r.append(d.as_str());
    let hs = render_helpers(&e.helpers, e.public);
    r.append(hs.as_str());
    r.append("}\n");
    r
}

/// The types of the fields that the `Serialize` impl writes.
fn serialized_type_list(s: &SerializeImpl) -> (r: Vec<String>)
    ensures
        views(r@) == serialized_types(*s),
{
    let mut r: Vec<String> = Vec::new();
    match s {
        SerializeImpl::Struct(sfs) => {
            let mut i: usize = 0;
            while i < sfs.len()
                invariant
                    i <= sfs@.len(),
                    r@.len() == i,
                    forall|k: int| 0 <= k < i ==> (#[trigger] r@[k])@ == sfs@[k].field_ty@,
                decreases sfs@.len() - i,
            {
                r.push(copy_string(&sfs[i].field_ty));
                i = i + 1;
            }
            assert(views(r@) =~= serialized_types(*s));
        },
        SerializeImpl::Tuple(tys) => {
            let mut i: usize = 0;
            while i < tys.len()
                invariant
                    i <= tys@.len(),
                    r@.len() == i,
                    forall|k: int| 0 <= k < i ==> (#[trigger] r@[k])@ == tys@[k]@,
                decreases tys@.len() - i,
            {
                r.push(copy_string(&tys[i]));
                i = i + 1;
            }
            assert(views(r@) =~= serialized_types(*s));
        },
        SerializeImpl::UnitStruct => {
            assert(views(r@) =~= serialized_types(*s));
        },
    }
    r
}

/// The where predicates of the `Serialize` impl.
fn serialize_pred_list(e: &Expansion, s: &SerializeImpl) -> (r: Vec<String>)
    ensures
        views(r@) == serialize_preds(*e, serialized_types(*s)),
{
    let preds = &e.generics.where_predicates;
    let tys = serialized_type_list(s);
    let ghost bounds = views(tys@).map_values(|t: Seq<char>| serialize_bound(t));
    let mut r: Vec<String> = Vec::new();
    let mut i: usize = 0;
    while i < preds.len()
        invariant
            i <= preds@.len(),
            r@.len() == i,
            forall|k: int| 0 <= k < i ==> (#[trigger] r@[k])@ == preds@[k]@,
        decreases preds@.len() - i,
    {
        r.push(copy_string(&preds[i]));
        i = i + 1;
    }
    let mut j: usize = 0;
    while j < tys.len()
        invariant
            j <= tys@.len(),
            r@.len() == preds@.len() + j,
            bounds == views(tys@).map_values(|t: Seq<char>| serialize_bound(t)),
            forall|k: int| 0 <= k < preds@.len() ==> (#[trigger] r@[k])@ == preds@[k]@,
            forall|k: int| 0 <= k < j ==> (#[trigger] r@[preds@.len() + k])@ == bounds[k],
        decreases tys@.len() - j,
    {
        let mut b = copy_string(&tys[j]);
        b.append(": ::serde::Serialize");
        r.push(b);
        j = j + 1;
    }
    let ghost want = serialize_preds(*e, serialized_types(*s));
    assert(views(tys@) == serialized_types(*s));
    assert(want.len() == r@.len());
    assert forall|k: int| 0 <= k < r@.len() implies views(r@)[k] == want[k] by {
        if k >= preds@.len() {
            assert(r@[preds@.len() + (k - preds@.len())] == r@[k]);
        }
    }
    assert(views(r@) =~= want);
    r
}

fn not_default(helper: &String, member: &String) -> (r: String)
    ensures
        r@ == not_default_test(helper@, member@),
{
    let mut r = String::from_str("!Self::");
    r.append(helper.as_str());
    r.append("(&self.");
    r.append(member.as_str());
    r.append(")");
    r
}

fn write_field(f: &SerField) -> (r: String)
    ensures
        r@ == write_field_text(*f),
{
    let mut r = String::from_str("::serde::ser::SerializeStruct::serialize_field(&mut __state, \"");
    r.append(f.key.as_str());
    r.append("\", &self.");
    r.append(f.member.as_str());
    r.append(")?;");
    r
}

fn render_count_line(f: &SerField) -> (r: String)
    ensures
        r@ == count_line(*f),
{
    match &f.helper {
        Some(h) => {
            let mut r = String::from_str("        if ");
            let t = not_default(h, &f.member);
            r.append(t.as_str());
            r.append(" { __len += 1; }\n");
            r
        },
        None => String::from_str("        __len += 1;\n"),
    }
}

fn render_field_line(f: &SerField) -> (r: String)
    ensures
        r@ == field_line(*f),
{
    match &f.helper {
        Some(h) => {
            let mut r = String::from_str("        if ");
            let t = not_default(h, &f.member);
            r.append(t.as_str());
            r.append(" { ");
            let w = write_field(f);
            r.append(w.as_str());
            r.append(" } else { ::serde::ser::SerializeStruct::skip_field(&mut __state, \"");
            r.append(f.key.as_str());
            r.append("\")?; }\n");
            r
        },
        None => {
            let mut r = String::from_str("        ");
            let w = write_field(f);
            r.append(w.as_str());
            r.append("\n");
            r
        },
    }
}

fn render_count_lines(fs: &Vec<SerField>) -> (r: String)
    ensures
        r@ == count_lines(fs@),
{
    let mut r = String::new();
    let mut i: usize = 0;
    while i < fs.len()
        invariant
            i <= fs@.len(),
            r@ == count_lines(fs@.take(i as int)),
        decreases fs@.len() - i,
    {
        proof {
            assert(fs@.take(i as int + 1).drop_last() =~= fs@.take(i as int));
        }
        let t = render_count_line(&fs[i]);
        r.append(t.as_str());
        i = i + 1;
    }
    assert(fs@.take(fs@.len() as int) =~= fs@);
    r
}

fn render_field_lines(fs: &Vec<SerField>) -> (r: String)
    ensures
        r@ == field_lines(fs@),
{
    let mut r = String::new();
    let mut i: usize = 0;
    while i < fs.len()
        invariant
            i <= fs@.len(),
            r@ == field_lines(fs@.take(i as int)),
        decreases fs@.len() - i,
    {
        proof {
            assert(fs@.take(i as int + 1).drop_last() =~= fs@.take(i as int));
        }
        let t = render_field_line(&fs[i]);
        r.append(t.as_str());
        i = i + 1;
    }
    assert(fs@.take(fs@.len() as int) =~= fs@);
    r
}

fn render_tuple_lines(n: usize) -> (r: String)
    requires
        n < 0xffff_ffffusize,
    ensures
        r@ == tuple_lines(n as nat),
{
    let mut r = String::new();
    let mut i: usize = 0;
    while i < n
        invariant
            i <= n < 0xffff_ffffusize,
            r@ == tuple_lines(i as nat),
        decreases n - i,
    {
        r.append("        ::serde::ser::SerializeTupleStruct::serialize_field(&mut __state, &self.");
        let d = index_text(i);
        r.append(d.as_str());
        r.append(")?;\n");
        i = i + 1;
    }
    r
}

fn render_serialize_body(e: &Expansion, s: &SerializeImpl) -> (r: String)
    requires
        s matches SerializeImpl::Tuple(tys) ==> tys@.len() < 0xffff_ffff,
    ensures
        r@ == serialize_body(*e, *s),
{
    let key = unraw_ident(&e.type_ident);
    match s {
        SerializeImpl::Struct(sfs) => {
            let mut r = String::from_str("        let mut __len: usize = 0;\n");
            let c = render_count_lines(sfs);
            r.append(c.as_str());
            r.append("        let mut __state = ::serde::Serializer::serialize_struct(__serializer, \"");
            r.append(key.as_str());
            r.append("\", __len)?;\n");
            let f = render_field_lines(sfs);
            r.append(f.as_str());
            r.append("        ::serde::ser::SerializeStruct::end(__state)\n");
            r
        },
        SerializeImpl::Tuple(tys) => {
            let mut r = String::from_str(
                "        let mut __state = ::serde::Serializer::serialize_tuple_struct(__serializer, \"",
            );
            r.append(key.as_str());
            r.append("\", ");
            let n = decimal_text(tys.len());
            r.append(n.as_str());
            r.append(")?;\n");
            let t = render_tuple_lines(tys.len());
            r.append(t.as_str());
            r.append("        ::serde::ser::SerializeTupleStruct::end(__state)\n");
            r
        },
        SerializeImpl::UnitStruct => {
            let mut r = String::from_str(
                "        ::serde::Serializer::serialize_unit_struct(__serializer, \"",
            );
            r.append(key.as_str());
            r.append("\")\n");
            r
        },
    }
}

/// Writes the `Serialize` impl, or nothing when none is generated.
pub fn render_serialize(e: &Expansion) -> (r: String)
    requires
        renderable(*e),
    ensures
        r@ == serialize_text(*e),
{
    match &e.serialize {
        Some(s) => {
            let preds = serialize_pred_list(e, s);
            let mut r = impl_head_text(e, "::serde::Serialize for ", &preds);
            r.append(
                "    #[allow(unused_mut)]\n    fn serialize<__S: ::serde::Serializer>(&self, __serializer: __S) -> ::core::result::Result<__S::Ok, __S::Error> {\n",
            );
            let b = render_serialize_body(e, s);
            r.append(b.as_str());
            r.append("    }\n}\n");
            r
        },
        None => String::new(),
    }
}

/// Writes out everything the derive generates, as Rust source.
pub fn render(e: &Expansion) -> (r: String)
    requires
        renderable(*e),
    ensures
        r@ == expansion_text(*e),
{
    let mut r = render_inherent(e);
    let s = render_serialize(e);
    r.append(s.as_str());
    r
}

} // verus!
