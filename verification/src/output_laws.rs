//! What the generated source holds, stated against the type definition:
//! the impl headers carry its generics, every helper not suppressed is
//! written with its comparison against `Self::default()`, and the
//! `Serialize` impl writes every field, in declared order. The whole text
//! is stated in [`law_generated_source`].

use vstd::prelude::*;
use crate::model::{FieldDef, TypeDef};
use crate::flags::container_marked;
use crate::expand::{
    expansion_of, field_skipped, helper_for, helper_name, kept_fields, label_of, member_of,
    no_is_default_flag, no_pub_flag, ser_field_for, serde_flag, skip_flag, Expansion, Helper,
    SerField, SerializeImpl,
};
use crate::naming::{decimal, unraw};
use crate::eval::all_indices;
use crate::source::{derived_text, derives, reads};
use crate::render::{
    count_line, count_lines, expansion_text, field_line, field_lines, helper_text, helpers_text,
    impl_head, inherent_text, is_default_doc, is_default_text, serialize_body, serialize_bound,
    serialize_fn_head, serialize_preds, serialize_text, serialized_types, tuple_lines, views,
    where_text,
};
use crate::laws::lemma_kept;

verus! {

/// `piece` stands in `t` from position `p` on.
#[verifier::opaque]
pub open spec fn occurs_at(t: Seq<char>, piece: Seq<char>, p: int) -> bool {
    &&& 0 <= p
    &&& p + piece.len() <= t.len()
    &&& t.subrange(p, p + piece.len()) == piece
}

/// The texts `f(x)` of the items of `s`, one after the other.
pub open spec fn concat_map<A>(s: Seq<A>, f: spec_fn(A) -> Seq<char>) -> Seq<char>
    decreases s.len(),
{
    if s.len() == 0 {
        Seq::empty()
    } else {
        concat_map(s.drop_last(), f) + f(s.last())
    }
}

proof fn lemma_occurs_left(a: Seq<char>, b: Seq<char>, piece: Seq<char>, p: int)
    requires
        occurs_at(a, piece, p),
    ensures
        occurs_at(a + b, piece, p),
{
    reveal(occurs_at);
    assert((a + b).subrange(p, p + piece.len()) =~= a.subrange(p, p + piece.len()));
}

proof fn lemma_occurs_right(a: Seq<char>, b: Seq<char>, piece: Seq<char>, p: int)
    requires
        occurs_at(b, piece, p),
    ensures
        occurs_at(a + b, piece, a.len() + p),
{
    reveal(occurs_at);
    assert((a + b).subrange(a.len() + p, a.len() + p + piece.len()) =~= b.subrange(
        p,
        p + piece.len(),
    ));
}

proof fn lemma_concat_map_prefix<A>(s: Seq<A>, f: spec_fn(A) -> Seq<char>, k: int)
    requires
        0 <= k <= s.len(),
    ensures
        concat_map(s.take(k), f).len() <= concat_map(s, f).len(),
        concat_map(s, f).subrange(0, concat_map(s.take(k), f).len() as int) == concat_map(
            s.take(k),
            f,
        ),
    decreases s.len(),
{
    if k == s.len() {
        assert(s.take(k) =~= s);
        assert(concat_map(s, f).subrange(0, concat_map(s, f).len() as int) =~= concat_map(s, f));
    } else {
        let t = s.drop_last();
        assert(t.take(k) =~= s.take(k));
        lemma_concat_map_prefix(t, f, k);
        let c = concat_map(t, f);
        let pre = concat_map(s.take(k), f);
        assert((c + f(s.last())).subrange(0, pre.len() as int) =~= c.subrange(0, pre.len() as int));
    }
}

proof fn lemma_concat_map_step<A>(s: Seq<A>, f: spec_fn(A) -> Seq<char>, k: int)
    requires
        0 <= k < s.len(),
    ensures
        concat_map(s.take(k + 1), f) == concat_map(s.take(k), f) + f(s[k]),
{
    assert(s.take(k + 1).drop_last() =~= s.take(k));
}

proof fn lemma_concat_map_occurs<A>(s: Seq<A>, f: spec_fn(A) -> Seq<char>, k: int)
    requires
        0 <= k < s.len(),
    ensures
        occurs_at(concat_map(s, f), f(s[k]), concat_map(s.take(k), f).len() as int),
{
    reveal(occurs_at);
    lemma_concat_map_step(s, f, k);
    lemma_concat_map_prefix(s, f, k + 1);
    let pre = concat_map(s.take(k), f);
    let full = concat_map(s, f);
    let q = concat_map(s.take(k + 1), f);
    assert(full.subrange(pre.len() as int, (pre.len() + f(s[k]).len()) as int) =~= q.subrange(
        pre.len() as int,
        q.len() as int,
    ));
    assert(q.subrange(pre.len() as int, q.len() as int) =~= f(s[k]));
}

proof fn lemma_concat_map_ordered<A>(s: Seq<A>, f: spec_fn(A) -> Seq<char>, a: int, b: int)
    requires
        0 <= a < b <= s.len(),
    ensures
        concat_map(s.take(a), f).len() + f(s[a]).len() <= concat_map(s.take(b), f).len(),
{
    lemma_concat_map_step(s, f, a);
    let sb = s.take(b);
    assert(sb.take(a + 1) =~= s.take(a + 1));
    lemma_concat_map_prefix(sb, f, a + 1);
}

proof fn lemma_helpers_concat(hs: Seq<Helper>, public: bool, f: spec_fn(Helper) -> Seq<char>)
    requires
        forall|h: Helper| #[trigger] f(h) == helper_text(h, public),
    ensures
        helpers_text(hs, public) == concat_map(hs, f),
    decreases hs.len(),
{
    if hs.len() > 0 {
        lemma_helpers_concat(hs.drop_last(), public, f);
    }
}

/// The code of the helper for field `i` of `input`: `pub` unless the
/// container says `no_pub`, named `is_default__<field>`, taking a reference
/// to the field's type, and comparing it with that field of
/// `Self::default()`.
pub open spec fn expected_helper_code(input: TypeDef, i: int) -> Seq<char> {
    "    #[allow(non_snake_case)]\n    "@ + (if container_marked(input, no_pub_flag()) {
        Seq::empty()
    } else {
        "pub "@
    }) + "fn "@ + helper_name(input, i) + "(v: &"@ + input.struct_fields()[i].ty@
        + ") -> bool {\n        v == &Self::default()."@ + member_of(input, i) + "\n    }\n"@
}

/// Where the helpers stand in the generated source.
spec fn helpers_offset(e: Expansion) -> int {
    (crate::render::impl_head(
        e,
        Seq::empty(),
        crate::render::views(e.generics.where_predicates@),
    ) + crate::render::is_default_text(e)).len() as int
}

proof fn lemma_helper_in_text(input: TypeDef, e: Expansion, k: int, f: spec_fn(Helper) -> Seq<char>)
    requires
        input.wf(),
        expansion_of(input, e),
        0 <= k < e.helpers@.len(),
        forall|h: Helper| #[trigger] f(h) == helper_text(h, e.public),
    ensures
        occurs_at(
            expansion_text(e),
            expected_helper_code(input, kept_fields(input)[k]),
            helpers_offset(e) + concat_map(e.helpers@.take(k), f).len(),
        ),
{
    let hs = e.helpers@;
    let i = kept_fields(input)[k];
    assert(helper_for(input, i, hs[k]));
    assert(helper_text(hs[k], e.public) == expected_helper_code(input, i));
    lemma_helpers_concat(hs, e.public, f);
    lemma_concat_map_occurs(hs, f, k);
    let a = crate::render::impl_head(e, Seq::empty(), crate::render::views(e.generics.where_predicates@))
        + crate::render::is_default_text(e);
    let h = helpers_text(hs, e.public);
    let p = concat_map(hs.take(k), f).len() as int;
    lemma_occurs_right(a, h, expected_helper_code(input, i), p);
    lemma_occurs_left(a + h, "}\n"@, expected_helper_code(input, i), a.len() + p);
    lemma_occurs_left(
        a + h + "}\n"@,
        crate::render::serialize_text(e),
        expected_helper_code(input, i),
        a.len() + p,
    );
}

/// Every field not marked `skip` gets its helper written into the generated
/// source, whatever the other flags say, and the helpers stand in the
/// declared order of their fields.
pub proof fn law_every_helper_is_written(input: TypeDef, e: Expansion)
    requires
        input.wf(),
        expansion_of(input, e),
    ensures
        forall|i: int| 0 <= i < input.struct_fields().len() && !field_skipped(
            #[trigger] input.struct_fields()[i],
        ) ==> exists|p: int| occurs_at(expansion_text(e), expected_helper_code(input, i), p),
        forall|i: int, j: int|
            0 <= i < j < input.struct_fields().len() && !field_skipped(
                #[trigger] input.struct_fields()[i],
            ) && !field_skipped(#[trigger] input.struct_fields()[j]) ==> exists|p: int, q: int|
                occurs_at(expansion_text(e), expected_helper_code(input, i), p) && occurs_at(
                    expansion_text(e),
                    expected_helper_code(input, j),
                    q,
                ) && p + expected_helper_code(input, i).len() <= q,
{
    let fields = input.struct_fields();
    let ks = kept_fields(input);
    let hs = e.helpers@;
    let f = |h: Helper| helper_text(h, e.public);
    lemma_kept(fields, fields.len() as int);
    assert forall|i: int| 0 <= i < fields.len() && !field_skipped(#[trigger] fields[i])
        implies exists|p: int| occurs_at(expansion_text(e), expected_helper_code(input, i), p) by {
        let k = choose|k: int| 0 <= k < ks.len() && ks[k] == i;
        lemma_helper_in_text(input, e, k, f);
    }
    assert forall|i: int, j: int|
        0 <= i < j < fields.len() && !field_skipped(#[trigger] fields[i]) && !field_skipped(
            #[trigger] fields[j],
        ) implies exists|p: int, q: int|
        occurs_at(expansion_text(e), expected_helper_code(input, i), p) && occurs_at(
            expansion_text(e),
            expected_helper_code(input, j),
            q,
        ) && p + expected_helper_code(input, i).len() <= q by {
        let a = choose|k: int| 0 <= k < ks.len() && ks[k] == i;
        let b = choose|k: int| 0 <= k < ks.len() && ks[k] == j;
        if b <= a {
            if b < a {
                assert(ks[b] < ks[a]);
            }
        }
        assert(a < b);
        lemma_helper_in_text(input, e, a, f);
        lemma_helper_in_text(input, e, b, f);
        lemma_concat_map_ordered(hs, f, a, b);
        assert(f(hs[a]) == expected_helper_code(input, i)) by {
            assert(helper_for(input, i, hs[a]));
        }
        let p = helpers_offset(e) + concat_map(hs.take(a), f).len();
        let q = helpers_offset(e) + concat_map(hs.take(b), f).len();
        assert(occurs_at(expansion_text(e), expected_helper_code(input, i), p));
        assert(occurs_at(expansion_text(e), expected_helper_code(input, j), q));
    }
}

/// The start of an impl block for `input`: `impl`, the type's generics as
/// an impl declares them (bounds included), a space, the trait path (empty
/// for an inherent impl), then the type's name with its generic arguments
/// and a space.
pub open spec fn expected_impl_start(input: TypeDef, trait_path: Seq<char>) -> Seq<char> {
    "impl"@ + input.generics.impl_generics@ + " "@ + trait_path + input.ident@
        + input.generics.ty_generics@ + " "@
}

/// The generated source opens with the inherent impl for the type, which
/// carries the type's generics with their bounds and its own `where`
/// clause; where a `Serialize` impl is generated, its header carries the
/// same generics.
pub proof fn law_impl_heads_carry_generics(input: TypeDef, e: Expansion)
    requires
        expansion_of(input, e),
    ensures
        occurs_at(
            expansion_text(e),
            expected_impl_start(input, Seq::empty()) + where_text(
                views(input.generics.where_predicates@),
            ) + "{\n"@,
            0,
        ),
        container_marked(input, serde_flag()) && (input.data is Named || input.data is Unnamed
            || input.data is Unit) ==> exists|p: int|
            occurs_at(expansion_text(e), expected_impl_start(input, "::serde::Serialize for "@), p),
{
    reveal(occurs_at);
    assert(views(e.generics.where_predicates@) =~= views(input.generics.where_predicates@));
    let h = impl_head(e, Seq::empty(), views(e.generics.where_predicates@));
    let piece = expected_impl_start(input, Seq::empty()) + where_text(
        views(input.generics.where_predicates@),
    ) + "{\n"@;
    assert(h =~= piece);
    assert(h.subrange(0, h.len() as int) =~= h);
    let a = h + crate::render::is_default_text(e);
    lemma_occurs_left(h, crate::render::is_default_text(e), piece, 0);
    lemma_occurs_left(a, helpers_text(e.helpers@, e.public), piece, 0);
    lemma_occurs_left(a + helpers_text(e.helpers@, e.public), "}\n"@, piece, 0);
    lemma_occurs_left(inherent_text(e), serialize_text(e), piece, 0);
    if container_marked(input, serde_flag()) && (input.data is Named || input.data is Unnamed
        || input.data is Unit) {
        assert(e.serialize is Some);
        let s = e.serialize.unwrap();
        let tp = "::serde::Serialize for "@;
        let start = expected_impl_start(input, tp);
        let preds = serialize_preds(e, serialized_types(s));
        let sh = impl_head(e, tp, preds);
        assert(sh =~= start + (where_text(preds) + "{\n"@));
        assert(sh.subrange(0, start.len() as int) =~= start);
        lemma_occurs_left(sh, serialize_fn_head(), start, 0);
        lemma_occurs_left(sh + serialize_fn_head(), serialize_body(e, s), start, 0);
        lemma_occurs_left(
            sh + serialize_fn_head() + serialize_body(e, s),
            "    }\n}\n"@,
            start,
            0,
        );
        assert(serialize_text(e) == sh + serialize_fn_head() + serialize_body(e, s) + "    }\n}\n"@);
        lemma_occurs_right(inherent_text(e), serialize_text(e), start, 0);
        assert(occurs_at(expansion_text(e), start, inherent_text(e).len() as int));
    }
}

/// The line of the generated `serialize` that writes field `i` of
/// `input`. A field with a helper is written under its name (without `r#`)
/// only when the helper says it differs from the default, and skipped
/// otherwise; a field marked `skip` is always written; a tuple field is
/// always written, by index.
pub open spec fn expected_field_write(input: TypeDef, i: int) -> Seq<char> {
    if input.is_named() {
        let write = "::serde::ser::SerializeStruct::serialize_field(&mut __state, \""@ + label_of(
            input,
            i,
        ) + "\", &self."@ + member_of(input, i) + ")?;"@;
        if field_skipped(input.struct_fields()[i]) {
            "        "@ + write + "\n"@
        } else {
            "        if "@ + ("!Self::"@ + helper_name(input, i) + "(&self."@ + member_of(input, i)
                + ")"@) + " { "@ + write + " } else { ::serde::ser::SerializeStruct::skip_field(&mut __state, \""@
                + label_of(input, i) + "\")?; }\n"@
        }
    } else {
        "        ::serde::ser::SerializeTupleStruct::serialize_field(&mut __state, &self."@
            + member_of(input, i) + ")?;\n"@
    }
}

/// The line that writes tuple field `i`.
spec fn tuple_line(i: int) -> Seq<char> {
    "        ::serde::ser::SerializeTupleStruct::serialize_field(&mut __state, &self."@ + decimal(
        i as nat,
    ) + ")?;\n"@
}

/// The `Serialize` impl up to the body of `serialize`.
spec fn serialize_head(e: Expansion, s: SerializeImpl) -> Seq<char> {
    impl_head(e, "::serde::Serialize for "@, serialize_preds(e, serialized_types(s)))
        + serialize_fn_head()
}

/// The body of `serialize` up to the lines that write the fields.
spec fn body_lead(e: Expansion, s: SerializeImpl) -> Seq<char> {
    match s {
        SerializeImpl::Struct(sfs) => "        let mut __len: usize = 0;\n"@ + count_lines(
            sfs@,
        ) + "        let mut __state = ::serde::Serializer::serialize_struct(__serializer, \""@
            + unraw(e.type_ident@) + "\", __len)?;\n"@,
        SerializeImpl::Tuple(tys) =>
            "        let mut __state = ::serde::Serializer::serialize_tuple_struct(__serializer, \""@
            + unraw(e.type_ident@) + "\", "@ + decimal(tys@.len()) + ")?;\n"@,
        SerializeImpl::UnitStruct => Seq::empty(),
    }
}

/// The lines that write the fields.
spec fn write_lines(s: SerializeImpl) -> Seq<char> {
    match s {
        SerializeImpl::Struct(sfs) => field_lines(sfs@),
        SerializeImpl::Tuple(tys) => tuple_lines(tys@.len()),
        SerializeImpl::UnitStruct => Seq::empty(),
    }
}

/// Where the lines that write the fields start in the generated source.
spec fn write_lines_offset(e: Expansion, s: SerializeImpl) -> int {
    (inherent_text(e) + serialize_head(e, s) + body_lead(e, s)).len() as int
}

proof fn lemma_in_write_lines(e: Expansion, s: SerializeImpl, piece: Seq<char>, q: int)
    requires
        e.serialize == Some(s),
        !(s is UnitStruct),
        occurs_at(write_lines(s), piece, q),
    ensures
        occurs_at(expansion_text(e), piece, write_lines_offset(e, s) + q),
{
    let lead = body_lead(e, s);
    let w = write_lines(s);
    let body = serialize_body(e, s);
    let tail = body.subrange((lead + w).len() as int, body.len() as int);
    assert(body =~= lead + w + tail);
    lemma_occurs_right(lead, w, piece, q);
    lemma_occurs_left(lead + w, tail, piece, lead.len() + q);
    let head = serialize_head(e, s);
    lemma_occurs_right(head, body, piece, lead.len() + q);
    lemma_occurs_left(head + body, "    }\n}\n"@, piece, head.len() + lead.len() + q);
    lemma_occurs_right(inherent_text(e), serialize_text(e), piece, head.len() + lead.len() + q);
}

proof fn lemma_field_lines_concat(fs: Seq<SerField>, f: spec_fn(SerField) -> Seq<char>)
    requires
        forall|x: SerField| #[trigger] f(x) == field_line(x),
    ensures
        field_lines(fs) == concat_map(fs, f),
    decreases fs.len(),
{
    if fs.len() > 0 {
        lemma_field_lines_concat(fs.drop_last(), f);
    }
}

proof fn lemma_tuple_lines_concat(n: nat, f: spec_fn(int) -> Seq<char>)
    requires
        forall|i: int| #[trigger] f(i) == tuple_line(i),
    ensures
        tuple_lines(n) == concat_map(Seq::new(n, |i: int| i), f),
    decreases n,
{
    if n > 0 {
        lemma_tuple_lines_concat((n - 1) as nat, f);
        assert(Seq::new(n, |i: int| i).drop_last() =~= Seq::new((n - 1) as nat, |i: int| i));
    }
}

proof fn lemma_field_line_expected(input: TypeDef, i: int, sf: SerField)
    requires
        input.wf(),
        input.data is Named,
        0 <= i < input.struct_fields().len(),
        ser_field_for(input, i, sf),
    ensures
        field_line(sf) == expected_field_write(input, i),
{
    let write = "::serde::ser::SerializeStruct::serialize_field(&mut __state, \""@ + label_of(input, i)
        + "\", &self."@ + member_of(input, i) + ")?;"@;
    assert(crate::render::write_field_text(sf) == write);
    match sf.helper {
        Some(h) => {
            assert(!field_skipped(input.struct_fields()[i]));
            assert(field_line(sf) =~= expected_field_write(input, i));
        },
        None => {
            assert(field_skipped(input.struct_fields()[i]));
            assert(field_line(sf) =~= expected_field_write(input, i));
        },
    }
}

/// Where the line for field `k` stands in the generated source.
spec fn field_write_at(e: Expansion, k: int) -> int {
    let s = e.serialize.unwrap();
    write_lines_offset(e, s) + match s {
        SerializeImpl::Struct(sfs) => concat_map(sfs@.take(k), |x: SerField| field_line(x)).len()
            as int,
        _ => concat_map(Seq::new(field_count(s), |i: int| i).take(k), |i: int| tuple_line(i)).len()
            as int,
    }
}

/// The number of fields that a tuple `Serialize` impl writes.
spec fn field_count(s: SerializeImpl) -> nat {
    match s {
        SerializeImpl::Tuple(tys) => tys@.len(),
        _ => 0,
    }
}

proof fn lemma_field_write_at(input: TypeDef, e: Expansion)
    requires
        input.wf(),
        expansion_of(input, e),
        container_marked(input, serde_flag()),
        input.data is Named || input.data is Unnamed,
    ensures
        forall|k: int| 0 <= k < input.struct_fields().len() ==> occurs_at(
            expansion_text(e),
            #[trigger] expected_field_write(input, k),
            field_write_at(e, k),
        ),
        forall|i: int, j: int|
            0 <= i < j < input.struct_fields().len() ==> #[trigger] field_write_at(e, i)
                + expected_field_write(input, i).len() <= #[trigger] field_write_at(e, j),
{
    let s = e.serialize.unwrap();
    match s {
        SerializeImpl::Struct(sfs) => {
            let f = |x: SerField| field_line(x);
            lemma_field_lines_concat(sfs@, f);
            assert forall|k: int| 0 <= k < input.struct_fields().len() implies occurs_at(
                expansion_text(e),
                #[trigger] expected_field_write(input, k),
                field_write_at(e, k),
            ) by {
                assert(ser_field_for(input, k, sfs@[k]));
                lemma_field_line_expected(input, k, sfs@[k]);
                lemma_concat_map_occurs(sfs@, f, k);
                lemma_in_write_lines(e, s, f(sfs@[k]), concat_map(sfs@.take(k), f).len() as int);
            }
            assert forall|i: int, j: int| 0 <= i < j < input.struct_fields().len() implies #[trigger] field_write_at(e, i)
                + expected_field_write(input, i).len() <= #[trigger] field_write_at(e, j) by {
                assert(ser_field_for(input, i, sfs@[i]));
                lemma_field_line_expected(input, i, sfs@[i]);
                lemma_concat_map_ordered(sfs@, f, i, j);
            }
        },
        SerializeImpl::Tuple(tys) => {
            let n = tys@.len();
            let ix = Seq::new(n, |i: int| i);
            let f = |i: int| tuple_line(i);
            lemma_tuple_lines_concat(n, f);
            assert forall|k: int| 0 <= k < input.struct_fields().len() implies occurs_at(
                expansion_text(e),
                #[trigger] expected_field_write(input, k),
                field_write_at(e, k),
            ) by {
                assert(f(ix[k]) =~= expected_field_write(input, k));
                lemma_concat_map_occurs(ix, f, k);
                lemma_in_write_lines(e, s, f(ix[k]), concat_map(ix.take(k), f).len() as int);
            }
            assert forall|i: int, j: int| 0 <= i < j < input.struct_fields().len() implies #[trigger] field_write_at(e, i)
                + expected_field_write(input, i).len() <= #[trigger] field_write_at(e, j) by {
                assert(f(ix[i]) =~= expected_field_write(input, i));
                lemma_concat_map_ordered(ix, f, i, j);
            }
        },
        SerializeImpl::UnitStruct => {},
    }
}

/// The line that writes field `i` stands somewhere in the generated source.
pub open spec fn field_write_present(input: TypeDef, e: Expansion, i: int) -> bool {
    exists|p: int| occurs_at(expansion_text(e), expected_field_write(input, i), p)
}

/// The lines that write fields `i` and `j` stand in the generated source,
/// the first wholly before the second.
pub open spec fn field_writes_in_order(input: TypeDef, e: Expansion, i: int, j: int) -> bool {
    exists|p: int, q: int|
        occurs_at(expansion_text(e), expected_field_write(input, i), p) && occurs_at(
            expansion_text(e),
            expected_field_write(input, j),
            q,
        ) && p + expected_field_write(input, i).len() <= q
}

/// With `#[smart_is_default(serde)]` on a struct with named or tuple
/// fields, the generated `serialize` has a line for every field, in
/// declared order, whatever the other flags say: a field with a helper is
/// written when the helper says it differs from the default, a field marked
/// `skip` always, and a tuple field always.
pub proof fn law_serialize_writes_every_field(input: TypeDef, e: Expansion)
    requires
        input.wf(),
        expansion_of(input, e),
        container_marked(input, serde_flag()),
        input.data is Named || input.data is Unnamed,
    ensures
        forall|i: int| 0 <= i < input.struct_fields().len() ==> #[trigger] field_write_present(input, e, i),
        forall|i: int, j: int|
            0 <= i < j < input.struct_fields().len() ==> #[trigger] field_writes_in_order(input, e, i, j),
{
    lemma_field_write_at(input, e);
    assert forall|i: int| 0 <= i < input.struct_fields().len() implies #[trigger] field_write_present(
        input,
        e,
        i,
    ) by {
        assert(occurs_at(expansion_text(e), expected_field_write(input, i), field_write_at(e, i)));
    }
    assert forall|i: int, j: int| 0 <= i < j < input.struct_fields().len() implies #[trigger] field_writes_in_order(
        input,
        e,
        i,
        j,
    ) by {
        assert(occurs_at(expansion_text(e), expected_field_write(input, i), field_write_at(e, i)));
        assert(occurs_at(expansion_text(e), expected_field_write(input, j), field_write_at(e, j)));
        assert(field_write_at(e, i) + expected_field_write(input, i).len() <= field_write_at(e, j));
    }
}

proof fn lemma_concat_map_pointwise<A, B>(
    s: Seq<A>,
    f: spec_fn(A) -> Seq<char>,
    t: Seq<B>,
    g: spec_fn(B) -> Seq<char>,
)
    requires
        s.len() == t.len(),
        forall|k: int| 0 <= k < s.len() ==> #[trigger] f(s[k]) == g(t[k]),
    ensures
        concat_map(s, f) == concat_map(t, g),
    decreases s.len(),
{
    if s.len() > 0 {
        let s1 = s.drop_last();
        let t1 = t.drop_last();
        assert forall|k: int| 0 <= k < s1.len() implies #[trigger] f(s1[k]) == g(t1[k]) by {
            assert(s1[k] == s[k]);
            assert(f(s[k]) == g(t[k]));
        }
        lemma_concat_map_pointwise(s1, f, t1, g);
        assert(f(s.last()) == g(t.last())) by {
            assert(f(s[s.len() - 1]) == g(t[t.len() - 1]));
        }
    }
}

/// The generated `is_default`: documented, private, and comparing the
/// whole value with `Self::default()`.
pub open spec fn expected_is_default_code() -> Seq<char> {
    is_default_doc()
        + "fn is_default(&self) -> bool where Self: PartialEq {\n        self == &Self::default()\n    }\n"@
}

/// The inherent impl generated for `input`: its header with the type's
/// generics and `where` clause; `is_default` unless the container says
/// `no_is_default` or `skip`; then the helper of every field not marked
/// `skip`, in declared order, whatever the other flags say.
pub open spec fn expected_inherent_impl(input: TypeDef) -> Seq<char> {
    expected_impl_start(input, Seq::empty()) + where_text(views(input.generics.where_predicates@))
        + "{\n"@ + (if container_marked(input, no_is_default_flag()) || container_marked(
        input,
        skip_flag(),
    ) {
        Seq::empty()
    } else {
        expected_is_default_code()
    }) + concat_map(kept_fields(input), |i: int| expected_helper_code(input, i)) + "}\n"@
}

proof fn lemma_inherent_text(input: TypeDef, e: Expansion)
    requires
        input.wf(),
        expansion_of(input, e),
    ensures
        inherent_text(e) == expected_inherent_impl(input),
{
    assert(views(e.generics.where_predicates@) =~= views(input.generics.where_predicates@));
    let ks = kept_fields(input);
    let hs = e.helpers@;
    let f = |h: Helper| helper_text(h, e.public);
    let g = |i: int| expected_helper_code(input, i);
    lemma_kept(input.struct_fields(), input.struct_fields().len() as int);
    lemma_helpers_concat(hs, e.public, f);
    assert forall|k: int| 0 <= k < hs.len() implies #[trigger] f(hs[k]) == g(ks[k]) by {
        assert(helper_for(input, ks[k], hs[k]));
    }
    lemma_concat_map_pointwise(hs, f, ks, g);
    assert(is_default_text(e) == (if container_marked(input, no_is_default_flag())
        || container_marked(input, skip_flag()) {
        Seq::empty()
    } else {
        expected_is_default_code()
    }));
    assert(inherent_text(e) == expected_inherent_impl(input));
}

/// The generated source opens with the inherent impl that the type
/// definition calls for, and holds nothing more unless the container says
/// `serde`.
pub proof fn law_inherent_impl_is_written(input: TypeDef, e: Expansion)
    requires
        input.wf(),
        expansion_of(input, e),
    ensures
        occurs_at(expansion_text(e), expected_inherent_impl(input), 0),
        !container_marked(input, serde_flag()) ==> expansion_text(e) == expected_inherent_impl(input),
{
    reveal(occurs_at);
    lemma_inherent_text(input, e);
    let t = expansion_text(e);
    assert(t.subrange(0, inherent_text(e).len() as int) =~= inherent_text(e));
    if !container_marked(input, serde_flag()) {
        assert(serialize_text(e) == Seq::<char>::empty());
        assert(t =~= inherent_text(e));
    }
}

proof fn lemma_count_lines_concat(fs: Seq<SerField>, f: spec_fn(SerField) -> Seq<char>)
    requires
        forall|x: SerField| #[trigger] f(x) == count_line(x),
    ensures
        count_lines(fs) == concat_map(fs, f),
    decreases fs.len(),
{
    if fs.len() > 0 {
        lemma_count_lines_concat(fs.drop_last(), f);
    }
}

/// The line of the generated `serialize` that counts field `i` of a struct
/// with named fields: only when its helper says it differs from the
/// default, or always for a field marked `skip`.
pub open spec fn expected_count_line(input: TypeDef, i: int) -> Seq<char> {
    if field_skipped(input.struct_fields()[i]) {
        "        __len += 1;\n"@
    } else {
        "        if "@ + ("!Self::"@ + helper_name(input, i) + "(&self."@ + member_of(input, i)
            + ")"@) + " { __len += 1; }\n"@
    }
}

proof fn lemma_count_line_expected(input: TypeDef, i: int, sf: SerField)
    requires
        input.wf(),
        input.data is Named,
        0 <= i < input.struct_fields().len(),
        ser_field_for(input, i, sf),
    ensures
        count_line(sf) == expected_count_line(input, i),
{
    match sf.helper {
        Some(h) => {
            assert(!field_skipped(input.struct_fields()[i]));
        },
        None => {
            assert(field_skipped(input.struct_fields()[i]));
        },
    }
}

/// The body of the generated `serialize` for `input`. A struct with named
/// fields counts the fields it will write, opens a struct under the type's
/// name (without `r#`), writes its fields in order and closes it; a tuple
/// struct writes all its fields in order; a unit struct is written as
/// such.
pub open spec fn expected_serialize_body(input: TypeDef) -> Seq<char> {
    let key = unraw(input.ident@);
    let n = input.struct_fields().len();
    let writes = concat_map(all_indices(n), |i: int| expected_field_write(input, i));
    match input.data {
        crate::model::Body::Named(_) => "        let mut __len: usize = 0;\n"@ + concat_map(
            all_indices(n),
            |i: int| expected_count_line(input, i),
        ) + "        let mut __state = ::serde::Serializer::serialize_struct(__serializer, \""@ + key
            + "\", __len)?;\n"@ + writes + "        ::serde::ser::SerializeStruct::end(__state)\n"@,
        crate::model::Body::Unnamed(_) =>
            "        let mut __state = ::serde::Serializer::serialize_tuple_struct(__serializer, \""@
            + key + "\", "@ + decimal(n) + ")?;\n"@ + writes
            + "        ::serde::ser::SerializeTupleStruct::end(__state)\n"@,
        _ => "        ::serde::Serializer::serialize_unit_struct(__serializer, \""@ + key + "\")\n"@,
    }
}

/// The `Serialize` impl generated for `input`: nothing unless the container
/// says `serde` and the type is a struct. Its header carries the type's
/// generics, and its `where` clause the type's own predicates followed by
/// `<field type>: ::serde::Serialize` for every field in order.
pub open spec fn expected_serialize_impl(input: TypeDef) -> Seq<char> {
    if container_marked(input, serde_flag()) && (input.data is Named || input.data is Unnamed
        || input.data is Unit) {
        let tys = input.struct_fields().map_values(|f: FieldDef| f.ty@);
        let preds = views(input.generics.where_predicates@) + tys.map_values(
            |t: Seq<char>| serialize_bound(t),
        );
        expected_impl_start(input, "::serde::Serialize for "@) + where_text(preds) + "{\n"@
            + serialize_fn_head() + expected_serialize_body(input) + "    }\n}\n"@
    } else {
        Seq::empty()
    }
}

/// Everything the derive generates is the inherent impl that the type
/// definition calls for, followed by the `Serialize` impl that it calls
/// for (nothing unless the container says `serde`).
pub proof fn law_generated_source(input: TypeDef, e: Expansion)
    requires
        input.wf(),
        expansion_of(input, e),
    ensures
        expansion_text(e) == expected_inherent_impl(input) + expected_serialize_impl(input),
{
    lemma_inherent_text(input, e);
    if container_marked(input, serde_flag()) && (input.data is Named || input.data is Unnamed
        || input.data is Unit) {
        let s = e.serialize.unwrap();
        let n = input.struct_fields().len();
        let ix = all_indices(n);
        let tys = input.struct_fields().map_values(|f: FieldDef| f.ty@);
        assert(serialized_types(s) =~= tys);
        assert(views(e.generics.where_predicates@) =~= views(input.generics.where_predicates@));
        let preds = views(input.generics.where_predicates@) + tys.map_values(
            |t: Seq<char>| serialize_bound(t),
        );
        assert(serialize_preds(e, serialized_types(s)) == preds);
        let g = |i: int| expected_field_write(input, i);
        match s {
            SerializeImpl::Struct(sfs) => {
                let f = |x: SerField| field_line(x);
                let fc = |x: SerField| count_line(x);
                let gc = |i: int| expected_count_line(input, i);
                lemma_field_lines_concat(sfs@, f);
                lemma_count_lines_concat(sfs@, fc);
                assert forall|k: int| 0 <= k < sfs@.len() implies #[trigger] f(sfs@[k]) == g(ix[k]) by {
                    assert(ser_field_for(input, k, sfs@[k]));
                    lemma_field_line_expected(input, k, sfs@[k]);
                }
                assert forall|k: int| 0 <= k < sfs@.len() implies #[trigger] fc(sfs@[k]) == gc(ix[k]) by {
                    assert(ser_field_for(input, k, sfs@[k]));
                    lemma_count_line_expected(input, k, sfs@[k]);
                }
                lemma_concat_map_pointwise(sfs@, f, ix, g);
                lemma_concat_map_pointwise(sfs@, fc, ix, gc);
                assert(serialize_body(e, s) == expected_serialize_body(input));
            },
            SerializeImpl::Tuple(tys2) => {
                let m = tys2@.len();
                let jx = Seq::new(m, |i: int| i);
                let f = |i: int| tuple_line(i);
                lemma_tuple_lines_concat(m, f);
                assert forall|k: int| 0 <= k < jx.len() implies #[trigger] f(jx[k]) == g(ix[k]) by {
                    assert(f(jx[k]) =~= g(ix[k]));
                }
                lemma_concat_map_pointwise(jx, f, ix, g);
                assert(serialize_body(e, s) == expected_serialize_body(input));
            },
            SerializeImpl::UnitStruct => {
                assert(serialize_body(e, s) == expected_serialize_body(input));
            },
        }
        assert(serialize_text(e) == expected_serialize_impl(input));
    } else {
        assert(serialize_text(e) == Seq::<char>::empty());
    }
}

/// What the derive returns for a source text is the inherent impl followed
/// by the `Serialize` impl that the definition read from that text calls
/// for.
pub proof fn law_derived_source(src: Seq<char>, out: Seq<char>)
    requires
        derives(src, out),
    ensures
        exists|m: TypeDef|
            reads(src, m) && m.wf() && out == expected_inherent_impl(m) + expected_serialize_impl(m),
{
    let m = choose|m: TypeDef| reads(src, m) && m.wf() && #[trigger] derived_text(m, out);
    let e = choose|e: Expansion| expansion_of(m, e) && out == expansion_text(e);
    law_generated_source(m, e);
}

} // verus!
