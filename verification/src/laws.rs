//! Properties of the derive as a whole, proved over the contracts of
//! [`crate::expand`] and [`crate::eval`].

use vstd::prelude::*;
use crate::model::{opt_view, opt_views, Attr, FieldDef, TypeDef};
use crate::naming::{decimal, digit, helper_prefix, unraw};
use crate::flags::{attr_marks, attrs_mark, container_marked, names, own_attr};
use crate::expand::{
    expansion_of, field_skipped, helper_for, helper_name, kept, kept_fields, label_of, member_of,
    no_is_default_flag, no_pub_flag, same_generics, ser_field_for, serde_flag, skip_flag, Expansion,
    Helper, SerField, SerializeImpl,
};
use crate::eval::{
    all_indices, first_named, helper_result, is_default_result, record_fields,
    written, written_fields,
};
use crate::value::{field_of, ValueView};
use crate::source::{attr_read, attrs_read, field_read, reads};
use crate::render::{
    count_line, count_lines, expansion_text, field_line, field_lines, helper_text, helpers_text,
    serialized_types, views,
};

verus! {

/// The field names of a struct with named fields differ once their `r#` is
/// dropped, as Rust requires of a type definition.
pub open spec fn distinct_field_names(input: TypeDef) -> bool {
    input.data is Named ==> forall|i: int, j: int|
        0 <= i < j < input.struct_fields().len() ==> unraw(
            (#[trigger] input.struct_fields()[i]).ident.unwrap()@,
        ) != unraw((#[trigger] input.struct_fields()[j]).ident.unwrap()@)
}

pub(crate) proof fn lemma_kept(fields: Seq<FieldDef>, n: int)
    requires
        0 <= n <= fields.len(),
    ensures
        forall|k: int| 0 <= k < kept(fields, n).len() ==> 0 <= #[trigger] kept(fields, n)[k] < n
            && !field_skipped(fields[kept(fields, n)[k]]),
        forall|a: int, b: int| 0 <= a < b < kept(fields, n).len()
            ==> #[trigger] kept(fields, n)[a] < #[trigger] kept(fields, n)[b],
        forall|i: int| 0 <= i < n && !field_skipped(#[trigger] fields[i])
            ==> exists|k: int| 0 <= k < kept(fields, n).len() && kept(fields, n)[k] == i,
    decreases n,
{
    if n > 0 {
        lemma_kept(fields, n - 1);
        let prev = kept(fields, n - 1);
        if !field_skipped(fields[n - 1]) {
            let cur = kept(fields, n);
            assert(cur == prev.push(n - 1));
            assert forall|i: int| 0 <= i < n && !field_skipped(#[trigger] fields[i])
                implies exists|k: int| 0 <= k < cur.len() && cur[k] == i by {
                if i == n - 1 {
                    assert(cur[cur.len() - 1] == i);
                } else {
                    let k = choose|k: int| 0 <= k < prev.len() && prev[k] == i;
                    assert(cur[k] == i);
                }
            }
        } else {
            assert(kept(fields, n) == prev);
        }
    }
}

/// A helper is generated for field `i` exactly when the field is not marked
/// `#[smart_is_default(skip)]`, and the helpers follow the declared order
/// of their fields.
pub proof fn law_helper_iff_not_skipped(input: TypeDef, e: Expansion)
    requires
        input.wf(),
        expansion_of(input, e),
    ensures
        forall|i: int| 0 <= i < input.struct_fields().len() ==> ((exists|k: int|
            0 <= k < e.helpers@.len() && (#[trigger] e.helpers@[k]).index == i) <==> !field_skipped(
            #[trigger] input.struct_fields()[i],
        )),
        forall|a: int, b: int| 0 <= a < b < e.helpers@.len()
            ==> (#[trigger] e.helpers@[a]).index < (#[trigger] e.helpers@[b]).index,
{
    let fields = input.struct_fields();
    lemma_kept(fields, fields.len() as int);
    let ks = kept_fields(input);
    assert forall|i: int| 0 <= i < fields.len() implies ((exists|k: int|
        0 <= k < e.helpers@.len() && (#[trigger] e.helpers@[k]).index == i) <==> !field_skipped(
        #[trigger] fields[i],
    )) by {
        if !field_skipped(fields[i]) {
            let k = choose|k: int| 0 <= k < ks.len() && ks[k] == i;
            assert(e.helpers@[k].index == i);
        }
        if exists|k: int| 0 <= k < e.helpers@.len() && (#[trigger] e.helpers@[k]).index == i {
            let k = choose|k: int| 0 <= k < e.helpers@.len() && (#[trigger] e.helpers@[k]).index == i;
            assert(ks[k] == i);
        }
    }
}

/// Unit structs, enums and unions get no per-field helpers, only
/// `is_default`.
pub proof fn law_no_helpers_without_struct_fields(input: TypeDef, e: Expansion)
    requires
        input.wf(),
        expansion_of(input, e),
        !(input.data is Named || input.data is Unnamed),
    ensures
        e.helpers@.len() == 0,
{
}

proof fn lemma_decimal_len(n: nat)
    ensures
        decimal(n).len() >= 1,
        n >= 10 ==> decimal(n).len() >= 2,
    decreases n,
{
    if n >= 10 {
        lemma_decimal_len(n / 10);
    }
}

/// Different numbers are written differently.
proof fn lemma_decimal_injective(a: nat, b: nat)
    requires
        decimal(a) == decimal(b),
    ensures
        a == b,
    decreases a,
{
    lemma_decimal_len(a);
    lemma_decimal_len(b);
    if a < 10 && b < 10 {
        assert(decimal(a)[0] == digit(a));
        assert(decimal(b)[0] == digit(b));
    } else if a >= 10 && b >= 10 {
        let da = decimal(a);
        assert(da.drop_last() =~= decimal(a / 10));
        assert(decimal(b).drop_last() =~= decimal(b / 10));
        assert(da.last() == digit(a % 10));
        assert(decimal(b).last() == digit(b % 10));
        lemma_decimal_injective(a / 10, b / 10);
    } else {
        assert(decimal(a).len() != decimal(b).len());
    }
}

proof fn lemma_labels_distinct(input: TypeDef, i: int, j: int)
    requires
        input.wf(),
        distinct_field_names(input),
        0 <= i < input.struct_fields().len(),
        0 <= j < input.struct_fields().len(),
        i != j,
    ensures
        helper_name(input, i) != helper_name(input, j),
{
    let p = helper_prefix();
    if helper_name(input, i) == helper_name(input, j) {
        let a = helper_name(input, i);
        assert(a.subrange(p.len() as int, a.len() as int) =~= label_of(input, i));
        assert(helper_name(input, j).subrange(p.len() as int, a.len() as int) =~= label_of(input, j));
        if input.is_named() {
            if i < j {
                assert(unraw(input.struct_fields()[i].ident.unwrap()@) != unraw(
                    input.struct_fields()[j].ident.unwrap()@,
                ));
            } else {
                assert(unraw(input.struct_fields()[j].ident.unwrap()@) != unraw(
                    input.struct_fields()[i].ident.unwrap()@,
                ));
            }
        } else {
            lemma_decimal_injective(i as nat, j as nat);
        }
    }
}

/// Each generated helper `is_default__<field>` returns, for any `v`, whether
/// `v` equals that field of `Self::default()`.
pub proof fn law_helper_compares_with_default_field(
    input: TypeDef,
    e: Expansion,
    k: int,
    d: ValueView,
    v: ValueView,
)
    requires
        input.wf(),
        distinct_field_names(input),
        expansion_of(input, e),
        0 <= k < e.helpers@.len(),
    ensures
        helper_result(e, e.helpers@[k].fn_name@, d, v) == match field_of(
            d,
            e.helpers@[k].index as int,
        ) {
            Some(f) => Some(v == f),
            None => None,
        },
{
    let fields = input.struct_fields();
    lemma_kept(fields, fields.len() as int);
    let ks = kept_fields(input);
    let name = e.helpers@[k].fn_name@;
    assert forall|j: int| 0 <= j < k implies (#[trigger] e.helpers@[j]).fn_name@ != name by {
        assert(ks[j] < ks[k]);
        lemma_labels_distinct(input, ks[j], ks[k]);
    }
    assert(first_named(e.helpers@, name, k));
    let c = choose|c: int| first_named(e.helpers@, name, c);
    assert(c == k) by {
        if c < k {
            assert(e.helpers@[c].fn_name@ != name);
        }
        if k < c {
            assert(e.helpers@[k].fn_name@ != name);
        }
    }
}

/// `Self::default().is_default()` is `true` wherever `is_default` is
/// generated.
pub proof fn law_default_is_default(e: Expansion, d: ValueView)
    requires
        e.is_default_method,
    ensures
        is_default_result(e, d, d) == Some(true),
{
}

/// Unless the container says `no_is_default` or `skip`, `x.is_default()`
/// compares the whole value with `Self::default()`: it is `true` exactly
/// when the two are equal. So a value of another variant, or a record of
/// another name, is never the default, even where the fields agree. With
/// either flag there is no `is_default` to call.
pub proof fn law_is_default_is_whole_equality(input: TypeDef, e: Expansion, d: ValueView, x: ValueView)
    requires
        expansion_of(input, e),
    ensures
        !container_marked(input, no_is_default_flag()) && !container_marked(input, skip_flag())
            ==> is_default_result(e, d, x) == Some(x == d),
        container_marked(input, no_is_default_flag()) || container_marked(input, skip_flag())
            ==> is_default_result(e, d, x) is None,
        forall|n1: Seq<char>, f1: Seq<ValueView>, n2: Seq<char>, f2: Seq<ValueView>|
            e.is_default_method && n1 != n2 ==> #[trigger] is_default_result(
                e,
                ValueView::Record(n1, f1),
                ValueView::Record(n2, f2),
            ) == Some(false),
{
}

/// A value for which `is_default()` holds passes every helper on its
/// fields.
pub proof fn law_is_default_implies_helpers(
    input: TypeDef,
    e: Expansion,
    k: int,
    d: ValueView,
    x: ValueView,
)
    requires
        input.wf(),
        distinct_field_names(input),
        expansion_of(input, e),
        0 <= k < e.helpers@.len(),
        is_default_result(e, d, x) == Some(true),
        field_of(d, e.helpers@[k].index as int) is Some,
    ensures
        helper_result(
            e,
            e.helpers@[k].fn_name@,
            d,
            field_of(x, e.helpers@[k].index as int).unwrap(),
        ) == Some(true),
{
    law_helper_compares_with_default_field(
        input,
        e,
        k,
        d,
        field_of(x, e.helpers@[k].index as int).unwrap(),
    );
}

/// When no field is marked `skip`, a struct value of the same struct as
/// `Self::default()` whose every field passes its helper is the default
/// value: `is_default()` holds.
pub proof fn law_helpers_imply_is_default(
    input: TypeDef,
    e: Expansion,
    d: ValueView,
    x: ValueView,
    name: Seq<char>,
    dfs: Seq<ValueView>,
    xfs: Seq<ValueView>,
)
    requires
        input.wf(),
        distinct_field_names(input),
        expansion_of(input, e),
        e.is_default_method,
        forall|i: int| 0 <= i < input.struct_fields().len() ==> !field_skipped(
            #[trigger] input.struct_fields()[i],
        ),
        d == ValueView::Record(name, dfs),
        x == ValueView::Record(name, xfs),
        dfs.len() == input.struct_fields().len(),
        xfs.len() == input.struct_fields().len(),
        forall|k: int| 0 <= k < e.helpers@.len() ==> helper_result(
            e,
            (#[trigger] e.helpers@[k]).fn_name@,
            d,
            xfs[e.helpers@[k].index as int],
        ) == Some(true),
    ensures
        is_default_result(e, d, x) == Some(true),
{
    law_helper_iff_not_skipped(input, e);
    assert forall|i: int| 0 <= i < xfs.len() implies xfs[i] == dfs[i] by {
        assert(!field_skipped(input.struct_fields()[i]));
        let k = choose|k: int| 0 <= k < e.helpers@.len() && (#[trigger] e.helpers@[k]).index == i;
        law_helper_compares_with_default_field(input, e, k, d, xfs[i]);
    }
    assert(xfs =~= dfs);
}

proof fn lemma_written(sfs: Seq<SerField>, d: Seq<ValueView>, x: Seq<ValueView>, n: int)
    requires
        0 <= n <= sfs.len(),
        n <= d.len(),
        n <= x.len(),
    ensures
        forall|k: int| 0 <= k < written(sfs, d, x, n).len() ==> 0 <= #[trigger] written(
            sfs,
            d,
            x,
            n,
        )[k] < n,
        forall|a: int, b: int| 0 <= a < b < written(sfs, d, x, n).len() ==> #[trigger] written(
            sfs,
            d,
            x,
            n,
        )[a] < #[trigger] written(sfs, d, x, n)[b],
        forall|i: int| 0 <= i < n ==> (written(sfs, d, x, n).contains(i) <==> ((
        #[trigger] sfs[i]).helper is None || x[i] != d[i])),
    decreases n,
{
    if n > 0 {
        lemma_written(sfs, d, x, n - 1);
        let prev = written(sfs, d, x, n - 1);
        let cur = written(sfs, d, x, n);
        assert forall|i: int| 0 <= i < n implies (cur.contains(i) <==> ((#[trigger] sfs[i]).helper is None
            || x[i] != d[i])) by {
            if i < n - 1 {
                if cur.contains(i) {
                    let k = choose|k: int| 0 <= k < cur.len() && cur[k] == i;
                    if cur != prev {
                        assert(cur == prev.push(n - 1));
                        assert(k < prev.len());
                        assert(prev[k] == i);
                    }
                }
                if prev.contains(i) {
                    let k = choose|k: int| 0 <= k < prev.len() && prev[k] == i;
                    if cur != prev {
                        assert(cur == prev.push(n - 1));
                        assert(cur[k] == i);
                    }
                }
            } else {
                if sfs[i].helper is None || x[i] != d[i] {
                    assert(cur == prev.push(n - 1));
                    assert(cur[cur.len() - 1] == i);
                } else {
                    assert(cur == prev);
                }
            }
        }
    }
}

/// With `#[smart_is_default(serde)]`, the `Serialize` impl of a struct with
/// named fields writes, in declared order, exactly the fields that are
/// marked `skip` or differ from `Self::default()`.
pub proof fn law_serialize_writes_changed_fields(
    input: TypeDef,
    e: Expansion,
    d: ValueView,
    x: ValueView,
)
    requires
        input.wf(),
        expansion_of(input, e),
        container_marked(input, serde_flag()),
        input.data is Named,
        record_fields(d) is Some,
        record_fields(x) is Some,
        record_fields(d).unwrap().len() == input.struct_fields().len(),
        record_fields(x).unwrap().len() == input.struct_fields().len(),
    ensures
        written_fields(e, d, x) is Some,
        forall|a: int, b: int| 0 <= a < b < written_fields(e, d, x).unwrap().len()
            ==> #[trigger] written_fields(e, d, x).unwrap()[a] < #[trigger] written_fields(
            e,
            d,
            x,
        ).unwrap()[b],
        forall|i: int| 0 <= i < input.struct_fields().len() ==> (written_fields(
            e,
            d,
            x,
        ).unwrap().contains(i) <==> (field_skipped(#[trigger] input.struct_fields()[i])
            || record_fields(x).unwrap()[i] != record_fields(d).unwrap()[i])),
{
    match e.serialize {
        Some(SerializeImpl::Struct(sfs)) => {
            let df = record_fields(d).unwrap();
            let xf = record_fields(x).unwrap();
            lemma_written(sfs@, df, xf, sfs@.len() as int);
            assert forall|i: int| 0 <= i < input.struct_fields().len() implies (written_fields(
                e,
                d,
                x,
            ).unwrap().contains(i) <==> (field_skipped(#[trigger] input.struct_fields()[i])
                || xf[i] != df[i])) by {
                assert(crate::expand::ser_field_for(input, i, sfs@[i]));
            }
        },
        _ => {},
    }
}

/// With `#[smart_is_default(serde)]` and no field marked `skip`,
/// `Self::default()` is written with no fields at all.
pub proof fn law_default_writes_nothing(input: TypeDef, e: Expansion, d: ValueView)
    requires
        input.wf(),
        expansion_of(input, e),
        container_marked(input, serde_flag()),
        input.data is Named,
        forall|i: int| 0 <= i < input.struct_fields().len() ==> !field_skipped(
            #[trigger] input.struct_fields()[i],
        ),
        record_fields(d) is Some,
        record_fields(d).unwrap().len() == input.struct_fields().len(),
    ensures
        written_fields(e, d, d) == Some(Seq::<int>::empty()),
{
    law_serialize_writes_changed_fields(input, e, d, d);
    let w = written_fields(e, d, d).unwrap();
    if w.len() > 0 {
        let i = w[0];
        assert(w.contains(i));
        lemma_written_in_range(input, e, d, d);
        assert(!field_skipped(input.struct_fields()[i]));
    }
    assert(w =~= Seq::<int>::empty());
}

proof fn lemma_written_in_range(input: TypeDef, e: Expansion, d: ValueView, x: ValueView)
    requires
        input.wf(),
        expansion_of(input, e),
        container_marked(input, serde_flag()),
        input.data is Named,
        written_fields(e, d, x) is Some,
    ensures
        forall|k: int| 0 <= k < written_fields(e, d, x).unwrap().len() ==> 0
            <= #[trigger] written_fields(e, d, x).unwrap()[k] < input.struct_fields().len(),
{
    match e.serialize {
        Some(SerializeImpl::Struct(sfs)) => {
            let df = record_fields(d).unwrap();
            let xf = record_fields(x).unwrap();
            lemma_written(sfs@, df, xf, sfs@.len() as int);
        },
        _ => {},
    }
}

/// With `#[smart_is_default(serde)]`, a tuple struct is written with all its
/// fields, in order, whatever their values.
pub proof fn law_tuple_writes_all_fields(input: TypeDef, e: Expansion, d: ValueView, x: ValueView)
    requires
        input.wf(),
        expansion_of(input, e),
        container_marked(input, serde_flag()),
        input.data is Unnamed,
        record_fields(x) is Some,
        record_fields(x).unwrap().len() == input.struct_fields().len(),
    ensures
        written_fields(e, d, x) == Some(all_indices(input.struct_fields().len())),
{
}

proof fn lemma_helpers_text_eq(a: Seq<Helper>, b: Seq<Helper>, public: bool)
    requires
        a.len() == b.len(),
        forall|k: int| 0 <= k < a.len() ==> helper_text(#[trigger] a[k], public) == helper_text(b[k], public),
    ensures
        helpers_text(a, public) == helpers_text(b, public),
    decreases a.len(),
{
    if a.len() > 0 {
        lemma_helpers_text_eq(a.drop_last(), b.drop_last(), public);
        assert(helper_text(a.last(), public) == helper_text(b.last(), public));
    }
}

proof fn lemma_lines_eq(a: Seq<SerField>, b: Seq<SerField>)
    requires
        a.len() == b.len(),
        forall|k: int| 0 <= k < a.len() ==> count_line(#[trigger] a[k]) == count_line(b[k])
            && field_line(a[k]) == field_line(b[k]),
    ensures
        count_lines(a) == count_lines(b),
        field_lines(a) == field_lines(b),
    decreases a.len(),
{
    if a.len() > 0 {
        lemma_lines_eq(a.drop_last(), b.drop_last());
        assert(count_line(a.last()) == count_line(b.last()));
        assert(field_line(a.last()) == field_line(b.last()));
    }
}

/// Two attributes read the same.
pub open spec fn same_attr(a: Attr, b: Attr) -> bool {
    &&& opt_view(a.path_ident) == opt_view(b.path_ident)
    &&& opt_views(a.nested@) == opt_views(b.nested@)
}

/// Two attribute lists read the same, one for one.
pub open spec fn same_attrs(a: Seq<Attr>, b: Seq<Attr>) -> bool {
    &&& a.len() == b.len()
    &&& forall|j: int| 0 <= j < a.len() ==> same_attr(#[trigger] a[j], b[j])
}

/// Two fields read the same.
pub open spec fn same_field(f: FieldDef, g: FieldDef) -> bool {
    &&& opt_view(f.ident) == opt_view(g.ident)
    &&& f.ty@ == g.ty@
    &&& same_attrs(f.attrs@, g.attrs@)
}

/// Two type definitions read the same: same texts, same shape, same
/// attributes and fields.
pub open spec fn same_def(m1: TypeDef, m2: TypeDef) -> bool {
    &&& m1.ident@ == m2.ident@
    &&& same_generics(m1.generics, m2.generics)
    &&& same_attrs(m1.attrs@, m2.attrs@)
    &&& (m1.data is Named <==> m2.data is Named)
    &&& (m1.data is Unnamed <==> m2.data is Unnamed)
    &&& (m1.data is Unit <==> m2.data is Unit)
    &&& (m1.data is Enum <==> m2.data is Enum)
    &&& (m1.data is Union <==> m2.data is Union)
    &&& m1.struct_fields().len() == m2.struct_fields().len()
    &&& forall|i: int| 0 <= i < m1.struct_fields().len() ==> same_field(
        #[trigger] m1.struct_fields()[i],
        m2.struct_fields()[i],
    )
}

proof fn lemma_names_by_view(o: Option<String>, s: Seq<char>)
    ensures
        names(o, s) == (opt_view(o) == Some(s)),
{
}

proof fn lemma_attr_marks_same(a: Attr, b: Attr, p: Seq<char>, f: Seq<char>)
    requires
        same_attr(a, b),
    ensures
        attr_marks(a, p, f) == attr_marks(b, p, f),
{
    lemma_names_by_view(a.path_ident, p);
    lemma_names_by_view(b.path_ident, p);
    assert(a.nested@.len() == opt_views(a.nested@).len());
    assert(b.nested@.len() == opt_views(b.nested@).len());
    assert forall|j: int| 0 <= j < a.nested@.len() implies names(#[trigger] a.nested@[j], f) == names(
        b.nested@[j],
        f,
    ) by {
        lemma_names_by_view(a.nested@[j], f);
        lemma_names_by_view(b.nested@[j], f);
        assert(opt_views(a.nested@)[j] == opt_view(a.nested@[j]));
        assert(opt_views(b.nested@)[j] == opt_view(b.nested@[j]));
    }
    if attr_marks(a, p, f) {
        let j = choose|j: int| 0 <= j < a.nested@.len() && names(#[trigger] a.nested@[j], f);
        assert(names(b.nested@[j], f));
    }
    if attr_marks(b, p, f) {
        let j = choose|j: int| 0 <= j < b.nested@.len() && names(#[trigger] b.nested@[j], f);
        assert(names(a.nested@[j], f));
    }
}

proof fn lemma_attrs_mark_same(a: Seq<Attr>, b: Seq<Attr>, p: Seq<char>, f: Seq<char>)
    requires
        same_attrs(a, b),
    ensures
        attrs_mark(a, p, f) == attrs_mark(b, p, f),
{
    if attrs_mark(a, p, f) {
        let i = choose|i: int| 0 <= i < a.len() && attr_marks(#[trigger] a[i], p, f);
        lemma_attr_marks_same(a[i], b[i], p, f);
        assert(attr_marks(b[i], p, f));
    }
    if attrs_mark(b, p, f) {
        let i = choose|i: int| 0 <= i < b.len() && attr_marks(#[trigger] b[i], p, f);
        lemma_attr_marks_same(a[i], b[i], p, f);
        assert(attr_marks(a[i], p, f));
    }
}

proof fn lemma_kept_same(f1: Seq<FieldDef>, f2: Seq<FieldDef>, n: int)
    requires
        0 <= n <= f1.len(),
        f1.len() == f2.len(),
        forall|i: int| 0 <= i < f1.len() ==> field_skipped(#[trigger] f1[i]) == field_skipped(f2[i]),
    ensures
        kept(f1, n) == kept(f2, n),
    decreases n,
{
    if n > 0 {
        lemma_kept_same(f1, f2, n - 1);
        assert(field_skipped(f1[n - 1]) == field_skipped(f2[n - 1]));
    }
}

proof fn lemma_same_def_fields(m1: TypeDef, m2: TypeDef, i: int)
    requires
        m1.wf(),
        m2.wf(),
        same_def(m1, m2),
        0 <= i < m1.struct_fields().len(),
    ensures
        field_skipped(m1.struct_fields()[i]) == field_skipped(m2.struct_fields()[i]),
        helper_name(m1, i) == helper_name(m2, i),
        member_of(m1, i) == member_of(m2, i),
        label_of(m1, i) == label_of(m2, i),
        m1.struct_fields()[i].ty@ == m2.struct_fields()[i].ty@,
{
    let f1 = m1.struct_fields()[i];
    let f2 = m2.struct_fields()[i];
    assert(same_field(f1, f2));
    lemma_attrs_mark_same(f1.attrs@, f2.attrs@, own_attr(), skip_flag());
    if m1.is_named() {
        assert(f1.ident is Some);
        assert(f2.ident is Some);
        assert(f1.ident.unwrap()@ == f2.ident.unwrap()@);
    }
}

/// The generated source depends only on what a type definition reads:
/// two definitions that read the same are written out the same, and in
/// particular any two expansions of one definition agree.
pub proof fn law_generated_text_is_determined(m1: TypeDef, m2: TypeDef, e1: Expansion, e2: Expansion)
    requires
        m1.wf(),
        m2.wf(),
        same_def(m1, m2),
        expansion_of(m1, e1),
        expansion_of(m2, e2),
    ensures
        expansion_text(e1) == expansion_text(e2),
{
    let own = own_attr();
    lemma_attrs_mark_same(m1.attrs@, m2.attrs@, own, no_pub_flag());
    lemma_attrs_mark_same(m1.attrs@, m2.attrs@, own, no_is_default_flag());
    lemma_attrs_mark_same(m1.attrs@, m2.attrs@, own, skip_flag());
    lemma_attrs_mark_same(m1.attrs@, m2.attrs@, own, serde_flag());
    let fs1 = m1.struct_fields();
    let fs2 = m2.struct_fields();
    assert forall|i: int| 0 <= i < fs1.len() implies field_skipped(#[trigger] fs1[i]) == field_skipped(
        fs2[i],
    ) by {
        lemma_same_def_fields(m1, m2, i);
    }
    lemma_kept_same(fs1, fs2, fs1.len() as int);
    lemma_kept(fs1, fs1.len() as int);
    let ks = kept_fields(m1);
    assert(ks == kept_fields(m2));
    assert forall|k: int| 0 <= k < e1.helpers@.len() implies helper_text(
        #[trigger] e1.helpers@[k],
        e1.public,
    ) == helper_text(e2.helpers@[k], e1.public) by {
        assert(helper_for(m1, ks[k], e1.helpers@[k]));
        assert(helper_for(m2, ks[k], e2.helpers@[k]));
        lemma_same_def_fields(m1, m2, ks[k]);
    }
    lemma_helpers_text_eq(e1.helpers@, e2.helpers@, e1.public);
    assert(views(e1.generics.where_predicates@) =~= views(e2.generics.where_predicates@));
    match (e1.serialize, e2.serialize) {
        (Some(SerializeImpl::Struct(a)), Some(SerializeImpl::Struct(b))) => {
            assert forall|k: int| 0 <= k < a@.len() implies count_line(#[trigger] a@[k]) == count_line(
                b@[k],
            ) && field_line(a@[k]) == field_line(b@[k]) && a@[k].field_ty@ == b@[k].field_ty@ by {
                assert(ser_field_for(m1, k, a@[k]));
                assert(ser_field_for(m2, k, b@[k]));
                lemma_same_def_fields(m1, m2, k);
            }
            lemma_lines_eq(a@, b@);
            assert(serialized_types(SerializeImpl::Struct(a)) =~= serialized_types(
                SerializeImpl::Struct(b),
            ));
        },
        (Some(SerializeImpl::Tuple(a)), Some(SerializeImpl::Tuple(b))) => {
            assert forall|k: int| 0 <= k < a@.len() implies #[trigger] a@[k]@ == b@[k]@ by {
                lemma_same_def_fields(m1, m2, k);
            }
            assert(serialized_types(SerializeImpl::Tuple(a)) =~= serialized_types(
                SerializeImpl::Tuple(b),
            ));
        },
        _ => {},
    }
}

proof fn lemma_reads_attrs_same(src: Seq<char>, site: Option<usize>, a: Seq<Attr>, b: Seq<Attr>)
    requires
        attrs_read(src, site, a),
        attrs_read(src, site, b),
    ensures
        same_attrs(a, b),
{
    assert forall|j: int| 0 <= j < a.len() implies same_attr(#[trigger] a[j], b[j]) by {
        assert(attr_read(src, site, j as usize, a[j]));
        assert(attr_read(src, site, j as usize, b[j]));
    }
}

/// What `syn` reads from a text is one definition, as far as the derive
/// looks at it.
pub proof fn law_reading_is_determined(src: Seq<char>, m1: TypeDef, m2: TypeDef)
    requires
        reads(src, m1),
        reads(src, m2),
    ensures
        same_def(m1, m2),
{
    lemma_reads_attrs_same(src, None, m1.attrs@, m2.attrs@);
    let w1 = m1.generics.where_predicates@;
    let w2 = m2.generics.where_predicates@;
    assert(views(w1) == views(w2));
    assert(views(w1).len() == w1.len());
    assert(views(w2).len() == w2.len());
    assert forall|i: int| 0 <= i < w1.len() implies (#[trigger] w1[i])@ == w2[i]@ by {
        assert(views(w1)[i] == w1[i]@);
        assert(views(w2)[i] == w2[i]@);
    }
    let fs1 = m1.struct_fields();
    let fs2 = m2.struct_fields();
    assert forall|i: int| 0 <= i < fs1.len() implies same_field(#[trigger] fs1[i], fs2[i]) by {
        assert(field_read(src, i as usize, fs1[i]));
        assert(field_read(src, i as usize, fs2[i]));
        lemma_reads_attrs_same(src, Some(i as usize), fs1[i].attrs@, fs2[i].attrs@);
    }
}

/// The derive's output is a function of its source text: any two
/// well-formed definitions read from one text expand to the same source.
pub proof fn law_output_is_determined_by_source(
    src: Seq<char>,
    m1: TypeDef,
    m2: TypeDef,
    e1: Expansion,
    e2: Expansion,
)
    requires
        reads(src, m1),
        reads(src, m2),
        m1.wf(),
        m2.wf(),
        expansion_of(m1, e1),
        expansion_of(m2, e2),
    ensures
        expansion_text(e1) == expansion_text(e2),
{
    law_reading_is_determined(src, m1, m2);
    law_generated_text_is_determined(m1, m2, e1, e2);
}

} // verus!
