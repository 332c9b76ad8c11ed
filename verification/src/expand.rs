//! What the derive generates for a type definition.

use vstd::prelude::*;
use crate::model::{Body, TypeDef, FieldDef, GenericsText};
use crate::flags::{container_has_flag, container_marked, field_has_flag, field_marked};
use crate::naming::{copy_string, decimal, helper_prefix, index_text, unraw, unraw_ident};

verus! {

/// Suppresses a field's helper, or (on the container) `is_default`.
pub open spec fn skip_flag() -> Seq<char> {
    "skip"@
}

/// Suppresses `is_default` so that the user can write their own.
pub open spec fn no_is_default_flag() -> Seq<char> {
    "no_is_default"@
}

/// Keeps the generated functions private to the type's module.
pub open spec fn no_pub_flag() -> Seq<char> {
    "no_pub"@
}

/// Asks for a `serde::Serialize` impl that leaves out default fields.
pub open spec fn serde_flag() -> Seq<char> {
    "serde"@
}

/// One generated `is_default__<field>(v: &<type>) -> bool`, which returns
/// `v == &Self::default().<member>`.
pub struct Helper {
    /// `is_default__` followed by the field's name (without `r#`) or index.
    pub fn_name: String,
    /// The field's type, as token text.
    pub field_ty: String,
    /// What follows `Self::default().`: the field's name or index.
    pub member: String,
    /// The field's position in the definition.
    pub index: usize,
}

/// One field of a generated `Serialize` impl for a struct with named fields.
pub struct SerField {
    /// The key it is written under: the field's name without `r#`.
    pub key: String,
    /// The field's name as written.
    pub member: String,
    /// The field's type, as token text.
    pub field_ty: String,
    /// The helper that decides whether it is left out; `None` for a field
    /// marked `skip`, which is always written.
    pub helper: Option<String>,
}

/// A generated `serde::Serialize` impl.
pub enum SerializeImpl {
    /// A map of the fields in declared order, default ones left out.
    Struct(Vec<SerField>),
    /// A sequence of all fields; holds their types.
    Tuple(Vec<String>),
    /// A unit struct.
    UnitStruct,
}

/// Everything that `#[derive(SmartIsDefault)]` generates for one type.
pub struct Expansion {
    pub type_ident: String,
    pub generics: GenericsText,
    /// Whether the per-field helpers are `pub` (`is_default` never is).
    pub public: bool,
    /// Whether `is_default(&self) -> bool` is generated.
    pub is_default_method: bool,
    /// The per-field helpers, in declared order of their fields.
    pub helpers: Vec<Helper>,
    /// The `Serialize` impl, when one is generated.
    pub serialize: Option<SerializeImpl>,
}

/// Whether a field carries `#[smart_is_default(skip)]`.
pub open spec fn field_skipped(f: FieldDef) -> bool {
    field_marked(f, skip_flag())
}

/// The field's name as written, or its index for a tuple field.
pub open spec fn member_of(input: TypeDef, i: int) -> Seq<char> {
    if input.is_named() {
        input.struct_fields()[i].ident.unwrap()@
    } else {
        decimal(i as nat)
    }
}

/// The field's name without `r#`, or its index for a tuple field.
pub open spec fn label_of(input: TypeDef, i: int) -> Seq<char> {
    if input.is_named() {
        unraw(input.struct_fields()[i].ident.unwrap()@)
    } else {
        decimal(i as nat)
    }
}

/// The name of the helper for field `i`.
pub open spec fn helper_name(input: TypeDef, i: int) -> Seq<char> {
    helper_prefix() + label_of(input, i)
}

/// The indices below `n` of the fields that are not marked `skip`, in order.
pub open spec fn kept(fields: Seq<FieldDef>, n: int) -> Seq<int>
    decreases n,
{
    if n <= 0 {
        Seq::empty()
    } else if field_skipped(fields[n - 1]) {
        kept(fields, n - 1)
    } else {
        kept(fields, n - 1).push(n - 1)
    }
}

/// The indices of the fields that get a helper, in declared order.
pub open spec fn kept_fields(input: TypeDef) -> Seq<int> {
    kept(input.struct_fields(), input.struct_fields().len() as int)
}

/// `h` is the helper generated for field `i`.
pub open spec fn helper_for(input: TypeDef, i: int, h: Helper) -> bool {
    &&& h.index == i
    &&& h.fn_name@ == helper_name(input, i)
    &&& h.member@ == member_of(input, i)
    &&& h.field_ty@ == input.struct_fields()[i].ty@
}

/// `hs` are the helpers for the given field indices, one each, in order.
pub open spec fn helpers_for(input: TypeDef, ks: Seq<int>, hs: Seq<Helper>) -> bool {
    &&& hs.len() == ks.len()
    &&& forall|k: int| 0 <= k < hs.len() ==> helper_for(input, ks[k], #[trigger] hs[k])
}

/// `sf` writes field `i` of a struct with named fields.
pub open spec fn ser_field_for(input: TypeDef, i: int, sf: SerField) -> bool {
    &&& sf.key@ == label_of(input, i)
    &&& sf.member@ == member_of(input, i)
    &&& sf.field_ty@ == input.struct_fields()[i].ty@
    &&& if field_skipped(input.struct_fields()[i]) {
        sf.helper is None
    } else {
        sf.helper is Some && sf.helper.unwrap()@ == helper_name(input, i)
    }
}

/// The `Serialize` impl generated for `input`, if any.
pub open spec fn serialize_for(input: TypeDef, s: Option<SerializeImpl>) -> bool {
    if !container_marked(input, serde_flag()) {
        s is None
    } else {
        match input.data {
            Body::Named(fields) => match s {
                Some(SerializeImpl::Struct(sfs)) => {
                    &&& sfs@.len() == fields@.len()
                    &&& forall|i: int| 0 <= i < sfs@.len() ==> ser_field_for(input, i, #[trigger] sfs@[i])
                },
                _ => false,
            },
            Body::Unnamed(fields) => match s {
                Some(SerializeImpl::Tuple(tys)) => {
                    &&& tys@.len() == fields@.len()
                    &&& forall|i: int| 0 <= i < tys@.len() ==> (#[trigger] tys@[i])@ == fields@[i].ty@
                },
                _ => false,
            },
            Body::Unit => s matches Some(SerializeImpl::UnitStruct),
            _ => s is None,
        }
    }
}

/// Two generics read the same.
pub open spec fn same_generics(a: GenericsText, b: GenericsText) -> bool {
    &&& a.impl_generics@ == b.impl_generics@
    &&& a.ty_generics@ == b.ty_generics@
    &&& a.where_predicates@.len() == b.where_predicates@.len()
    &&& forall|i: int| 0 <= i < a.where_predicates@.len()
        ==> (#[trigger] a.where_predicates@[i])@ == b.where_predicates@[i]@
}

/// What the derive generates for `input`.
pub open spec fn expansion_of(input: TypeDef, e: Expansion) -> bool {
    &&& e.type_ident@ == input.ident@
    &&& same_generics(e.generics, input.generics)
    &&& e.public == !container_marked(input, no_pub_flag())
    &&& e.is_default_method == !(container_marked(input, no_is_default_flag())
        || container_marked(input, skip_flag()))
    &&& helpers_for(input, kept_fields(input), e.helpers@)
    &&& serialize_for(input, e.serialize)
}

fn copy_generics(g: &GenericsText) -> (r: GenericsText)
    ensures
        same_generics(r, *g),
{
    let mut preds: Vec<String> = Vec::new();
    let mut i: usize = 0;
    while i < g.where_predicates.len()
        invariant
            i <= g.where_predicates@.len(),
            preds@.len() == i,
            forall|k: int| 0 <= k < i ==> (#[trigger] preds@[k])@ == g.where_predicates@[k]@,
        decreases g.where_predicates@.len() - i,
    {
        preds.push(copy_string(&g.where_predicates[i]));
        i = i + 1;
    }
    GenericsText {
        impl_generics: copy_string(&g.impl_generics),
        ty_generics: copy_string(&g.ty_generics),
        where_predicates: preds,
    }
}

/// The field's name as written and the name it stands for, or twice its
/// index for a tuple field.
fn member_and_label(input: &TypeDef, fields: &Vec<FieldDef>, i: usize) -> (r: (String, String))
    requires
        input.wf(),
        fields@ == input.struct_fields(),
        input.data is Named || input.data is Unnamed,
        i < fields@.len(),
    ensures
        r.0@ == member_of(*input, i as int),
        r.1@ == label_of(*input, i as int),
{
    match &input.data {
        Body::Named(_) => {
            assert(fields@[i as int].ident is Some);
            match &fields[i].ident {
                Some(id) => (copy_string(id), unraw_ident(id)),
                None => {
                    assert(false);
                    (String::new(), String::new())
                },
            }
        },
        _ => {
            let t = index_text(i);
            (copy_string(&t), t)
        },
    }
}

proof fn lemma_kept_step(fields: Seq<FieldDef>, n: int)
    requires
        n >= 0,
    ensures
        kept(fields, n + 1) == if field_skipped(fields[n]) {
            kept(fields, n)
        } else {
            kept(fields, n).push(n)
        },
{
}

/// The per-field helpers of a struct with named or tuple fields.
fn struct_helpers(input: &TypeDef, fields: &Vec<FieldDef>) -> (hs: Vec<Helper>)
    requires
        input.wf(),
        fields@ == input.struct_fields(),
        input.data is Named || input.data is Unnamed,
    ensures
        helpers_for(*input, kept_fields(*input), hs@),
{
    let mut hs: Vec<Helper> = Vec::new();
    let mut i: usize = 0;
    while i < fields.len()
        invariant
            input.wf(),
            fields@ == input.struct_fields(),
            input.data is Named || input.data is Unnamed,
            i <= fields@.len(),
            helpers_for(*input, kept(fields@, i as int), hs@),
        decreases fields@.len() - i,
    {
        proof {
            lemma_kept_step(fields@, i as int);
        }
        if !field_has_flag(&fields[i], "smart_is_default", "skip") {
            let (member, label) = member_and_label(input, fields, i);
            let mut fn_name = String::from_str("is_default__");
            fn_name.append(label.as_str());
            let h = Helper { fn_name, field_ty: copy_string(&fields[i].ty), member, index: i };
            let ghost old_hs = hs@;
            hs.push(h);
            proof {
                let ks = kept(fields@, i as int + 1);
                assert forall|k: int| 0 <= k < hs@.len() implies helper_for(
                    *input,
                    ks[k],
                    #[trigger] hs@[k],
                ) by {
                    if k < old_hs.len() {
                        assert(hs@[k] == old_hs[k]);
                    }
                }
            }
        }
        i = i + 1;
    }
    hs
}

/// The fields of a `Serialize` impl for a struct with named fields.
fn ser_fields(input: &TypeDef, fields: &Vec<FieldDef>) -> (sfs: Vec<SerField>)
    requires
        input.wf(),
        input.data is Named,
        fields@ == input.struct_fields(),
    ensures
        sfs@.len() == fields@.len(),
        forall|i: int| 0 <= i < sfs@.len() ==> ser_field_for(*input, i, #[trigger] sfs@[i]),
{
    let mut sfs: Vec<SerField> = Vec::new();
    let mut i: usize = 0;
    while i < fields.len()
        invariant
            input.wf(),
            input.data is Named,
            fields@ == input.struct_fields(),
            i <= fields@.len(),
            sfs@.len() == i,
            forall|k: int| 0 <= k < i ==> ser_field_for(*input, k, #[trigger] sfs@[k]),
        decreases fields@.len() - i,
    {
        let (member, label) = member_and_label(input, fields, i);
        let helper = if field_has_flag(&fields[i], "smart_is_default", "skip") {
            None
        } else {
            let mut fn_name = String::from_str("is_default__");
            fn_name.append(label.as_str());
            Some(fn_name)
        };
        sfs.push(SerField { key: label, member, field_ty: copy_string(&fields[i].ty), helper });
        i = i + 1;
    }
    sfs
}

fn tuple_types(fields: &Vec<FieldDef>) -> (tys: Vec<String>)
    ensures
        tys@.len() == fields@.len(),
        forall|i: int| 0 <= i < tys@.len() ==> (#[trigger] tys@[i])@ == fields@[i].ty@,
{
    let mut tys: Vec<String> = Vec::new();
    let mut i: usize = 0;
    while i < fields.len()
        invariant
            i <= fields@.len(),
            tys@.len() == i,
            forall|k: int| 0 <= k < i ==> (#[trigger] tys@[k])@ == fields@[k].ty@,
        decreases fields@.len() - i,
    {
        tys.push(copy_string(&fields[i].ty));
        i = i + 1;
    }
    tys
}

/// Decides what `#[derive(SmartIsDefault)]` generates for `input`: one
/// helper per field not marked `skip` (structs with named or tuple fields
/// only), `is_default` unless the container says `no_is_default` or `skip`,
/// `pub` helpers unless it says `no_pub`, and a `Serialize` impl when it
/// says `serde`.
pub fn expand(input: &TypeDef) -> (e: Expansion)
    requires
        input.wf(),
    ensures
        expansion_of(*input, e),
{
    let no_is_default = container_has_flag(input, "smart_is_default", "no_is_default")
        || container_has_flag(input, "smart_is_default", "skip");
    let no_pub = container_has_flag(input, "smart_is_default", "no_pub");
    let serde = container_has_flag(input, "smart_is_default", "serde");
    let helpers = match &input.data {
        Body::Named(fields) => struct_helpers(input, fields),
        Body::Unnamed(fields) => struct_helpers(input, fields),
        _ => Vec::new(),
    };
    let serialize = if !serde {
        None
    } else {
        match &input.data {
            Body::Named(fields) => Some(SerializeImpl::Struct(ser_fields(input, fields))),
            Body::Unnamed(fields) => Some(SerializeImpl::Tuple(tuple_types(fields))),
            Body::Unit => Some(SerializeImpl::UnitStruct),
            _ => None,
        }
    };
    Expansion {
        type_ident: copy_string(&input.ident),
        generics: copy_generics(&input.generics),
        public: !no_pub,
        is_default_method: !no_is_default,
        helpers,
        serialize,
    }
}

} // verus!
