//! The type definition that the derive reads, as plain values.

use vstd::prelude::*;

verus! {

/// One outer attribute, as far as the derive looks at it.
pub struct Attr {
    /// The attribute's path when it is a single plain identifier
    /// (`smart_is_default` in `#[smart_is_default(skip)]`), else `None`.
    pub path_ident: Option<String>,
    /// The nested meta paths read from the attribute's parenthesised
    /// arguments, in order, up to the first one that does not parse; each
    /// is its identifier when it is a single plain identifier, else `None`.
    pub nested: Vec<Option<String>>,
}

/// One field of a struct.
pub struct FieldDef {
    pub attrs: Vec<Attr>,
    /// The field's name as written (`r#type` keeps its `r#`), `None` for a
    /// tuple-struct field.
    pub ident: Option<String>,
    /// The field's type, as token text.
    pub ty: String,
}

/// The shape of the type that the derive is applied to.
pub enum Body {
    /// `struct S { a: A, b: B }`
    Named(Vec<FieldDef>),
    /// `struct S(A, B);`
    Unnamed(Vec<FieldDef>),
    /// `struct S;`
    Unit,
    Enum,
    Union,
}

/// The generics of the type, split as an impl block needs them.
pub struct GenericsText {
    /// `<T: Bound, 'a>` as it stands after `impl`; empty without generics.
    pub impl_generics: String,
    /// `<T, 'a>` as it stands after the type's name; empty without generics.
    pub ty_generics: String,
    /// The predicates of the type's `where` clause, each as token text.
    pub where_predicates: Vec<String>,
}

/// A type definition that `#[derive(SmartIsDefault)]` is applied to.
pub struct TypeDef {
    pub attrs: Vec<Attr>,
    pub ident: String,
    pub generics: GenericsText,
    pub data: Body,
}

/// The view of an optional string.
pub open spec fn opt_view(o: Option<String>) -> Option<Seq<char>> {
    match o {
        Some(s) => Some(s@),
        None => None,
    }
}

/// The views of a sequence of optional strings, one for one.
pub open spec fn opt_views(v: Seq<Option<String>>) -> Seq<Option<Seq<char>>> {
    v.map_values(|o: Option<String>| opt_view(o))
}

/// The largest number of tuple fields whose index `syn::Index` can hold.
pub open spec fn max_tuple_fields() -> nat {
    0xffff_ffff
}

impl TypeDef {
    /// What a parsed type definition always satisfies: named fields carry a
    /// name, tuple fields do not, and tuple indices fit in a `u32` below
    /// `u32::MAX`.
    pub open spec fn wf(&self) -> bool {
        match self.data {
            Body::Named(fields) => forall|i: int|
                0 <= i < fields@.len() ==> (#[trigger] fields@[i]).ident is Some,
            Body::Unnamed(fields) => fields@.len() < max_tuple_fields(),
            _ => true,
        }
    }

    /// The fields that helpers may be generated for: those of a struct with
    /// named or tuple fields; none for unit structs, enums and unions.
    pub open spec fn struct_fields(&self) -> Seq<FieldDef> {
        match self.data {
            Body::Named(fields) => fields@,
            Body::Unnamed(fields) => fields@,
            _ => Seq::empty(),
        }
    }

    /// Whether the fields are named.
    pub open spec fn is_named(&self) -> bool {
        self.data is Named
    }
}

} // verus!
