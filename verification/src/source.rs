//! Reading a type definition from Rust source with `syn`, and the derive as
//! a whole: source text in, generated source text out.

use vstd::prelude::*;
use quote::ToTokens;
use crate::model::{opt_view, opt_views, Attr, Body, TypeDef, FieldDef, GenericsText};
use crate::expand::{expand, expansion_of, Expansion};
use crate::render::{expansion_text, render, renderable, views};
use crate::laws::law_output_is_determined_by_source;

verus! {

/// `syn::Error`, held opaque.
#[verifier::external_type_specification]
#[verifier::external_body]
pub struct ExSynError(syn::Error);

/// Why the derive produced no code.
#[derive(Debug)]
pub enum DeriveError {
    /// The input is not a type definition that `syn` can parse; holds
    /// `syn`'s message.
    Parse(String),
    /// A definition whose fields cannot all be named: a tuple struct with
    /// more fields than `syn::Index` can number (`u32::MAX` or more), or a
    /// named field without a name, which `syn` never produces.
    Unsupported,
}

/// Which variant of `syn::Data` (and, for a struct, of `syn::Fields`) a
/// definition has.
pub enum DataShape {
    Named,
    Unnamed,
    Unit,
    Enum,
    Union,
}

// Each reader below parses the text afresh with
// `syn::parse_str::<syn::DeriveInput>` while `proc_macro2::fallback::force()`
// is in effect, and calls `proc_macro2::fallback::unforce()` before it
// returns. Forced, `proc_macro2` lexes and prints with its own code instead
// of the compiler's, so identifiers keep their text as written and token
// texts are printed the same way in every process: what a reader returns is
// a function of the text alone, which the names below stand for. The mode
// is process-wide; `unforce` sets it back by detecting whether a compiler
// is present.

/// Whether `syn` reads a type definition (`syn::DeriveInput`) from the text.
pub uninterp spec fn parses_as_type_def(src: Seq<char>) -> bool;

/// The name of the type `syn` reads from the text (`Ident::to_string`);
/// `None` when it reads none.
pub uninterp spec fn type_ident_of(src: Seq<char>) -> Option<Seq<char>>;

/// `Generics::split_for_impl` of the definition `syn` reads from the text:
/// the impl generics and the type generics printed as tokens, and the where
/// clause's predicates, each printed as tokens; `None` when it reads none.
pub uninterp spec fn generics_of(src: Seq<char>) -> Option<(Seq<char>, Seq<char>, Seq<Seq<char>>)>;

/// The number of generic parameters (`Generics::params.len()`).
pub uninterp spec fn generic_param_count_of(src: Seq<char>) -> usize;

/// The shape of the definition `syn` reads from the text.
pub uninterp spec fn shape_of(src: Seq<char>) -> Option<DataShape>;

/// The number of fields of the struct `syn` reads from the text; `0` for
/// an enum or a union, or when it reads none.
pub uninterp spec fn field_count_of(src: Seq<char>) -> usize;

/// The name of field `i` (`Ident::to_string`); `None` for a tuple field.
pub uninterp spec fn field_ident_of(src: Seq<char>, i: usize) -> Option<Seq<char>>;

/// The type of field `i`, printed as tokens.
pub uninterp spec fn field_type_of(src: Seq<char>, i: usize) -> Option<Seq<char>>;

/// The number of attributes on the container (`site` is `None`) or on
/// field `i` (`site` is `Some(i)`).
pub uninterp spec fn attr_count_of(src: Seq<char>, site: Option<usize>) -> usize;

/// `Path::get_ident` of attribute `j` at `site`, as `Ident::to_string`
/// writes it.
pub uninterp spec fn attr_path_of(src: Seq<char>, site: Option<usize>, j: usize) -> Option<Seq<char>>;

/// The nested meta paths that `Attribute::parse_nested_meta` hands over
/// for attribute `j` at `site`, in order, each as `Path::get_ident`.
pub uninterp spec fn attr_nested_of(src: Seq<char>, site: Option<usize>, j: usize) -> Seq<Option<Seq<char>>>;

/// `syn::parse_str::<syn::DeriveInput>`, forced to `proc_macro2`'s own
/// lexer: succeeds exactly when `syn` reads a type definition from the text.
#[verifier::external_body]
fn parse_check(src: &str) -> (r: Result<(), syn::Error>)
    ensures
        r is Ok <==> parses_as_type_def(src@),
{
    proc_macro2::fallback::force();
    let r = syn::parse_str::<syn::DeriveInput>(src).map(|_| ());
    proc_macro2::fallback::unforce();
    r
}

/// `syn::Error`'s `Display` text. Nothing is stated of the text.
#[verifier::external_body]
fn error_message(e: &syn::Error) -> (r: String) {
    e.to_string()
}

/// `Ident::to_string` of `DeriveInput::ident`; present exactly when the
/// text parses.
#[verifier::external_body]
fn type_ident(src: &str) -> (r: Option<String>)
    ensures
        opt_view(r) == type_ident_of(src@),
        r is Some <==> parses_as_type_def(src@),
{
    proc_macro2::fallback::force();
    let r = syn::parse_str::<syn::DeriveInput>(src).ok().map(|d| d.ident.to_string());
    proc_macro2::fallback::unforce();
    r
}

/// `Generics::split_for_impl`, impl and type generics printed with
/// `ToTokens::to_token_stream` and `to_string` (nothing when there are no
/// parameters, as `syn` prints them), the where clause as its predicates.
#[verifier::external_body]
fn generics(src: &str) -> (r: Option<GenericsText>)
    ensures
        match r {
            Some(g) => generics_of(src@) == Some(
                (g.impl_generics@, g.ty_generics@, views(g.where_predicates@)),
            ) && (g.impl_generics@.len() > 0 <==> generic_param_count_of(src@) > 0) && (
            g.ty_generics@.len() > 0 <==> generic_param_count_of(src@) > 0),
            None => generics_of(src@) is None,
        },
        r is Some <==> parses_as_type_def(src@),
{
    proc_macro2::fallback::force();
    let r = syn::parse_str::<syn::DeriveInput>(src).ok().map(|d| {
        let (ig, tg, w) = d.generics.split_for_impl();
        GenericsText {
            impl_generics: ig.to_token_stream().to_string(),
            ty_generics: tg.to_token_stream().to_string(),
            where_predicates: w.map(|w| w.predicates.iter().map(|q| q.to_token_stream().to_string()).collect()).unwrap_or_default(),
        }
    });
    proc_macro2::fallback::unforce();
    r
}

/// Which variant of `syn::Data` and `syn::Fields` the definition has;
/// present exactly when the text parses.
#[verifier::external_body]
fn shape(src: &str) -> (r: Option<DataShape>)
    ensures
        r == shape_of(src@),
        r is Some <==> parses_as_type_def(src@),
{
    proc_macro2::fallback::force();
    let r = syn::parse_str::<syn::DeriveInput>(src).ok().map(|d| match d.data {
        syn::Data::Struct(s) => match s.fields {
            syn::Fields::Named(_) => DataShape::Named,
            syn::Fields::Unnamed(_) => DataShape::Unnamed,
            syn::Fields::Unit => DataShape::Unit,
        },
        syn::Data::Enum(_) => DataShape::Enum,
        syn::Data::Union(_) => DataShape::Union,
    });
    proc_macro2::fallback::unforce();
    r
}

/// `Fields::len` of the struct; `0` for an enum, a union, or text that
/// does not parse.
#[verifier::external_body]
fn field_count(src: &str) -> (r: usize)
    ensures
        r == field_count_of(src@),
{
    proc_macro2::fallback::force();
    let r = match syn::parse_str::<syn::DeriveInput>(src).map(|d| d.data) {
        Ok(syn::Data::Struct(s)) => s.fields.len(),
        _ => 0,
    };
    proc_macro2::fallback::unforce();
    r
}

/// `Field::ident` of field `i`, written with `Ident::to_string`.
#[verifier::external_body]
fn field_ident(src: &str, i: usize) -> (r: Option<String>)
    ensures
        opt_view(r) == field_ident_of(src@, i),
{
    proc_macro2::fallback::force();
    let r = match syn::parse_str::<syn::DeriveInput>(src).map(|d| d.data) {
        Ok(syn::Data::Struct(s)) => s.fields.iter().nth(i).and_then(|f| f.ident.as_ref()).map(|id| id.to_string()),
        _ => None,
    };
    proc_macro2::fallback::unforce();
    r
}

/// `Field::ty` of field `i`, printed with `to_token_stream` and
/// `to_string`; present for every field below `Fields::len`, and never
/// empty, since a type is at least one token.
#[verifier::external_body]
fn field_type(src: &str, i: usize) -> (r: Option<String>)
    ensures
        opt_view(r) == field_type_of(src@, i),
        i < field_count_of(src@) ==> r is Some,
        r matches Some(t) ==> t@.len() > 0,
{
    proc_macro2::fallback::force();
    let r = match syn::parse_str::<syn::DeriveInput>(src).map(|d| d.data) {
        Ok(syn::Data::Struct(s)) => s.fields.iter().nth(i).map(|f| f.ty.to_token_stream().to_string()),
        _ => None,
    };
    proc_macro2::fallback::unforce();
    r
}

/// The number of attributes on the container or on field `i`.
#[verifier::external_body]
fn attr_count(src: &str, site: Option<usize>) -> (r: usize)
    ensures
        r == attr_count_of(src@, site),
{
    proc_macro2::fallback::force();
    let r = match (site, syn::parse_str::<syn::DeriveInput>(src)) {
        (None, Ok(d)) => d.attrs.len(),
        (Some(i), Ok(syn::DeriveInput { data: syn::Data::Struct(s), .. })) => s.fields.iter().nth(i).map_or(0, |f| f.attrs.len()),
        _ => 0,
    };
    proc_macro2::fallback::unforce();
    r
}

/// `Path::get_ident` of `Attribute::path` of attribute `j` at `site`,
/// written with `Ident::to_string`.
#[verifier::external_body]
fn attr_path(src: &str, site: Option<usize>, j: usize) -> (r: Option<String>)
    ensures
        opt_view(r) == attr_path_of(src@, site, j),
{
    proc_macro2::fallback::force();
    let r = match (site, syn::parse_str::<syn::DeriveInput>(src)) {
        (None, Ok(d)) => d.attrs.get(j).and_then(|a| a.path().get_ident().map(|id| id.to_string())),
        (Some(i), Ok(syn::DeriveInput { data: syn::Data::Struct(s), .. })) => s.fields.iter().nth(i).and_then(|f| f.attrs.get(j)).and_then(|a| a.path().get_ident().map(|id| id.to_string())),
        _ => None,
    };
    proc_macro2::fallback::unforce();
    r
}

/// `Attribute::parse_nested_meta` on attribute `j` at `site`, recording
/// the path of every nested meta that it hands to the callback (as
/// `Path::get_ident`, written with `Ident::to_string`), in order; the parse
/// stops at the first item that does not parse, and its error is dropped.
#[verifier::external_body]
fn attr_nested(src: &str, site: Option<usize>, j: usize) -> (r: Vec<Option<String>>)
    ensures
        opt_views(r@) == attr_nested_of(src@, site, j),
{
    proc_macro2::fallback::force();
    let mut seen: Vec<Option<String>> = Vec::new();
    let attr = match (site, syn::parse_str::<syn::DeriveInput>(src)) {
        (None, Ok(d)) => d.attrs.get(j).cloned(),
        (Some(i), Ok(syn::DeriveInput { data: syn::Data::Struct(s), .. })) => s.fields.iter().nth(i).and_then(|f| f.attrs.get(j)).cloned(),
        _ => None,
    };
    let _ = attr.map(|a| a.parse_nested_meta(|meta| Ok(record_nested(&mut seen, meta.path.get_ident().map(|id| id.to_string())))));
    proc_macro2::fallback::unforce();
    seen
}

/// Appends one nested meta path to the list read so far.
fn record_nested(seen: &mut Vec<Option<String>>, path: Option<String>)
    ensures
        final(seen)@ == old(seen)@.push(path),
{
    seen.push(path);
}

/// `a` is attribute `j` at `site` of the definition in `src`.
pub open spec fn attr_read(src: Seq<char>, site: Option<usize>, j: usize, a: Attr) -> bool {
    &&& opt_view(a.path_ident) == attr_path_of(src, site, j)
    &&& opt_views(a.nested@) == attr_nested_of(src, site, j)
}

/// `attrs` are the attributes at `site` of the definition in `src`.
pub open spec fn attrs_read(src: Seq<char>, site: Option<usize>, attrs: Seq<Attr>) -> bool {
    &&& attrs.len() == attr_count_of(src, site)
    &&& forall|j: int| 0 <= j < attrs.len() ==> attr_read(src, site, j as usize, #[trigger] attrs[j])
}

/// `f` is field `i` of the definition in `src`.
pub open spec fn field_read(src: Seq<char>, i: usize, f: FieldDef) -> bool {
    &&& opt_view(f.ident) == field_ident_of(src, i)
    &&& field_type_of(src, i) == Some(f.ty@)
    &&& attrs_read(src, Some(i), f.attrs@)
}

/// `fs` are the fields of the struct in `src`.
pub open spec fn fields_read(src: Seq<char>, fs: Seq<FieldDef>) -> bool {
    &&& fs.len() == field_count_of(src)
    &&& forall|i: int| 0 <= i < fs.len() ==> field_read(src, i as usize, #[trigger] fs[i])
}

/// `m` is the type definition that `syn` reads from `src`.
pub open spec fn reads(src: Seq<char>, m: TypeDef) -> bool {
    &&& type_ident_of(src) == Some(m.ident@)
    &&& generics_of(src) == Some(
        (m.generics.impl_generics@, m.generics.ty_generics@, views(m.generics.where_predicates@)),
    )
    &&& attrs_read(src, None, m.attrs@)
    &&& match shape_of(src) {
        Some(DataShape::Named) => m.data matches Body::Named(fs) && fields_read(src, fs@),
        Some(DataShape::Unnamed) => m.data matches Body::Unnamed(fs) && fields_read(src, fs@),
        Some(DataShape::Unit) => m.data is Unit,
        Some(DataShape::Enum) => m.data is Enum,
        Some(DataShape::Union) => m.data is Union,
        None => false,
    }
}

/// The attributes at `site`.
fn read_attrs(src: &str, site: Option<usize>) -> (r: Vec<Attr>)
    ensures
        attrs_read(src@, site, r@),
{
    let n = attr_count(src, site);
    let mut r: Vec<Attr> = Vec::new();
    let mut j: usize = 0;
    while j < n
        invariant
            j <= n,
            n == attr_count_of(src@, site),
            r@.len() == j,
            forall|k: int| 0 <= k < j ==> attr_read(src@, site, k as usize, #[trigger] r@[k]),
        decreases n - j,
    {
        r.push(Attr { path_ident: attr_path(src, site, j), nested: attr_nested(src, site, j) });
        j = j + 1;
    }
    r
}

/// The fields of the struct.
fn read_fields(src: &str) -> (r: Vec<FieldDef>)
    ensures
        fields_read(src@, r@),
{
    let n = field_count(src);
    let mut r: Vec<FieldDef> = Vec::new();
    let mut i: usize = 0;
    while i < n
        invariant
            i <= n,
            n == field_count_of(src@),
            r@.len() == i,
            forall|k: int| 0 <= k < i ==> field_read(src@, k as usize, #[trigger] r@[k]),
        decreases n - i,
    {
        let ty = match field_type(src, i) {
            Some(t) => t,
            None => {
                assert(false);
                String::new()
            },
        };
        r.push(FieldDef { attrs: read_attrs(src, Some(i)), ident: field_ident(src, i), ty });
        i = i + 1;
    }
    r
}

/// The type definition `syn` reads from the text, when it reads one.
fn read_input(src: &str) -> (r: Option<TypeDef>)
    ensures
        r is Some <==> parses_as_type_def(src@),
        r matches Some(m) ==> reads(src@, m),
{
    let data = match shape(src) {
        Some(DataShape::Named) => Body::Named(read_fields(src)),
        Some(DataShape::Unnamed) => Body::Unnamed(read_fields(src)),
        Some(DataShape::Unit) => Body::Unit,
        Some(DataShape::Enum) => Body::Enum,
        Some(DataShape::Union) => Body::Union,
        None => return None,
    };
    let ident = match type_ident(src) {
        Some(id) => id,
        None => return None,
    };
    let generics = match generics(src) {
        Some(g) => g,
        None => return None,
    };
    Some(TypeDef { attrs: read_attrs(src, None), ident, generics, data })
}

/// Whether the definition satisfies [`TypeDef::wf`].
pub fn check_wf(input: &TypeDef) -> (r: bool)
    ensures
        r == input.wf(),
{
    match &input.data {
        Body::Named(fields) => {
            let mut i: usize = 0;
            while i < fields.len()
                invariant
                    input.data == Body::Named(*fields),
                    i <= fields@.len(),
                    forall|k: int| 0 <= k < i ==> (#[trigger] fields@[k]).ident is Some,
                decreases fields@.len() - i,
            {
                if fields[i].ident.is_none() {
                    assert(!((fields@[i as int]).ident is Some));
                    return false;
                }
                i = i + 1;
            }
            true
        },
        Body::Unnamed(fields) => fields.len() < 0xffff_ffffusize,
        _ => true,
    }
}

/// What the derive writes for a type definition that satisfies `wf`.
pub open spec fn derived_text(input: TypeDef, out: Seq<char>) -> bool {
    exists|e: Expansion| expansion_of(input, e) && out == expansion_text(e)
}

/// An expansion of a well-formed input can be written out.
pub proof fn lemma_expansion_renderable(input: TypeDef, e: Expansion)
    requires
        input.wf(),
        expansion_of(input, e),
    ensures
        renderable(e),
{
}

/// The generated source for a well-formed type definition: its expansion
/// written out.
pub fn derive_from_input(input: &TypeDef) -> (out: String)
    requires
        input.wf(),
    ensures
        derived_text(*input, out@),
{
    let e = expand(input);
    proof {
        lemma_expansion_renderable(*input, e);
    }
    render(&e)
}

/// Reads a type definition from its source text, as the derive sees it.
/// Fails with `Parse` when `syn` cannot read a type definition from the
/// text, and with `Unsupported` when the definition does not satisfy
/// [`TypeDef::wf`].
pub fn parse_type_def(src: &str) -> (r: Result<TypeDef, DeriveError>)
    ensures
        r matches Ok(m) ==> reads(src@, m) && m.wf(),
        r matches Err(DeriveError::Parse(_)) <==> !parses_as_type_def(src@),
        r matches Err(DeriveError::Unsupported) ==> exists|m: TypeDef| reads(src@, m) && !m.wf(),
{
    match parse_check(src) {
        Err(e) => Err(DeriveError::Parse(error_message(&e))),
        Ok(()) => match read_input(src) {
            Some(m) => {
                if check_wf(&m) {
                    Ok(m)
                } else {
                    Err(DeriveError::Unsupported)
                }
            },
            None => {
                assert(false);
                Err(DeriveError::Unsupported)
            },
        },
    }
}

/// The source that the derive writes for the type definition in `src`:
/// the expansion, written out, of the definition `syn` reads from it.
pub open spec fn derive_output(src: Seq<char>) -> Seq<char> {
    choose|out: Seq<char>| derives(src, out)
}

/// `out` is the expansion, written out, of a well-formed definition that
/// `syn` reads from `src`.
pub open spec fn derives(src: Seq<char>, out: Seq<char>) -> bool {
    exists|m: TypeDef| reads(src, m) && m.wf() && #[trigger] derived_text(m, out)
}

/// Runs `#[derive(SmartIsDefault)]` on the source text of a type
/// definition and returns the generated Rust source; fails as
/// [`parse_type_def`] does.
pub fn derive_smart_is_default(input: &str) -> (r: Result<String, DeriveError>)
    ensures
        r matches Ok(out) ==> out@ == derive_output(input@),
        r matches Ok(out) ==> derives(input@, out@),
        r matches Err(DeriveError::Parse(_)) <==> !parses_as_type_def(input@),
        r matches Err(DeriveError::Unsupported) ==> exists|m: TypeDef| reads(input@, m) && !m.wf(),
{
    match parse_type_def(input) {
        Err(e) => Err(e),
        Ok(m) => {
            let out = derive_from_input(&m);
            assert(reads(input@, m) && m.wf() && derived_text(m, out@));
            assert(derives(input@, out@));
            proof {
                let o = derive_output(input@);
                let m2 = choose|m2: TypeDef| reads(input@, m2) && m2.wf() && #[trigger] derived_text(m2, o);
                let e1 = choose|e: Expansion| expansion_of(m, e) && out@ == expansion_text(e);
                let e2 = choose|e: Expansion| expansion_of(m2, e) && o == expansion_text(e);
                law_output_is_determined_by_source(input@, m, m2, e1, e2);
            }
            Ok(out)
        },
    }
}

} // verus!
