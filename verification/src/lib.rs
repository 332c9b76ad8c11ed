//! Verified core of the `SmartIsDefault` derive.
//!
//! The derive reads a type definition and emits, per field, an associated
//! function `is_default__<field>` that tells whether a value equals that
//! field of `Self::default()`, plus a whole-value `is_default` method and,
//! on request, a `serde::Serialize` impl that leaves out default fields.
//!
//! * [`model`] holds the plain-value picture of a type definition.
//! * [`flags`] decides which `#[smart_is_default(..)]` flags are present.
//! * [`expand`] decides what the derive generates.
//! * [`render`] writes the generated impls out as Rust source.
//! * [`value`] and [`eval`] give the generated functions their meaning on
//!   values, so that what they return can be stated and checked.
//! * [`source`] reads a type definition from Rust source through `syn` and
//!   runs the whole derive.
//! * [`laws`] proves properties of the derive as a whole.

pub mod model;
pub mod flags;
pub mod naming;
pub mod expand;
pub mod render;
pub mod value;
pub mod eval;
pub mod source;
pub mod laws;
pub mod output_laws;
