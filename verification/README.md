# smart_is_default

A verified core for a `#[derive(SmartIsDefault)]` macro. Given a type
definition, the derive generates, per field, an associated function
`is_default__<field>(v: &T) -> bool` that tells whether `v` equals that field
of `Self::default()` (for use with serde's `skip_serializing_if`), a whole-value
`is_default(&self) -> bool` (private to the type's module), and, with `#[smart_is_default(serde)]`, a
`serde::Serialize` impl that leaves out the fields equal to their defaults.

Attributes on the container: `no_is_default` or `skip` (no `is_default`),
`no_pub` (private helpers), `serde` (the `Serialize` impl). On a field:
`skip` (no helper; the field is always serialized).

Layout:

* `src/` — the library, verified with Verus: the model of a type definition
  (`model`), flag detection (`flags`), what is generated (`expand`), the
  generated source text (`render`), what the generated functions return on
  values (`value`, `eval`), reading a definition with `syn` (`source`), and
  properties of the whole (`laws`).
* `tests/` — the behaviour on the usual example types, including the
  generated `Serialize` impls run through `serde_json`.
* `app/` — the token-stream entry point for a `proc_macro_derive`.
