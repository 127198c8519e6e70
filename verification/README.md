# velomorph (verified)

Declarative transformation of a source value into a target type, with the
rules of the `Morph` derive proved in Verus.

- `src/` is the verified library.
  - `error.rs`, `morph.rs`, `janitor.rs`: the runtime: `MorphError`,
    `TryMorph` (with element-by-element mapping of vectors that stops at the
    first error) and the `Janitor` handle with its two queue modes.
  - `plain.rs`: `plain::TryMorph`, the same trait for builds without the
    `janitor` feature, whose `try_morph` takes only `self`.
  - `model.rs`: the plain model of the item the derive is applied to, and
    the diagnostics it reports.
  - `syntax.rs`: the facts of Rust syntax read through outside crates
    (string literal values, paths, expressions through `syn`; identifier
    characters through `unicode-ident`).
  - `read.rs`: reading the attributes' literals into the model once, before
    any rule looks at them, and `derive_text`, which reads then expands.
  - `meta.rs`: the grammar of a `#[morph(...)]` argument list.
  - `attrs.rs`: what the attributes of the item, its fields and its variants
    say.
  - `plan.rs`: the mapping strategy of each field and the expression written
    for it.
  - `text.rs`, `expand.rs`: the source text of the generated `TryMorph`
    implementation.
  - `laws.rs`: properties of the derive that hold for every input.
- `app/` holds the derive's entry point (compiler tokens to model, text back
  to tokens), the `Janitor` constructors that start its worker thread, and
  `MorphError` with its `std::error::Error` implementation.
- `tests/` runs the derive on item models and the generated implementations
  on concrete values.
