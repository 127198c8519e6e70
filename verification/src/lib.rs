//! Velomorph: declarative, type-checked transformation of a source value into
//! a target type.
//!
//! The crate holds the runtime half (`MorphError`, `TryMorph` and its janitor-free twin
//! `plain::TryMorph`, `Janitor`) and the rules of
//! the `Morph` derive: how `#[morph(...)]` attributes are read, which mapping
//! strategy each target field gets, and the Rust source text of the generated
//! `TryMorph` implementation.  The derive reads its input through a plain model
//! of the item (see `model`), so every rule here is stated and proved over
//! plain values.

pub mod error;
pub mod morph;
pub mod plain;
pub mod model;
pub mod syntax;
pub mod meta;
pub mod attrs;
pub mod plan;
pub mod text;
pub mod expand;
pub mod read;
pub mod laws;
pub mod attr_laws;
pub mod janitor;

pub use error::MorphError;
pub use morph::TryMorph;
pub use janitor::Janitor;
pub use expand::expand_morph;
pub use read::derive_text;
