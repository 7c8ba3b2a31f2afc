//! Generators for two conversions between an enum and a one-byte code.
//!
//! `to_code` maps an instance to the discriminant its variant declares, or to
//! nothing; `try_from_code` maps a byte back to a fresh instance of the variant
//! that declares it, every field at its default value.
//!
//! - `model`: the variant descriptors and their extraction from a type declaration.
//! - `codegen`: the source text of the two generated methods.
//! - `semantics`: what the generated methods return.
//! - `laws`: properties that relate the two directions.

pub mod codegen;
pub mod laws;
pub mod model;
pub mod semantics;
