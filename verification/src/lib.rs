//! Cross-language static type-definition generator.
//!
//! An abstract description of data shapes (records, tagged unions,
//! primitives, collections, options, tuples, generics) is built by direct
//! construction calls into a [`declarations::Declarations`] value, which can
//! then be rendered into source-level type declarations for three target
//! backends that stay JSON-wire-compatible with each other: a native-union
//! backend, a namespaced shape backend, and a JS-family shape backend.

pub mod builders;
pub mod casing;
pub mod codegen;
pub mod declarations;
pub mod definitions;
pub mod docblock;
pub mod docs;
pub mod sample;
pub mod shared;
pub mod sign_source;
pub mod text;
