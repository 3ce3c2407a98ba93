//! Translates a parsed Avro schema into target-language type declarations:
//! a verified recursive mapping from schema shapes to type expressions, a
//! collector that declares every reachable named type exactly once in
//! first-encountered order, and a pluggable strategy that lets the same
//! traversal produce structural interfaces or runtime validators.

pub mod errors;
pub mod laws;
pub mod registry;
pub mod schema;
pub mod schema_converter;
pub mod type_converter;
pub mod types;
pub mod validator_converter;
