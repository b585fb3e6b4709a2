//! Derivation of GraphQL interface definitions from struct descriptions.
//!
//! The pipeline takes a decomposed struct (its identifier, fields and the
//! option bundles attached to them), validates it, and produces either a
//! fully resolved interface definition or the complete list of diagnostics
//! found in one pass.
pub mod defs;
pub mod derive;
pub mod fields;
pub mod laws;
pub mod model;
pub mod names;
pub mod rename;
