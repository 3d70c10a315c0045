//! Rewrites a sum-type declaration by extracting variant payloads.
//!
//! For each eligible variant of a sum type, the transformation builds a
//! standalone record declaration mirroring the variant's payload, replaces
//! the payload with a single positional reference to that record, and emits
//! a conversion from the record back into the variant. Option bags attached
//! to the invocation and to individual variants control naming, visibility,
//! capability lists, and skipping.

pub mod checks;
pub mod convert;
pub mod laws;
pub mod decl;
pub mod options;
pub mod syntax;
pub mod text;
pub mod transform;

pub use transform::decompose;
