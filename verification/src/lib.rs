//! Compile-time validation of file path string literals.
//!
//! The library models a macro's token-level input, checks that it is exactly
//! one well-formed quoted string literal, and — once an outside oracle has
//! ruled on the literal text — either produces the source text of a
//! trusted-construction expression or a diagnostic that names the offending
//! input and the reason.

pub mod emit;
pub mod expand;
pub mod laws;
pub mod message;
pub mod token;
