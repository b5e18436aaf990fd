//! Synthesis of component-wise arithmetic operator implementations for a
//! three-field numeric vector struct.
//!
//! Given the source text of a struct with exactly three named fields, the
//! generator emits, for each of the eight supported operations (`Add`, `Sub`,
//! `Mul`, `Div` and their in-place `*Assign` counterparts), two trait
//! implementations: one against another value of the same struct
//! (component-wise, fields matched by position) and one against a bare scalar
//! (broadcast, the same scalar applied to every field).
//!
//! The modules are:
//! - [`naming`]: derives the snake_case method name from an operation's
//!   capitalized trait name (`"AddAssign"` to `"add_assign"`);
//! - [`ops`]: the fixed, ordered set of the eight supported operations;
//! - [`synth`]: the text of the generated implementation blocks, and the
//!   entry point that parses a struct definition and appends them to it.

pub mod naming;
pub mod ops;
pub mod synth;
