//! A renderer from an in-memory documentation model (structures, fields,
//! types, examples) to AsciiDoc text.
//!
//! The model lives in [`model`], the exact text each entity renders to is
//! given by the spec functions in [`text`], the executable renderer is in
//! [`render`], and general properties of the output (bracket balance and
//! nesting depth, marker placement) are proved in [`laws`].

pub mod laws;
pub mod model;
pub mod render;
pub mod text;
