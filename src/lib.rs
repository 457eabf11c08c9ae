//! Two-dimensional projective geometric algebra over exact integers.
//!
//! A multivector has eight slots, `s, e0, e1, e2, e01, e02, e12, e012`. Each
//! slot has a kind fixed by its type: `Zero`, always absent and zero, or `T`,
//! holding a value. The operators derive the kind of each output slot from the
//! kinds of their operands, so a slot that is absent on every term of its
//! formula costs nothing and stays absent in the result.
pub mod algebra;
pub mod laws;
pub mod multivector;
mod sealed;
pub mod value;
