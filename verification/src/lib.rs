//! Grid coordinates for flat sequences.
//!
//! [`GridEnumerate`] wraps any iterator together with a column count and pairs
//! each element with the `(row, column)` that it occupies when the elements
//! are laid out row by row. [`IntoGridEnumerate`] offers the same as a method
//! on every iterator.
//!
//! The [`traversal`] module holds the mathematics that the contracts are
//! stated in, and the laws that follow from it.

pub mod enumerate;
pub mod traversal;

pub use crate::enumerate::{GridEnumerate, GridView, IntoGridEnumerate};
pub use crate::traversal::{cell_of, Traversal};
