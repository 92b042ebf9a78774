//! A PLONK-style gadget that witnesses two field elements, constrains their
//! difference with a custom gate and exposes `y` and `x - y` as public inputs,
//! together with the layout model it runs on: columns, selectors, gates,
//! regions, copy constraints and instance bindings.
use vstd::prelude::*;

pub mod field;
pub mod layout;
pub mod chip;
pub mod circuit;
pub mod compare;

pub use chip::{EqualChip, EqualConfig};
pub use circuit::EqualCircuit;
pub use compare::{compare_x_y, CircuitBuilder, CircuitInput, Input, InputData, Output, TemplateStructName};
pub use layout::{AssignedCell, Column, ColumnKind, ConstraintSystem, DiffGate, Error, Layouter};

verus! {

} // verus!
