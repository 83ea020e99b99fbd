//! Intermediate representation of congestion-control programs.
pub mod binding;
pub mod expr;
pub mod program;
pub mod types;

pub use binding::{Binding, Safety};
pub use expr::{BinOp, Const, Expr};
pub use program::{Placement, PlacementReport, Program};
pub use types::Type;

use vstd::prelude::*;

verus! {

/// Every variable of a program has a unique numeric identifier.
pub type VarId = u32;

} // verus!
