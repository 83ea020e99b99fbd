use vstd::prelude::*;

use crate::ir::{Expr, Type, VarId};

verus! {

/// Safety annotation given by the user.
#[derive(Debug, Clone, Copy, PartialEq, Eq, Structural)]
pub enum Safety {
    KernelSafe,
    UserOnly,
}

/// One atomic step of a program.
#[derive(Debug)]
pub enum Binding {
    /// Binds the result of an expression to a variable.
    Let {
        var: VarId,
        /// The type of the bound value; `None` when it could not be given.
        ty: Option<Type>,
        expr: Expr,
        /// Where the binding may run.
        safety: Safety,
        cost: u32,
    },
    /// Conditional: each branch can independently be safe or unsafe.
    If { cond: VarId, then_bindings: Vec<Binding>, else_bindings: Vec<Binding> },
    /// Bounded loop; the bound must be constant or routed through `UserOnly`.
    For { var: VarId, bound: VarId, body: Vec<Binding> },
}

} // verus!
