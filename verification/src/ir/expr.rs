use vstd::prelude::*;

use crate::ir::VarId;

verus! {

/// Binary operators of the IR.
#[derive(Debug, Clone, PartialEq, Eq)]
pub enum BinOp {
    Add,
    Sub,
    Mul,
    Div,
    Rem,
    And,
    Or,
    Xor,
    Shl,
    Shr,
    Eq,
    Ne,
    Lt,
    Le,
    Gt,
    Ge,
}

/// Constants of the IR.
#[derive(Debug, Clone, PartialEq, Eq)]
pub enum Const {
    U64(u64),
    I64(i64),
    Bool(bool),
}

/// Expressions; operands are always variables.
#[derive(Debug, Clone, PartialEq, Eq)]
pub enum Expr {
    Var(VarId),
    Const(Const),
    BinOp { op: BinOp, lhs: VarId, rhs: VarId },
    /// Call to a named function with positional arguments.
    Call { func: &'static str, args: Vec<VarId> },
    /// Read of a kernel field (for example the congestion window).
    FieldGet { object: VarId, field: &'static str },
}

} // verus!
