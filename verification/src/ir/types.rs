use vstd::prelude::*;

verus! {

/// Scalar types expressible in eBPF.
/// Floating point operations or unsupported types are routed through `UserOnly`.
#[derive(Debug, Clone, PartialEq, Eq)]
pub enum Type {
    U8,
    U16,
    U32,
    U64,
    I8,
    I16,
    I32,
    I64,
    Bool,
    /// Pointer into kernel memory (TCP sockets, struct_ops members, ...).
    KernelPtr(&'static str),
}

} // verus!
