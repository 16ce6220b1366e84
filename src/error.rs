use vstd::prelude::*;

verus! {

/// What can go wrong when a graph is inspected, evaluated or rendered.
#[derive(Debug, Clone, Copy, PartialEq, Eq, Hash, Structural)]
pub enum GlispError {
    /// An identity that the store never handed out.
    Lookup,
    /// A node whose operand count differs from what its kind needs.
    Arity,
    /// A division whose right operand evaluated to zero.
    DivisionByZero,
    /// An arithmetic result outside the 64-bit signed range.
    Overflow,
    /// A node reached again while it is still being evaluated or rendered.
    Cycle,
}

} // verus!
