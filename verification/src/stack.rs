use vstd::prelude::*;

verus! {

/// A last-in-first-out sequence, the working storage of both the block
/// resolver (open construct addresses) and the stack machine (operands).
#[derive(Debug)]
pub struct Stack<T> {
    pub items: Vec<T>,
}

} // verus!
