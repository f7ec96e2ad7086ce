use vstd::prelude::*;

verus! {

/// The closed set of operation tags. An instruction is a pair
/// `(Operations, i64)`: the tag and a 64-bit signed immediate. The
/// immediate is a literal for `Push`, a jump address for `If`, `Else`,
/// `End` and `Do` once resolved, and unused (zero) otherwise.
#[derive(Clone, Copy, PartialEq, Eq, Structural, Debug)]
pub enum Operations {
    // Characters/Numbers
    Push,
    Plus,
    Minus,
    Equal,
    GreaterThan,
    // Keywords
    If,
    Else,
    End,
    While,
    Do,
    Dupl,
    Mem,
    // Bools
    True,
    False,
    Dump,
}

/// Capacity in bytes of the static memory region every compiled
/// artifact reserves.
pub const MEM_CAPACITY: i64 = 640000;

/// Tags whose immediate holds a jump address after resolution.
pub open spec fn is_control(op: Operations) -> bool {
    op == Operations::If || op == Operations::Else || op == Operations::End
        || op == Operations::Do
}

/// Post-resolution invariant: every control-flow immediate is an address
/// in `[0, N]`, `N` being the program length (`N` itself means "fall off
/// the end").
pub open spec fn jumps_in_range(p: Seq<(Operations, i64)>) -> bool {
    forall|i: int|
        0 <= i < p.len() && is_control(#[trigger] p[i].0) ==> 0 <= p[i].1 <= p.len()
}

/// A freshly built, not yet resolved program: every control-flow
/// immediate still holds the zero placeholder the instruction builder
/// wrote. The resolver must only ever run on such a program; its output
/// in general no longer satisfies this, so resolving twice is ruled out.
pub open spec fn unresolved(p: Seq<(Operations, i64)>) -> bool {
    forall|i: int|
        0 <= i < p.len() && is_control(#[trigger] p[i].0) ==> p[i].1 == 0
}

} // verus!
