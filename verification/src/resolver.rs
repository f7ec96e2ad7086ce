use vstd::prelude::*;
use vstd::pervasive::VecAdditionalExecFns;
use crate::operations::Operations;
use crate::operations::is_control;
use crate::operations::jumps_in_range;
use crate::operations::unresolved;
use crate::stack::Stack;

verus! {

/// How a program's block structure can be malformed.
#[derive(Clone, Copy, PartialEq, Eq, Structural, Debug)]
pub enum StructureErrorKind {
    /// An `Else`, `End` or `Do` with no open construct to close.
    UnmatchedCloser,
    /// A closer popped an opener of the wrong kind: `Else` must close an
    /// `If`, `Do` must close a `While`, `End` must close an `If`, `Else`
    /// or `Do`.
    MismatchedPair,
    /// A construct still open when the program ends.
    Unterminated,
}

/// A fatal block-structure fault, reported with the address it concerns:
/// the offending closer's address, or the address of an opener left
/// unterminated.
#[derive(Clone, Copy, PartialEq, Eq, Structural, Debug)]
pub struct StructureError {
    pub kind: StructureErrorKind,
    pub addr: usize,
}

/// One resolution pass from address `ip` on, carrying the stack `st` of
/// open construct addresses. Mirrors the pass described by the resolver's
/// design: `If` and `While` push their address; `Else` patches its `If`
/// to land just past the `Else` and pushes itself; `Do` remembers its
/// `While`'s address in its own immediate and pushes itself; `End`
/// patches the construct it closes and its own immediate. A closer that
/// pops nothing, or pops the wrong kind of opener, is a structure error,
/// as is a stack left non-empty at the end.
pub open spec fn resolve_from(
    p: Seq<(Operations, i64)>,
    st: Seq<i64>,
    ip: int,
) -> Result<Seq<(Operations, i64)>, StructureError>
    decreases p.len() - ip,
{
    if ip < 0 || ip >= p.len() {
        if st.len() == 0 {
            Ok(p)
        } else {
            Err(StructureError { kind: StructureErrorKind::Unterminated, addr: st.last() as usize })
        }
    } else {
        let op = p[ip].0;
        if op == Operations::If || op == Operations::While {
            resolve_from(p, st.push(ip as i64), ip + 1)
        } else if op == Operations::Else {
            if st.len() == 0 {
                Err(StructureError { kind: StructureErrorKind::UnmatchedCloser, addr: ip as usize })
            } else {
                let a = st.last() as int;
                if 0 <= a < p.len() && p[a].0 == Operations::If {
                    resolve_from(
                        p.update(a, (Operations::If, (ip + 1) as i64)),
                        st.drop_last().push(ip as i64),
                        ip + 1,
                    )
                } else {
                    Err(StructureError { kind: StructureErrorKind::MismatchedPair, addr: ip as usize })
                }
            }
        } else if op == Operations::End {
            if st.len() == 0 {
                Err(StructureError { kind: StructureErrorKind::UnmatchedCloser, addr: ip as usize })
            } else {
                let a = st.last() as int;
                if 0 <= a < p.len() && (p[a].0 == Operations::If || p[a].0 == Operations::Else) {
                    resolve_from(
                        p.update(a, (p[a].0, ip as i64)).update(ip, (Operations::End, (ip + 1) as i64)),
                        st.drop_last(),
                        ip + 1,
                    )
                } else if 0 <= a < p.len() && p[a].0 == Operations::Do {
                    resolve_from(
                        p.update(ip, (Operations::End, p[a].1)).update(a, (Operations::Do, (ip + 1) as i64)),
                        st.drop_last(),
                        ip + 1,
                    )
                } else {
                    Err(StructureError { kind: StructureErrorKind::MismatchedPair, addr: ip as usize })
                }
            }
        } else if op == Operations::Do {
            if st.len() == 0 {
                Err(StructureError { kind: StructureErrorKind::UnmatchedCloser, addr: ip as usize })
            } else {
                let a = st.last() as int;
                if 0 <= a < p.len() && p[a].0 == Operations::While {
                    resolve_from(
                        p.update(ip, (Operations::Do, st.last())),
                        st.drop_last().push(ip as i64),
                        ip + 1,
                    )
                } else {
                    Err(StructureError { kind: StructureErrorKind::MismatchedPair, addr: ip as usize })
                }
            }
        } else {
            resolve_from(p, st, ip + 1)
        }
    }
}

/// What resolving an unresolved program yields: the same instructions
/// with every control-flow immediate patched to a concrete address, or
/// the structure error that aborted the pass.
pub open spec fn resolve_spec(
    p: Seq<(Operations, i64)>,
) -> Result<Seq<(Operations, i64)>, StructureError> {
    resolve_from(p, Seq::empty(), 0)
}

/// The block resolver: one pass over a freshly built program that
/// rewrites every structured control instruction's immediate into a
/// concrete jump address, using a stack of currently open construct
/// addresses. On success every control-flow immediate lies in
/// `[0, N]`, `N` the program length.
#[verifier::loop_isolation(false)]
pub fn crossreference_blocks(
    program: Vec<(Operations, i64)>,
) -> (r: Result<Vec<(Operations, i64)>, StructureError>)
    requires
        unresolved(program@),
        // Addresses are stored in the instructions' 64-bit signed
        // immediates, so they must be representable there.
        program@.len() < 0x7fff_ffff_ffff_ffff,
    ensures
        match r {
            Ok(p) => resolve_spec(program@) == Ok::<_, StructureError>(p@)
                && p@.len() == program@.len()
                && (forall|i: int| 0 <= i < p@.len() ==> (#[trigger] p@[i]).0 == program@[i].0)
                && jumps_in_range(p@),
            Err(e) => resolve_spec(program@) == Err::<Seq<(Operations, i64)>, _>(e),
        },
{
    let ghost input = program@;
    let mut program = program;
    let mut stack_struct: Stack<i64> = Stack { items: Vec::new() };
    let mut stack = stack_struct.items;

    let mut ip: usize = 0;
    while ip < program.len()
        invariant
            ip <= program@.len(),
            program@.len() == input.len(),
            input.len() < 0x7fff_ffff_ffff_ffff,
            resolve_spec(input) == resolve_from(program@, stack@, ip as int),
            forall|k: int| 0 <= k < stack@.len() ==> 0 <= #[trigger] stack@[k] < ip,
            forall|i: int| 0 <= i < program@.len() ==> (#[trigger] program@[i]).0 == input[i].0,
            jumps_in_range(program@),
        decreases program@.len() - ip,
    {
        let op = program[ip].0;
        if op == Operations::If {
            stack.push(ip as i64);
        } else if op == Operations::Else {
            match stack.pop() {
                None => {
                    return Err(StructureError {
                        kind: StructureErrorKind::UnmatchedCloser,
                        addr: ip,
                    });
                },
                Some(if_ip) => {
                    let a = if_ip as usize;
                    if program[a].0 == Operations::If {
                        program.set(a, (Operations::If, ip as i64 + 1));
                        stack.push(ip as i64);
                    } else {
                        return Err(StructureError {
                            kind: StructureErrorKind::MismatchedPair,
                            addr: ip,
                        });
                    }
                },
            }
        } else if op == Operations::End {
            match stack.pop() {
                None => {
                    return Err(StructureError {
                        kind: StructureErrorKind::UnmatchedCloser,
                        addr: ip,
                    });
                },
                Some(block_ip) => {
                    let a = block_ip as usize;
                    if program[a].0 == Operations::If || program[a].0 == Operations::Else {
                        program.set(a, (program[a].0, ip as i64));
                        program.set(ip, (Operations::End, ip as i64 + 1));
                    } else if program[a].0 == Operations::Do {
                        program.set(ip, (Operations::End, program[a].1));
                        program.set(a, (Operations::Do, ip as i64 + 1));
                    } else {
                        return Err(StructureError {
                            kind: StructureErrorKind::MismatchedPair,
                            addr: ip,
                        });
                    }
                },
            }
        } else if op == Operations::While {
            stack.push(ip as i64);
        } else if op == Operations::Do {
            match stack.pop() {
                None => {
                    return Err(StructureError {
                        kind: StructureErrorKind::UnmatchedCloser,
                        addr: ip,
                    });
                },
                Some(while_ip) => {
                    let a = while_ip as usize;
                    if program[a].0 == Operations::While {
                        program.set(ip, (Operations::Do, while_ip));
                        stack.push(ip as i64);
                    } else {
                        return Err(StructureError {
                            kind: StructureErrorKind::MismatchedPair,
                            addr: ip,
                        });
                    }
                },
            }
        }
        ip = ip + 1;
    }

    if stack.len() == 0 {
        Ok(program)
    } else {
        let top = stack[stack.len() - 1];
        Err(StructureError { kind: StructureErrorKind::Unterminated, addr: top as usize })
    }
}

} // verus!
