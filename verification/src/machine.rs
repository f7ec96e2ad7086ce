use vstd::prelude::*;
use crate::operations::Operations;
use crate::stack::Stack;

verus! {

/// Abstract stack-machine state shared by both backends: an operand
/// stack of 64-bit signed integers, the instruction pointer, and the
/// ordered sequence of values written by `Dump` so far.
pub struct MState {
    pub stack: Seq<i64>,
    pub ip: int,
    pub output: Seq<i64>,
}

/// Execution starts at address zero with an empty operand stack and no
/// output.
pub open spec fn init_state() -> MState {
    MState { stack: Seq::empty(), ip: 0, output: Seq::empty() }
}

/// A jump immediate is valid when it lands on an address in `[0, N]`;
/// `N` itself means "fall off the end".
pub open spec fn valid_target(p: Seq<(Operations, i64)>, imm: i64) -> bool {
    0 <= imm <= p.len()
}

/// One step of the shared stack-machine semantics at `s.ip` (stack top
/// named first, so `Minus` pushes second-popped minus first-popped).
/// `None` is the fatal runtime fault: an operand popped off an empty
/// stack, or a jump immediate outside `[0, N]`. Arithmetic wraps, as
/// 64-bit register arithmetic does. The memory region is addressed from
/// base zero, which is what `Mem` pushes; no operation dereferences it.
pub open spec fn step(p: Seq<(Operations, i64)>, s: MState) -> Option<MState>
    recommends
        0 <= s.ip < p.len(),
{
    let op = p[s.ip].0;
    let imm = p[s.ip].1;
    let n = s.stack.len() as int;
    match op {
        Operations::Push => Some(
            MState { stack: s.stack.push(imm), ip: s.ip + 1, output: s.output },
        ),
        Operations::Plus => if n < 2 {
            None
        } else {
            let a = s.stack[n - 1];
            let b = s.stack[n - 2];
            Some(
                MState {
                    stack: s.stack.take(n - 2).push(a.wrapping_add(b)),
                    ip: s.ip + 1,
                    output: s.output,
                },
            )
        },
        Operations::Minus => if n < 2 {
            None
        } else {
            let a = s.stack[n - 1];
            let b = s.stack[n - 2];
            Some(
                MState {
                    stack: s.stack.take(n - 2).push(b.wrapping_sub(a)),
                    ip: s.ip + 1,
                    output: s.output,
                },
            )
        },
        Operations::Equal => if n < 2 {
            None
        } else {
            let a = s.stack[n - 1];
            let b = s.stack[n - 2];
            Some(
                MState {
                    stack: s.stack.take(n - 2).push(if b == a { 1i64 } else { 0i64 }),
                    ip: s.ip + 1,
                    output: s.output,
                },
            )
        },
        Operations::GreaterThan => if n < 2 {
            None
        } else {
            let a = s.stack[n - 1];
            let b = s.stack[n - 2];
            Some(
                MState {
                    stack: s.stack.take(n - 2).push(if b > a { 1i64 } else { 0i64 }),
                    ip: s.ip + 1,
                    output: s.output,
                },
            )
        },
        Operations::True => Some(
            MState { stack: s.stack.push(1i64), ip: s.ip + 1, output: s.output },
        ),
        Operations::False => Some(
            MState { stack: s.stack.push(0i64), ip: s.ip + 1, output: s.output },
        ),
        Operations::If => if n < 1 {
            None
        } else {
            let a = s.stack[n - 1];
            if a == 0 {
                if valid_target(p, imm) {
                    Some(MState { stack: s.stack.take(n - 1), ip: imm as int, output: s.output })
                } else {
                    None
                }
            } else {
                Some(MState { stack: s.stack.take(n - 1), ip: s.ip + 1, output: s.output })
            }
        },
        Operations::Else => if valid_target(p, imm) {
            Some(MState { stack: s.stack, ip: imm as int, output: s.output })
        } else {
            None
        },
        Operations::End => if valid_target(p, imm) {
            Some(MState { stack: s.stack, ip: imm as int, output: s.output })
        } else {
            None
        },
        Operations::While => Some(
            MState { stack: s.stack, ip: s.ip + 1, output: s.output },
        ),
        Operations::Do => if n < 1 {
            None
        } else {
            let a = s.stack[n - 1];
            if a == 0 {
                if valid_target(p, imm) {
                    Some(MState { stack: s.stack.take(n - 1), ip: imm as int, output: s.output })
                } else {
                    None
                }
            } else {
                Some(MState { stack: s.stack.take(n - 1), ip: s.ip + 1, output: s.output })
            }
        },
        Operations::Dupl => if n < 1 {
            None
        } else {
            Some(
                MState { stack: s.stack.push(s.stack[n - 1]), ip: s.ip + 1, output: s.output },
            )
        },
        Operations::Mem => Some(
            MState { stack: s.stack.push(0i64), ip: s.ip + 1, output: s.output },
        ),
        Operations::Dump => if n < 1 {
            None
        } else {
            Some(
                MState {
                    stack: s.stack.take(n - 1),
                    ip: s.ip + 1,
                    output: s.output.push(s.stack[n - 1]),
                },
            )
        },
    }
}

/// Where a bounded run ends up.
pub enum RunOutcome {
    /// The instruction pointer reached the program's length.
    Done(MState),
    /// A fatal runtime fault: `step` had no successor.
    Fault(MState),
    /// The step budget ran out with the machine still going.
    Running(MState),
}

/// Run the machine for at most `fuel` steps from state `s`.
pub open spec fn run_fuel(p: Seq<(Operations, i64)>, s: MState, fuel: nat) -> RunOutcome
    decreases fuel,
{
    if s.ip == p.len() {
        RunOutcome::Done(s)
    } else if !(0 <= s.ip < p.len()) {
        RunOutcome::Fault(s)
    } else if fuel == 0 {
        RunOutcome::Running(s)
    } else {
        match step(p, s) {
            None => RunOutcome::Fault(s),
            Some(s2) => run_fuel(p, s2, (fuel - 1) as nat),
        }
    }
}

/// What a bounded interpreter run reports.
pub enum SimOutcome {
    /// The program ran off the end; the values `Dump` wrote, in
    /// execution order.
    Done(Vec<i64>),
    /// Fatal runtime fault (operand-stack underflow, or a wild jump) at
    /// this address, with the output written before it.
    Fault { addr: usize, output: Vec<i64> },
    /// The step budget was exhausted first; the output written so far.
    OutOfFuel { output: Vec<i64> },
}

/// The interpreter backend: a tight evaluation loop applying the shared
/// stack-machine semantics to a resolved program, for at most `fuel`
/// steps. The result is exactly what `run_fuel` says of the initial
/// state; the language itself has no timeout, so a caller that wants
/// direct execution passes the largest budget it is willing to wait for.
#[verifier::loop_isolation(false)]
pub fn simulate_program(program: &Vec<(Operations, i64)>, fuel: u64) -> (r: SimOutcome)
    ensures
        match r {
            SimOutcome::Done(o) => run_fuel(program@, init_state(), fuel as nat) matches
                RunOutcome::Done(m) && m.output == o@,
            SimOutcome::Fault { addr, output } => run_fuel(program@, init_state(), fuel as nat)
                matches RunOutcome::Fault(m) && m.ip == addr && m.output == output@,
            SimOutcome::OutOfFuel { output } => run_fuel(program@, init_state(), fuel as nat)
                matches RunOutcome::Running(m) && m.output == output@,
        },
{
    let mut stack_struct: Stack<i64> = Stack { items: Vec::new() };
    let mut stack = stack_struct.items;
    let mut output: Vec<i64> = Vec::new();
    let mut ip: usize = 0;
    let mut fuel_left: u64 = fuel;
    let ghost mut cur: MState = init_state();

    while ip < program.len()
        invariant
            ip <= program@.len(),
            cur.ip == ip as int,
            cur.stack == stack@,
            cur.output == output@,
            run_fuel(program@, init_state(), fuel as nat) == run_fuel(
                program@,
                cur,
                fuel_left as nat,
            ),
        decreases fuel_left,
    {
        if fuel_left == 0 {
            return SimOutcome::OutOfFuel { output };
        }
        let ghost pre = cur;
        let ghost n = pre.stack.len() as int;
        let op = program[ip];
        match op.0 {
            Operations::Push => {
                stack.push(op.1);
                ip = ip + 1;
            },
            Operations::Plus => {
                let a = match stack.pop() {
                    Some(v) => v,
                    None => { return SimOutcome::Fault { addr: ip, output }; },
                };
                let b = match stack.pop() {
                    Some(v) => v,
                    None => { return SimOutcome::Fault { addr: ip, output }; },
                };
                proof {
                    assert(stack@ =~= pre.stack.take(n - 2));
                }
                stack.push(a.wrapping_add(b));
                ip = ip + 1;
            },
            Operations::Minus => {
                let a = match stack.pop() {
                    Some(v) => v,
                    None => { return SimOutcome::Fault { addr: ip, output }; },
                };
                let b = match stack.pop() {
                    Some(v) => v,
                    None => { return SimOutcome::Fault { addr: ip, output }; },
                };
                proof {
                    assert(stack@ =~= pre.stack.take(n - 2));
                }
                stack.push(b.wrapping_sub(a));
                ip = ip + 1;
            },
            Operations::Equal => {
                let a = match stack.pop() {
                    Some(v) => v,
                    None => { return SimOutcome::Fault { addr: ip, output }; },
                };
                let b = match stack.pop() {
                    Some(v) => v,
                    None => { return SimOutcome::Fault { addr: ip, output }; },
                };
                proof {
                    assert(stack@ =~= pre.stack.take(n - 2));
                }
                stack.push(if b == a { 1 } else { 0 });
                ip = ip + 1;
            },
            Operations::GreaterThan => {
                let a = match stack.pop() {
                    Some(v) => v,
                    None => { return SimOutcome::Fault { addr: ip, output }; },
                };
                let b = match stack.pop() {
                    Some(v) => v,
                    None => { return SimOutcome::Fault { addr: ip, output }; },
                };
                proof {
                    assert(stack@ =~= pre.stack.take(n - 2));
                }
                stack.push(if b > a { 1 } else { 0 });
                ip = ip + 1;
            },
            Operations::True => {
                stack.push(1);
                ip = ip + 1;
            },
            Operations::False => {
                stack.push(0);
                ip = ip + 1;
            },
            Operations::If => {
                let a = match stack.pop() {
                    Some(v) => v,
                    None => { return SimOutcome::Fault { addr: ip, output }; },
                };
                proof {
                    assert(stack@ =~= pre.stack.take(n - 1));
                }
                if a == 0 {
                    let t = op.1;
                    if t >= 0 && (t as u64) <= (program.len() as u64) {
                        ip = t as usize;
                    } else {
                        return SimOutcome::Fault { addr: ip, output };
                    }
                } else {
                    ip = ip + 1;
                }
            },
            Operations::Else => {
                let t = op.1;
                if t >= 0 && (t as u64) <= (program.len() as u64) {
                    ip = t as usize;
                } else {
                    return SimOutcome::Fault { addr: ip, output };
                }
            },
            Operations::End => {
                let t = op.1;
                if t >= 0 && (t as u64) <= (program.len() as u64) {
                    ip = t as usize;
                } else {
                    return SimOutcome::Fault { addr: ip, output };
                }
            },
            Operations::While => {
                ip = ip + 1;
            },
            Operations::Do => {
                let a = match stack.pop() {
                    Some(v) => v,
                    None => { return SimOutcome::Fault { addr: ip, output }; },
                };
                proof {
                    assert(stack@ =~= pre.stack.take(n - 1));
                }
                if a == 0 {
                    let t = op.1;
                    if t >= 0 && (t as u64) <= (program.len() as u64) {
                        ip = t as usize;
                    } else {
                        return SimOutcome::Fault { addr: ip, output };
                    }
                } else {
                    ip = ip + 1;
                }
            },
            Operations::Dupl => {
                let a = match stack.pop() {
                    Some(v) => v,
                    None => { return SimOutcome::Fault { addr: ip, output }; },
                };
                stack.push(a);
                stack.push(a);
                proof {
                    assert(stack@ =~= pre.stack.push(a));
                }
                ip = ip + 1;
            },
            Operations::Mem => {
                // The abstract machine addresses its memory region from
                // base zero.
                stack.push(0);
                ip = ip + 1;
            },
            Operations::Dump => {
                let a = match stack.pop() {
                    Some(v) => v,
                    None => { return SimOutcome::Fault { addr: ip, output }; },
                };
                proof {
                    assert(stack@ =~= pre.stack.take(n - 1));
                }
                output.push(a);
                ip = ip + 1;
            },
        }
        fuel_left = fuel_left - 1;
        proof {
            assert(step(program@, pre) matches Some(s2) && s2.ip == ip as int && s2.stack
                == stack@ && s2.output == output@);
            cur = step(program@, pre).unwrap();
        }
    }
    SimOutcome::Done(output)
}

} // verus!
