use vstd::prelude::*;
use vstd::string::StringExecFns;
use crate::decimal::dec_digits;
use crate::decimal::dec_int;
use crate::decimal::dec_i64;
use crate::decimal::dec_u64;
use crate::operations::MEM_CAPACITY;
use crate::operations::Operations;

verus! {

/// The fixed prologue of every artifact: assembler directives, the one
/// shared numeric-formatting routine every `Dump` site calls, and the
/// entry label.
pub open spec fn asm_header() -> Seq<char> {
    "bits 64\nsegment .text\n\ndump:\n    mov     r9, -3689348814741910323\n    sub     rsp, 40\n    mov     BYTE [rsp+31], 10\n    lea     rcx, [rsp+30]\n.L2:\n    mov     rax, rdi\n    lea     r8, [rsp+32]\n    mul     r9\n    mov     rax, rdi\n    sub     r8, rcx\n    shr     rdx, 3\n    lea     rsi, [rdx+rdx*4]\n    add     rsi, rsi\n    sub     rax, rsi\n    add     eax, 48\n    mov     BYTE [rcx], al\n    mov     rax, rdi\n    mov     rdi, rdx\n    mov     rdx, rcx\n    sub     rcx, 1\n    cmp     rax, 9\n    ja      .L2\n    lea     rax, [rsp+32]\n    mov     edi, 1\n    sub     rdx, rax\n    lea     rsi, [rsp+32+rdx]\n    mov     rdx, r8\n    mov     rax, 1\n    syscall\n    add     rsp, 40\n    ret\n\nglobal _start\n\n_start:\n"@
}

/// The label that names one program address.
pub open spec fn asm_label(ip: nat) -> Seq<char> {
    "addr_"@ + dec_digits(ip) + ":\n"@
}

/// The instruction sequence one operation translates to, at address
/// `ip`. Every jump goes to the label of the resolved immediate; an
/// `End` whose target is its own successor emits no jump at all (the
/// dead-jump elision the resolver's fallthrough targets make possible).
pub open spec fn asm_op(instr: (Operations, i64), ip: nat) -> Seq<char> {
    match instr.0 {
        Operations::Push => "    ;; ----- PUSH ----- ;;\n    push "@ + dec_int(instr.1 as int)
            + "\n"@,
        Operations::Plus => "    ;; ----- PLUS ----- ;;\n    pop rax\n    pop rbx\n    add rax, rbx\n    push rax\n"@,
        Operations::Minus => "    ;; ----- MINUS ----- ;;\n    pop rax\n    pop rbx\n    sub rbx, rax\n    push rbx\n"@,
        Operations::Equal => "    ;; ----- EQUAL ----- ;;    mov rcx, 0\n    mov rdx, 1\n    pop rax\n    pop rbx\n    cmp rax, rbx\n    cmove rcx, rdx\n    push rcx\n"@,
        Operations::GreaterThan => "    ;; ----- GREATER THAN ----- ;;\n    mov rcx, 0\n    mov rdx, 1\n    pop rbx\n    pop rax\n    cmp rax, rbx\n    cmovg rcx, rdx\n    push rcx\n"@,
        Operations::True => "    mov rax, 1\n    push rax\n"@,
        Operations::False => "    mov rax, 0\n    push rax\n"@,
        Operations::If => "    ;; ----- IF STATEMENT ----- ;;\n    pop rax\n    test rax, rax\n    jz addr_"@
            + dec_int(instr.1 as int) + "\n"@,
        Operations::Else => "    ;; ----- ELSE ----- ;;\n    jmp addr_"@ + dec_int(instr.1 as int)
            + "\n"@,
        Operations::End => "    ;; ----- END ----- ;;\n"@ + if ip + 1 != instr.1 {
            "    jmp addr_"@ + dec_int(instr.1 as int) + "\n"@
        } else {
            Seq::empty()
        },
        Operations::While => "    ;; ----- WHILE ----- ;;\n"@,
        Operations::Do => "    ;; ----- DO ----- ;;\n    pop rax\n    test rax, rax\n    jz addr_"@
            + dec_int(instr.1 as int) + "\n"@,
        Operations::Dupl => "    ;; ----- DUPL ----- ;;\n    pop rax\n    push rax\n    push rax\n"@,
        Operations::Mem => "    ;; ----- MEM ----- ;;\n    push mem\n"@,
        Operations::Dump => "    ;; ----- DUMP ----- ;;\n    pop rdi\n    call dump\n"@,
    }
}

/// The translation of the first `n` instructions, each behind its
/// address label, in order.
pub open spec fn asm_body(p: Seq<(Operations, i64)>, n: int) -> Seq<char>
    decreases n,
{
    if n <= 0 {
        Seq::empty()
    } else {
        asm_body(p, n - 1) + asm_label((n - 1) as nat) + asm_op(p[n - 1], (n - 1) as nat)
    }
}

/// The fixed epilogue: the process-termination sequence and the
/// uninitialized static buffer of the machine's memory capacity.
pub open spec fn asm_footer() -> Seq<char> {
    "    mov rax, 60\n    mov rdi, 0\n    syscall\nsegment .bss\nmem: resb "@ + dec_int(
        MEM_CAPACITY as int,
    )
}

/// The complete text artifact the code generator emits for a program.
pub open spec fn compile_spec(p: Seq<(Operations, i64)>) -> Seq<char> {
    asm_header() + asm_body(p, p.len() as int) + asm_footer()
}

/// The code generator backend: translate a resolved program one-to-one
/// into the labeled assembly artifact `compile_spec` describes — one
/// label per address, each jump immediate a jump to the matching label,
/// an `End` jump elided exactly when its target is its own successor —
/// for an external assemble-and-link step to consume.
#[verifier::loop_isolation(false)]
#[verifier::rlimit(60)]
pub fn compile_program(program: &Vec<(Operations, i64)>) -> (r: String)
    ensures
        r@ == compile_spec(program@),
{
    let mut output = String::new();
    output.append(
        "bits 64\nsegment .text\n\ndump:\n    mov     r9, -3689348814741910323\n    sub     rsp, 40\n    mov     BYTE [rsp+31], 10\n    lea     rcx, [rsp+30]\n.L2:\n    mov     rax, rdi\n    lea     r8, [rsp+32]\n    mul     r9\n    mov     rax, rdi\n    sub     r8, rcx\n    shr     rdx, 3\n    lea     rsi, [rdx+rdx*4]\n    add     rsi, rsi\n    sub     rax, rsi\n    add     eax, 48\n    mov     BYTE [rcx], al\n    mov     rax, rdi\n    mov     rdi, rdx\n    mov     rdx, rcx\n    sub     rcx, 1\n    cmp     rax, 9\n    ja      .L2\n    lea     rax, [rsp+32]\n    mov     edi, 1\n    sub     rdx, rax\n    lea     rsi, [rsp+32+rdx]\n    mov     rdx, r8\n    mov     rax, 1\n    syscall\n    add     rsp, 40\n    ret\n\nglobal _start\n\n_start:\n",
    );
    proof {
        assert(output@ =~= asm_header());
    }

    let mut ip: usize = 0;
    while ip < program.len()
        invariant
            ip <= program@.len(),
            output@ == asm_header() + asm_body(program@, ip as int),
        decreases program@.len() - ip,
    {
        output.append("addr_");
        let ipstr = dec_u64(ip as u64);
        output.append(ipstr.as_str());
        output.append(":\n");
        let op = program[ip];
        match op.0 {
            Operations::Push => {
                output.append("    ;; ----- PUSH ----- ;;\n    push ");
                let v = dec_i64(op.1);
                output.append(v.as_str());
                output.append("\n");
            },
            Operations::Plus => {
                output.append(
                    "    ;; ----- PLUS ----- ;;\n    pop rax\n    pop rbx\n    add rax, rbx\n    push rax\n",
                );
            },
            Operations::Minus => {
                output.append(
                    "    ;; ----- MINUS ----- ;;\n    pop rax\n    pop rbx\n    sub rbx, rax\n    push rbx\n",
                );
            },
            Operations::Equal => {
                output.append(
                    "    ;; ----- EQUAL ----- ;;    mov rcx, 0\n    mov rdx, 1\n    pop rax\n    pop rbx\n    cmp rax, rbx\n    cmove rcx, rdx\n    push rcx\n",
                );
            },
            Operations::GreaterThan => {
                output.append(
                    "    ;; ----- GREATER THAN ----- ;;\n    mov rcx, 0\n    mov rdx, 1\n    pop rbx\n    pop rax\n    cmp rax, rbx\n    cmovg rcx, rdx\n    push rcx\n",
                );
            },
            Operations::True => {
                output.append("    mov rax, 1\n    push rax\n");
            },
            Operations::False => {
                output.append("    mov rax, 0\n    push rax\n");
            },
            Operations::If => {
                output.append(
                    "    ;; ----- IF STATEMENT ----- ;;\n    pop rax\n    test rax, rax\n    jz addr_",
                );
                let v = dec_i64(op.1);
                output.append(v.as_str());
                output.append("\n");
            },
            Operations::Else => {
                output.append("    ;; ----- ELSE ----- ;;\n    jmp addr_");
                let v = dec_i64(op.1);
                output.append(v.as_str());
                output.append("\n");
            },
            Operations::End => {
                output.append("    ;; ----- END ----- ;;\n");
                let target = op.1;
                let elide = target >= 0 && (ip as u64) + 1 == (target as u64);
                if !elide {
                    output.append("    jmp addr_");
                    let v = dec_i64(op.1);
                    output.append(v.as_str());
                    output.append("\n");
                }
            },
            Operations::While => {
                output.append("    ;; ----- WHILE ----- ;;\n");
            },
            Operations::Do => {
                output.append(
                    "    ;; ----- DO ----- ;;\n    pop rax\n    test rax, rax\n    jz addr_",
                );
                let v = dec_i64(op.1);
                output.append(v.as_str());
                output.append("\n");
            },
            Operations::Dupl => {
                output.append(
                    "    ;; ----- DUPL ----- ;;\n    pop rax\n    push rax\n    push rax\n",
                );
            },
            Operations::Mem => {
                output.append("    ;; ----- MEM ----- ;;\n    push mem\n");
            },
            Operations::Dump => {
                output.append("    ;; ----- DUMP ----- ;;\n    pop rdi\n    call dump\n");
            },
        }
        proof {
            assert(output@ =~= asm_header() + asm_body(program@, ip as int + 1));
        }
        ip = ip + 1;
    }

    output.append("    mov rax, 60\n    mov rdi, 0\n    syscall\nsegment .bss\nmem: resb ");
    let cap = dec_i64(MEM_CAPACITY);
    output.append(cap.as_str());
    proof {
        assert(output@ =~= compile_spec(program@));
    }
    output
}

} // verus!
