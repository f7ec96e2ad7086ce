use tungsten::codegen::compile_program;
use tungsten::operations::Operations;
use tungsten::parser::load_program_from_file;

fn toks(words: &[&str]) -> Vec<(String, usize, usize)> {
    words
        .iter()
        .enumerate()
        .map(|(i, w)| (w.to_string(), 1usize, i + 1))
        .collect()
}

fn compile(words: &[&str]) -> String {
    let prog = load_program_from_file(toks(words), "artifact.ts").expect("program should load");
    compile_program(&prog)
}

#[test]
fn artifact_has_fixed_frame() {
    let out = compile(&["1", "DUMP"]);
    assert!(out.starts_with("bits 64\nsegment .text\n"));
    assert!(out.contains("\ndump:\n"));
    assert!(out.contains("global _start\n\n_start:\n"));
    assert!(out.contains("    mov rax, 60\n    mov rdi, 0\n    syscall\n"));
    assert!(out.ends_with("segment .bss\nmem: resb 640000"));
}

#[test]
fn artifact_add_dump_in_execution_order() {
    let out = compile(&["1", "2", "+", "DUMP"]);
    let push1 = out.find("addr_0:\n    ;; ----- PUSH ----- ;;\n    push 1\n").unwrap();
    let push2 = out.find("addr_1:\n    ;; ----- PUSH ----- ;;\n    push 2\n").unwrap();
    let plus = out.find("addr_2:\n    ;; ----- PLUS ----- ;;\n").unwrap();
    let dump = out.find("addr_3:\n    ;; ----- DUMP ----- ;;\n    pop rdi\n    call dump\n").unwrap();
    assert!(push1 < push2 && push2 < plus && plus < dump);
}

#[test]
fn jumps_target_resolved_labels() {
    let out = compile(&["1", "2", ">", "IF", "1", "DUMP", "ELSE", "2", "DUMP", "END"]);
    // IF falls to just past the ELSE, the ELSE jumps to the END.
    assert!(out.contains("    jz addr_7\n"));
    assert!(out.contains("    jmp addr_9\n"));
}

#[test]
fn end_jump_elided_when_falling_through() {
    // The END of an if closes with a jump to its own successor, which
    // is elided.
    let out = compile(&["TRUE", "IF", "1", "DUMP", "END"]);
    assert!(out.contains("addr_4:\n    ;; ----- END ----- ;;\n    mov rax, 60\n"));
    assert!(!out.contains("jmp addr_5"));
}

#[test]
fn end_of_while_jumps_back_to_condition() {
    let out = compile(&["WHILE", "TRUE", "DO", "END"]);
    // The DO exits past the loop, the END jumps back to the condition.
    assert!(out.contains("    jz addr_4\n"));
    assert!(out.contains("addr_3:\n    ;; ----- END ----- ;;\n    jmp addr_0\n"));
}

#[test]
fn dupl_translates_to_stack_duplication() {
    let prog = vec![(Operations::Push, 9), (Operations::Dupl, 0)];
    let out = compile_program(&prog);
    assert!(out.contains("    ;; ----- DUPL ----- ;;\n    pop rax\n    push rax\n    push rax\n"));
}

#[test]
fn memory_translates_to_buffer_address() {
    let out = compile(&["MEMORY", "DUMP"]);
    assert!(out.contains("    ;; ----- MEM ----- ;;\n    push mem\n"));
}
