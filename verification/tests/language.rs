use tungsten::machine::SimOutcome;
use tungsten::machine::simulate_program;
use tungsten::operations::Operations;
use tungsten::parser::ProgramError;
use tungsten::parser::load_program_from_file;
use tungsten::parser::parse_token;
use tungsten::resolver::StructureErrorKind;
use tungsten::resolver::crossreference_blocks;

fn toks(words: &[&str]) -> Vec<(String, usize, usize)> {
    words
        .iter()
        .enumerate()
        .map(|(i, w)| (w.to_string(), 1usize, i + 1))
        .collect()
}

fn load(words: &[&str]) -> Result<Vec<(Operations, i64)>, ProgramError> {
    load_program_from_file(toks(words), "scenario.ts")
}

fn run(words: &[&str]) -> Vec<i64> {
    let prog = load(words).expect("program should load");
    match simulate_program(&prog, 1_000_000) {
        SimOutcome::Done(out) => out,
        SimOutcome::Fault { addr, .. } => panic!("runtime fault at address {}", addr),
        SimOutcome::OutOfFuel { .. } => panic!("step budget exhausted"),
    }
}

#[test]
fn add_and_dump() {
    assert_eq!(run(&["1", "2", "+", "DUMP"]), vec![3]);
}

#[test]
fn if_else_takes_false_branch() {
    // 1 > 2 is false, so the ELSE branch runs.
    assert_eq!(
        run(&["1", "2", ">", "IF", "1", "DUMP", "ELSE", "2", "DUMP", "END"]),
        vec![2]
    );
}

#[test]
fn if_takes_true_branch() {
    assert_eq!(
        run(&["2", "1", ">", "IF", "1", "DUMP", "ELSE", "2", "DUMP", "END"]),
        vec![1]
    );
}

#[test]
fn while_loop_dumps_once_per_iteration() {
    // Count down from 3: WHILE <cond> DO <body> END, the body dumping
    // the counter once per iteration, none after the loop exits. Dupl
    // has no surface keyword, so the program is built directly.
    let program = vec![
        (Operations::Push, 3),
        (Operations::While, 0),
        (Operations::Dupl, 0),
        (Operations::Push, 0),
        (Operations::GreaterThan, 0),
        (Operations::Do, 0),
        (Operations::Dupl, 0),
        (Operations::Dump, 0),
        (Operations::Push, 1),
        (Operations::Minus, 0),
        (Operations::End, 0),
    ];
    let resolved = crossreference_blocks(program).expect("well-formed loop");
    // The Do jumps past the loop, the End jumps back to the condition.
    assert_eq!(resolved[5].1, 11);
    assert_eq!(resolved[10].1, 1);
    match simulate_program(&resolved, 1_000_000) {
        SimOutcome::Done(out) => assert_eq!(out, vec![3, 2, 1]),
        _ => panic!("loop should terminate"),
    }
}

#[test]
fn unterminated_if_is_reported() {
    match load(&["IF", "1", "DUMP"]) {
        Err(ProgramError::Structure(e)) => {
            assert_eq!(e.kind, StructureErrorKind::Unterminated);
            assert_eq!(e.addr, 0);
        }
        _ => panic!("an IF without END must be a structure error"),
    }
}

#[test]
fn lone_end_is_reported() {
    match load(&["END"]) {
        Err(ProgramError::Structure(e)) => {
            assert_eq!(e.kind, StructureErrorKind::UnmatchedCloser);
            assert_eq!(e.addr, 0);
        }
        _ => panic!("a lone END must be a structure error"),
    }
}

#[test]
fn do_must_close_a_while() {
    match load(&["IF", "DO", "END"]) {
        Err(ProgramError::Structure(e)) => {
            assert_eq!(e.kind, StructureErrorKind::MismatchedPair);
            assert_eq!(e.addr, 1);
        }
        _ => panic!("DO closing an IF must be a structure error"),
    }
}

#[test]
fn resolved_immediates_lie_in_range() {
    let prog = load(&["1", "2", ">", "IF", "1", "DUMP", "ELSE", "2", "DUMP", "END"])
        .expect("program should load");
    let n = prog.len() as i64;
    for (op, imm) in &prog {
        match op {
            Operations::If | Operations::Else | Operations::End | Operations::Do => {
                assert!(0 <= *imm && *imm <= n);
            }
            _ => {}
        }
    }
    // The exact targets: IF falls to just past ELSE, ELSE to the END,
    // the END to its successor.
    assert_eq!(prog[3].1, 7);
    assert_eq!(prog[6].1, 9);
    assert_eq!(prog[9].1, 10);
}

#[test]
fn unknown_token_is_a_lex_error() {
    match load(&["1", "FROB", "+"]) {
        Err(ProgramError::Lex(e)) => {
            assert_eq!(e.word, "FROB");
            assert_eq!(e.row, 1);
            assert_eq!(e.col, 2);
            assert_eq!(e.file_path, "scenario.ts");
        }
        _ => panic!("an unknown word must be a lex error"),
    }
}

#[test]
fn keyword_mapping() {
    assert_eq!(parse_token(1, 1, "+".to_string(), "t".to_string()).unwrap(), (Operations::Plus, 0));
    assert_eq!(parse_token(1, 1, "-".to_string(), "t".to_string()).unwrap(), (Operations::Minus, 0));
    assert_eq!(parse_token(1, 1, "=?".to_string(), "t".to_string()).unwrap(), (Operations::Equal, 0));
    assert_eq!(parse_token(1, 1, ">".to_string(), "t".to_string()).unwrap(), (Operations::GreaterThan, 0));
    assert_eq!(parse_token(1, 1, "TRUE".to_string(), "t".to_string()).unwrap(), (Operations::True, 0));
    assert_eq!(parse_token(1, 1, "FALSE".to_string(), "t".to_string()).unwrap(), (Operations::False, 0));
    assert_eq!(parse_token(1, 1, "IF".to_string(), "t".to_string()).unwrap(), (Operations::If, 0));
    assert_eq!(parse_token(1, 1, "ELSE".to_string(), "t".to_string()).unwrap(), (Operations::Else, 0));
    assert_eq!(parse_token(1, 1, "END".to_string(), "t".to_string()).unwrap(), (Operations::End, 0));
    assert_eq!(parse_token(1, 1, "WHILE".to_string(), "t".to_string()).unwrap(), (Operations::While, 0));
    assert_eq!(parse_token(1, 1, "DO".to_string(), "t".to_string()).unwrap(), (Operations::Do, 0));
    assert_eq!(parse_token(1, 1, "MEMORY".to_string(), "t".to_string()).unwrap(), (Operations::Mem, 0));
    assert_eq!(parse_token(1, 1, "DUMP".to_string(), "t".to_string()).unwrap(), (Operations::Dump, 0));
    // DUPL maps to Dump, the mapping the language has always shipped with.
    assert_eq!(parse_token(1, 1, "DUPL".to_string(), "t".to_string()).unwrap(), (Operations::Dump, 0));
    assert_eq!(parse_token(1, 1, "42".to_string(), "t".to_string()).unwrap(), (Operations::Push, 42));
    assert_eq!(parse_token(1, 1, "-17".to_string(), "t".to_string()).unwrap(), (Operations::Push, -17));
}

#[test]
fn comparisons_and_booleans() {
    assert_eq!(run(&["TRUE", "DUMP"]), vec![1]);
    assert_eq!(run(&["FALSE", "DUMP"]), vec![0]);
    assert_eq!(run(&["5", "5", "=?", "DUMP"]), vec![1]);
    assert_eq!(run(&["5", "4", "=?", "DUMP"]), vec![0]);
    assert_eq!(run(&["7", "3", "-", "DUMP"]), vec![4]);
}

#[test]
fn memory_pushes_base_address() {
    // The abstract machine addresses its memory region from base zero.
    assert_eq!(run(&["MEMORY", "DUMP"]), vec![0]);
}

#[test]
fn stack_underflow_is_a_fault() {
    let prog = vec![(Operations::Plus, 0)];
    match simulate_program(&prog, 10) {
        SimOutcome::Fault { addr, output } => {
            assert_eq!(addr, 0);
            assert!(output.is_empty());
        }
        _ => panic!("adding on an empty stack must fault"),
    }
}

#[test]
fn endless_loop_exhausts_the_budget() {
    let prog = load(&["WHILE", "TRUE", "DO", "END"]).expect("program should load");
    match simulate_program(&prog, 1000) {
        SimOutcome::OutOfFuel { output } => assert!(output.is_empty()),
        _ => panic!("an endless loop must run out of budget"),
    }
}
