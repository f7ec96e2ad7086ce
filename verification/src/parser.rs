use vstd::prelude::*;
use vstd::string::StrSliceExecFns;
use crate::decimal::parse_i64;
use crate::decimal::parse_i64_spec;
use crate::operations::Operations;
use crate::operations::is_control;
use crate::operations::unresolved;
use crate::resolver::StructureError;
use crate::resolver::crossreference_blocks;
use crate::resolver::resolve_spec;

verus! {

/// A token that is neither a keyword nor a well-formed integer literal,
/// reported with the position the token source gave for it.
#[derive(Debug)]
pub struct LexError {
    pub row: usize,
    pub col: usize,
    pub word: String,
    pub file_path: String,
}

/// Why no program could be built: a token that means nothing, or block
/// structure that does not match.
#[derive(Debug)]
pub enum ProgramError {
    Lex(LexError),
    Structure(StructureError),
}

/// Character-for-character string equality.
fn str_eq(a: &str, b: &str) -> (r: bool)
    ensures
        r == (a@ == b@),
{
    let na = a.unicode_len();
    let nb = b.unicode_len();
    if na != nb {
        return false;
    }
    let mut i: usize = 0;
    while i < na
        invariant
            i <= na,
            na == a@.len(),
            na == b@.len(),
            forall|j: int| 0 <= j < i ==> a@[j] == b@[j],
        decreases na - i,
    {
        if a.get_char(i) != b.get_char(i) {
            return false;
        }
        i = i + 1;
    }
    proof {
        assert(a@ =~= b@);
    }
    true
}

/// The instruction a token's text builds: a keyword's operation with a
/// zero immediate, or `Push` of an integer literal's value; `None` for
/// anything else. The source keyword `DUPL` maps to `Dump`, the mapping
/// this language has always shipped with; the distinct `Dupl`
/// stack-duplication operation has no surface keyword and is reachable
/// only by building instructions directly.
pub open spec fn parse_token_spec(w: Seq<char>) -> Option<(Operations, i64)> {
    if w == "+"@ {
        Some((Operations::Plus, 0i64))
    } else if w == "-"@ {
        Some((Operations::Minus, 0i64))
    } else if w == "DUMP"@ {
        Some((Operations::Dump, 0i64))
    } else if w == "=?"@ {
        Some((Operations::Equal, 0i64))
    } else if w == ">"@ {
        Some((Operations::GreaterThan, 0i64))
    } else if w == "TRUE"@ {
        Some((Operations::True, 0i64))
    } else if w == "FALSE"@ {
        Some((Operations::False, 0i64))
    } else if w == "IF"@ {
        Some((Operations::If, 0i64))
    } else if w == "ELSE"@ {
        Some((Operations::Else, 0i64))
    } else if w == "END"@ {
        Some((Operations::End, 0i64))
    } else if w == "WHILE"@ {
        Some((Operations::While, 0i64))
    } else if w == "DO"@ {
        Some((Operations::Do, 0i64))
    } else if w == "DUPL"@ {
        Some((Operations::Dump, 0i64))
    } else if w == "MEMORY"@ {
        Some((Operations::Mem, 0i64))
    } else {
        match parse_i64_spec(w) {
            Some(v) => Some((Operations::Push, v)),
            None => None,
        }
    }
}

/// The instruction builder for one token: its operation tag and
/// immediate, or a lex error carrying the token's position, exactly as
/// `parse_token_spec` describes.
pub fn parse_token(row: usize, col: usize, word: String, file_path: String) -> (r: Result<
    (Operations, i64),
    LexError,
>)
    ensures
        match r {
            Ok(inst) => parse_token_spec(word@) == Some(inst),
            Err(e) => parse_token_spec(word@) is None && e.row == row && e.col == col && e.word@
                == word@ && e.file_path@ == file_path@,
        },
{
    let w = word.as_str();
    if str_eq(w, "+") {
        Ok((Operations::Plus, 0))
    } else if str_eq(w, "-") {
        Ok((Operations::Minus, 0))
    } else if str_eq(w, "DUMP") {
        Ok((Operations::Dump, 0))
    } else if str_eq(w, "=?") {
        Ok((Operations::Equal, 0))
    } else if str_eq(w, ">") {
        Ok((Operations::GreaterThan, 0))
    } else if str_eq(w, "TRUE") {
        Ok((Operations::True, 0))
    } else if str_eq(w, "FALSE") {
        Ok((Operations::False, 0))
    } else if str_eq(w, "IF") {
        Ok((Operations::If, 0))
    } else if str_eq(w, "ELSE") {
        Ok((Operations::Else, 0))
    } else if str_eq(w, "END") {
        Ok((Operations::End, 0))
    } else if str_eq(w, "WHILE") {
        Ok((Operations::While, 0))
    } else if str_eq(w, "DO") {
        Ok((Operations::Do, 0))
    } else if str_eq(w, "DUPL") {
        Ok((Operations::Dump, 0))
    } else if str_eq(w, "MEMORY") {
        Ok((Operations::Mem, 0))
    } else {
        match parse_i64(w) {
            Some(v) => Ok((Operations::Push, v)),
            None => Err(LexError { row, col, word, file_path }),
        }
    }
}

/// Every token's text builds an instruction.
pub open spec fn tokens_ok(tokens: Seq<(String, usize, usize)>) -> bool {
    forall|i: int|
        0 <= i < tokens.len() ==> parse_token_spec(#[trigger] tokens[i].0@) is Some
}

/// The unresolved program a well-formed token sequence builds, one
/// instruction per token, in order.
pub open spec fn built_program(tokens: Seq<(String, usize, usize)>) -> Seq<(Operations, i64)> {
    Seq::new(tokens.len(), |i: int| parse_token_spec(tokens[i].0@).unwrap())
}

/// Token `i` is the first whose text builds no instruction.
pub open spec fn first_bad_token(tokens: Seq<(String, usize, usize)>, i: int) -> bool {
    &&& 0 <= i < tokens.len()
    &&& parse_token_spec(tokens[i].0@) is None
    &&& forall|j: int| 0 <= j < i ==> parse_token_spec(#[trigger] tokens[j].0@) is Some
}

/// A program freshly built from well-formed tokens is unresolved: the
/// instruction builder writes the zero placeholder into every
/// control-flow immediate. Resolution is therefore invoked on exactly
/// such programs — `crossreference_blocks` requires `unresolved`, which
/// its own output in general no longer satisfies, so a program cannot
/// meaningfully be resolved twice.
pub proof fn lemma_built_program_unresolved(tokens: Seq<(String, usize, usize)>)
    requires
        tokens_ok(tokens),
    ensures
        unresolved(built_program(tokens)),
{
    let p = built_program(tokens);
    assert forall|i: int| 0 <= i < p.len() && is_control(#[trigger] p[i].0) implies p[i].1
        == 0 by {
        assert(parse_token_spec(tokens[i].0@) is Some);
    }
}

/// Build the unresolved program from a token stream — each token a
/// `(text, line, column)` triple as the token source hands them over —
/// then resolve its block structure. The first token that means nothing
/// aborts with its position before resolution; a malformed block
/// structure aborts with the structure error; otherwise the resolved
/// program comes back with every jump immediate patched.
#[verifier::loop_isolation(false)]
pub fn load_program_from_file(tokens: Vec<(String, usize, usize)>, file_path: &str) -> (r: Result<
    Vec<(Operations, i64)>,
    ProgramError,
>)
    requires
        // Instruction addresses must be representable in the 64-bit
        // signed immediates.
        tokens@.len() < 0x7fff_ffff_ffff_ffff,
    ensures
        match r {
            Ok(p) => tokens_ok(tokens@) && resolve_spec(built_program(tokens@)) == Ok::<
                _,
                StructureError,
            >(p@) && crate::operations::jumps_in_range(p@),
            Err(ProgramError::Lex(e)) => exists|i: int|
                first_bad_token(tokens@, i) && e.row == #[trigger] tokens@[i].1 && e.col
                    == tokens@[i].2 && e.word@ == tokens@[i].0@ && e.file_path@ == file_path@,
            Err(ProgramError::Structure(e)) => tokens_ok(tokens@) && resolve_spec(
                built_program(tokens@),
            ) == Err::<Seq<(Operations, i64)>, _>(e),
        },
{
    let mut program: Vec<(Operations, i64)> = Vec::new();
    let mut k: usize = 0;
    while k < tokens.len()
        invariant
            k <= tokens@.len(),
            program@.len() == k,
            forall|j: int|
                0 <= j < k ==> parse_token_spec(#[trigger] tokens@[j].0@) == Some(program@[j]),
            unresolved(program@),
        decreases tokens@.len() - k,
    {
        let t = &tokens[k];
        let word = t.0.clone();
        let row = t.1;
        let col = t.2;
        let fp = String::from_str(file_path);
        match parse_token(row, col, word, fp) {
            Ok(inst) => {
                proof {
                    assert(is_control(inst.0) ==> inst.1 == 0);
                }
                program.push(inst);
            },
            Err(e) => {
                proof {
                    assert(first_bad_token(tokens@, k as int));
                }
                return Err(ProgramError::Lex(e));
            },
        }
        k = k + 1;
    }
    proof {
        assert(program@ =~= built_program(tokens@));
    }
    match crossreference_blocks(program) {
        Ok(p) => Ok(p),
        Err(e) => Err(ProgramError::Structure(e)),
    }
}

} // verus!
