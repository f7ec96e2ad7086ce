use vstd::prelude::*;
use vstd::string::StrSliceExecFns;
use vstd::string::StringExecFns;

verus! {

/// Whether a character counts as white space for token splitting.
pub uninterp spec fn is_space_spec(c: char) -> bool;

/// Relies on char::is_whitespace: whether the character has the Unicode
/// White_Space property, a function of the character alone. Space, tab,
/// line feed and carriage return are documented members.
#[verifier::external_body]
fn is_whitespace_char(c: char) -> (r: bool)
    ensures
        r == is_space_spec(c),
        (c == ' ' || c == '\t' || c == '\n' || c == '\r') ==> r,
{
    c.is_whitespace()
}

/// First column at or after `col` whose character satisfies the
/// predicate, or the end of the line.
#[verifier::loop_isolation(false)]
pub fn find_col<F: Fn(char) -> bool>(line: &str, col: usize, predicate: F) -> (r: usize)
    requires
        forall|c: char| predicate.requires((c,)),
    ensures
        col <= r,
        line@.len() <= col ==> r == col,
        col <= line@.len() ==> r <= line@.len(),
        forall|j: int| col <= j < r ==> call_ensures(predicate, (line@[j],), false),
        r < line@.len() ==> call_ensures(predicate, (line@[r as int],), true),
{
    let n = line.unicode_len();
    let mut c = col;
    while c < n
        invariant
            col <= c,
            col <= n ==> c <= n,
            col > n ==> c == col,
            n == line@.len(),
            forall|j: int| col <= j < c ==> call_ensures(predicate, (line@[j],), false),
        decreases n - c,
    {
        let ch = line.get_char(c);
        if predicate(ch) {
            return c;
        }
        c = c + 1;
    }
    c
}

/// First column at or after `col` holding a character that is not white
/// space, or the end of the line: where the next word starts.
pub fn strip_col(line: &str, col: usize) -> (r: usize)
    ensures
        col <= r,
        line@.len() <= col ==> r == col,
        col <= line@.len() ==> r <= line@.len(),
        forall|j: int| col <= j < r ==> is_space_spec(line@[j]),
        r < line@.len() ==> !is_space_spec(line@[r as int]),
{
    let n = line.unicode_len();
    let mut c = col;
    while c < n
        invariant
            col <= c,
            col <= n ==> c <= n,
            col > n ==> c == col,
            n == line@.len(),
            forall|j: int| col <= j < c ==> is_space_spec(line@[j]),
        decreases n - c,
    {
        let ch = line.get_char(c);
        if !is_whitespace_char(ch) {
            return c;
        }
        c = c + 1;
    }
    c
}

/// First column at or after `col` holding white space, or the end of
/// the line: where the word that starts at `col` ends.
pub fn chop_word(line: &str, col: usize) -> (r: usize)
    ensures
        col <= r,
        line@.len() <= col ==> r == col,
        col <= line@.len() ==> r <= line@.len(),
        forall|j: int| col <= j < r ==> !is_space_spec(line@[j]),
        r < line@.len() ==> is_space_spec(line@[r as int]),
{
    let n = line.unicode_len();
    let mut c = col;
    while c < n
        invariant
            col <= c,
            col <= n ==> c <= n,
            col > n ==> c == col,
            n == line@.len(),
            forall|j: int| col <= j < c ==> !is_space_spec(line@[j]),
        decreases n - c,
    {
        let ch = line.get_char(c);
        if is_whitespace_char(ch) {
            return c;
        }
        c = c + 1;
    }
    c
}

/// The words of `s` from position `i` on, with `cur` the partial word
/// read so far: white space ends the current word, any other character
/// extends it.
pub open spec fn split_ws_acc(s: Seq<char>, i: int, cur: Seq<char>) -> Seq<Seq<char>>
    decreases s.len() - i,
{
    if i < 0 || i >= s.len() {
        if cur.len() == 0 {
            Seq::empty()
        } else {
            seq![cur]
        }
    } else if is_space_spec(s[i]) {
        if cur.len() == 0 {
            split_ws_acc(s, i + 1, Seq::empty())
        } else {
            seq![cur] + split_ws_acc(s, i + 1, Seq::empty())
        }
    } else {
        split_ws_acc(s, i + 1, cur.push(s[i]))
    }
}

/// The words of a line: its maximal runs of non-white-space characters,
/// in order.
pub open spec fn split_ws(s: Seq<char>) -> Seq<Seq<char>> {
    split_ws_acc(s, 0, Seq::empty())
}

/// Reading a run of non-white-space characters extends the current
/// word by exactly that run.
proof fn lemma_split_ws_word(s: Seq<char>, i: int, end: int, cur: Seq<char>)
    requires
        0 <= i <= end <= s.len(),
        forall|j: int| i <= j < end ==> !is_space_spec(s[j]),
    ensures
        split_ws_acc(s, i, cur) == split_ws_acc(s, end, cur + s.subrange(i, end)),
    decreases end - i,
{
    if i == end {
        assert(cur + s.subrange(i, end) =~= cur);
    } else {
        lemma_split_ws_word(s, i + 1, end, cur.push(s[i]));
        assert(cur.push(s[i]) + s.subrange(i + 1, end) =~= cur + s.subrange(i, end));
    }
}

/// Skipping white space with no word in progress changes nothing.
proof fn lemma_split_ws_skip(s: Seq<char>, i: int, end: int)
    requires
        0 <= i <= end <= s.len(),
        forall|j: int| i <= j < end ==> is_space_spec(s[j]),
    ensures
        split_ws_acc(s, i, Seq::empty()) == split_ws_acc(s, end, Seq::empty()),
    decreases end - i,
{
    if i < end {
        lemma_split_ws_skip(s, i + 1, end);
    }
}

/// Tokenize a line: its words in order, white space dropped.
#[verifier::loop_isolation(false)]
pub fn lex_line(line: &str) -> (r: Vec<String>)
    ensures
        r@.len() == split_ws(line@).len(),
        forall|i: int| 0 <= i < r@.len() ==> #[trigger] r@[i]@ == split_ws(line@)[i],
{
    let n = line.unicode_len();
    let mut result: Vec<String> = Vec::new();
    let mut col: usize = 0;
    while col < n
        invariant
            col <= n,
            split_ws(line@) == Seq::new(result@.len(), |i: int| result@[i]@) + split_ws_acc(
                line@,
                col as int,
                Seq::empty(),
            ),
        decreases n - col,
    {
        let start = strip_col(line, col);
        proof {
            lemma_split_ws_skip(line@, col as int, start as int);
        }
        if start >= n {
            col = start;
        } else {
            let end = chop_word(line, start);
            let word = line.substring_char(start, end);
            let ghost w = line@.subrange(start as int, end as int);
            let ghost oldviews = Seq::new(result@.len(), |i: int| result@[i]@);
            proof {
                lemma_split_ws_word(line@, start as int, end as int, Seq::empty());
                assert(Seq::<char>::empty() + w =~= w);
                // The word just read is one entry, whether the line
                // ends at `end` or white space follows.
                assert(split_ws_acc(line@, end as int, w) =~= seq![w] + split_ws_acc(
                    line@,
                    end as int,
                    Seq::empty(),
                ));
            }
            result.push(String::from_str(word));
            proof {
                assert(Seq::new(result@.len(), |i: int| result@[i]@) =~= oldviews.push(w));
                assert(oldviews.push(w) + split_ws_acc(line@, end as int, Seq::empty()) =~=
                    oldviews + (seq![w] + split_ws_acc(line@, end as int, Seq::empty())));
            }
            col = end;
        }
    }
    proof {
        assert(Seq::new(result@.len(), |i: int| result@[i]@) + split_ws_acc(
            line@,
            col as int,
            Seq::empty(),
        ) =~= Seq::new(result@.len(), |i: int| result@[i]@));
    }
    result
}

} // verus!
