use vstd::prelude::*;
use vstd::string::StringExecFns;
use vstd::string::StrSliceExecFns;

verus! {

/// The ten ASCII digit characters.
pub open spec fn is_digit_char(c: char) -> bool {
    c == '0' || c == '1' || c == '2' || c == '3' || c == '4' || c == '5' || c == '6' || c == '7'
        || c == '8' || c == '9'
}

/// Numeric value of an ASCII digit character.
pub open spec fn digit_of(c: char) -> nat
    recommends
        is_digit_char(c),
{
    if c == '0' {
        0
    } else if c == '1' {
        1
    } else if c == '2' {
        2
    } else if c == '3' {
        3
    } else if c == '4' {
        4
    } else if c == '5' {
        5
    } else if c == '6' {
        6
    } else if c == '7' {
        7
    } else if c == '8' {
        8
    } else {
        9
    }
}

/// ASCII digit character for a value below ten.
pub open spec fn char_of_digit(d: nat) -> char
    recommends
        d < 10,
{
    if d == 0 {
        '0'
    } else if d == 1 {
        '1'
    } else if d == 2 {
        '2'
    } else if d == 3 {
        '3'
    } else if d == 4 {
        '4'
    } else if d == 5 {
        '5'
    } else if d == 6 {
        '6'
    } else if d == 7 {
        '7'
    } else if d == 8 {
        '8'
    } else {
        '9'
    }
}

/// Decimal digit string of a natural number, most significant digit
/// first, with no leading zeros (a single `'0'` for zero).
pub open spec fn dec_digits(n: nat) -> Seq<char>
    decreases n,
{
    if n < 10 {
        seq![char_of_digit(n)]
    } else {
        dec_digits(n / 10).push(char_of_digit(n % 10))
    }
}

/// Decimal text of a signed integer: a leading `'-'` for negatives,
/// then the digits of the magnitude.
pub open spec fn dec_int(v: int) -> Seq<char> {
    if v < 0 {
        seq!['-'] + dec_digits((-v) as nat)
    } else {
        dec_digits(v as nat)
    }
}

/// Single ASCII digit as a string.
fn digit_str(d: u8) -> (s: String)
    requires
        d < 10,
    ensures
        s@ == seq![char_of_digit(d as nat)],
{
    let lit: &str = if d == 0 {
        "0"
    } else if d == 1 {
        "1"
    } else if d == 2 {
        "2"
    } else if d == 3 {
        "3"
    } else if d == 4 {
        "4"
    } else if d == 5 {
        "5"
    } else if d == 6 {
        "6"
    } else if d == 7 {
        "7"
    } else if d == 8 {
        "8"
    } else {
        "9"
    };
    proof {
        reveal_strlit("0");
        reveal_strlit("1");
        reveal_strlit("2");
        reveal_strlit("3");
        reveal_strlit("4");
        reveal_strlit("5");
        reveal_strlit("6");
        reveal_strlit("7");
        reveal_strlit("8");
        reveal_strlit("9");
        assert(lit@ =~= seq![char_of_digit(d as nat)]);
    }
    String::from_str(lit)
}

/// Decimal text of an unsigned 64-bit value.
pub fn dec_u64(n: u64) -> (s: String)
    ensures
        s@ == dec_digits(n as nat),
    decreases n,
{
    if n < 10 {
        digit_str(n as u8)
    } else {
        let mut s = dec_u64(n / 10);
        let d = digit_str((n % 10) as u8);
        s.append(d.as_str());
        proof {
            assert(s@ =~= dec_digits(n as nat));
        }
        s
    }
}

/// Decimal text of a signed 64-bit value, as the interpreter's output
/// and the code generator's immediates print it.
pub fn dec_i64(v: i64) -> (s: String)
    ensures
        s@ == dec_int(v as int),
{
    if v >= 0 {
        dec_u64(v as u64)
    } else {
        let mag: u64 = ((-(v as i128)) as u64);
        let mut s = String::from_str("-");
        let digits = dec_u64(mag);
        s.append(digits.as_str());
        proof {
            reveal_strlit("-");
            assert(s@ =~= dec_int(v as int));
        }
        s
    }
}

/// Every character an ASCII digit.
pub open spec fn all_digits(s: Seq<char>) -> bool {
    forall|i: int| 0 <= i < s.len() ==> is_digit_char(#[trigger] s[i])
}

/// Value of a digit string read in base ten.
pub open spec fn digits_val(s: Seq<char>) -> nat
    decreases s.len(),
{
    if s.len() == 0 {
        0
    } else {
        digits_val(s.drop_last()) * 10 + digit_of(s.last())
    }
}

/// What parsing a token as a 64-bit signed integer yields: an optional
/// sign (`+` or `-`) followed by at least one ASCII digit, rejected when
/// malformed or when the value does not fit.
pub open spec fn parse_i64_spec(w: Seq<char>) -> Option<i64> {
    let neg = w.len() > 0 && w[0] == '-';
    let body = if w.len() > 0 && (w[0] == '-' || w[0] == '+') {
        w.skip(1)
    } else {
        w
    };
    if body.len() == 0 || !all_digits(body) {
        None
    } else {
        let m = digits_val(body) as int;
        let v = if neg {
            -m
        } else {
            m
        };
        if i64::MIN <= v <= i64::MAX {
            Some(v as i64)
        } else {
            None
        }
    }
}

/// Digit value of a character, `None` when it is not an ASCII digit.
fn digit_of_char(c: char) -> (r: Option<u8>)
    ensures
        r is Some <==> is_digit_char(c),
        r matches Some(d) ==> d < 10 && d as nat == digit_of(c),
{
    if c == '0' {
        Some(0)
    } else if c == '1' {
        Some(1)
    } else if c == '2' {
        Some(2)
    } else if c == '3' {
        Some(3)
    } else if c == '4' {
        Some(4)
    } else if c == '5' {
        Some(5)
    } else if c == '6' {
        Some(6)
    } else if c == '7' {
        Some(7)
    } else if c == '8' {
        Some(8)
    } else if c == '9' {
        Some(9)
    } else {
        None
    }
}

/// Parse a token as a base-10 signed 64-bit integer, exactly as
/// `parse_i64_spec` describes.
#[verifier::loop_isolation(false)]
pub fn parse_i64(s: &str) -> (r: Option<i64>)
    ensures
        r == parse_i64_spec(s@),
{
    let n = s.unicode_len();
    let mut i: usize = 0;
    let mut neg = false;
    if n > 0 {
        let c0 = s.get_char(0);
        if c0 == '-' {
            neg = true;
            i = 1;
        } else if c0 == '+' {
            i = 1;
        }
    }
    if i >= n {
        return None;
    }
    let ghost start = i as int;
    let ghost body = s@.skip(start);
    let max_mag: u128 = 0x8000_0000_0000_0000;
    let mut acc: u128 = 0;
    let mut too_big = false;
    while i < n
        invariant
            start <= i <= n,
            all_digits(s@.subrange(start, i as int)),
            !too_big ==> acc == digits_val(s@.subrange(start, i as int)) && acc <= max_mag,
            too_big ==> digits_val(s@.subrange(start, i as int)) > max_mag,
        decreases n - i,
    {
        let c = s.get_char(i);
        let ghost pre = s@.subrange(start, i as int);
        let ghost post = s@.subrange(start, i as int + 1);
        proof {
            assert(post.drop_last() =~= pre);
            assert(post.last() == s@[i as int]);
        }
        match digit_of_char(c) {
            None => {
                proof {
                    assert(body[i - start] == s@[i as int]);
                    assert(!all_digits(body));
                }
                return None;
            },
            Some(d) => {
                if !too_big {
                    let new_acc: u128 = acc * 10 + (d as u128);
                    if new_acc > max_mag {
                        too_big = true;
                        proof {
                            assert(digits_val(post) == digits_val(pre) * 10 + digit_of(s@[i as int]));
                        }
                    } else {
                        acc = new_acc;
                    }
                } else {
                    proof {
                        assert(digits_val(post) == digits_val(pre) * 10 + digit_of(s@[i as int]));
                    }
                }
            },
        }
        i = i + 1;
    }
    proof {
        assert(s@.subrange(start, n as int) =~= body);
        let w = s@;
        let spec_body = if w.len() > 0 && (w[0] == '-' || w[0] == '+') {
            w.skip(1)
        } else {
            w
        };
        assert(spec_body =~= s@.subrange(start, n as int));
    }
    if too_big {
        None
    } else if neg {
        if acc == max_mag {
            Some(i64::MIN)
        } else {
            Some(-(acc as i64))
        }
    } else {
        if acc == max_mag {
            None
        } else {
            Some(acc as i64)
        }
    }
}

} // verus!
