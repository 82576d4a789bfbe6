//! The grammar of a utilization figure.
//!
//! A figure crosses a serialization boundary as text, so it is checked here
//! before anything is published. The grammar is the one by which the
//! standard library reads a floating-point number:
//!
//! ```text
//! Float  ::= Sign? ( 'inf' | 'infinity' | 'nan' | Number )
//! Number ::= ( Digit+ | Digit+ '.' Digit* | Digit* '.' Digit+ ) Exp?
//! Exp    ::= 'e' Sign? Digit+
//! ```
//!
//! with letters in either case.

use vstd::prelude::*;
use vstd::string::StrSliceExecFns;

verus! {

pub open spec fn is_digit(c: char) -> bool {
    '0' <= c && c <= '9'
}

pub open spec fn is_sign(c: char) -> bool {
    c == '+' || c == '-'
}

pub open spec fn is_exponent_mark(c: char) -> bool {
    c == 'e' || c == 'E'
}

/// Every position of `s` from `from` up to, not including, `to` holds a
/// digit.
pub open spec fn all_digits(s: Seq<char>, from: int, to: int) -> bool {
    forall|i: int| from <= i < to ==> is_digit(#[trigger] s[i])
}

/// `from` moved past one sign, if a sign stands there.
pub open spec fn past_sign(s: Seq<char>, from: int) -> int {
    if 0 <= from < s.len() && is_sign(s[from]) {
        from + 1
    } else {
        from
    }
}

/// A mantissa fills `s` from `from` up to `to`: digits alone, or digits
/// around one point with at least one digit on either side of it.
pub open spec fn is_mantissa(s: Seq<char>, from: int, to: int) -> bool {
    ||| from < to && all_digits(s, from, to)
    ||| from + 1 < to && exists|point: int|
        from <= point < to && #[trigger] s[point] == '.' && all_digits(s, from, point)
            && all_digits(s, point + 1, to)
}

/// An exponent fills `s` from `from` to its end: the mark, an optional
/// sign, and at least one digit.
pub open spec fn is_exponent(s: Seq<char>, from: int) -> bool {
    &&& 0 <= from < s.len()
    &&& is_exponent_mark(s[from])
    &&& past_sign(s, from + 1) < s.len()
    &&& all_digits(s, past_sign(s, from + 1), s.len() as int)
}

/// A number fills `s` from `from` to its end: a mantissa, then nothing or
/// an exponent.
pub open spec fn is_number(s: Seq<char>, from: int) -> bool {
    exists|end: int|
        from <= end <= s.len() && #[trigger] is_mantissa(s, from, end) && (end == s.len()
            || is_exponent(s, end))
}

/// `s` from `from` to its end spells a word, each letter in either case:
/// `lower` holds the word in small letters, `upper` in capitals.
pub open spec fn is_word(s: Seq<char>, from: int, lower: Seq<char>, upper: Seq<char>) -> bool {
    &&& s.len() - from == lower.len()
    &&& forall|i: int|
        0 <= i < lower.len() ==> s[from + i] == #[trigger] lower[i] || s[from + i] == upper[i]
}

/// `s` from `from` to its end names an infinity or a not-a-number.
pub open spec fn is_special(s: Seq<char>, from: int) -> bool {
    ||| is_word(s, from, "inf"@, "INF"@)
    ||| is_word(s, from, "infinity"@, "INFINITY"@)
    ||| is_word(s, from, "nan"@, "NAN"@)
}

/// `s` reads as a floating-point number: after an optional sign, a number
/// or a special word fills the rest.
pub open spec fn is_float_text(s: Seq<char>) -> bool {
    is_number(s, past_sign(s, 0)) || is_special(s, past_sign(s, 0))
}

/// The first position at or after `from` that holds no digit.
spec fn digit_run(s: Seq<char>, from: int) -> int
    decreases s.len() - from,
{
    if 0 <= from < s.len() && is_digit(s[from]) {
        digit_run(s, from + 1)
    } else {
        from
    }
}

/// A run of digits is made of digits and stops at the end or at a
/// character that is none.
proof fn lemma_digit_run_stops(s: Seq<char>, from: int)
    requires
        0 <= from <= s.len(),
    ensures
        from <= digit_run(s, from) <= s.len(),
        all_digits(s, from, digit_run(s, from)),
        digit_run(s, from) == s.len() || !is_digit(s[digit_run(s, from)]),
    decreases s.len() - from,
{
    if from < s.len() && is_digit(s[from]) {
        lemma_digit_run_stops(s, from + 1);
    }
}

/// Digits that stop at `to` are the run of digits from `from`.
proof fn lemma_digit_run_is(s: Seq<char>, from: int, to: int)
    requires
        0 <= from <= to <= s.len(),
        all_digits(s, from, to),
        to == s.len() || !is_digit(s[to]),
    ensures
        digit_run(s, from) == to,
    decreases to - from,
{
    if from < to {
        assert(is_digit(s[from]));
        lemma_digit_run_is(s, from + 1, to);
    }
}

/// Where the mantissa that starts at `from` ends if it is read greedily:
/// after its leading digits and, if a point follows them, after the point
/// and the digits behind it.
spec fn mantissa_end(s: Seq<char>, from: int) -> int {
    let point = digit_run(s, from);
    if 0 <= point < s.len() && s[point] == '.' {
        digit_run(s, point + 1)
    } else {
        point
    }
}

/// The number of digits in the mantissa that is read greedily from `from`.
spec fn mantissa_digits(s: Seq<char>, from: int) -> int {
    let point = digit_run(s, from);
    if 0 <= point < s.len() && s[point] == '.' {
        mantissa_end(s, from) - from - 1
    } else {
        point - from
    }
}

/// Reading greedily from `from`, an exponent fills `s` to its end.
spec fn exponent_found(s: Seq<char>, from: int) -> bool {
    &&& 0 <= from < s.len()
    &&& is_exponent_mark(s[from])
    &&& digit_run(s, past_sign(s, from + 1)) > past_sign(s, from + 1)
    &&& digit_run(s, past_sign(s, from + 1)) == s.len()
}

/// Reading greedily from `from`, a number fills `s` to its end.
spec fn number_found(s: Seq<char>, from: int) -> bool {
    &&& mantissa_digits(s, from) > 0
    &&& (mantissa_end(s, from) == s.len() || exponent_found(s, mantissa_end(s, from)))
}

/// Greedy reading finds an exponent exactly where the grammar has one.
proof fn lemma_exponent_found(s: Seq<char>, from: int)
    requires
        0 <= from < s.len(),
    ensures
        exponent_found(s, from) == is_exponent(s, from),
{
    let first = past_sign(s, from + 1);
    lemma_digit_run_stops(s, first);
    if is_exponent(s, from) {
        lemma_digit_run_is(s, first, s.len() as int);
    }
}

/// Greedy reading finds a number exactly where the grammar has one.
proof fn lemma_number_found(s: Seq<char>, from: int)
    requires
        0 <= from <= s.len(),
    ensures
        number_found(s, from) == is_number(s, from),
{
    let point = digit_run(s, from);
    lemma_digit_run_stops(s, from);
    let pointed = point < s.len() && s[point] == '.';
    let end = mantissa_end(s, from);
    if pointed {
        lemma_digit_run_stops(s, point + 1);
    }
    if end < s.len() {
        lemma_exponent_found(s, end);
    }
    if number_found(s, from) {
        assert(is_mantissa(s, from, end));
    }
    if is_number(s, from) {
        let to = choose|to: int|
            from <= to <= s.len() && #[trigger] is_mantissa(s, from, to) && (to == s.len()
                || is_exponent(s, to));
        if from < to && all_digits(s, from, to) {
            lemma_digit_run_is(s, from, to);
        } else {
            let p = choose|p: int|
                from <= p < to && #[trigger] s[p] == '.' && all_digits(s, from, p) && all_digits(
                    s,
                    p + 1,
                    to,
                );
            lemma_digit_run_is(s, from, p);
            lemma_digit_run_is(s, p + 1, to);
        }
        assert(end == to);
    }
}

fn digit(c: char) -> (r: bool)
    ensures
        r == is_digit(c),
{
    '0' <= c && c <= '9'
}

fn sign(c: char) -> (r: bool)
    ensures
        r == is_sign(c),
{
    c == '+' || c == '-'
}

fn skip_digits(s: &str, len: usize, from: usize) -> (end: usize)
    requires
        len == s@.len(),
        from <= len,
    ensures
        end == digit_run(s@, from as int),
        from <= end <= len,
{
    let mut i: usize = from;
    while i < len && digit(s.get_char(i))
        invariant
            from <= i <= len,
            len == s@.len(),
            digit_run(s@, i as int) == digit_run(s@, from as int),
        decreases len - i,
    {
        i += 1;
    }
    i
}

fn skip_sign(s: &str, len: usize, from: usize) -> (end: usize)
    requires
        len == s@.len(),
        from <= len,
    ensures
        end == past_sign(s@, from as int),
        from <= end <= len,
{
    if from < len && sign(s.get_char(from)) {
        from + 1
    } else {
        from
    }
}

fn exponent_at(s: &str, len: usize, from: usize) -> (r: bool)
    requires
        len == s@.len(),
        from < len,
    ensures
        r == exponent_found(s@, from as int),
{
    let mark = s.get_char(from);
    if mark != 'e' && mark != 'E' {
        return false;
    }
    let first = skip_sign(s, len, from + 1);
    let end = skip_digits(s, len, first);
    end > first && end == len
}

fn number_at(s: &str, len: usize, from: usize) -> (r: bool)
    requires
        len == s@.len(),
        from <= len,
    ensures
        r == is_number(s@, from as int),
{
    proof {
        lemma_number_found(s@, from as int);
    }
    let point = skip_digits(s, len, from);
    let mut end: usize = point;
    let mut digits: usize = point - from;
    if point < len && s.get_char(point) == '.' {
        end = skip_digits(s, len, point + 1);
        digits = end - from - 1;
    }
    if digits == 0 {
        return false;
    }
    if end == len {
        return true;
    }
    exponent_at(s, len, end)
}

fn word_at(s: &str, len: usize, from: usize, lower: &str, upper: &str) -> (r: bool)
    requires
        len == s@.len(),
        from <= len,
        lower@.len() == upper@.len(),
    ensures
        r == is_word(s@, from as int, lower@, upper@),
{
    let count = lower.unicode_len();
    if len - from != count {
        return false;
    }
    let mut i: usize = 0;
    while i < count
        invariant
            i <= count,
            count == lower@.len(),
            count == upper@.len(),
            len == s@.len(),
            from + count == len,
            forall|j: int|
                0 <= j < i ==> s@[from + j] == #[trigger] lower@[j] || s@[from + j] == upper@[j],
        decreases count - i,
    {
        let c = s.get_char(from + i);
        if c != lower.get_char(i) && c != upper.get_char(i) {
            return false;
        }
        i += 1;
    }
    true
}

/// Whether `s` reads as a floating-point number: an optional sign, then a
/// number or one of the words `inf`, `infinity` and `nan`.
pub fn reads_as_float(s: &str) -> (r: bool)
    ensures
        r == is_float_text(s@),
{
    proof {
        reveal_strlit("inf");
        reveal_strlit("INF");
        reveal_strlit("infinity");
        reveal_strlit("INFINITY");
        reveal_strlit("nan");
        reveal_strlit("NAN");
    }
    let len = s.unicode_len();
    let from = skip_sign(s, len, 0);
    number_at(s, len, from) || word_at(s, len, from, "inf", "INF") || word_at(
        s,
        len,
        from,
        "infinity",
        "INFINITY",
    ) || word_at(s, len, from, "nan", "NAN")
}

} // verus!
