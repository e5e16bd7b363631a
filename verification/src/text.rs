//! Characters and tokens: the pieces of program text that the reader and
//! the node table work on.
use vstd::prelude::*;

verus! {

/// The characters of `s`, in order.
pub fn chars_of(s: &str) -> (v: Vec<char>)
    ensures
        v@ == s@,
{
    let mut v: Vec<char> = Vec::new();
    for c in it: s.chars()
        invariant
            v@ == it.seq().take(it.index() as int),
    {
        v.push(c);
    }
    v
}

/// Whether two character vectors hold the same characters.
pub fn same_chars(a: &Vec<char>, b: &Vec<char>) -> (r: bool)
    ensures
        r == (a@ == b@),
{
    if a.len() != b.len() {
        return false;
    }
    let mut i: usize = 0;
    while i < a.len()
        invariant
            a.len() == b.len(),
            i <= a.len(),
            forall|j: int| 0 <= j < i ==> a@[j] == b@[j],
        decreases a.len() - i,
    {
        if a[i] != b[i] {
            return false;
        }
        i = i + 1;
    }
    assert(a@ =~= b@);
    true
}

/// Whether the characters of `a` spell the string `b`.
pub fn spells(a: &Vec<char>, b: &str) -> (r: bool)
    ensures
        r == (a@ == b@),
{
    let bv = chars_of(b);
    same_chars(a, &bv)
}

/// `String::push`: appends one character at the end of the string.
#[verifier::external_body]
fn string_push(s: &mut String, c: char)
    ensures
        final(s)@ == old(s)@.push(c),
{
    s.push(c);
}

/// A string holding the characters of `v`.
pub fn string_of(v: &Vec<char>) -> (s: String)
    ensures
        s@ == v@,
{
    let mut s = String::new();
    let mut i: usize = 0;
    while i < v.len()
        invariant
            i <= v.len(),
            s@ == v@.take(i as int),
        decreases v.len() - i,
    {
        string_push(&mut s, v[i]);
        assert(v@.take(i as int).push(v@[i as int]) =~= v@.take(i + 1));
        i = i + 1;
    }
    assert(v@.take(v.len() as int) =~= v@);
    s
}

/// An ASCII decimal digit.
pub open spec fn is_digit(c: char) -> bool {
    '0' <= c && c <= '9'
}

/// The value of a decimal digit.
pub open spec fn digit_value(c: char) -> nat {
    (c as int - '0' as int) as nat
}

/// Every character of `s` is a decimal digit.
pub open spec fn all_digits(s: Seq<char>) -> bool {
    forall|i: int| 0 <= i < s.len() ==> is_digit(#[trigger] s[i])
}

/// The number that the decimal digits `s` spell, most significant first.
pub open spec fn digits_value(s: Seq<char>) -> nat
    decreases s.len(),
{
    if s.len() == 0 {
        0
    } else {
        digits_value(s.drop_last()) * 10 + digit_value(s.last())
    }
}

/// What `usize::from_str` accepts and gives: an optional `+`, then at least
/// one decimal digit, and a value that fits in `usize`.
pub open spec fn usize_from_chars(s: Seq<char>) -> Option<usize> {
    let d = if s.len() > 0 && s[0] == '+' {
        s.drop_first()
    } else {
        s
    };
    if d.len() > 0 && all_digits(d) && digits_value(d) <= usize::MAX {
        Some(digits_value(d) as usize)
    } else {
        None
    }
}

pub(crate) proof fn lemma_digits_value_prefix(s: Seq<char>, i: int)
    requires
        all_digits(s),
        0 <= i <= s.len(),
    ensures
        digits_value(s.take(i)) <= digits_value(s),
    decreases s.len(),
{
    if i == s.len() {
        assert(s.take(i) =~= s);
    } else {
        assert(all_digits(s.drop_last()));
        assert(s.drop_last().take(i) =~= s.take(i));
        lemma_digits_value_prefix(s.drop_last(), i);
    }
}

/// Reads a `usize` the way `usize::from_str` does.
pub fn parse_usize(s: &Vec<char>) -> (r: Option<usize>)
    ensures
        r == usize_from_chars(s@),
{
    let start: usize = if s.len() > 0 && s[0] == '+' {
        1
    } else {
        0
    };
    let ghost d = if s@.len() > 0 && s@[0] == '+' {
        s@.drop_first()
    } else {
        s@
    };
    assert(d =~= s@.subrange(start as int, s@.len() as int));
    assert(usize_from_chars(s@) == if d.len() > 0 && all_digits(d) && digits_value(d) <= usize::MAX {
        Some(digits_value(d) as usize)
    } else {
        None::<usize>
    });
    if start >= s.len() {
        return None;
    }
    let mut value: usize = 0;
    let mut i: usize = start;
    while i < s.len()
        invariant
            start <= i <= s.len(),
            d =~= s@.subrange(start as int, s@.len() as int),
            usize_from_chars(s@) == if d.len() > 0 && all_digits(d) && digits_value(d)
                <= usize::MAX {
                Some(digits_value(d) as usize)
            } else {
                None::<usize>
            },
            all_digits(s@.subrange(start as int, i as int)),
            value == digits_value(s@.subrange(start as int, i as int)),
        decreases s.len() - i,
    {
        let c = s[i];
        let ghost pre = s@.subrange(start as int, i as int);
        let ghost next = s@.subrange(start as int, i + 1);
        assert(next.drop_last() =~= pre);
        if !('0' <= c && c <= '9') {
            assert(!is_digit(d[i - start]));
            assert(!all_digits(d));
            return None;
        }
        let dv = (c as u32 - '0' as u32) as usize;
        if value > (usize::MAX - dv) / 10 {
            proof {
                assert(all_digits(next));
                assert(digits_value(next) == value * 10 + dv) by (nonlinear_arith)
                    requires
                        digits_value(next) == digits_value(pre) * 10 + digit_value(c),
                        digits_value(pre) == value,
                        digit_value(c) == dv,
                ;
                assert(value * 10 + dv > usize::MAX) by (nonlinear_arith)
                    requires
                        value > (usize::MAX - dv) / 10,
                        dv <= 9,
                ;
                if all_digits(d) {
                    assert(d.take(next.len() as int) =~= next);
                    lemma_digits_value_prefix(d, next.len() as int);
                    assert(digits_value(d) > usize::MAX);
                }
            }
            return None;
        }
        assert(value * 10 + dv <= usize::MAX) by (nonlinear_arith)
            requires
                value <= (usize::MAX - dv) / 10,
                dv <= 9,
        ;
        value = value * 10 + dv;
        i = i + 1;
    }
    assert(s@.subrange(start as int, s@.len() as int) =~= d);
    Some(value)
}

/// The digit run of `s` that starts at `from`: how far it reaches.
pub open spec fn digit_run_end(s: Seq<char>, from: int) -> int
    decreases s.len() - from,
{
    if from < 0 || from >= s.len() || !is_digit(s[from]) {
        from
    } else {
        digit_run_end(s, from + 1)
    }
}

/// An exponent part: `e` or `E`, an optional sign, then at least one digit.
pub open spec fn is_exponent(t: Seq<char>) -> bool {
    &&& t.len() >= 2
    &&& (t[0] == 'e' || t[0] == 'E')
    &&& {
        let rest = if t[1] == '+' || t[1] == '-' {
            t.subrange(2, t.len() as int)
        } else {
            t.subrange(1, t.len() as int)
        };
        rest.len() > 0 && all_digits(rest)
    }
}

/// A decimal number as `f64::from_str` reads it: digits, an optional point
/// followed by digits, at least one digit in all, then an optional exponent.
pub open spec fn is_decimal_number(s: Seq<char>) -> bool {
    let i = digit_run_end(s, 0);
    let j = if i < s.len() && s[i] == '.' {
        digit_run_end(s, i + 1)
    } else {
        i
    };
    let frac_digits = if i < s.len() && s[i] == '.' {
        j - (i + 1)
    } else {
        0
    };
    &&& i + frac_digits > 0
    &&& (j == s.len() || is_exponent(s.subrange(j, s.len() as int)))
}

/// `c` and `lower` are the same ASCII letter, up to case.
pub open spec fn same_letter(c: char, lower: char) -> bool {
    c == lower || c as int == lower as int - 32
}

/// The words `inf` and `infinity`, in any ASCII case.
pub open spec fn is_infinity_word(s: Seq<char>) -> bool {
    ||| (s.len() == 3 && same_letter(s[0], 'i') && same_letter(s[1], 'n') && same_letter(s[2], 'f'))
    ||| (s.len() == 8 && same_letter(s[0], 'i') && same_letter(s[1], 'n') && same_letter(s[2], 'f')
        && same_letter(s[3], 'i') && same_letter(s[4], 'n') && same_letter(s[5], 'i')
        && same_letter(s[6], 't') && same_letter(s[7], 'y'))
}

/// The texts that `f64::from_str` accepts and that do not stand for NaN:
/// an optional sign, then an infinity word or a decimal number.
pub open spec fn is_not_nan_float_text(s: Seq<char>) -> bool {
    let u = if s.len() > 0 && (s[0] == '+' || s[0] == '-') {
        s.drop_first()
    } else {
        s
    };
    is_infinity_word(u) || is_decimal_number(u)
}

pub(crate) fn digit_run_end_exec(s: &Vec<char>, from: usize) -> (r: usize)
    requires
        from <= s.len(),
    ensures
        r == digit_run_end(s@, from as int),
        from <= r <= s.len(),
{
    let mut i = from;
    while i < s.len() && '0' <= s[i] && s[i] <= '9'
        invariant
            from <= i <= s.len(),
            digit_run_end(s@, i as int) == digit_run_end(s@, from as int),
        decreases s.len() - i,
    {
        i = i + 1;
    }
    i
}

fn exponent_exec(s: &Vec<char>, j: usize) -> (r: bool)
    requires
        j <= s.len(),
    ensures
        r == is_exponent(s@.subrange(j as int, s@.len() as int)),
{
    let ghost t = s@.subrange(j as int, s@.len() as int);
    if s.len() - j < 2 {
        return false;
    }
    if !(s[j] == 'e' || s[j] == 'E') {
        return false;
    }
    let k: usize = if s[j + 1] == '+' || s[j + 1] == '-' {
        j + 2
    } else {
        j + 1
    };
    let ghost rest = if t[1] == '+' || t[1] == '-' {
        t.subrange(2, t.len() as int)
    } else {
        t.subrange(1, t.len() as int)
    };
    assert(rest =~= s@.subrange(k as int, s@.len() as int));
    if k >= s.len() {
        return false;
    }
    let e = digit_run_end_exec(s, k);
    proof {
        lemma_digit_run(s@, k as int);
    }
    if e == s.len() {
        assert forall|x: int| 0 <= x < rest.len() implies is_digit(#[trigger] rest[x]) by {
            assert(rest[x] == s@[k + x]);
        }
        true
    } else {
        assert(!is_digit(rest[e - k]));
        false
    }
}

pub(crate) proof fn lemma_digit_run(s: Seq<char>, from: int)
    requires
        0 <= from <= s.len(),
    ensures
        from <= digit_run_end(s, from) <= s.len(),
        forall|x: int| from <= x < digit_run_end(s, from) ==> is_digit(#[trigger] s[x]),
        digit_run_end(s, from) < s.len() ==> !is_digit(s[digit_run_end(s, from)]),
    decreases s.len() - from,
{
    if from < s.len() && is_digit(s[from]) {
        lemma_digit_run(s, from + 1);
    }
}

fn letter_is(c: char, lower: char) -> (r: bool)
    requires
        'a' <= lower <= 'z',
    ensures
        r == same_letter(c, lower),
{
    c == lower || (c as u32) + 32 == lower as u32
}

/// Whether `s` is a text that `f64::from_str` reads as a number other than NaN.
pub fn is_not_nan_float(s: &Vec<char>) -> (r: bool)
    ensures
        r == is_not_nan_float_text(s@),
{
    let start: usize = if s.len() > 0 && (s[0] == '+' || s[0] == '-') {
        1
    } else {
        0
    };
    let mut u: Vec<char> = Vec::new();
    let mut k = start;
    while k < s.len()
        invariant
            start <= k <= s.len(),
            u@ =~= s@.subrange(start as int, k as int),
        decreases s.len() - k,
    {
        u.push(s[k]);
        k = k + 1;
    }
    let ghost uu = if s@.len() > 0 && (s@[0] == '+' || s@[0] == '-') {
        s@.drop_first()
    } else {
        s@
    };
    assert(u@ =~= uu);
    let inf3 = u.len() == 3 && letter_is(u[0], 'i') && letter_is(u[1], 'n') && letter_is(u[2], 'f');
    let inf8 = u.len() == 8 && letter_is(u[0], 'i') && letter_is(u[1], 'n') && letter_is(u[2], 'f')
        && letter_is(u[3], 'i') && letter_is(u[4], 'n') && letter_is(u[5], 'i') && letter_is(
        u[6],
        't',
    ) && letter_is(u[7], 'y');
    if inf3 || inf8 {
        return true;
    }
    let i = digit_run_end_exec(&u, 0);
    let has_point = i < u.len() && u[i] == '.';
    let j = if has_point {
        digit_run_end_exec(&u, i + 1)
    } else {
        i
    };
    let frac_digits = if has_point {
        j - (i + 1)
    } else {
        0
    };
    if i + frac_digits == 0 {
        return false;
    }
    if j == u.len() {
        true
    } else {
        exponent_exec(&u, j)
    }
}

/// The characters that `char::is_whitespace` accepts (Unicode `White_Space`).
pub open spec fn is_white_space(c: char) -> bool {
    ||| ('\t' <= c && c <= '\r')
    ||| c == ' '
    ||| c == '\u{85}'
    ||| c == '\u{A0}'
    ||| c == '\u{1680}'
    ||| ('\u{2000}' <= c && c <= '\u{200A}')
    ||| c == '\u{2028}'
    ||| c == '\u{2029}'
    ||| c == '\u{202F}'
    ||| c == '\u{205F}'
    ||| c == '\u{3000}'
}

fn white_space(c: char) -> (r: bool)
    ensures
        r == is_white_space(c),
{
    ('\t' <= c && c <= '\r') || c == ' ' || c == '\u{85}' || c == '\u{A0}' || c == '\u{1680}' || (
    '\u{2000}' <= c && c <= '\u{200A}') || c == '\u{2028}' || c == '\u{2029}' || c == '\u{202F}'
        || c == '\u{205F}' || c == '\u{3000}'
}

/// Where the text that `str::trim` keeps starts.
pub open spec fn trim_start(s: Seq<char>, from: int) -> int
    decreases s.len() - from,
{
    if from < 0 || from >= s.len() || !is_white_space(s[from]) {
        from
    } else {
        trim_start(s, from + 1)
    }
}

/// Where the text that `str::trim` keeps ends, searching down from `to`.
pub open spec fn trim_end(s: Seq<char>, lo: int, to: int) -> int
    decreases to - lo,
{
    if to <= lo || !is_white_space(s[to - 1]) {
        to
    } else {
        trim_end(s, lo, to - 1)
    }
}

/// The text that `str::trim` keeps: `s` without leading and trailing white space.
pub open spec fn trimmed(s: Seq<char>) -> Seq<char> {
    let lo = trim_start(s, 0);
    let hi = trim_end(s, lo, s.len() as int);
    s.subrange(lo, hi)
}

proof fn lemma_trim_bounds(s: Seq<char>, from: int, lo: int, to: int)
    requires
        0 <= from <= s.len(),
        0 <= lo <= to <= s.len(),
    ensures
        from <= trim_start(s, from) <= s.len(),
        lo <= trim_end(s, lo, to) <= to,
    decreases s.len() - from + (to - lo),
{
    if from < s.len() && is_white_space(s[from]) {
        lemma_trim_bounds(s, from + 1, lo, to);
    } else if to > lo && is_white_space(s[to - 1]) {
        lemma_trim_bounds(s, from, lo, to - 1);
    }
}

/// The characters of `s` without leading and trailing white space, as `str::trim` gives them.
pub fn trim_chars(s: &Vec<char>) -> (r: Vec<char>)
    ensures
        r@ == trimmed(s@),
{
    let mut lo: usize = 0;
    while lo < s.len() && white_space(s[lo])
        invariant
            lo <= s.len(),
            trim_start(s@, lo as int) == trim_start(s@, 0),
        decreases s.len() - lo,
    {
        lo = lo + 1;
    }
    let mut hi: usize = s.len();
    while hi > lo && white_space(s[hi - 1])
        invariant
            lo <= hi <= s.len(),
            trim_end(s@, lo as int, hi as int) == trim_end(s@, lo as int, s@.len() as int),
        decreases hi - lo,
    {
        hi = hi - 1;
    }
    let mut r: Vec<char> = Vec::new();
    let mut k = lo;
    while k < hi
        invariant
            lo <= k <= hi,
            hi <= s.len(),
            r@ =~= s@.subrange(lo as int, k as int),
        decreases hi - k,
    {
        r.push(s[k]);
        k = k + 1;
    }
    r
}

} // verus!
