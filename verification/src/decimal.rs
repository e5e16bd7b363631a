//! The number that a float literal stands for, in a form that two texts
//! share exactly when they stand for the same number: `1.0`, `1.00`,
//! `+1` and `0.1e1` all have one form.
use crate::text::{
    digit_run_end, digit_run_end_exec, digits_value, is_digit, is_infinity_word,
    is_not_nan_float, is_not_nan_float_text, lemma_digit_run, lemma_digits_value_prefix,
    same_chars, all_digits,
};
use vstd::prelude::*;

verus! {

/// The largest exponent read as a number; a literal with a larger exponent
/// is compared by its text.
pub const EXPONENT_BOUND: u128 = 1_000_000_000_000_000_000_000_000_000_000u128;

/// The number that a literal text stands for.
pub enum DecimalForm {
    /// Zero, of either sign.
    Zero,
    /// `digits × 10^exponent`, negated where `negative`; `digits` has no
    /// leading or trailing zero.
    Finite { negative: bool, digits: Seq<char>, exponent: int },
    /// An infinity.
    Infinite { negative: bool },
    /// A text that is not a float literal, or whose exponent is past
    /// `EXPONENT_BOUND`: it stands for itself.
    Unread { text: Seq<char> },
}

/// The text without its sign.
pub open spec fn unsigned_part(s: Seq<char>) -> Seq<char> {
    if s.len() > 0 && (s[0] == '+' || s[0] == '-') {
        s.drop_first()
    } else {
        s
    }
}

/// Whether the text starts with a minus sign.
pub open spec fn is_negative(s: Seq<char>) -> bool {
    s.len() > 0 && s[0] == '-'
}

/// The digits of an exponent part `e±ddd`.
pub open spec fn exponent_digits(t: Seq<char>) -> Seq<char> {
    if t[1] == '+' || t[1] == '-' {
        t.subrange(2, t.len() as int)
    } else {
        t.subrange(1, t.len() as int)
    }
}

/// The value of an exponent part `e±ddd`.
pub open spec fn exponent_value(t: Seq<char>) -> int {
    if t[1] == '-' {
        -digits_value(exponent_digits(t))
    } else {
        digits_value(exponent_digits(t)) as int
    }
}

/// The first position from `from` on that holds no `0`.
pub open spec fn first_nonzero(s: Seq<char>, from: int) -> int
    decreases s.len() - from,
{
    if from < 0 || from >= s.len() || s[from] != '0' {
        from
    } else {
        first_nonzero(s, from + 1)
    }
}

/// The end of `s.take(to)` once its trailing zeros are dropped.
pub open spec fn last_nonzero_end(s: Seq<char>, to: int) -> int
    decreases to,
{
    if to <= 0 || to > s.len() || s[to - 1] != '0' {
        to
    } else {
        last_nonzero_end(s, to - 1)
    }
}

/// The form of the number that the unsigned float text `u` stands for,
/// negated where `negative`; `None` where its exponent is past
/// `EXPONENT_BOUND`.
pub open spec fn number_form(u: Seq<char>, negative: bool) -> Option<DecimalForm> {
    let i = digit_run_end(u, 0);
    let has_point = i < u.len() && u[i] == '.';
    let j = if has_point {
        digit_run_end(u, i + 1)
    } else {
        i
    };
    let frac = if has_point {
        u.subrange(i + 1, j)
    } else {
        Seq::empty()
    };
    let all = u.subrange(0, i) + frac;
    let exp = if j < u.len() {
        u.subrange(j, u.len() as int)
    } else {
        seq!['e', '0']
    };
    if digits_value(exponent_digits(exp)) > EXPONENT_BOUND {
        None
    } else {
        let lo = first_nonzero(all, 0);
        let hi = last_nonzero_end(all, all.len() as int);
        if lo >= all.len() {
            Some(DecimalForm::Zero)
        } else {
            Some(
                DecimalForm::Finite {
                    negative,
                    digits: all.subrange(lo, hi),
                    exponent: exponent_value(exp) - frac.len() + (all.len() - hi),
                },
            )
        }
    }
}

/// The form of the number that the text `t` stands for.
pub open spec fn decimal_form(t: Seq<char>) -> DecimalForm {
    let u = unsigned_part(t);
    if !is_not_nan_float_text(t) {
        DecimalForm::Unread { text: t }
    } else if is_infinity_word(u) {
        DecimalForm::Infinite { negative: is_negative(t) }
    } else {
        match number_form(u, is_negative(t)) {
            Some(f) => f,
            None => DecimalForm::Unread { text: t },
        }
    }
}

proof fn lemma_first_nonzero(s: Seq<char>, from: int)
    requires
        0 <= from <= s.len(),
    ensures
        from <= first_nonzero(s, from) <= s.len(),
        forall|x: int| from <= x < first_nonzero(s, from) ==> #[trigger] s[x] == '0',
        first_nonzero(s, from) < s.len() ==> s[first_nonzero(s, from)] != '0',
    decreases s.len() - from,
{
    if from < s.len() && s[from] == '0' {
        lemma_first_nonzero(s, from + 1);
    }
}

proof fn lemma_last_nonzero_end(s: Seq<char>, to: int)
    requires
        0 <= to <= s.len(),
    ensures
        0 <= last_nonzero_end(s, to) <= to,
        forall|x: int| last_nonzero_end(s, to) <= x < to ==> #[trigger] s[x] == '0',
        last_nonzero_end(s, to) > 0 ==> s[last_nonzero_end(s, to) - 1] != '0',
    decreases to,
{
    if to > 0 && s[to - 1] == '0' {
        lemma_last_nonzero_end(s, to - 1);
    }
}

/// The form of a number, held in a program.
struct FormData {
    kind: u8,
    negative: bool,
    digits: Vec<char>,
    exponent: i128,
}

impl FormData {
    spec fn form(self, t: Seq<char>) -> DecimalForm {
        if self.kind == 0 {
            DecimalForm::Zero
        } else if self.kind == 1 {
            DecimalForm::Finite {
                negative: self.negative,
                digits: self.digits@,
                exponent: self.exponent as int,
            }
        } else if self.kind == 2 {
            DecimalForm::Infinite { negative: self.negative }
        } else {
            DecimalForm::Unread { text: t }
        }
    }
}

/// The value of the digits `s[from..]`, or `None` where it passes
/// `EXPONENT_BOUND`.
fn bounded_digits_value(s: &Vec<char>, from: usize) -> (r: Option<u128>)
    requires
        from <= s.len(),
        all_digits(s@.subrange(from as int, s@.len() as int)),
    ensures
        match r {
            Some(v) => v == digits_value(s@.subrange(from as int, s@.len() as int)) && v
                <= EXPONENT_BOUND,
            None => digits_value(s@.subrange(from as int, s@.len() as int)) > EXPONENT_BOUND,
        },
{
    let ghost d = s@.subrange(from as int, s@.len() as int);
    let mut v: u128 = 0;
    let mut i: usize = from;
    while i < s.len()
        invariant
            from <= i <= s.len(),
            d == s@.subrange(from as int, s@.len() as int),
            all_digits(d),
            v == digits_value(s@.subrange(from as int, i as int)),
            v <= EXPONENT_BOUND,
        decreases s.len() - i,
    {
        let ghost pre = s@.subrange(from as int, i as int);
        let ghost next = s@.subrange(from as int, i + 1);
        assert(next.drop_last() =~= pre);
        assert(is_digit(d[i - from]));
        let dv = (s[i] as u32 - '0' as u32) as u128;
        assert(v * 10 + dv <= u128::MAX) by (nonlinear_arith)
            requires
                v <= EXPONENT_BOUND,
                dv <= 9,
        ;
        let w = v * 10 + dv;
        assert(w == digits_value(next));
        if w > EXPONENT_BOUND {
            proof {
                assert(d.take(next.len() as int) =~= next);
                lemma_digits_value_prefix(d, next.len() as int);
            }
            return None;
        }
        v = w;
        i = i + 1;
    }
    Some(v)
}

/// The form of the number that `t` stands for.
fn form_of(t: &Vec<char>) -> (r: FormData)
    ensures
        r.form(t@) == decimal_form(t@),
        r.kind <= 3,
{
    let unread = FormData { kind: 3, negative: false, digits: Vec::new(), exponent: 0 };
    if !is_not_nan_float(t) {
        return unread;
    }
    let negative = t.len() > 0 && t[0] == '-';
    let start: usize = if t.len() > 0 && (t[0] == '+' || t[0] == '-') {
        1
    } else {
        0
    };
    let mut u: Vec<char> = Vec::new();
    let mut k = start;
    while k < t.len()
        invariant
            start <= k <= t.len(),
            u@ =~= t@.subrange(start as int, k as int),
        decreases t.len() - k,
    {
        u.push(t[k]);
        k = k + 1;
    }
    assert(u@ =~= unsigned_part(t@));
    if is_infinity(&u) {
        return FormData { kind: 2, negative, digits: Vec::new(), exponent: 0 };
    }
    proof {
        assert(crate::text::is_decimal_number(u@));
    }
    match number_form_of(&u, negative) {
        Some(f) => f,
        None => unread,
    }
}

/// The form of the number that the unsigned float text `u` stands for.
#[verifier::rlimit(40)]
fn number_form_of(u: &Vec<char>, negative: bool) -> (r: Option<FormData>)
    requires
        crate::text::is_decimal_number(u@),
    ensures
        match r {
            Some(f) => number_form(u@, negative) == Some(f.form(Seq::empty())) && f.kind <= 1,
            None => number_form(u@, negative) is None,
        },
{
    let i = digit_run_end_exec(u, 0);
    let has_point = i < u.len() && u[i] == '.';
    let j = if has_point {
        digit_run_end_exec(u, i + 1)
    } else {
        i
    };
    proof {
        lemma_digit_run(u@, 0);
        if has_point {
            lemma_digit_run(u@, i + 1);
        }
    }
    let mut all: Vec<char> = Vec::new();
    let mut x: usize = 0;
    while x < i
        invariant
            x <= i <= u@.len(),
            all@ =~= u@.subrange(0, x as int),
        decreases i - x,
    {
        all.push(u[x]);
        x = x + 1;
    }
    let frac_start: usize = if has_point {
        i + 1
    } else {
        j
    };
    let mut y: usize = frac_start;
    while y < j
        invariant
            frac_start <= y <= j <= u@.len(),
            all@ =~= u@.subrange(0, i as int) + u@.subrange(frac_start as int, y as int),
        decreases j - y,
    {
        all.push(u[y]);
        y = y + 1;
    }
    let frac_len: usize = j - frac_start;
    let ghost frac = if has_point {
        u@.subrange(i + 1, j as int)
    } else {
        Seq::<char>::empty()
    };
    assert(all@ =~= u@.subrange(0, i as int) + frac);
    let ghost exp = if j < u@.len() {
        u@.subrange(j as int, u@.len() as int)
    } else {
        seq!['e', '0']
    };
    let (exp_negative, exp_magnitude): (bool, u128) = if j < u.len() {
        assert(crate::text::is_exponent(exp));
        let ds: usize = if u[j + 1] == '+' || u[j + 1] == '-' {
            j + 2
        } else {
            j + 1
        };
        assert(exponent_digits(exp) =~= u@.subrange(ds as int, u@.len() as int));
        match bounded_digits_value(u, ds) {
            Some(v) => (u[j + 1] == '-', v),
            None => {
                return None;
            },
        }
    } else {
        proof {
            assert(exponent_digits(exp) =~= seq!['0']);
            let zero = seq!['0'];
            assert(zero.drop_last() =~= Seq::<char>::empty());
            assert(zero.last() == '0');
            assert(digits_value(zero.drop_last()) == 0);
            assert(digits_value(zero) == 0);
        }
        (false, 0)
    };
    let lo = first_nonzero_exec(&all, 0);
    proof {
        lemma_first_nonzero(all@, 0);
    }
    if lo >= all.len() {
        return Some(FormData { kind: 0, negative: false, digits: Vec::new(), exponent: 0 });
    }
    let hi = last_nonzero_end_exec(&all, all.len());
    proof {
        lemma_last_nonzero_end(all@, all@.len() as int);
        assert(hi > lo) by {
            if hi <= lo {
                assert(all@[lo as int] == '0');
            }
        }
    }
    let mut digits: Vec<char> = Vec::new();
    let mut z: usize = lo;
    while z < hi
        invariant
            lo <= z <= hi <= all@.len(),
            digits@ =~= all@.subrange(lo as int, z as int),
        decreases hi - z,
    {
        digits.push(all[z]);
        z = z + 1;
    }
    let signed: i128 = if exp_negative {
        -(exp_magnitude as i128)
    } else {
        exp_magnitude as i128
    };
    assert(signed == exponent_value(exp));
    let exponent: i128 = signed - (frac_len as i128) + ((all.len() - hi) as i128);
    Some(FormData { kind: 1, negative, digits, exponent })
}

/// Whether `u` is an infinity word.
fn is_infinity(u: &Vec<char>) -> (r: bool)
    ensures
        r == is_infinity_word(u@),
{
    let inf3 = u.len() == 3 && letter(u[0], 'i') && letter(u[1], 'n') && letter(u[2], 'f');
    let inf8 = u.len() == 8 && letter(u[0], 'i') && letter(u[1], 'n') && letter(u[2], 'f')
        && letter(u[3], 'i') && letter(u[4], 'n') && letter(u[5], 'i') && letter(u[6], 't')
        && letter(u[7], 'y');
    inf3 || inf8
}

fn letter(c: char, lower: char) -> (r: bool)
    requires
        'a' <= lower <= 'z',
    ensures
        r == crate::text::same_letter(c, lower),
{
    c == lower || (c as u32) + 32 == lower as u32
}

fn first_nonzero_exec(s: &Vec<char>, from: usize) -> (r: usize)
    requires
        from <= s.len(),
    ensures
        r == first_nonzero(s@, from as int),
{
    let mut i = from;
    while i < s.len() && s[i] == '0'
        invariant
            from <= i <= s.len(),
            first_nonzero(s@, i as int) == first_nonzero(s@, from as int),
        decreases s.len() - i,
    {
        i = i + 1;
    }
    i
}

fn last_nonzero_end_exec(s: &Vec<char>, to: usize) -> (r: usize)
    requires
        to <= s.len(),
    ensures
        r == last_nonzero_end(s@, to as int),
{
    let mut i = to;
    while i > 0 && s[i - 1] == '0'
        invariant
            i <= to <= s.len(),
            last_nonzero_end(s@, i as int) == last_nonzero_end(s@, to as int),
        decreases i,
    {
        i = i - 1;
    }
    i
}

/// Whether two literal texts stand for the same number: the same
/// `decimal_form`.
pub fn same_number(a: &Vec<char>, b: &Vec<char>) -> (r: bool)
    ensures
        r == (decimal_form(a@) == decimal_form(b@)),
{
    let fa = form_of(a);
    let fb = form_of(b);
    if fa.kind != fb.kind {
        return false;
    }
    if fa.kind == 0 {
        true
    } else if fa.kind == 1 {
        fa.negative == fb.negative && same_chars(&fa.digits, &fb.digits) && fa.exponent
            == fb.exponent
    } else if fa.kind == 2 {
        fa.negative == fb.negative
    } else {
        same_chars(a, b)
    }
}

} // verus!
