//! Reading a decimal number, as it is typed into a form, as a whole number
//! of millionths.

use vstd::prelude::*;
use crate::text::{chars_of, string_push};

verus! {

/// Millionths in one.
pub const MILLION: u64 = 1_000_000;

/// The number of digits after the point that are read.
pub const FRACTION_DIGITS: usize = 6;

pub open spec fn is_digit(c: char) -> bool {
    '0' <= c && c <= '9'
}

/// The value of a digit.
pub open spec fn digit_of(c: char) -> nat {
    (c as u32 - 48) as nat
}

pub open spec fn all_digits(s: Seq<char>) -> bool {
    forall|i: int| 0 <= i < s.len() ==> is_digit(#[trigger] s[i])
}

/// The number that a row of digits stands for.
pub open spec fn number_of(digits: Seq<char>) -> nat
    decreases digits.len(),
{
    if digits.len() == 0 {
        0
    } else {
        number_of(digits.drop_last()) * 10 + digit_of(digits.last())
    }
}

/// The place of the first point of a text, or its length where it has none.
pub open spec fn first_point(s: Seq<char>) -> int
    decreases s.len(),
{
    if s.len() == 0 || s[0] == '.' {
        0
    } else {
        1 + first_point(s.drop_first())
    }
}

/// What stands before the first point.
pub open spec fn whole_part(s: Seq<char>) -> Seq<char> {
    s.take(first_point(s))
}

/// What stands after the first point.
pub open spec fn fraction_part(s: Seq<char>) -> Seq<char> {
    if first_point(s) < s.len() {
        s.skip(first_point(s) + 1)
    } else {
        Seq::empty()
    }
}

/// A text is a decimal number: digits, with at most one point among, before
/// or after them, and at least one digit.
pub open spec fn is_decimal(s: Seq<char>) -> bool {
    &&& all_digits(whole_part(s))
    &&& all_digits(fraction_part(s))
    &&& whole_part(s).len() + fraction_part(s).len() > 0
}

/// The first six digits after the point, with zeros where there are fewer.
pub open spec fn six_digits(fraction: Seq<char>) -> Seq<char> {
    Seq::new(
        FRACTION_DIGITS as nat,
        |t: int|
            if t < fraction.len() {
                fraction[t]
            } else {
                '0'
            },
    )
}

/// The millionths that a decimal number stands for. Digits beyond the
/// sixth after the point are dropped.
pub open spec fn millionths_of(s: Seq<char>) -> nat {
    number_of(whole_part(s)) * 1_000_000 + number_of(six_digits(fraction_part(s)))
}

/// What a text is read as: the millionths of a decimal number that fits the
/// machine word, and nothing else.
pub open spec fn decimal_value(s: Seq<char>) -> Option<u64> {
    if is_decimal(s) && millionths_of(s) <= u64::MAX {
        Some(millionths_of(s) as u64)
    } else {
        None
    }
}

proof fn lemma_first_point(s: Seq<char>, i: int)
    requires
        0 <= i <= s.len(),
        forall|j: int| 0 <= j < i ==> s[j] != '.',
    ensures
        first_point(s) == i + first_point(s.skip(i)),
        0 <= first_point(s) <= s.len(),
    decreases i,
{
    if i == 0 {
        assert(s.skip(0) =~= s);
        lemma_first_point_range(s);
    } else {
        lemma_first_point(s, i - 1);
        let rest = s.skip(i - 1);
        assert(rest[0] == s[i - 1]);
        assert(rest.drop_first() =~= s.skip(i));
        lemma_first_point_range(s.skip(i));
    }
}

proof fn lemma_first_point_range(s: Seq<char>)
    ensures
        0 <= first_point(s) <= s.len(),
        first_point(s) < s.len() ==> s[first_point(s)] == '.',
        forall|j: int| 0 <= j < first_point(s) ==> s[j] != '.',
    decreases s.len(),
{
    if s.len() > 0 && s[0] != '.' {
        let rest = s.drop_first();
        lemma_first_point_range(rest);
        assert forall|j: int| 0 <= j < first_point(s) implies s[j] != '.' by {
            if j > 0 {
                assert(rest[j - 1] == s[j]);
            }
        }
        if first_point(s) < s.len() {
            assert(rest[first_point(rest)] == s[first_point(s)]);
        }
    }
}

/// The number of a longer row of digits is no smaller.
proof fn lemma_number_grows(s: Seq<char>, a: int, b: int)
    requires
        0 <= a <= b <= s.len(),
    ensures
        number_of(s.take(a)) <= number_of(s.take(b)),
    decreases b - a,
{
    if a < b {
        lemma_number_grows(s, a, b - 1);
        assert(s.take(b).drop_last() =~= s.take(b - 1));
    }
}

proof fn lemma_number_step(s: Seq<char>, i: int)
    requires
        0 <= i < s.len(),
    ensures
        number_of(s.take(i + 1)) == number_of(s.take(i)) * 10 + digit_of(s[i]),
{
    assert(s.take(i + 1).drop_last() =~= s.take(i));
}

/// Six digits stand for less than a million.
proof fn lemma_six_digits_bound(d: Seq<char>, t: int)
    requires
        all_digits(d),
        0 <= t <= d.len(),
        t <= 6,
    ensures
        t == 0 ==> number_of(d.take(t)) == 0,
        t == 1 ==> number_of(d.take(t)) < 10,
        t == 2 ==> number_of(d.take(t)) < 100,
        t == 3 ==> number_of(d.take(t)) < 1_000,
        t == 4 ==> number_of(d.take(t)) < 10_000,
        t == 5 ==> number_of(d.take(t)) < 100_000,
        t == 6 ==> number_of(d.take(t)) < 1_000_000,
    decreases t,
{
    if t > 0 {
        lemma_six_digits_bound(d, t - 1);
        lemma_number_step(d, t - 1);
        assert(is_digit(d[t - 1]));
    }
}

/// The value of a digit.
fn digit_value(c: char) -> (r: u64)
    requires
        is_digit(c),
    ensures
        r == digit_of(c),
        r <= 9,
{
    (c as u32 - 48) as u64
}

/// Reads a text as a decimal number, in millionths: see `decimal_value`.
pub fn parse_decimal(s: &str) -> (r: Option<u64>)
    ensures
        r == decimal_value(s@),
{
    let chars = chars_of(s);
    let n: usize = chars.len();
    let ghost text = s@;
    let mut whole: u64 = 0;
    let mut i: usize = 0;
    assert(text.take(0) =~= Seq::<char>::empty());
    while i < n && chars[i] != '.'
        invariant
            chars@ == text,
            text == s@,
            n == text.len(),
            0 <= i <= n,
            forall|j: int| 0 <= j < i ==> text[j] != '.' && is_digit(#[trigger] text[j]),
            whole == number_of(text.take(i as int)),
        decreases n - i,
    {
        let c: char = chars[i];
        proof {
            lemma_first_point(text, i as int);
            lemma_number_step(text, i as int);
            assert(text.skip(i as int)[0] == c);
            lemma_first_point_range(text.skip(i as int).drop_first());
            assert(first_point(text) > i);
            lemma_first_point_range(text);
            assert(whole_part(text)[i as int] == c);
            lemma_number_grows(text, i + 1, first_point(text));
        }
        if !('0' <= c && c <= '9') {
            return None;
        }
        let d: u64 = digit_value(c);
        if whole > (u64::MAX - d) / 10 {
            return None;
        }
        whole = whole * 10 + d;
        i = i + 1;
    }
    let p: usize = i;
    proof {
        lemma_first_point(text, p as int);
        if p < n {
            assert(text.skip(p as int)[0] == '.');
        } else {
            assert(text.skip(p as int) =~= Seq::<char>::empty());
        }
        assert(first_point(text) == p);
        assert(all_digits(whole_part(text)));
    }
    let ghost fraction = fraction_part(text);
    let mut j: usize = if p < n {
        p + 1
    } else {
        n
    };
    let start: usize = j;
    while j < n
        invariant
            chars@ == text,
            text == s@,
            n == text.len(),
            first_point(text) == p,
            fraction == fraction_part(text),
            start == (if p < n {
                p + 1
            } else {
                n as int
            }),
            start <= j <= n,
            forall|k: int| 0 <= k < j - start ==> is_digit(#[trigger] fraction[k]),
        decreases n - j,
    {
        let c: char = chars[j];
        assert(fraction[j - start] == c);
        if !('0' <= c && c <= '9') {
            return None;
        }
        j = j + 1;
    }
    assert(all_digits(fraction));
    assert(whole_part(text).len() == p);
    assert(fraction.len() == n - start);
    if n - start == 0 && p == 0 {
        return None;
    }
    let ghost six = six_digits(fraction);
    let mut frac: u64 = 0;
    let mut t: usize = 0;
    assert(six.take(0) =~= Seq::<char>::empty());
    while t < FRACTION_DIGITS
        invariant
            chars@ == text,
            text == s@,
            n == text.len(),
            first_point(text) == p,
            fraction == fraction_part(text),
            all_digits(fraction),
            start == (if p < n {
                p + 1
            } else {
                n as int
            }),
            six == six_digits(fraction),
            all_digits(six),
            0 <= t <= FRACTION_DIGITS,
            frac == number_of(six.take(t as int)),
        decreases FRACTION_DIGITS - t,
    {
        proof {
            lemma_six_digits_bound(six, t as int);
            lemma_number_step(six, t as int);
        }
        let d: u64 = if t < n - start {
            let c: char = chars[start + t];
            assert(fraction[t as int] == c);
            digit_value(c)
        } else {
            0
        };
        frac = frac * 10 + d;
        t = t + 1;
    }
    proof {
        assert(six.take(6) =~= six);
        lemma_six_digits_bound(six, 6);
    }
    if whole > (u64::MAX - frac) / MILLION {
        return None;
    }
    Some(whole * MILLION + frac)
}

/// The character of a digit.
pub open spec fn digit_char(d: nat) -> char {
    if d == 0 {
        '0'
    } else if d == 1 {
        '1'
    } else if d == 2 {
        '2'
    } else if d == 3 {
        '3'
    } else if d == 4 {
        '4'
    } else if d == 5 {
        '5'
    } else if d == 6 {
        '6'
    } else if d == 7 {
        '7'
    } else if d == 8 {
        '8'
    } else {
        '9'
    }
}

/// The digits of a number, without leading zeros.
pub open spec fn text_of(n: nat) -> Seq<char>
    decreases n,
{
    if n < 10 {
        seq![digit_char(n)]
    } else {
        text_of(n / 10).push(digit_char(n % 10))
    }
}

/// The digits of a number stand for the number, and the first of several is
/// no zero.
pub proof fn lemma_text_of(n: nat)
    ensures
        all_digits(text_of(n)),
        number_of(text_of(n)) == n,
        text_of(n).len() >= 1,
        n >= 10 ==> text_of(n)[0] != '0',
    decreases n,
{
    if n < 10 {
        let t = text_of(n);
        assert(t.drop_last() =~= Seq::<char>::empty());
        assert(number_of(t.drop_last()) == 0);
        assert(t.last() == digit_char(n));
    } else {
        lemma_text_of(n / 10);
        let front = text_of(n / 10);
        let t = front.push(digit_char(n % 10));
        assert(t.drop_last() =~= front);
        assert(t[0] == front[0]);
        if n / 10 < 10 {
            assert(front[0] == digit_char(n / 10));
        }
    }
}

/// The character of a digit: see `digit_char`.
fn digit_to_char(d: u64) -> (c: char)
    requires
        d < 10,
    ensures
        c == digit_char(d as nat),
{
    if d == 0 {
        '0'
    } else if d == 1 {
        '1'
    } else if d == 2 {
        '2'
    } else if d == 3 {
        '3'
    } else if d == 4 {
        '4'
    } else if d == 5 {
        '5'
    } else if d == 6 {
        '6'
    } else if d == 7 {
        '7'
    } else if d == 8 {
        '8'
    } else {
        '9'
    }
}

/// Appends the digits of a number to a text.
pub fn push_number(s: &mut String, n: u64)
    ensures
        final(s)@ == old(s)@ + text_of(n as nat),
    decreases n,
{
    if n >= 10 {
        push_number(s, n / 10);
    }
    string_push(s, digit_to_char(n % 10));
    assert(s@ =~= old(s)@ + text_of(n as nat));
}

} // verus!
