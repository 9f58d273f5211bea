//! Text building blocks with exact specifications: decimal rendering of
//! integers, concatenation of message fragments, and substring search.
use vstd::prelude::*;

verus! {

/// The ASCII digit for a value below ten.
pub open spec fn digit_char(d: nat) -> char {
    (d + 48) as char
}

/// Decimal digits of a natural number, most significant first, without
/// leading zeros (zero itself is the single digit `0`).
pub open spec fn decimal_digits(n: nat) -> Seq<char>
    decreases n,
{
    if n < 10 {
        seq![digit_char(n)]
    } else {
        decimal_digits(n / 10).push(digit_char(n % 10))
    }
}

/// Decimal text of an integer: a minus sign before the digits of the
/// magnitude when the value is negative.
pub open spec fn signed_decimal(i: int) -> Seq<char> {
    if i < 0 {
        seq!['-'] + decimal_digits((-i) as nat)
    } else {
        decimal_digits(i as nat)
    }
}

fn digit_text(d: u64) -> (s: &'static str)
    requires
        d < 10,
    ensures
        s@ == seq![digit_char(d as nat)],
{
    proof {
        reveal_strlit("0");
        reveal_strlit("1");
        reveal_strlit("2");
        reveal_strlit("3");
        reveal_strlit("4");
        reveal_strlit("5");
        reveal_strlit("6");
        reveal_strlit("7");
        reveal_strlit("8");
        reveal_strlit("9");
    }
    if d == 0 {
        "0"
    } else if d == 1 {
        "1"
    } else if d == 2 {
        "2"
    } else if d == 3 {
        "3"
    } else if d == 4 {
        "4"
    } else if d == 5 {
        "5"
    } else if d == 6 {
        "6"
    } else if d == 7 {
        "7"
    } else if d == 8 {
        "8"
    } else {
        "9"
    }
}

/// Appends the decimal digits of `n` to `out`.
pub fn push_decimal(out: &mut String, n: u64)
    ensures
        final(out)@ == old(out)@ + decimal_digits(n as nat),
    decreases n,
{
    if n >= 10 {
        push_decimal(out, n / 10);
    }
    out.append(digit_text(n % 10));
    proof {
        if n >= 10 {
            assert(decimal_digits(n as nat) == decimal_digits((n / 10) as nat).push(
                digit_char((n % 10) as nat),
            ));
        }
    }
}

/// Appends the decimal text of a signed 32-bit value to `out`.
pub fn push_signed_decimal(out: &mut String, value: i32)
    ensures
        final(out)@ == old(out)@ + signed_decimal(value as int),
{
    if value < 0 {
        proof {
            reveal_strlit("-");
        }
        out.append("-");
        let magnitude: u64 = (0i64 - value as i64) as u64;
        push_decimal(out, magnitude);
    } else {
        push_decimal(out, value as u64);
    }
}

/// Whether `needle` occurs in `text` as a contiguous run of characters.
pub open spec fn contains_text(text: Seq<char>, needle: Seq<char>) -> bool {
    exists|i: int|
        0 <= i && i + needle.len() <= text.len() && #[trigger] text.subrange(i, i + needle.len()) == needle
}

/// Whether `needle` occurs in `text` starting at character `at`.
fn occurs_at(text: &str, needle: &str, at: usize) -> (r: bool)
    requires
        at + needle@.len() <= text@.len(),
        text@.len() <= usize::MAX,
    ensures
        r == (text@.subrange(at as int, at + needle@.len()) == needle@),
{
    let ln = needle.unicode_len();
    let mut j: usize = 0;
    while j < ln
        invariant
            ln == needle@.len(),
            at + ln <= text@.len(),
            text@.len() <= usize::MAX,
            j <= ln,
            forall|m: int| 0 <= m < j ==> text@[at + m] == needle@[m],
        decreases ln - j,
    {
        if text.get_char(at + j) != needle.get_char(j) {
            assert(text@.subrange(at as int, at + ln)[j as int] != needle@[j as int]);
            return false;
        }
        j = j + 1;
    }
    assert(text@.subrange(at as int, at + ln) =~= needle@);
    true
}

/// Whether `needle` occurs anywhere in `text`.
pub fn text_contains(text: &str, needle: &str) -> (r: bool)
    ensures
        r == contains_text(text@, needle@),
{
    let lt = text.unicode_len();
    let ln = needle.unicode_len();
    if ln > lt {
        return false;
    }
    let last = lt - ln;
    let mut i: usize = 0;
    while i < last
        invariant
            lt == text@.len(),
            ln == needle@.len(),
            last + ln == lt,
            i <= last,
            forall|k: int| 0 <= k < i ==> #[trigger] text@.subrange(k, k + ln) != needle@,
        decreases last - i,
    {
        if occurs_at(text, needle, i) {
            return true;
        }
        i = i + 1;
    }
    occurs_at(text, needle, last)
}

} // verus!
