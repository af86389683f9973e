//! Decimal numerals, trimming, and small helpers for building strings.

use vstd::prelude::*;
use vstd::string::*;

verus! {

/// The character of a decimal digit.
pub open spec fn digit_char(d: nat) -> char {
    if d == 0 {
        '0'
    } else if d == 1 {
        '1'
    } else if d == 2 {
        '2'
    } else if d == 3 {
        '3'
    } else if d == 4 {
        '4'
    } else if d == 5 {
        '5'
    } else if d == 6 {
        '6'
    } else if d == 7 {
        '7'
    } else if d == 8 {
        '8'
    } else {
        '9'
    }
}

/// The decimal numeral of `n`: no sign, no leading zero, `0` for zero.
pub open spec fn decimal_text(n: nat) -> Seq<char>
    decreases n,
{
    if n < 10 {
        seq![digit_char(n)]
    } else {
        decimal_text(n / 10).push(digit_char(n % 10))
    }
}

fn digit_str(d: u64) -> (s: &'static str)
    requires
        d < 10,
    ensures
        s@ == seq![digit_char(d as nat)],
{
    let s = if d == 0 {
        "0"
    } else if d == 1 {
        "1"
    } else if d == 2 {
        "2"
    } else if d == 3 {
        "3"
    } else if d == 4 {
        "4"
    } else if d == 5 {
        "5"
    } else if d == 6 {
        "6"
    } else if d == 7 {
        "7"
    } else if d == 8 {
        "8"
    } else {
        "9"
    };
    proof {
        reveal_strlit("0");
        reveal_strlit("1");
        reveal_strlit("2");
        reveal_strlit("3");
        reveal_strlit("4");
        reveal_strlit("5");
        reveal_strlit("6");
        reveal_strlit("7");
        reveal_strlit("8");
        reveal_strlit("9");
        assert(s@ =~= seq![digit_char(d as nat)]);
    }
    s
}

/// Writes `n` as a decimal numeral.
pub fn decimal(n: u64) -> (s: String)
    ensures
        s@ == decimal_text(n as nat),
    decreases n,
{
    if n < 10 {
        String::from_str(digit_str(n))
    } else {
        let mut s = decimal(n / 10);
        s.append(digit_str(n % 10));
        assert(s@ =~= decimal_text(n as nat));
        s
    }
}

/// The text `a` followed by `b`.
pub fn joined(a: &str, b: &str) -> (s: String)
    ensures
        s@ == a@ + b@,
{
    let mut s = String::from_str(a);
    s.append(b);
    s
}

/// Whether a character is white space, as `char::is_whitespace` has it: the
/// Unicode property `White_Space`.
pub uninterp spec fn is_white_space(c: char) -> bool;

/// A text without its leading white space.
pub open spec fn trim_start(text: Seq<char>) -> Seq<char>
    decreases text.len(),
{
    if text.len() > 0 && is_white_space(text[0]) {
        trim_start(text.subrange(1, text.len() as int))
    } else {
        text
    }
}

/// A text without its trailing white space.
pub open spec fn trim_end(text: Seq<char>) -> Seq<char>
    decreases text.len(),
{
    if text.len() > 0 && is_white_space(text.last()) {
        trim_end(text.drop_last())
    } else {
        text
    }
}

/// A text without its leading and trailing white space.
pub open spec fn trimmed(text: Seq<char>) -> Seq<char> {
    trim_end(trim_start(text))
}

/// `char::is_whitespace`, which tells whether a character has the Unicode
/// property `White_Space`: the answer depends on the character alone.
#[verifier::external_body]
fn char_is_white_space(c: char) -> (b: bool)
    ensures
        b == is_white_space(c),
{
    c.is_whitespace()
}

/// The part of `text` between its leading and its trailing white space.
pub fn trim(text: &str) -> (rest: &str)
    ensures
        rest@ == trimmed(text@),
{
    let n = text.unicode_len();
    let mut start: usize = 0;
    assert(text@.subrange(0, n as int) =~= text@);
    while start < n
        invariant
            start <= n,
            n == text@.len(),
            trim_start(text@) == trim_start(text@.subrange(start as int, n as int)),
        ensures
            start == n || !is_white_space(text@[start as int]),
        decreases n - start,
    {
        let ghost rest = text@.subrange(start as int, n as int);
        if !char_is_white_space(text.get_char(start)) {
            break;
        }
        assert(rest[0] == text@[start as int]);
        assert(rest.subrange(1, rest.len() as int) =~= text@.subrange(start + 1, n as int));
        start = start + 1;
    }
    let ghost front = text@.subrange(start as int, n as int);
    assert(front.len() > 0 ==> front[0] == text@[start as int]);
    assert(trim_start(text@) == front);
    let mut end: usize = n;
    while end > start
        invariant
            start <= end <= n,
            n == text@.len(),
            front == text@.subrange(start as int, n as int),
            trim_end(front) == trim_end(text@.subrange(start as int, end as int)),
        ensures
            end == start || !is_white_space(text@[end - 1]),
        decreases end - start,
    {
        let ghost rest = text@.subrange(start as int, end as int);
        if !char_is_white_space(text.get_char(end - 1)) {
            break;
        }
        assert(rest.last() == text@[end - 1]);
        assert(rest.drop_last() =~= text@.subrange(start as int, end - 1));
        end = end - 1;
    }
    let ghost middle = text@.subrange(start as int, end as int);
    assert(middle.len() > 0 ==> middle.last() == text@[end - 1]);
    assert(trim_end(front) == middle);
    text.substring_char(start, end)
}

} // verus!
