//! Building text: characters appended, numbers in decimal, padding, cutting.

use vstd::prelude::*;

verus! {

/// The standard library's `String::push`.
///
/// Trusted: the string afterwards is the string before with `c` as one more
/// character at its end.
pub assume_specification[ String::push ](s: &mut String, c: char)
    ensures
        final(s)@ == old(s)@.push(c),
;

/// The character of the decimal digit `digit`.
pub open spec fn digit_char(digit: nat) -> char
    recommends
        digit < 10,
{
    ((48 + digit) as u8) as char
}

/// The decimal numeral of `n`, without leading zeros; `0` for zero.
pub open spec fn decimal(n: nat) -> Seq<char>
    decreases n,
{
    if n < 10 {
        seq![digit_char(n)]
    } else {
        decimal(n / 10).push(digit_char(n % 10))
    }
}

/// `count` spaces.
pub open spec fn spaces(count: nat) -> Seq<char> {
    Seq::new(count, |i: int| ' ')
}

/// The first `limit` characters of `text`, or all of it where it has no more.
pub open spec fn cut(text: Seq<char>, limit: nat) -> Seq<char> {
    if limit < text.len() {
        text.take(limit as int)
    } else {
        text
    }
}

/// The character of a decimal digit.
fn digit_to_char(digit: u8) -> (c: char)
    requires
        digit < 10,
    ensures
        c == digit_char(digit as nat),
{
    let code: u8 = 48 + digit;
    code as char
}

/// Write `n` in decimal.
pub fn decimal_string(n: u128) -> (text: String)
    ensures
        text@ == decimal(n as nat),
    decreases n,
{
    if n < 10 {
        let mut text = String::new();
        text.push(digit_to_char(n as u8));
        assert(text@ =~= decimal(n as nat));
        text
    } else {
        let mut text = decimal_string(n / 10);
        text.push(digit_to_char((n % 10) as u8));
        text
    }
}

/// Append `count` spaces to `text`.
pub fn pad(text: &mut String, count: usize)
    ensures
        final(text)@ == old(text)@ + spaces(count as nat),
{
    let mut i: usize = 0;
    assert(text@ =~= old(text)@ + spaces(0));
    while i < count
        invariant
            i <= count,
            text@ == old(text)@ + spaces(i as nat),
        decreases count - i,
    {
        text.push(' ');
        i += 1;
        assert(text@ =~= old(text)@ + spaces(i as nat));
    }
}

/// The first `limit` characters of `text`, or all of it where it has no more.
pub fn truncated(text: &str, limit: usize) -> (kept: String)
    ensures
        kept@ == cut(text@, limit as nat),
{
    let len = text.unicode_len();
    if limit < len {
        let kept = text.substring_char(0, limit).to_owned();
        assert(kept@ =~= text@.take(limit as int));
        kept
    } else {
        text.to_owned()
    }
}

} // verus!
