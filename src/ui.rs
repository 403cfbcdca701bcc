//! Text for the interface: exponents in superscript digits.

use vstd::prelude::*;

use crate::text::string_of;

verus! {

/// The superscript form of the digit `d`, for `d` in `0..10`.
pub open spec fn superscript_digit(d: int) -> char {
    if d == 0 {
        '\u{2070}'
    } else if d == 1 {
        '\u{b9}'
    } else if d == 2 {
        '\u{b2}'
    } else if d == 3 {
        '\u{b3}'
    } else if d == 4 {
        '\u{2074}'
    } else if d == 5 {
        '\u{2075}'
    } else if d == 6 {
        '\u{2076}'
    } else if d == 7 {
        '\u{2077}'
    } else if d == 8 {
        '\u{2078}'
    } else {
        '\u{2079}'
    }
}

/// `n` in superscript digits, most significant first; zero has no digit.
pub open spec fn superscript_digits(n: nat) -> Seq<char>
    decreases n,
{
    if n == 0 {
        seq![]
    } else {
        superscript_digits(n / 10).push(superscript_digit((n % 10) as int))
    }
}

/// `num` in superscript digits, after a macron when negative.
pub open spec fn superscript(num: int) -> Seq<char> {
    if num < 0 {
        seq!['\u{af}'] + superscript_digits((-num) as nat)
    } else {
        superscript_digits(num as nat)
    }
}

fn superscript_char(d: u64) -> (c: char)
    requires
        d < 10,
    ensures
        c == superscript_digit(d as int),
{
    if d == 0 {
        '\u{2070}'
    } else if d == 1 {
        '\u{b9}'
    } else if d == 2 {
        '\u{b2}'
    } else if d == 3 {
        '\u{b3}'
    } else if d == 4 {
        '\u{2074}'
    } else if d == 5 {
        '\u{2075}'
    } else if d == 6 {
        '\u{2076}'
    } else if d == 7 {
        '\u{2077}'
    } else if d == 8 {
        '\u{2078}'
    } else {
        '\u{2079}'
    }
}

fn push_superscript_digits(out: &mut Vec<char>, n: u64)
    ensures
        final(out)@ == old(out)@ + superscript_digits(n as nat),
    decreases n,
{
    if n == 0 {
        assert(out@ == old(out)@ + superscript_digits(0));
        return;
    }
    push_superscript_digits(out, n / 10);
    out.push(superscript_char(n % 10));
    assert(out@ == old(out)@ + superscript_digits(n as nat));
}

/// An exponent as superscript text: `-12` is `¯¹²`, `0` is empty.
pub fn superscript_number(num: i32) -> (r: String)
    ensures
        r@ == superscript(num as int),
{
    let mut out: Vec<char> = Vec::new();
    let wide = num as i64;
    if wide < 0 {
        out.push('\u{af}');
        push_superscript_digits(&mut out, (-wide) as u64);
    } else {
        push_superscript_digits(&mut out, wide as u64);
    }
    string_of(&out)
}

} // verus!
