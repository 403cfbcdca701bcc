//! Configuration values that the engine reads: the grid size text, the
//! audio channel's files and pickup cell, and the map file.

use std::path::PathBuf;

use vstd::prelude::*;

use crate::grid::ConfigError;
use crate::text::chars_of;

verus! {

/// std's `PathBuf`, carried opaquely in configuration values.
#[verifier::external_type_specification]
#[verifier::external_body]
pub struct ExPathBuf(PathBuf);

/// The audio channel: a waveform fed in, one written out, and the cell
/// whose value is recorded.
#[derive(Debug)]
pub struct AudioConfig {
    pub input: PathBuf,
    pub output: PathBuf,
    pub pickup: (u32, u32),
}

/// A map given on its own.
#[derive(Debug)]
pub struct MapArgs {
    pub path: PathBuf,
}

/// An ASCII decimal digit.
pub open spec fn is_digit(c: char) -> bool {
    '0' <= c && c <= '9'
}

/// The value of a run of decimal digits.
pub open spec fn digits_value(d: Seq<char>) -> nat
    decreases d.len(),
{
    if d.len() == 0 {
        0
    } else {
        digits_value(d.drop_last()) * 10 + ((d.last() as nat) - ('0' as nat)) as nat
    }
}

/// `s` without one leading `+`.
pub open spec fn unsigned_part(s: Seq<char>) -> Seq<char> {
    if s.len() > 0 && s[0] == '+' {
        s.drop_first()
    } else {
        s
    }
}

/// Every character is an ASCII decimal digit.
pub open spec fn all_digits(d: Seq<char>) -> bool {
    forall|i: int| 0 <= i < d.len() ==> is_digit(#[trigger] d[i])
}

/// A `u32` written as `str::parse` reads it: an optional `+`, then one or
/// more decimal digits, of a value that fits.
pub open spec fn parsed_u32(s: Seq<char>) -> Option<u32> {
    let d = unsigned_part(s);
    if d.len() > 0 && all_digits(d) && digits_value(d) <= u32::MAX {
        Some(digits_value(d) as u32)
    } else {
        None
    }
}

/// Index of the first `x` of `s`, or its length when it has none.
pub open spec fn first_x(s: Seq<char>) -> int
    decreases s.len(),
{
    if s.len() == 0 {
        0
    } else if s[0] == 'x' {
        0
    } else {
        1 + first_x(s.drop_first())
    }
}

/// `WIDTHxHEIGHT`, split at the first `x`.
pub open spec fn parsed_size(s: Seq<char>) -> Option<(u32, u32)> {
    let k = first_x(s);
    if k >= s.len() {
        None
    } else {
        match (parsed_u32(s.take(k)), parsed_u32(s.skip(k + 1))) {
            (Some(w), Some(h)) => Some((w, h)),
            _ => None,
        }
    }
}

proof fn lemma_first_x_skip(s: Seq<char>, i: int)
    requires
        0 <= i <= s.len(),
        forall|j: int| 0 <= j < i ==> #[trigger] s[j] != 'x',
    ensures
        first_x(s) == i + first_x(s.skip(i)),
    decreases i,
{
    if i > 0 {
        assert(s.drop_first().skip(i - 1) == s.skip(i));
        lemma_first_x_skip(s.drop_first(), i - 1);
    } else {
        assert(s.skip(0) == s);
    }
}

proof fn lemma_digits_prefix(d: Seq<char>, i: int)
    requires
        0 <= i <= d.len(),
        all_digits(d),
    ensures
        digits_value(d.take(i)) <= digits_value(d),
    decreases d.len() - i,
{
    if i < d.len() {
        assert(d.take(i + 1).drop_last() == d.take(i));
        lemma_digits_prefix(d, i + 1);
    } else {
        assert(d.take(i) == d);
    }
}

/// The `u32` that `s[from..to]` spells, as `parsed_u32` states it.
fn parse_u32(s: &Vec<char>, from: usize, to: usize) -> (r: Option<u32>)
    requires
        from <= to <= s.len(),
    ensures
        r == parsed_u32(s@.subrange(from as int, to as int)),
{
    let ghost t = s@.subrange(from as int, to as int);
    let mut start = from;
    if from < to && s[from] == '+' {
        start = from + 1;
    }
    let ghost d = s@.subrange(start as int, to as int);
    assert(d == unsigned_part(t));
    if start == to {
        return None;
    }
    let mut acc: u64 = 0;
    let mut i: usize = start;
    while i < to
        invariant
            from <= start <= i <= to <= s.len(),
            d == s@.subrange(start as int, to as int),
            t == s@.subrange(from as int, to as int),
            d == unsigned_part(t),
            d.len() > 0,
            acc == digits_value(d.take(i - start)),
            acc <= u32::MAX,
            forall|j: int| 0 <= j < i - start ==> is_digit(#[trigger] d[j]),
        decreases to - i,
    {
        let c = s[i];
        if !('0' <= c && c <= '9') {
            assert(!is_digit(d[i - start]));
            return None;
        }
        proof {
            assert(d.take(i - start + 1).drop_last() == d.take(i - start));
            assert(d.take(i - start + 1).last() == c);
        }
        acc = acc * 10 + (c as u64 - '0' as u64);
        i = i + 1;
        if acc > 4_294_967_295 {
            proof {
                if all_digits(d) {
                    lemma_digits_prefix(d, i - start);
                }
            }
            return None;
        }
    }
    assert(d.take(d.len() as int) == d);
    Some(acc as u32)
}

/// Parses `WIDTHxHEIGHT`: the text splits at its first `x` into two
/// `u32` values.
pub fn parse_size(raw: &str) -> (r: Result<(u32, u32), ConfigError>)
    ensures
        match parsed_size(raw@) {
            Some(wh) => r == Ok::<(u32, u32), ConfigError>(wh),
            None => r == Err::<(u32, u32), ConfigError>(ConfigError::MalformedSize),
        },
{
    let s = chars_of(raw);
    let mut k: usize = 0;
    while k < s.len() && s[k] != 'x'
        invariant
            k <= s.len(),
            forall|j: int| 0 <= j < k ==> #[trigger] s@[j] != 'x',
        decreases s.len() - k,
    {
        k = k + 1;
    }
    proof {
        lemma_first_x_skip(s@, k as int);
    }
    if k >= s.len() {
        return Err(ConfigError::MalformedSize);
    }
    assert(s@.take(k as int) == s@.subrange(0, k as int));
    assert(s@.skip(k + 1) == s@.subrange(k + 1, s.len() as int));
    match (parse_u32(&s, 0, k), parse_u32(&s, k + 1, s.len())) {
        (Some(w), Some(h)) => Ok((w, h)),
        _ => Err(ConfigError::MalformedSize),
    }
}

} // verus!
