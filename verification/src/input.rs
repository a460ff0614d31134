//! Reading numbers out of what was typed.
//!
//! A line counts without the white space at its end. A price is a decimal
//! number with an optional sign that fits in `i32`. A length and an index
//! are decimal numbers without a minus sign; a length fits in `u32`, an
//! index in `usize`. Nothing else is accepted: no spaces in front, no
//! underscores, no digits of other scripts.

use vstd::prelude::*;

verus! {

/// White space, as Unicode defines it.
pub open spec fn is_space(c: char) -> bool {
    let code = c as u32;
    ||| 0x09 <= code <= 0x0D
    ||| code == 0x20
    ||| code == 0x85
    ||| code == 0xA0
    ||| code == 0x1680
    ||| 0x2000 <= code <= 0x200A
    ||| code == 0x2028
    ||| code == 0x2029
    ||| code == 0x202F
    ||| code == 0x205F
    ||| code == 0x3000
}

/// How much of a text is left when the white space at its end is taken off.
pub open spec fn trimmed_len(s: Seq<char>) -> nat
    decreases s.len(),
{
    if s.len() > 0 && is_space(s.last()) {
        trimmed_len(s.drop_last())
    } else {
        s.len()
    }
}

/// A text without the white space at its end.
pub open spec fn trimmed(s: Seq<char>) -> Seq<char> {
    s.take(trimmed_len(s) as int)
}

pub open spec fn is_digit(c: char) -> bool {
    '0' <= c <= '9'
}

pub open spec fn all_digits(s: Seq<char>) -> bool {
    forall|i: int| 0 <= i < s.len() ==> is_digit(#[trigger] s[i])
}

/// The number that a row of decimal digits writes.
pub open spec fn digits_value(s: Seq<char>) -> nat
    decreases s.len(),
{
    if s.len() == 0 {
        0
    } else {
        (10 * digits_value(s.drop_last()) + (s.last() as u32 - '0' as u32)) as nat
    }
}

/// The number that a text writes in decimal: one digit at least, with `+` or
/// `-` in front of them if `signed`, with `+` alone if not.
pub open spec fn decimal(s: Seq<char>, signed: bool) -> Option<int> {
    if s.len() > 0 && (s[0] == '+' || (signed && s[0] == '-')) {
        let digits = s.skip(1);
        if digits.len() > 0 && all_digits(digits) {
            Some(
                if s[0] == '-' {
                    -(digits_value(digits) as int)
                } else {
                    digits_value(digits) as int
                },
            )
        } else {
            None
        }
    } else if s.len() > 0 && all_digits(s) {
        Some(digits_value(s) as int)
    } else {
        None
    }
}

/// The price that a text holds.
pub open spec fn parse_spec(s: Seq<char>) -> Option<i32> {
    match decimal(trimmed(s), true) {
        Some(n) => if i32::MIN <= n <= i32::MAX {
            Some(n as i32)
        } else {
            None
        },
        None => None,
    }
}

/// The length that a text holds. A length is never negative, so a minus
/// sign makes the text no length at all.
pub open spec fn parse_length_spec(s: Seq<char>) -> Option<u32> {
    match decimal(trimmed(s), false) {
        Some(n) => if n <= u32::MAX {
            Some(n as u32)
        } else {
            None
        },
        None => None,
    }
}

/// The index that a text holds.
pub open spec fn parse_index_spec(s: Seq<char>) -> Option<usize> {
    match decimal(trimmed(s), false) {
        Some(n) => if n <= usize::MAX {
            Some(n as usize)
        } else {
            None
        },
        None => None,
    }
}

/// Taking the white space off the end leaves none there.
pub proof fn lemma_trimmed_len(s: Seq<char>)
    ensures
        trimmed_len(s) <= s.len(),
        trimmed_len(s) > 0 ==> !is_space(s[trimmed_len(s) - 1]),
        forall|i: int| trimmed_len(s) <= i < s.len() ==> is_space(#[trigger] s[i]),
    decreases s.len(),
{
    if s.len() > 0 && is_space(s.last()) {
        let front = s.drop_last();
        lemma_trimmed_len(front);
        assert forall|i: int| trimmed_len(s) <= i < s.len() implies is_space(#[trigger] s[i]) by {
            if i < front.len() {
                assert(front[i] == s[i]);
            }
        }
    }
}

/// Where a text stops being white space from its end on: there and nowhere
/// else lies its trimmed length.
pub proof fn lemma_trimmed_len_is(s: Seq<char>, n: int)
    requires
        0 <= n <= s.len(),
        n > 0 ==> !is_space(s[n - 1]),
        forall|i: int| n <= i < s.len() ==> is_space(#[trigger] s[i]),
    ensures
        trimmed_len(s) == n,
    decreases s.len(),
{
    if s.len() > 0 && is_space(s.last()) {
        lemma_trimmed_len_is(s.drop_last(), n);
    }
}

/// Trimming twice is trimming once.
pub proof fn lemma_trimmed_twice(s: Seq<char>)
    ensures
        trimmed(trimmed(s)) == trimmed(s),
{
    lemma_trimmed_len(s);
    let t = trimmed(s);
    lemma_trimmed_len_is(t, t.len() as int);
}

/// A text that starts with a minus sign holds no length and no index,
/// whatever follows the sign.
pub proof fn lemma_minus_is_unsigned_never(s: Seq<char>)
    requires
        trimmed(s).len() > 0,
        trimmed(s)[0] == '-',
    ensures
        parse_length_spec(s) is None,
        parse_index_spec(s) is None,
{
}

/// A length that a price can hold is read as a price to the same number.
pub proof fn lemma_small_length_is_price(s: Seq<char>)
    requires
        parse_length_spec(s) matches Some(length) && length <= i32::MAX,
    ensures
        parse_spec(s) == Some(parse_length_spec(s)->0 as i32),
{
}

/// One more digit at the end: ten times the number so far, and the digit.
pub proof fn lemma_digits_push(s: Seq<char>, c: char)
    requires
        is_digit(c),
    ensures
        digits_value(s.push(c)) == 10 * digits_value(s) + (c as u32 - '0' as u32),
{
    assert(s.push(c).drop_last() =~= s);
}

/// The line without the white space at its end.
pub fn answer(line: &str) -> (text: String)
    ensures
        text@ == trimmed(line@),
{
    let kept = trimmed_length(line);
    line.substring_char(0, kept).to_owned()
}

fn is_space_char(c: char) -> (space: bool)
    ensures
        space == is_space(c),
{
    let code = c as u32;
    (0x09 <= code && code <= 0x0D) || code == 0x20 || code == 0x85 || code == 0xA0 || code
        == 0x1680 || (0x2000 <= code && code <= 0x200A) || code == 0x2028 || code == 0x2029 || code
        == 0x202F || code == 0x205F || code == 0x3000
}

fn trimmed_length(text: &str) -> (kept: usize)
    ensures
        kept == trimmed_len(text@),
        kept <= text@.len(),
{
    let mut kept = text.unicode_len();
    while kept > 0 && is_space_char(text.get_char(kept - 1))
        invariant
            kept <= text@.len(),
            forall|i: int| kept <= i < text@.len() ==> is_space(#[trigger] text@[i]),
        decreases kept,
    {
        kept -= 1;
    }
    proof {
        lemma_trimmed_len_is(text@, kept as int);
    }
    kept
}

/// The number written by the digits of `text` from `from` up to `to`, where
/// they are all digits and the number is no more than `limit`.
fn magnitude(text: &str, from: usize, to: usize, limit: u64) -> (found: Option<u64>)
    requires
        from <= to <= text@.len(),
    ensures
        found == if all_digits(text@.subrange(from as int, to as int)) && digits_value(
            text@.subrange(from as int, to as int),
        ) <= limit {
            Some(digits_value(text@.subrange(from as int, to as int)) as u64)
        } else {
            None
        },
{
    let ghost digits = text@.subrange(from as int, to as int);
    let mut sum: u128 = 0;
    let mut over = false;
    let mut at = from;
    while at < to
        invariant
            from <= at <= to <= text@.len(),
            digits == text@.subrange(from as int, to as int),
            all_digits(text@.subrange(from as int, at as int)),
            !over ==> sum == digits_value(text@.subrange(from as int, at as int)) && sum <= limit,
            over ==> digits_value(text@.subrange(from as int, at as int)) > limit,
        decreases to - at,
    {
        let c = text.get_char(at);
        if !(c >= '0' && c <= '9') {
            proof {
                assert(digits[at - from] == c);
            }
            return None;
        }
        proof {
            let before = text@.subrange(from as int, at as int);
            assert(text@.subrange(from as int, at + 1) =~= before.push(c));
            lemma_digits_push(before, c);
        }
        if !over {
            sum = sum * 10 + ((c as u32 - '0' as u32) as u128);
            if sum > limit as u128 {
                over = true;
            }
        }
        at += 1;
    }
    if over {
        None
    } else {
        Some(sum as u64)
    }
}

/// Reads a price: the text without the white space at its end has to be a
/// decimal number, with or without a sign, that fits in `i32`.
pub fn parse(text: &str) -> (price: Option<i32>)
    ensures
        price == parse_spec(text@),
{
    let kept = trimmed_length(text);
    if kept == 0 {
        return None;
    }
    let first = text.get_char(0);
    let from: usize = if first == '+' || first == '-' {
        1
    } else {
        0
    };
    proof {
        if from == 1 {
            assert(trimmed(text@).skip(1) =~= text@.subrange(1, kept as int));
        }
    }
    if from == kept {
        return None;
    }
    match magnitude(text, from, kept, 0x8000_0000) {
        None => None,
        Some(size) => {
            if first == '-' {
                Some((-(size as i64)) as i32)
            } else if size <= 0x7fff_ffff {
                Some(size as i32)
            } else {
                None
            }
        },
    }
}

/// The number without a minus sign that a text holds, where it is no more
/// than `limit`.
fn unsigned(text: &str, limit: u64) -> (found: Option<u64>)
    ensures
        found == match decimal(trimmed(text@), false) {
            Some(n) => if n <= limit {
                Some(n as u64)
            } else {
                None
            },
            None => None,
        },
{
    let kept = trimmed_length(text);
    if kept == 0 {
        return None;
    }
    let first = text.get_char(0);
    let from: usize = if first == '+' {
        1
    } else {
        0
    };
    proof {
        if from == 1 {
            assert(trimmed(text@).skip(1) =~= text@.subrange(1, kept as int));
        }
    }
    if from == kept {
        return None;
    }
    magnitude(text, from, kept, limit)
}

/// Reads a length: as a price is read, but without a minus sign and as far
/// as `u32` reaches.
pub fn parse_length(text: &str) -> (length: Option<u32>)
    ensures
        length == parse_length_spec(text@),
{
    match unsigned(text, u32::MAX as u64) {
        None => None,
        Some(size) => Some(size as u32),
    }
}

/// Reads an index: as a length is read, but as far as `usize` reaches.
pub fn parse_index(text: &str) -> (index: Option<usize>)
    ensures
        index == parse_index_spec(text@),
{
    match unsigned(text, usize::MAX as u64) {
        None => None,
        Some(size) => Some(size as usize),
    }
}

/// Reads a price out of a line as it was typed. The white space at the end
/// of the line does not count, however often it is taken off.
pub fn parse_prompt(line: &str) -> (price: Option<i32>)
    ensures
        price == parse_spec(line@),
{
    let text = answer(line);
    proof {
        lemma_trimmed_twice(line@);
    }
    parse(text.as_str())
}

} // verus!
