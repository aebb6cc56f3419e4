//! Characters: the classes of them that the grammar knows, white space at
//! the ends of a text, and decimal numbers.

use vstd::prelude::*;
use vstd::std_specs::iter::IteratorSpec;

verus! {

/// The characters of a string slice, in order.
pub fn to_chars(s: &str) -> (chars: Vec<char>)
    ensures
        chars@ == s@,
{
    let mut chars: Vec<char> = Vec::new();
    for c in it: s.chars()
        invariant
            chars@ == it.seq().take(it.index() as int),
            it.seq() == s@,
    {
        chars.push(c);
    }
    chars
}

/// A string made of the characters `chars[start..end]`.
pub(crate) fn to_string(chars: &[char], start: usize, end: usize) -> (s: String)
    requires
        start <= end <= chars.len(),
    ensures
        s@ == chars@.subrange(start as int, end as int),
{
    let mut s = String::new();
    let mut i: usize = start;
    while i < end
        invariant
            start <= i <= end <= chars.len(),
            s@ == chars@.subrange(start as int, i as int),
        decreases end - i,
    {
        s.push(chars[i]);
        i += 1;
    }
    s
}

/// White space: the code points that Unicode gives the property White_Space.
pub open spec fn is_space(c: char) -> bool {
    let u = c as u32;
    ||| 0x09 <= u <= 0x0D
    ||| u == 0x20
    ||| u == 0x85
    ||| u == 0xA0
    ||| u == 0x1680
    ||| 0x2000 <= u <= 0x200A
    ||| u == 0x2028
    ||| u == 0x2029
    ||| u == 0x202F
    ||| u == 0x205F
    ||| u == 0x3000
}

/// A decimal digit, `0` to `9`.
pub open spec fn is_digit(c: char) -> bool {
    '0' <= c <= '9'
}

/// A lower-case letter, `a` to `z`.
pub open spec fn is_lower(c: char) -> bool {
    'a' <= c <= 'z'
}

/// An upper-case letter, `A` to `Z`.
pub open spec fn is_upper(c: char) -> bool {
    'A' <= c <= 'Z'
}

/// Whether `c` is white space.
pub fn is_space_char(c: char) -> (r: bool)
    ensures
        r == is_space(c),
{
    let u: u32 = c as u32;
    (0x09 <= u && u <= 0x0D) || u == 0x20 || u == 0x85 || u == 0xA0 || u == 0x1680 || (0x2000 <= u
        && u <= 0x200A) || u == 0x2028 || u == 0x2029 || u == 0x202F || u == 0x205F || u == 0x3000
}

/// Whether `c` is a decimal digit.
pub fn is_digit_char(c: char) -> (r: bool)
    ensures
        r == is_digit(c),
{
    '0' <= c && c <= '9'
}

/// Whether `c` is a lower-case letter.
pub fn is_lower_char(c: char) -> (r: bool)
    ensures
        r == is_lower(c),
{
    'a' <= c && c <= 'z'
}

/// Whether `c` is an upper-case letter.
pub fn is_upper_char(c: char) -> (r: bool)
    ensures
        r == is_upper(c),
{
    'A' <= c && c <= 'Z'
}

/// `s` with its leading white space removed.
pub open spec fn trim_start(s: Seq<char>) -> Seq<char>
    decreases s.len(),
{
    if s.len() > 0 && is_space(s[0]) {
        trim_start(s.drop_first())
    } else {
        s
    }
}

/// `s` with its trailing white space removed.
pub open spec fn trim_end(s: Seq<char>) -> Seq<char>
    decreases s.len(),
{
    if s.len() > 0 && is_space(s.last()) {
        trim_end(s.drop_last())
    } else {
        s
    }
}

/// `s` without the white space at either end.
pub open spec fn trim(s: Seq<char>) -> Seq<char> {
    trim_end(trim_start(s))
}

/// Where `chars[start..end]` begins once its leading white space is skipped.
pub(crate) fn skip_spaces(chars: &[char], start: usize, end: usize) -> (from: usize)
    requires
        start <= end <= chars.len(),
    ensures
        start <= from <= end,
        chars@.subrange(from as int, end as int) == trim_start(chars@.subrange(start as int, end as int)),
{
    let mut from: usize = start;
    while from < end && is_space_char(chars[from])
        invariant
            start <= from <= end <= chars.len(),
            trim_start(chars@.subrange(from as int, end as int)) == trim_start(
                chars@.subrange(start as int, end as int),
            ),
        decreases end - from,
    {
        assert(chars@.subrange(from as int, end as int).drop_first() == chars@.subrange(
            from as int + 1,
            end as int,
        ));
        from += 1;
    }
    from
}

/// Where `chars[start..end]` ends once its trailing white space is dropped.
pub(crate) fn drop_spaces(chars: &[char], start: usize, end: usize) -> (to: usize)
    requires
        start <= end <= chars.len(),
    ensures
        start <= to <= end,
        chars@.subrange(start as int, to as int) == trim_end(chars@.subrange(start as int, end as int)),
{
    let mut to: usize = end;
    while start < to && is_space_char(chars[to - 1])
        invariant
            start <= to <= end <= chars.len(),
            trim_end(chars@.subrange(start as int, to as int)) == trim_end(
                chars@.subrange(start as int, end as int),
            ),
        decreases to - start,
    {
        assert(chars@.subrange(start as int, to as int).drop_last() == chars@.subrange(
            start as int,
            to as int - 1,
        ));
        to -= 1;
    }
    to
}

/// The bounds of `chars[start..end]` without the white space at either end.
pub(crate) fn trim_bounds(chars: &[char], start: usize, end: usize) -> (r: (usize, usize))
    requires
        start <= end <= chars.len(),
    ensures
        start <= r.0 <= r.1 <= end,
        chars@.subrange(r.0 as int, r.1 as int) == trim(chars@.subrange(start as int, end as int)),
{
    let from = skip_spaces(chars, start, end);
    let to = drop_spaces(chars, from, end);
    (from, to)
}

/// The number that a string of decimal digits writes.
pub open spec fn decimal(s: Seq<char>) -> nat
    decreases s.len(),
{
    if s.len() == 0 {
        0
    } else {
        decimal(s.drop_last()) * 10 + (s.last() as nat - '0' as nat) as nat
    }
}

/// `s` is one or more decimal digits.
pub open spec fn is_number(s: Seq<char>) -> bool {
    &&& s.len() > 0
    &&& forall|i: int| 0 <= i < s.len() ==> is_digit(#[trigger] s[i])
}

/// The number that `s` writes, if `s` is made of decimal digits and the number
/// is at most `max`.
pub open spec fn number(s: Seq<char>, max: nat) -> Option<nat> {
    if is_number(s) && decimal(s) <= max {
        Some(decimal(s))
    } else {
        None
    }
}

/// A string of digits writes a number at least as large as each of its
/// prefixes does.
pub proof fn lemma_decimal_grows(s: Seq<char>, k: int)
    requires
        0 <= k <= s.len(),
        forall|i: int| 0 <= i < s.len() ==> is_digit(#[trigger] s[i]),
    ensures
        decimal(s.take(k)) <= decimal(s),
    decreases s.len(),
{
    if k == s.len() {
        assert(s.take(k) == s);
    } else {
        let shorter = s.drop_last();
        assert(shorter.take(k) == s.take(k));
        lemma_decimal_grows(shorter, k);
    }
}

/// Reads `chars[start..end]` as a decimal number of at most `max`.
pub(crate) fn parse_number(chars: &[char], start: usize, end: usize, max: u64) -> (r: Option<u64>)
    requires
        start <= end <= chars.len(),
    ensures
        match number(chars@.subrange(start as int, end as int), max as nat) {
            Some(n) => r == Some(n as u64),
            None => r is None,
        },
{
    let ghost text = chars@.subrange(start as int, end as int);
    if start == end {
        return None;
    }
    let mut value: u64 = 0;
    let mut i: usize = start;
    while i < end
        invariant
            start <= i <= end <= chars.len(),
            text == chars@.subrange(start as int, end as int),
            forall|j: int| 0 <= j < i - start ==> is_digit(#[trigger] text[j]),
            value == decimal(text.take(i - start)),
            value <= max,
        decreases end - i,
    {
        let c = chars[i];
        assert(text[i - start] == c);
        if !is_digit_char(c) {
            return None;
        }
        let digit: u64 = (c as u32 - '0' as u32) as u64;
        let next: u128 = value as u128 * 10 + digit as u128;
        proof {
            let longer = text.take(i - start + 1);
            assert(longer.drop_last() == text.take(i - start));
        }
        if next > max as u128 {
            proof {
                // Any further character either is no digit, or only adds to the number.
                if is_number(text) {
                    lemma_decimal_grows(text, i - start + 1);
                }
            }
            return None;
        }
        value = next as u64;
        i += 1;
    }
    assert(text.take(i - start) == text);
    Some(value)
}

} // verus!
