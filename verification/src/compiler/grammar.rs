//! The shapes that a line of source text may have, and the scanners that
//! recognise them.

use vstd::prelude::*;

use crate::code::commands::CommandValue;
use crate::compiler::compile::DefineInstruction;
use crate::compiler::scan::{
    is_lower, is_lower_char, is_space, is_space_char, is_upper, is_upper_char, number, parse_number,
    skip_spaces, to_chars, to_string, trim_start,
};

verus! {

/// The operand that `s` writes: decimal digits name a cell directly, decimal
/// digits in square brackets name the cell that holds the index. The number
/// has to fit the machine's index type.
pub open spec fn command_value_of(s: Seq<char>) -> Option<CommandValue> {
    if s.len() >= 2 && s[0] == '[' && s.last() == ']' {
        match number(s.subrange(1, s.len() - 1), usize::MAX as nat) {
            Some(n) => Some(CommandValue::Index(n as usize)),
            None => None,
        }
    } else {
        match number(s, usize::MAX as nat) {
            Some(n) => Some(CommandValue::Value(n as usize)),
            None => None,
        }
    }
}

/// `s` is a label: one or more of the letters `a` to `z`.
pub open spec fn is_label(s: Seq<char>) -> bool {
    &&& s.len() > 0
    &&& forall|i: int| 0 <= i < s.len() ==> is_lower(#[trigger] s[i])
}

/// Reads `chars[start..end]` as an operand.
pub(crate) fn scan_command_value(chars: &[char], start: usize, end: usize) -> (r: Option<CommandValue>)
    requires
        start <= end <= chars.len(),
    ensures
        r == command_value_of(chars@.subrange(start as int, end as int)),
{
    let ghost text = chars@.subrange(start as int, end as int);
    if end - start >= 2 && chars[start] == '[' && chars[end - 1] == ']' {
        assert(text.subrange(1, text.len() - 1) == chars@.subrange(start + 1, end - 1));
        match parse_number(chars, start + 1, end - 1, usize::MAX as u64) {
            Some(n) => Some(CommandValue::Index(n as usize)),
            None => None,
        }
    } else {
        match parse_number(chars, start, end, usize::MAX as u64) {
            Some(n) => Some(CommandValue::Value(n as usize)),
            None => None,
        }
    }
}

/// Whether `chars[start..end]` is a label.
pub(crate) fn scan_label(chars: &[char], start: usize, end: usize) -> (r: bool)
    requires
        start <= end <= chars.len(),
    ensures
        r == is_label(chars@.subrange(start as int, end as int)),
{
    let ghost text = chars@.subrange(start as int, end as int);
    if start == end {
        return false;
    }
    let mut i: usize = start;
    while i < end
        invariant
            start <= i <= end <= chars.len(),
            text == chars@.subrange(start as int, end as int),
            forall|j: int| 0 <= j < i - start ==> is_lower(#[trigger] text[j]),
        decreases end - i,
    {
        if !is_lower_char(chars[i]) {
            assert(text[i - start] == chars[i as int]);
            return false;
        }
        i += 1;
    }
    true
}

/// `t` begins and ends with two hyphens: a line of code that was commented out.
pub open spec fn is_commented_code(t: Seq<char>) -> bool {
    &&& t.len() >= 2
    &&& t[0] == '-'
    &&& t[1] == '-'
    &&& t[t.len() - 2] == '-'
    &&& t[t.len() - 1] == '-'
}

/// What follows `word` in `t`, where `t` begins with `word` and white space:
/// the rest of `t` behind that white space.
pub open spec fn after_word(t: Seq<char>, word: Seq<char>) -> Option<Seq<char>> {
    if t.len() > word.len() && t.take(word.len() as int) == word && is_space(t[word.len() as int]) {
        Some(trim_start(t.skip(word.len() as int)))
    } else {
        None
    }
}

/// The number that `s` writes, if it writes one that fits `u32`.
pub open spec fn id_of(s: Seq<char>) -> Option<u32> {
    match number(s, u32::MAX as nat) {
        Some(n) => Some(n as u32),
        None => None,
    }
}

/// The number of the comment that the line `COMMENT`, white space, number
/// stands for.
pub open spec fn comment_of(t: Seq<char>) -> Option<u32> {
    match after_word(t, "COMMENT"@) {
        Some(rest) => id_of(rest),
        None => None,
    }
}

/// What the line `DEFINE`, white space, `COMMENT` or `LABEL`, white space,
/// number defines.
pub open spec fn define_of(t: Seq<char>) -> Option<DefineInstruction> {
    match after_word(t, "DEFINE"@) {
        None => None,
        Some(rest) => match after_word(rest, "COMMENT"@) {
            Some(digits) => match id_of(digits) {
                Some(id) => Some(DefineInstruction::COMMENT(id)),
                None => None,
            },
            None => match after_word(rest, "LABEL"@) {
                Some(digits) => match id_of(digits) {
                    Some(id) => Some(DefineInstruction::LABEL(id)),
                    None => None,
                },
                None => None,
            },
        },
    }
}

/// The label that the line declares: a label followed by a colon.
pub open spec fn new_label_of(t: Seq<char>) -> Option<Seq<char>> {
    if t.len() > 0 && t.last() == ':' && is_label(t.drop_last()) {
        Some(t.drop_last())
    } else {
        None
    }
}

/// The number of upper-case letters `A` to `Z` that `t` begins with.
pub open spec fn keyword_len(t: Seq<char>) -> nat
    decreases t.len(),
{
    if t.len() > 0 && is_upper(t[0]) {
        1 + keyword_len(t.drop_first())
    } else {
        0
    }
}

/// The keyword and the arguments of a line that has the shape of an
/// instruction: upper-case letters, and then either nothing, or white space
/// and the arguments, which run to the end of the line and hold no line feed.
pub open spec fn command_parts(t: Seq<char>) -> Option<(Seq<char>, Seq<char>)> {
    let k = keyword_len(t) as int;
    if k == 0 {
        None
    } else if k == t.len() {
        Some((t, Seq::empty()))
    } else if is_space(t[k]) && !trim_start(t.skip(k)).contains('\n') {
        Some((t.take(k), trim_start(t.skip(k))))
    } else {
        None
    }
}

/// The number of characters before the first line feed of `text`, or in all
/// of `text` if it holds none.
pub open spec fn line_end(text: Seq<char>) -> nat
    decreases text.len(),
{
    if text.len() == 0 || text[0] == '\n' {
        0
    } else {
        1 + line_end(text.drop_first())
    }
}

/// Whether `chars[start..end]` is the word `word`.
pub(crate) fn is_word(chars: &[char], start: usize, end: usize, word: &[char]) -> (r: bool)
    requires
        start <= end <= chars.len(),
    ensures
        r == (chars@.subrange(start as int, end as int) == word@),
{
    let ghost text = chars@.subrange(start as int, end as int);
    if end - start != word.len() {
        return false;
    }
    let mut i: usize = 0;
    while i < word.len()
        invariant
            start <= end <= chars.len(),
            end - start == word.len(),
            i <= word.len(),
            text == chars@.subrange(start as int, end as int),
            forall|j: int| 0 <= j < i ==> text[j] == word[j],
        decreases word.len() - i,
    {
        if chars[start + i] != word[i] {
            return false;
        }
        i += 1;
    }
    assert(text =~= word@);
    true
}

/// Where the rest of `chars[start..end]` begins, behind `word` and the white
/// space that follows it.
pub(crate) fn scan_word(chars: &[char], start: usize, end: usize, word: &str) -> (r: Option<usize>)
    requires
        start <= end <= chars.len(),
    ensures
        match after_word(chars@.subrange(start as int, end as int), word@) {
            Some(rest) => r matches Some(from) && start <= from <= end && chars@.subrange(
                from as int,
                end as int,
            ) == rest,
            None => r is None,
        },
{
    let ghost text = chars@.subrange(start as int, end as int);
    let word = to_chars(word);
    if end - start <= word.len() {
        return None;
    }
    let stop = start + word.len();
    assert(text.take(word.len() as int) == chars@.subrange(start as int, stop as int));
    if !is_word(chars, start, stop, word.as_slice()) {
        return None;
    }
    if !is_space_char(chars[stop]) {
        return None;
    }
    assert(text.skip(word.len() as int) == chars@.subrange(stop as int, end as int));
    Some(skip_spaces(chars, stop, end))
}

/// Reads `chars[start..end]` as a number that fits `u32`.
pub(crate) fn scan_id(chars: &[char], start: usize, end: usize) -> (r: Option<u32>)
    requires
        start <= end <= chars.len(),
    ensures
        r == id_of(chars@.subrange(start as int, end as int)),
{
    match parse_number(chars, start, end, u32::MAX as u64) {
        Some(n) => Some(n as u32),
        None => None,
    }
}

/// Reads `chars[start..end]` as a comment.
pub(crate) fn scan_comment(chars: &[char], start: usize, end: usize) -> (r: Option<u32>)
    requires
        start <= end <= chars.len(),
    ensures
        r == comment_of(chars@.subrange(start as int, end as int)),
{
    match scan_word(chars, start, end, "COMMENT") {
        Some(from) => scan_id(chars, from, end),
        None => None,
    }
}

/// Reads `chars[start..end]` as a definition.
pub(crate) fn scan_define(chars: &[char], start: usize, end: usize) -> (r: Option<DefineInstruction>)
    requires
        start <= end <= chars.len(),
    ensures
        r == define_of(chars@.subrange(start as int, end as int)),
{
    let from = match scan_word(chars, start, end, "DEFINE") {
        Some(from) => from,
        None => return None,
    };
    match scan_word(chars, from, end, "COMMENT") {
        Some(digits) => match scan_id(chars, digits, end) {
            Some(id) => Some(DefineInstruction::COMMENT(id)),
            None => None,
        },
        None => match scan_word(chars, from, end, "LABEL") {
            Some(digits) => match scan_id(chars, digits, end) {
                Some(id) => Some(DefineInstruction::LABEL(id)),
                None => None,
            },
            None => None,
        },
    }
}

/// Reads `chars[start..end]` as the declaration of a label.
pub(crate) fn scan_new_label(chars: &[char], start: usize, end: usize) -> (r: Option<String>)
    requires
        start <= end <= chars.len(),
    ensures
        match r {
            Some(label) => new_label_of(chars@.subrange(start as int, end as int)) == Some(label@),
            None => new_label_of(chars@.subrange(start as int, end as int)) is None,
        },
{
    let ghost text = chars@.subrange(start as int, end as int);
    if start == end {
        return None;
    }
    assert(text.drop_last() == chars@.subrange(start as int, end - 1));
    if chars[end - 1] == ':' && scan_label(chars, start, end - 1) {
        Some(to_string(chars, start, end - 1))
    } else {
        None
    }
}

/// Where the keyword that `chars[start..end]` begins with ends.
pub(crate) fn scan_keyword(chars: &[char], start: usize, end: usize) -> (stop: usize)
    requires
        start <= end <= chars.len(),
    ensures
        start <= stop <= end,
        stop - start == keyword_len(chars@.subrange(start as int, end as int)),
{
    let mut stop: usize = start;
    while stop < end && is_upper_char(chars[stop])
        invariant
            start <= stop <= end <= chars.len(),
            keyword_len(chars@.subrange(start as int, end as int)) == (stop - start) + keyword_len(
                chars@.subrange(stop as int, end as int),
            ),
        decreases end - stop,
    {
        assert(chars@.subrange(stop as int, end as int).drop_first() == chars@.subrange(
            stop as int + 1,
            end as int,
        ));
        stop += 1;
    }
    stop
}

/// Whether `chars[start..end]` holds a line feed.
pub(crate) fn has_line_feed(chars: &[char], start: usize, end: usize) -> (r: bool)
    requires
        start <= end <= chars.len(),
    ensures
        r == chars@.subrange(start as int, end as int).contains('\n'),
{
    let ghost text = chars@.subrange(start as int, end as int);
    let mut i: usize = start;
    while i < end
        invariant
            start <= i <= end <= chars.len(),
            text == chars@.subrange(start as int, end as int),
            forall|j: int| 0 <= j < i - start ==> text[j] != '\n',
        decreases end - i,
    {
        if chars[i] == '\n' {
            assert(text[i - start] == '\n');
            return true;
        }
        i += 1;
    }
    false
}

/// The bounds of the keyword and of the arguments of `chars[start..end]`,
/// where it has the shape of an instruction: the keyword is
/// `chars[start..r.0]`, the arguments are `chars[r.1..end]`.
pub(crate) fn scan_command_parts(chars: &[char], start: usize, end: usize) -> (r: Option<(usize, usize)>)
    requires
        start <= end <= chars.len(),
    ensures
        match command_parts(chars@.subrange(start as int, end as int)) {
            Some((keyword, args)) => r matches Some((stop, from)) && start <= stop <= from <= end
                && chars@.subrange(start as int, stop as int) == keyword && chars@.subrange(
                from as int,
                end as int,
            ) == args,
            None => r is None,
        },
{
    let ghost text = chars@.subrange(start as int, end as int);
    let stop = scan_keyword(chars, start, end);
    if stop == start {
        return None;
    }
    if stop == end {
        return Some((stop, end));
    }
    assert(text.skip(stop - start) == chars@.subrange(stop as int, end as int));
    if !is_space_char(chars[stop]) {
        return None;
    }
    let from = skip_spaces(chars, stop, end);
    if has_line_feed(chars, from, end) {
        return None;
    }
    Some((stop, from))
}

/// Where the line that begins at `chars[start]` ends: at the next line feed,
/// or at the end of `chars`.
pub(crate) fn scan_line(chars: &[char], start: usize) -> (end: usize)
    requires
        start <= chars.len(),
    ensures
        start <= end <= chars.len(),
        end - start == line_end(chars@.skip(start as int)),
{
    let mut end: usize = start;
    while end < chars.len() && chars[end] != '\n'
        invariant
            start <= end <= chars.len(),
            line_end(chars@.skip(start as int)) == (end - start) + line_end(chars@.skip(end as int)),
        decreases chars.len() - end,
    {
        assert(chars@.skip(end as int).drop_first() == chars@.skip(end + 1));
        end += 1;
    }
    end
}

} // verus!
