//! Character-level helpers on which the rest of the library builds its text
//! handling.
//!
//! Texts are modelled as `Seq<char>`, the view of `str` and `String`. Executable
//! code turns a string slice into a `Vec<char>` once, works on that, and builds a
//! `String` again at the end.

use vstd::prelude::*;
use vstd::string::*;

verus! {

/// `String::push` of the standard library appends one character to the text.
/// This is taken from its documentation and not proved here.
pub assume_specification[ String::push ](text: &mut String, c: char)
    ensures
        final(text)@ == old(text)@.push(c),
;

/// The lowercase form of a text as `str::to_lowercase` of the standard library
/// computes it from the Unicode case tables.
pub uninterp spec fn lowercase_of(text: Seq<char>) -> Seq<char>;

/// Whether every character of the text is an ASCII character.
pub open spec fn is_ascii_text(text: Seq<char>) -> bool {
    forall|i: int| 0 <= i < text.len() ==> (#[trigger] text[i] as u32) < 128
}

/// The ASCII letters `A` to `Z` mapped to `a` to `z`, every other character unchanged.
pub open spec fn ascii_lowercase_char(c: char) -> char {
    if 65 <= c as u32 <= 90 {
        ((c as u32 + 32) as u8) as char
    } else {
        c
    }
}

/// A text with each of its characters mapped by [`ascii_lowercase_char`].
pub open spec fn ascii_lowercase(text: Seq<char>) -> Seq<char> {
    Seq::new(text.len(), |i: int| ascii_lowercase_char(text[i]))
}

/// Calls `str::to_lowercase`. The result is named by [`lowercase_of`]; of a text
/// made of ASCII characters alone it is the text with `A` to `Z` replaced by
/// `a` to `z`, which is what the Unicode tables hold for that range and what
/// the standard library documents of lowercasing ASCII characters. Neither is
/// proved here.
#[verifier::external_body]
pub(crate) fn lowercase(text: &str) -> (lowered: String)
    ensures
        lowered@ == lowercase_of(text@),
        is_ascii_text(text@) ==> lowered@ == ascii_lowercase(text@),
{
    text.to_lowercase()
}

/// The characters `chars[from..]` with `A` to `Z` replaced by `a` to `z`.
pub fn ascii_lowercase_from(chars: &Vec<char>, from: usize) -> (lowered: Vec<char>)
    requires
        from <= chars.len(),
    ensures
        lowered@ == ascii_lowercase(chars@.skip(from as int)),
{
    let mut lowered: Vec<char> = Vec::new();
    let mut i: usize = from;
    while i < chars.len()
        invariant
            from <= i <= chars.len(),
            lowered@.len() == i - from,
            forall|k: int| 0 <= k < i - from ==> lowered@[k] == ascii_lowercase_char(
                chars@[from + k],
            ),
        decreases chars.len() - i,
    {
        let code: u32 = chars[i] as u32;
        if 65 <= code && code <= 90 {
            lowered.push(((code + 32) as u8) as char);
        } else {
            lowered.push(chars[i]);
        }
        i = i + 1;
    }
    lowered
}

/// The characters of a string slice, in order.
pub fn chars_of(text: &str) -> (chars: Vec<char>)
    ensures
        chars@ == text@,
{
    let mut chars: Vec<char> = Vec::new();
    for c in it: text.chars()
        invariant
            it.seq() == text@,
            chars@ == it.seq().take(it.index()),
    {
        chars.push(c);
    }
    chars
}

/// The string made of the characters `chars[from..to]`, in order.
pub fn string_of_range(chars: &Vec<char>, from: usize, to: usize) -> (text: String)
    requires
        from <= to <= chars.len(),
    ensures
        text@ == chars@.subrange(from as int, to as int),
{
    let mut text = String::new();
    let mut i: usize = from;
    while i < to
        invariant
            from <= i <= to <= chars.len(),
            text@ == chars@.subrange(from as int, i as int),
        decreases to - i,
    {
        text.push(chars[i]);
        i = i + 1;
    }
    text
}

/// The string made of the given characters, in order.
pub fn string_of(chars: &Vec<char>) -> (text: String)
    ensures
        text@ == chars@,
{
    let text = string_of_range(chars, 0, chars.len());
    text
}

/// Whether two character vectors hold the same text.
pub fn same_text(left: &Vec<char>, right: &Vec<char>) -> (same: bool)
    ensures
        same == (left@ == right@),
{
    if left.len() != right.len() {
        return false;
    }
    let mut i: usize = 0;
    while i < left.len()
        invariant
            i <= left.len(),
            left.len() == right.len(),
            left@.take(i as int) == right@.take(i as int),
        decreases left.len() - i,
    {
        if left[i] != right[i] {
            return false;
        }
        i = i + 1;
    }
    assert(left@.take(left.len() as int) == left@);
    assert(right@.take(right.len() as int) == right@);
    true
}

/// Whether the text ends with the given suffix.
pub fn ends_with(text: &Vec<char>, suffix: &Vec<char>) -> (ends: bool)
    ensures
        ends == suffix@.is_suffix_of(text@),
{
    if suffix.len() > text.len() {
        return false;
    }
    let offset: usize = text.len() - suffix.len();
    let mut i: usize = 0;
    while i < suffix.len()
        invariant
            i <= suffix.len(),
            offset + suffix.len() == text.len(),
            forall|j: int| 0 <= j < i ==> text@[offset + j] == suffix@[j],
        decreases suffix.len() - i,
    {
        if text[offset + i] != suffix[i] {
            return false;
        }
        i = i + 1;
    }
    true
}

/// The code points that Unicode classes as `White_Space`.
pub open spec fn is_whitespace(c: char) -> bool {
    let n = c as u32;
    ||| 0x09 <= n <= 0x0D
    ||| n == 0x20
    ||| n == 0x85
    ||| n == 0xA0
    ||| n == 0x1680
    ||| 0x2000 <= n <= 0x200A
    ||| n == 0x2028
    ||| n == 0x2029
    ||| n == 0x202F
    ||| n == 0x205F
    ||| n == 0x3000
}

/// Decides [`is_whitespace`].
pub fn whitespace(c: char) -> (white: bool)
    ensures
        white == is_whitespace(c),
{
    let n: u32 = c as u32;
    (0x09 <= n && n <= 0x0D) || n == 0x20 || n == 0x85 || n == 0xA0 || n == 0x1680 || (0x2000 <= n
        && n <= 0x200A) || n == 0x2028 || n == 0x2029 || n == 0x202F || n == 0x205F || n == 0x3000
}

/// The text without its leading whitespace.
pub open spec fn trimmed_start(text: Seq<char>) -> Seq<char>
    decreases text.len(),
{
    if text.len() > 0 && is_whitespace(text[0]) {
        trimmed_start(text.drop_first())
    } else {
        text
    }
}

/// The text without its trailing whitespace.
pub open spec fn trimmed_end(text: Seq<char>) -> Seq<char>
    decreases text.len(),
{
    if text.len() > 0 && is_whitespace(text.last()) {
        trimmed_end(text.drop_last())
    } else {
        text
    }
}

/// The text without its leading and trailing whitespace.
pub open spec fn trimmed(text: Seq<char>) -> Seq<char> {
    trimmed_end(trimmed_start(text))
}

/// Where the text without its leading whitespace begins.
proof fn lemma_trimmed_start(text: Seq<char>) -> (from: int)
    ensures
        0 <= from <= text.len(),
        trimmed_start(text) == text.skip(from),
        forall|i: int| 0 <= i < from ==> is_whitespace(#[trigger] text[i]),
        from < text.len() ==> !is_whitespace(text[from]),
    decreases text.len(),
{
    if text.len() > 0 && is_whitespace(text[0]) {
        let rest = text.drop_first();
        let from = lemma_trimmed_start(rest);
        assert forall|i: int| 0 <= i < from + 1 implies is_whitespace(#[trigger] text[i]) by {
            if i > 0 {
                assert(text[i] == rest[i - 1]);
            }
        }
        from + 1
    } else {
        0
    }
}

/// Where the text without its trailing whitespace ends.
proof fn lemma_trimmed_end(text: Seq<char>) -> (to: int)
    ensures
        0 <= to <= text.len(),
        trimmed_end(text) == text.take(to),
        forall|i: int| to <= i < text.len() ==> is_whitespace(#[trigger] text[i]),
        0 < to ==> !is_whitespace(text[to - 1]),
    decreases text.len(),
{
    if text.len() > 0 && is_whitespace(text.last()) {
        let rest = text.drop_last();
        let to = lemma_trimmed_end(rest);
        assert forall|i: int| to <= i < text.len() implies is_whitespace(#[trigger] text[i]) by {
            if i < rest.len() {
                assert(text[i] == rest[i]);
            }
        }
        to
    } else {
        text.len() as int
    }
}

/// Trimming removes whitespace at the two ends and nothing else: what is left
/// of a text is the part from its first to its last character that is no
/// whitespace, and nothing where it has no such character.
pub proof fn law_trimmed(text: Seq<char>) -> (bounds: (int, int))
    ensures
        0 <= bounds.0 <= bounds.1 <= text.len(),
        trimmed(text) == text.subrange(bounds.0, bounds.1),
        forall|i: int| 0 <= i < bounds.0 ==> is_whitespace(#[trigger] text[i]),
        forall|i: int| bounds.1 <= i < text.len() ==> is_whitespace(#[trigger] text[i]),
        bounds.0 < bounds.1 ==> !is_whitespace(text[bounds.0]) && !is_whitespace(
            text[bounds.1 - 1],
        ),
{
    let from = lemma_trimmed_start(text);
    let rest = text.skip(from);
    let length = lemma_trimmed_end(rest);
    let to = from + length;
    assert forall|i: int| to <= i < text.len() implies is_whitespace(#[trigger] text[i]) by {
        assert(text[i] == rest[i - from]);
    }
    (from, to)
}

/// The bounds of the trimmed part of `chars[from..to]`.
pub fn trim_bounds(chars: &Vec<char>, from: usize, to: usize) -> (bounds: (usize, usize))
    requires
        from <= to <= chars.len(),
    ensures
        from <= bounds.0 <= bounds.1 <= to,
        chars@.subrange(bounds.0 as int, bounds.1 as int) == trimmed(
            chars@.subrange(from as int, to as int),
        ),
{
    let ghost whole = chars@.subrange(from as int, to as int);
    let mut start: usize = from;
    while start < to && whitespace(chars[start])
        invariant
            from <= start <= to <= chars.len(),
            trimmed_start(whole) == trimmed_start(chars@.subrange(start as int, to as int)),
        decreases to - start,
    {
        assert(chars@.subrange(start as int, to as int).drop_first() == chars@.subrange(
            start + 1,
            to as int,
        ));
        start = start + 1;
    }
    let ghost rest = chars@.subrange(start as int, to as int);
    let mut end: usize = to;
    while start < end && whitespace(chars[end - 1])
        invariant
            from <= start <= end <= to <= chars.len(),
            trimmed_end(rest) == trimmed_end(chars@.subrange(start as int, end as int)),
        decreases end - start,
    {
        assert(chars@.subrange(start as int, end as int).drop_last() == chars@.subrange(
            start as int,
            end - 1,
        ));
        end = end - 1;
    }
    (start, end)
}

/// The text without its leading and trailing whitespace.
pub fn trim(chars: &Vec<char>) -> (result: Vec<char>)
    ensures
        result@ == trimmed(chars@),
{
    let (start, end) = trim_bounds(chars, 0, chars.len());
    assert(chars@.subrange(0, chars.len() as int) == chars@);
    let mut result: Vec<char> = Vec::new();
    let mut i: usize = start;
    while i < end
        invariant
            start <= i <= end <= chars.len(),
            result@ == chars@.subrange(start as int, i as int),
        decreases end - i,
    {
        result.push(chars[i]);
        i = i + 1;
    }
    result
}

/// Appends the characters of `tail` to `chars`.
pub fn append_chars(chars: &mut Vec<char>, tail: &Vec<char>)
    ensures
        final(chars)@ == old(chars)@ + tail@,
{
    let mut i: usize = 0;
    while i < tail.len()
        invariant
            i <= tail.len(),
            chars@ == old(chars)@ + tail@.take(i as int),
        decreases tail.len() - i,
    {
        chars.push(tail[i]);
        i = i + 1;
    }
}

/// Appends the characters of the string slice `tail` to `chars`.
pub fn append_str(chars: &mut Vec<char>, tail: &str)
    ensures
        final(chars)@ == old(chars)@ + tail@,
{
    let tail_chars = chars_of(tail);
    append_chars(chars, &tail_chars);
}

} // verus!
