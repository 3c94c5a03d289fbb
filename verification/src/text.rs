//! Text predicates shared by every validator.
//!
//! A text value is modelled by its sequence of Unicode scalar values. Lengths
//! are always measured in UTF-8 bytes, the unit every persisted limit uses.

use vstd::prelude::*;
use vstd::utf8::{encode_utf8, encode_utf8_decode_utf8};

verus! {

/// Number of UTF-8 bytes that encode `text`.
pub open spec fn byte_len(text: Seq<char>) -> nat {
    encode_utf8(text).len()
}

/// The optional text's model.
pub open spec fn text_option(text: Option<String>) -> Option<Seq<char>> {
    match text {
        Some(value) => Some(value@),
        None => None,
    }
}

/// Code points with the Unicode `White_Space` property.
pub open spec fn white_space(c: char) -> bool {
    ||| '\u{9}' <= c <= '\u{d}'
    ||| c == ' '
    ||| c == '\u{85}'
    ||| c == '\u{a0}'
    ||| c == '\u{1680}'
    ||| '\u{2000}' <= c <= '\u{200a}'
    ||| c == '\u{2028}'
    ||| c == '\u{2029}'
    ||| c == '\u{202f}'
    ||| c == '\u{205f}'
    ||| c == '\u{3000}'
}

/// Code points in the Unicode control category.
pub open spec fn control(c: char) -> bool {
    c <= '\u{1f}' || '\u{7f}' <= c <= '\u{9f}'
}

/// Text that is empty or consists of white space alone.
pub open spec fn blank(text: Seq<char>) -> bool {
    forall|i: int| 0 <= i < text.len() ==> white_space(#[trigger] text[i])
}

/// Text without any control code point.
pub open spec fn control_free(text: Seq<char>) -> bool {
    forall|i: int| 0 <= i < text.len() ==> !control(#[trigger] text[i])
}

/// Non-blank text of at most `maximum` bytes.
pub open spec fn bounded_text(text: Seq<char>, maximum: nat) -> bool {
    !blank(text) && byte_len(text) <= maximum
}

/// Whether `c` has the Unicode `White_Space` property.
pub fn is_white_space(c: char) -> (result: bool)
    ensures
        result == white_space(c),
{
    ('\u{9}' <= c && c <= '\u{d}') || c == ' ' || c == '\u{85}' || c == '\u{a0}' || c == '\u{1680}'
        || ('\u{2000}' <= c && c <= '\u{200a}') || c == '\u{2028}' || c == '\u{2029}' || c
        == '\u{202f}' || c == '\u{205f}' || c == '\u{3000}'
}

/// Whether `c` is a control code point.
pub fn is_control(c: char) -> (result: bool)
    ensures
        result == control(c),
{
    c <= '\u{1f}' || ('\u{7f}' <= c && c <= '\u{9f}')
}

/// Length of `text` in UTF-8 bytes.
pub fn text_len(text: &str) -> (length: usize)
    ensures
        length == byte_len(text@),
{
    text.as_bytes().len()
}

/// Whether `text` is empty or consists of white space alone.
pub fn is_blank(text: &str) -> (result: bool)
    ensures
        result == blank(text@),
{
    for c in iter: text.chars()
        invariant
            iter.seq() == text@,
            forall|i: int| 0 <= i < iter.index() ==> white_space(#[trigger] text@[i]),
    {
        if !is_white_space(c) {
            return false;
        }
    }
    true
}

/// Whether `text` holds no control code point.
pub fn is_control_free(text: &str) -> (result: bool)
    ensures
        result == control_free(text@),
{
    for c in iter: text.chars()
        invariant
            iter.seq() == text@,
            forall|i: int| 0 <= i < iter.index() ==> !control(#[trigger] text@[i]),
    {
        if is_control(c) {
            return false;
        }
    }
    true
}

/// Whether two byte strings are equal.
pub fn same_bytes(left: &[u8], right: &[u8]) -> (result: bool)
    ensures
        result == (left@ == right@),
{
    if left.len() != right.len() {
        return false;
    }
    let mut i: usize = 0;
    while i < left.len()
        invariant
            left@.len() == right@.len(),
            i <= left@.len(),
            forall|k: int| 0 <= k < i ==> left@[k] == right@[k],
        decreases left@.len() - i,
    {
        if left[i] != right[i] {
            return false;
        }
        i += 1;
    }
    assert(left@ =~= right@);
    true
}

/// UTF-8 encodings of different texts differ.
pub proof fn lemma_encoding_injective(left: Seq<char>, right: Seq<char>)
    ensures
        encode_utf8(left) == encode_utf8(right) <==> left == right,
{
    encode_utf8_decode_utf8(left);
    encode_utf8_decode_utf8(right);
}

/// Whether two texts are equal.
pub fn same_text(left: &str, right: &str) -> (result: bool)
    ensures
        result == (left@ == right@),
{
    proof {
        lemma_encoding_injective(left@, right@);
    }
    same_bytes(left.as_bytes(), right.as_bytes())
}

/// Whether two optional texts are equal.
pub fn same_text_option(left: &Option<String>, right: &Option<String>) -> (result: bool)
    ensures
        result == (text_option(*left) == text_option(*right)),
{
    match (left, right) {
        (Some(left), Some(right)) => same_text(left.as_str(), right.as_str()),
        (None, None) => true,
        _ => false,
    }
}

/// Whether the optional text is present and equal to `expected`.
pub fn option_is_text(value: &Option<String>, expected: &str) -> (result: bool)
    ensures
        result == (text_option(*value) == Some(expected@)),
{
    match value {
        Some(value) => same_text(value.as_str(), expected),
        None => false,
    }
}

/// Whether `text` is non-blank and at most `maximum` bytes long.
pub fn is_bounded_text(text: &str, maximum: usize) -> (result: bool)
    ensures
        result == bounded_text(text@, maximum as nat),
{
    !is_blank(text) && text_len(text) <= maximum
}

/// A copy of an optional text.
pub fn clone_text_option(value: &Option<String>) -> (result: Option<String>)
    ensures
        result == *value,
{
    match value {
        Some(value) => Some(value.clone()),
        None => None,
    }
}

/// Text without its leading white space.
pub open spec fn without_leading(text: Seq<char>) -> Seq<char>
    decreases text.len(),
{
    if text.len() > 0 && white_space(text[0]) {
        without_leading(text.drop_first())
    } else {
        text
    }
}

/// Text without its trailing white space.
pub open spec fn without_trailing(text: Seq<char>) -> Seq<char>
    decreases text.len(),
{
    if text.len() > 0 && white_space(text.last()) {
        without_trailing(text.drop_last())
    } else {
        text
    }
}

/// Text without its leading and trailing white space.
pub open spec fn trimmed(text: Seq<char>) -> Seq<char> {
    without_trailing(without_leading(text))
}

/// Text without its leading and trailing white space.
pub fn trim(text: &str) -> (result: &str)
    ensures
        result@ == trimmed(text@),
{
    let length: usize = text.unicode_len();
    let mut start: usize = 0;
    proof {
        assert(text@.subrange(0, length as int) =~= text@);
    }
    while start < length && is_white_space(text.get_char(start))
        invariant
            start <= length,
            length == text@.len(),
            without_leading(text@) == without_leading(text@.subrange(start as int, length as int)),
        decreases length - start,
    {
        proof {
            let rest = text@.subrange(start as int, length as int);
            assert(rest.drop_first() =~= text@.subrange(start as int + 1, length as int));
        }
        start += 1;
    }
    let mut end: usize = length;
    let ghost led = text@.subrange(start as int, length as int);
    proof {
        assert(without_leading(text@) == led);
        assert(led =~= text@.subrange(start as int, end as int));
    }
    while start < end && is_white_space(text.get_char(end - 1))
        invariant
            start <= end <= length,
            length == text@.len(),
            without_trailing(led) == without_trailing(text@.subrange(start as int, end as int)),
        decreases end - start,
    {
        proof {
            let rest = text@.subrange(start as int, end as int);
            assert(rest.drop_last() =~= text@.subrange(start as int, end as int - 1));
            assert(rest.last() == text@[end as int - 1]);
        }
        end -= 1;
    }
    proof {
        let rest = text@.subrange(start as int, end as int);
        if start < end {
            assert(rest.last() == text@[end as int - 1]);
        }
        assert(without_trailing(rest) == rest);
    }
    text.substring_char(start, end)
}

/// Trimming leaves nothing exactly where the text is blank.
pub proof fn trimmed_is_empty_iff_blank(text: Seq<char>)
    ensures
        trimmed(text).len() == 0 <==> blank(text),
{
    lemma_without_leading(text);
    lemma_without_trailing(without_leading(text));
}

proof fn lemma_without_leading(text: Seq<char>)
    ensures
        without_leading(text).len() > 0 ==> !white_space(without_leading(text)[0]),
        without_leading(text).len() == 0 <==> blank(text),
    decreases text.len(),
{
    if text.len() > 0 && white_space(text[0]) {
        let rest = text.drop_first();
        lemma_without_leading(rest);
        assert(blank(rest) ==> blank(text)) by {
            if blank(rest) {
                assert forall|i: int| 0 <= i < text.len() implies white_space(#[trigger] text[i]) by {
                    if i > 0 {
                        assert(text[i] == rest[i - 1]);
                    }
                }
            }
        }
        assert(blank(text) ==> blank(rest)) by {
            if blank(text) {
                assert forall|i: int| 0 <= i < rest.len() implies white_space(#[trigger] rest[i]) by {
                    assert(rest[i] == text[i + 1]);
                }
            }
        }
    } else if text.len() > 0 {
        assert(!white_space(text[0]));
    }
}

proof fn lemma_without_trailing(text: Seq<char>)
    ensures
        text.len() > 0 && !white_space(text[0]) ==> without_trailing(text).len() > 0,
        text.len() == 0 ==> without_trailing(text).len() == 0,
    decreases text.len(),
{
    if text.len() > 0 && white_space(text.last()) {
        if text.len() > 1 {
            assert(text.drop_last()[0] == text[0]);
        }
        lemma_without_trailing(text.drop_last());
    }
}

/// Joins two texts.
pub fn join(left: &str, right: &str) -> (result: String)
    ensures
        result@ == left@ + right@,
{
    left.to_owned().concat(right)
}

/// A text is bounded exactly where something is left of it when it is trimmed,
/// and its encoding is at most as long as the bound.
pub proof fn bounded_texts_are_visible_and_short(text: Seq<char>, maximum: nat)
    ensures
        bounded_text(text, maximum) <==> trimmed(text).len() > 0 && encode_utf8(text).len()
            <= maximum,
{
    trimmed_is_empty_iff_blank(text);
}

/// White space and control characters are these code points and no others.
pub proof fn character_classes_are_fixed(c: char)
    ensures
        white_space(c) <==> {
            let code = c as u32;
            ||| 9 <= code <= 13
            ||| code == 32
            ||| code == 0x85
            ||| code == 0xa0
            ||| code == 0x1680
            ||| 0x2000 <= code <= 0x200a
            ||| code == 0x2028
            ||| code == 0x2029
            ||| code == 0x202f
            ||| code == 0x205f
            ||| code == 0x3000
        },
        control(c) <==> (c as u32) < 32 || 127 <= (c as u32) < 160,
{
}

/// What stands between the same bytes on both sides is the same.
pub proof fn lemma_between(before: Seq<u8>, left: Seq<u8>, right: Seq<u8>, behind: Seq<u8>)
    requires
        before + left + behind == before + right + behind,
    ensures
        left == right,
{
    let (l, r) = (before + left + behind, before + right + behind);
    assert(l.len() == r.len());
    let (from, to) = (before.len() as int, (before.len() + left.len()) as int);
    assert(l.subrange(from, to) =~= left);
    assert(r.subrange(from, to) =~= right);
}

proof fn lemma_leading_cut(text: Seq<char>) -> (from: int)
    ensures
        0 <= from <= text.len(),
        without_leading(text) == text.subrange(from, text.len() as int),
        forall|i: int| 0 <= i < from ==> white_space(#[trigger] text[i]),
        from < text.len() ==> !white_space(text[from]),
    decreases text.len(),
{
    if text.len() > 0 && white_space(text[0]) {
        let rest = text.drop_first();
        let cut = lemma_leading_cut(rest);
        assert forall|i: int| 0 <= i < cut + 1 implies white_space(#[trigger] text[i]) by {
            if i > 0 {
                assert(white_space(rest[i - 1]));
            }
        }
        assert(rest.subrange(cut, rest.len() as int) =~= text.subrange(
            cut + 1,
            text.len() as int,
        ));
        cut + 1
    } else {
        assert(text =~= text.subrange(0, text.len() as int));
        0
    }
}

proof fn lemma_trailing_cut(text: Seq<char>) -> (to: int)
    ensures
        0 <= to <= text.len(),
        without_trailing(text) == text.subrange(0, to),
        forall|i: int| to <= i < text.len() ==> white_space(#[trigger] text[i]),
        to > 0 ==> !white_space(text[to - 1]),
    decreases text.len(),
{
    if text.len() > 0 && white_space(text.last()) {
        let rest = text.drop_last();
        let cut = lemma_trailing_cut(rest);
        assert forall|i: int| cut <= i < text.len() implies white_space(#[trigger] text[i]) by {
            if i < rest.len() {
                assert(white_space(rest[i]));
            }
        }
        assert(rest.subrange(0, cut) =~= text.subrange(0, cut));
        cut
    } else {
        assert(text =~= text.subrange(0, text.len() as int));
        text.len() as int
    }
}

/// Trimming cuts white space at both ends and nothing else: what is left is one
/// piece of the text, and it neither begins nor ends with white space.
pub proof fn trimming_cuts_the_ends_alone(text: Seq<char>) -> (ends: (int, int))
    ensures
        0 <= ends.0 <= ends.1 <= text.len(),
        trimmed(text) == text.subrange(ends.0, ends.1),
        forall|i: int| 0 <= i < ends.0 ==> white_space(#[trigger] text[i]),
        forall|i: int| ends.1 <= i < text.len() ==> white_space(#[trigger] text[i]),
        ends.0 < ends.1 ==> !white_space(text[ends.0]) && !white_space(text[ends.1 - 1]),
{
    let from = lemma_leading_cut(text);
    let rest = without_leading(text);
    let to = lemma_trailing_cut(rest);
    assert(rest.subrange(0, to) =~= text.subrange(from, from + to));
    assert forall|i: int| from + to <= i < text.len() implies white_space(#[trigger] text[i]) by {
        assert(white_space(rest[i - from]));
    }
    if to > 0 {
        assert(rest[to - 1] == text[from + to - 1]);
    }
    (from, from + to)
}

} // verus!
