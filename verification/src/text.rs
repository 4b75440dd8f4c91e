//! Text that goes into search queries and into the status: escaping, removal of
//! bracketed remarks, and shortening.

use vstd::prelude::*;
use vstd::string::StrSliceExecFns;
use vstd::string::StringExecFns;
use crate::chars::chars_of;
use crate::chars::push_char;
use crate::chars::string_of;

verus! {

/// The longest text, in characters, that the status shows in one field.
pub const MAX_TEXT_LEN: usize = 128;

/// The three characters that end a shortened text.
pub open spec fn ellipsis() -> Seq<char> {
    seq!['.', '.', '.']
}

/// Whether `c` has a meaning of its own in the query syntax.
pub open spec fn is_reserved(c: char) -> bool {
    c == '+' || c == '-' || c == '&' || c == '|' || c == '!' || c == '(' || c == ')' || c == '{'
        || c == '}' || c == '[' || c == ']' || c == '^' || c == '"' || c == '~' || c == '*'
        || c == '?' || c == ':' || c == '\\'
}

/// What one character of the input becomes: itself, after a backslash if it is reserved.
pub open spec fn escaped_char(c: char) -> Seq<char> {
    if is_reserved(c) {
        seq!['\\', c]
    } else {
        seq![c]
    }
}

/// `term` with a backslash in front of every reserved character.
pub open spec fn escaped(term: Seq<char>) -> Seq<char>
    decreases term.len(),
{
    if term.len() == 0 {
        Seq::empty()
    } else {
        escaped(term.drop_last()) + escaped_char(term.last())
    }
}

/// Where the character `term[i]` stands in `escaped(term)`.
pub open spec fn escaped_index(term: Seq<char>, i: int) -> int {
    escaped(term.take(i + 1)).len() - 1
}

/// How many parentheses are open after `term` has been read. A closing
/// parenthesis that closes nothing leaves the count at zero.
pub open spec fn depth_after(term: Seq<char>) -> nat
    decreases term.len(),
{
    if term.len() == 0 {
        0
    } else {
        let before = depth_after(term.drop_last());
        if term.last() == '(' {
            before + 1
        } else if term.last() == ')' && before > 0 {
            (before - 1) as nat
        } else {
            before
        }
    }
}

/// Whether the character `term[i]` stands outside every pair of parentheses and
/// is no opening parenthesis itself.
pub open spec fn is_outside(term: Seq<char>, i: int) -> bool {
    term[i] != '(' && depth_after(term.take(i)) == 0
}

/// The characters of `term` that stand outside parentheses, in order. A closing
/// parenthesis that closes nothing is one of them.
pub open spec fn outside_parentheses(term: Seq<char>) -> Seq<char>
    decreases term.len(),
{
    if term.len() == 0 {
        Seq::empty()
    } else if is_outside(term, term.len() - 1) {
        outside_parentheses(term.drop_last()).push(term.last())
    } else {
        outside_parentheses(term.drop_last())
    }
}

/// Whether `c` is white space: one of the code points with the Unicode property
/// `White_Space`.
pub open spec fn is_white_space(c: char) -> bool {
    ('\u{9}' <= c && c <= '\u{d}') || c == ' ' || c == '\u{85}' || c == '\u{a0}' || c == '\u{1680}'
        || ('\u{2000}' <= c && c <= '\u{200a}') || c == '\u{2028}' || c == '\u{2029}' || c
        == '\u{202f}' || c == '\u{205f}' || c == '\u{3000}'
}

/// `text` without the white space that it begins with.
pub open spec fn trimmed_start(text: Seq<char>) -> Seq<char>
    decreases text.len(),
{
    if text.len() > 0 && is_white_space(text.first()) {
        trimmed_start(text.drop_first())
    } else {
        text
    }
}

/// `text` without the white space that it ends with.
pub open spec fn trimmed_end(text: Seq<char>) -> Seq<char>
    decreases text.len(),
{
    if text.len() > 0 && is_white_space(text.last()) {
        trimmed_end(text.drop_last())
    } else {
        text
    }
}

/// `text` without the white space at either end.
pub open spec fn trimmed(text: Seq<char>) -> Seq<char> {
    trimmed_end(trimmed_start(text))
}

/// `term` without what stands in parentheses, and without white space at either end.
pub open spec fn without_parentheses(term: Seq<char>) -> Seq<char> {
    trimmed(outside_parentheses(term))
}

/// `value` in at most `max_length` characters: whole if it is short enough,
/// else so many of its first characters that an ellipsis behind them makes
/// `max_length`.
pub open spec fn truncated_to(value: Seq<char>, max_length: int) -> Seq<char> {
    if value.len() <= max_length {
        value
    } else {
        value.take(max_length - 3) + ellipsis()
    }
}

/// `value` as the status shows it: whole if it has at most 128 characters, else
/// its first 125 characters and an ellipsis.
pub open spec fn truncated(value: Seq<char>) -> Seq<char> {
    truncated_to(value, MAX_TEXT_LEN as int)
}

/// Tells the reserved characters of the query syntax from the others.
pub fn is_reserved_char(c: char) -> (reserved: bool)
    ensures
        reserved == is_reserved(c),
{
    c == '+' || c == '-' || c == '&' || c == '|' || c == '!' || c == '(' || c == ')' || c == '{'
        || c == '}' || c == '[' || c == ']' || c == '^' || c == '"' || c == '~' || c == '*'
        || c == '?' || c == ':' || c == '\\'
}

/// Tells white space from other characters.
pub fn is_white_space_char(c: char) -> (white: bool)
    ensures
        white == is_white_space(c),
{
    ('\u{9}' <= c && c <= '\u{d}') || c == ' ' || c == '\u{85}' || c == '\u{a0}' || c == '\u{1680}'
        || ('\u{2000}' <= c && c <= '\u{200a}') || c == '\u{2028}' || c == '\u{2029}' || c
        == '\u{202f}' || c == '\u{205f}' || c == '\u{3000}'
}

/// Escapes `term` for use as a value in a query: every reserved character gets
/// a backslash in front of it, every other character stays as it is.
pub fn lucene_escape(term: &str) -> (result: String)
    ensures
        result@ == escaped(term@),
{
    let mut result = String::new();
    for c in it: term.chars()
        invariant
            it.seq() == term@,
            result@ == escaped(it.seq().take(it.index())),
    {
        proof {
            let before = it.seq().take(it.index());
            let now = it.seq().take(it.index() + 1);
            assert(now.drop_last() =~= before);
            assert(now.last() == c);
        }
        if is_reserved_char(c) {
            push_char(&mut result, '\\');
        }
        push_char(&mut result, c);
    }
    proof {
        assert(term@.take(term@.len() as int) =~= term@);
    }
    result
}

/// The index of the first character of `chars` that is no white space, or the
/// length of `chars` if there is none.
fn skip_white_space(chars: &Vec<char>) -> (start: usize)
    ensures
        start <= chars.len(),
        trimmed_start(chars@) == chars@.skip(start as int),
{
    let mut start: usize = 0;
    proof {
        assert(chars@.skip(0) =~= chars@);
    }
    while start < chars.len() && is_white_space_char(chars[start])
        invariant
            start <= chars.len(),
            trimmed_start(chars@) == trimmed_start(chars@.skip(start as int)),
        decreases chars.len() - start,
    {
        proof {
            let rest = chars@.skip(start as int);
            assert(rest.first() == chars@[start as int]);
            assert(rest.drop_first() =~= chars@.skip(start + 1));
        }
        start += 1;
    }
    proof {
        let rest = chars@.skip(start as int);
        if start < chars.len() {
            assert(rest.first() == chars@[start as int]);
        }
    }
    start
}

/// The index behind the last character of `chars[start..]` that is no white
/// space, or `start` if there is none.
fn skip_white_space_back(chars: &Vec<char>, start: usize) -> (end: usize)
    requires
        start <= chars.len(),
    ensures
        start <= end <= chars.len(),
        trimmed_end(chars@.skip(start as int)) == chars@.subrange(start as int, end as int),
{
    let mut end: usize = chars.len();
    proof {
        assert(chars@.skip(start as int) =~= chars@.subrange(start as int, chars@.len() as int));
    }
    while end > start && is_white_space_char(chars[end - 1])
        invariant
            start <= end <= chars.len(),
            trimmed_end(chars@.skip(start as int)) == trimmed_end(
                chars@.subrange(start as int, end as int),
            ),
        decreases end - start,
    {
        proof {
            let part = chars@.subrange(start as int, end as int);
            assert(part.last() == chars@[end - 1]);
            assert(part.drop_last() =~= chars@.subrange(start as int, end - 1));
        }
        end -= 1;
    }
    proof {
        let part = chars@.subrange(start as int, end as int);
        if end > start {
            assert(part.last() == chars@[end - 1]);
        }
    }
    end
}

/// Removes from `term` every character that stands in parentheses, the
/// parentheses included and nested ones too, and then the white space at both
/// ends. A closing parenthesis that closes nothing stays as a character.
pub fn remove_parentheses_content(term: &str) -> (result: String)
    ensures
        result@ == without_parentheses(term@),
{
    let chars = chars_of(term);
    let mut outside: Vec<char> = Vec::new();
    let mut depth: usize = 0;
    let mut i: usize = 0;
    while i < chars.len()
        invariant
            i <= chars.len(),
            depth == depth_after(chars@.take(i as int)),
            depth <= i,
            outside@ == outside_parentheses(chars@.take(i as int)),
        decreases chars.len() - i,
    {
        let c = chars[i];
        proof {
            let now = chars@.take(i + 1);
            assert(now.drop_last() =~= chars@.take(i as int));
            assert(now.take(now.len() - 1) =~= chars@.take(i as int));
            assert(now.last() == c);
        }
        if c == '(' {
            depth += 1;
        } else if c == ')' && depth > 0 {
            depth -= 1;
        } else if depth == 0 {
            outside.push(c);
        }
        i += 1;
    }
    proof {
        assert(chars@.take(chars@.len() as int) =~= chars@);
    }
    let start = skip_white_space(&outside);
    let end = skip_white_space_back(&outside, start);
    string_of(&outside, start, end)
}

/// Shortens `value` to at most `max_length` characters, the ellipsis counted:
/// a text that is short enough is returned as it is, a longer one is cut so that
/// it ends in three dots and has `max_length` characters.
pub fn truncate_to(value: &str, max_length: usize) -> (result: String)
    requires
        max_length >= 3,
    ensures
        result@ == truncated_to(value@, max_length as int),
        value@.len() <= max_length ==> result@ == value@,
        value@.len() > max_length ==> result@.len() == max_length && result@.subrange(
            max_length - 3,
            max_length as int,
        ) == ellipsis(),
        result@.len() <= max_length,
{
    if value.unicode_len() <= max_length {
        value.to_owned()
    } else {
        let mut result = String::from_str(value.substring_char(0, max_length - 3));
        proof {
            reveal_strlit("...");
            assert("..."@ =~= ellipsis());
        }
        result.append("...");
        result
    }
}

/// Shortens `value` to what the status can show: a text of at most 128
/// characters is returned as it is, a longer one is cut after 125 characters and
/// ends in three dots, which makes 128.
pub fn truncate_string(value: &str) -> (result: String)
    ensures
        result@ == truncated(value@),
        value@.len() <= MAX_TEXT_LEN ==> result@ == value@,
        value@.len() > MAX_TEXT_LEN ==> result@.len() == MAX_TEXT_LEN && result@.subrange(
            MAX_TEXT_LEN - 3,
            MAX_TEXT_LEN as int,
        ) == ellipsis(),
        result@.len() <= MAX_TEXT_LEN,
{
    truncate_to(value, MAX_TEXT_LEN)
}

/// Escaping goes character by character: the escaped form of two texts put
/// together is their escaped forms put together.
pub proof fn lemma_escaped_concat(left: Seq<char>, right: Seq<char>)
    ensures
        escaped(left + right) == escaped(left) + escaped(right),
    decreases right.len(),
{
    if right.len() == 0 {
        assert(left + right =~= left);
        assert(escaped(left) + escaped(right) =~= escaped(left));
    } else {
        lemma_escaped_concat(left, right.drop_last());
        assert((left + right).drop_last() =~= left + right.drop_last());
        assert((left + right).last() == right.last());
        assert(escaped(left + right) =~= escaped(left) + escaped(right));
    }
}

/// Every character of the input is found again in the escaped text, in the
/// order of the input, and nothing stands between two of them but a backslash in
/// front of a reserved one.
///
/// The output for `term[i]` begins right behind the place of `term[i - 1]`, or
/// at the beginning for `i == 0`. A character that is not reserved stands there
/// itself. For a reserved one a backslash stands there and the character behind
/// it. The last character of the input is the last of the output.
pub proof fn lemma_escaped_layout(term: Seq<char>, i: int)
    requires
        0 <= i < term.len(),
    ensures
        0 <= escaped_index(term, i) < escaped(term).len(),
        escaped(term)[escaped_index(term, i)] == term[i],
        i > 0 ==> escaped_index(term, i - 1) < escaped_index(term, i),
        !is_reserved(term[i]) ==> escaped_index(term, i) == (if i == 0 {
            0
        } else {
            escaped_index(term, i - 1) + 1
        }),
        is_reserved(term[i]) ==> escaped_index(term, i) == (if i == 0 {
            1
        } else {
            escaped_index(term, i - 1) + 2
        }) && escaped(term)[escaped_index(term, i) - 1] == '\\',
        i == term.len() - 1 ==> escaped_index(term, i) == escaped(term).len() - 1,
{
    let upto = term.take(i + 1);
    let before = term.take(i);
    let rest = term.skip(i + 1);
    assert(upto.drop_last() =~= before);
    assert(upto.last() == term[i]);
    assert(term =~= upto + rest);
    lemma_escaped_concat(upto, rest);
    assert(escaped(upto) == escaped(before) + escaped_char(term[i]));
    if i == term.len() - 1 {
        assert(upto =~= term);
    }
    if i == 0 {
        assert(before =~= Seq::<char>::empty());
    } else {
        assert(term.take(i - 1 + 1) =~= before);
    }
}

} // verus!
