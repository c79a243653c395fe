//! The counting engine: lines, words, bytes and characters of a text.
//!
//! A text is modelled by its sequence of Unicode scalar values, the view of a
//! `str`. Every count is a spec function over that sequence, and every
//! executable counter returns exactly that number.

use vstd::prelude::*;
use vstd::utf8::*;

verus! {

/// Whether `c` carries the Unicode `White_Space` property.
pub open spec fn is_space(c: char) -> bool {
    let u = c as u32;
    ||| 0x09 <= u <= 0x0D
    ||| u == 0x20
    ||| u == 0x85
    ||| u == 0xA0
    ||| u == 0x1680
    ||| 0x2000 <= u <= 0x200A
    ||| u == 0x2028
    ||| u == 0x2029
    ||| u == 0x202F
    ||| u == 0x205F
    ||| u == 0x3000
}

/// Whether `c` is encoded in one byte.
pub open spec fn is_single_byte(c: char) -> bool {
    c as u32 <= 0x7F
}

/// Whether every character of `s` is encoded in one byte.
pub open spec fn all_single_byte(s: Seq<char>) -> bool {
    forall|i: int| 0 <= i < s.len() ==> is_single_byte(#[trigger] s[i])
}

/// The number of line feeds among the first `n` characters of `s`.
pub open spec fn line_feeds_upto(s: Seq<char>, n: int) -> nat
    decreases n,
{
    if n <= 0 {
        0
    } else {
        line_feeds_upto(s, n - 1) + if s[n - 1] == '\n' { 1nat } else { 0nat }
    }
}

/// Whether `s` ends in a segment that no line feed closes.
pub open spec fn has_open_line(s: Seq<char>) -> bool {
    s.len() > 0 && s.last() != '\n'
}

/// The number of lines of `s`: one for each line feed, and one more for a
/// last segment that no line feed closes. A carriage return before a line
/// feed belongs to that line's ending and opens no line of its own.
pub open spec fn line_count(s: Seq<char>) -> nat {
    line_feeds_upto(s, s.len() as int) + if has_open_line(s) { 1nat } else { 0nat }
}

/// Whether a word starts at position `i` of `s`: a character that is not white
/// space, at the start of the text or right after white space.
pub open spec fn word_starts_at(s: Seq<char>, i: int) -> bool {
    &&& 0 <= i < s.len()
    &&& !is_space(s[i])
    &&& (i == 0 || is_space(s[i - 1]))
}

/// The number of words that start among the first `n` characters of `s`.
pub open spec fn word_starts_upto(s: Seq<char>, n: int) -> nat
    decreases n,
{
    if n <= 0 {
        0
    } else {
        word_starts_upto(s, n - 1) + if word_starts_at(s, n - 1) { 1nat } else { 0nat }
    }
}

/// The number of words of `s`: its maximal runs of characters that are not
/// white space, each counted where it starts.
pub open spec fn word_count(s: Seq<char>) -> nat {
    word_starts_upto(s, s.len() as int)
}

/// The number of bytes of the UTF-8 encoding of `s`.
pub open spec fn byte_count(s: Seq<char>) -> nat {
    encode_utf8(s).len()
}

/// The number of Unicode scalar values of `s`.
pub open spec fn char_count(s: Seq<char>) -> nat {
    s.len()
}

/// A text never has more characters than bytes, and has as many exactly when
/// each of its characters is encoded in one byte.
pub proof fn lemma_chars_at_most_bytes(s: Seq<char>)
    ensures
        char_count(s) <= byte_count(s),
        char_count(s) == byte_count(s) <==> all_single_byte(s),
    decreases s.len(),
{
    if s.len() > 0 {
        let rest = s.drop_first();
        lemma_chars_at_most_bytes(rest);
        char_is_scalar(s[0]);
        assert(encode_utf8(s) == encode_scalar(s[0] as u32) + encode_utf8(rest));
        if all_single_byte(s) {
            assert forall|i: int| 0 <= i < rest.len() implies is_single_byte(
                #[trigger] rest[i],
            ) by {
                assert(rest[i] == s[i + 1]);
            }
        }
        if is_single_byte(s[0]) && all_single_byte(rest) {
            assert forall|i: int| 0 <= i < s.len() implies is_single_byte(#[trigger] s[i]) by {
                if i > 0 {
                    assert(s[i] == rest[i - 1]);
                }
            }
        }
    }
}

/// The number of bytes that encode `c`: one to four, by the size of its
/// scalar value.
pub open spec fn encoded_width(c: char) -> nat {
    let u = c as u32;
    if u <= 0x7F {
        1
    } else if u <= 0x7FF {
        2
    } else if u <= 0xFFFF {
        3
    } else {
        4
    }
}

/// The bytes of a text are those of its characters, each by its width.
pub proof fn lemma_bytes_by_width(c: char, s: Seq<char>)
    ensures
        byte_count(Seq::<char>::empty()) == 0,
        byte_count(seq![c] + s) == encoded_width(c) + byte_count(s),
{
    let t = seq![c] + s;
    char_is_scalar(c);
    assert(t.drop_first() =~= s);
    assert(encode_utf8(t) == encode_scalar(t[0] as u32) + encode_utf8(t.drop_first()));
}

/// Whether every character of `s` is white space.
pub open spec fn all_space(s: Seq<char>) -> bool {
    forall|i: int| 0 <= i < s.len() ==> is_space(#[trigger] s[i])
}

/// Whether `s` holds no line feed.
pub open spec fn no_line_feed(s: Seq<char>) -> bool {
    forall|i: int| 0 <= i < s.len() ==> #[trigger] s[i] != '\n'
}

/// Whether `s` is made of whole lines: it is empty or ends in a line feed.
pub open spec fn is_closed(s: Seq<char>) -> bool {
    !has_open_line(s)
}

/// Where `t` holds from position `a + d` what `s` holds from position `a`, up
/// to `n` in `s`, both have as many line feeds there.
proof fn lemma_line_feeds_shift(s: Seq<char>, t: Seq<char>, d: int, a: int, n: int)
    requires
        0 <= a <= n <= s.len(),
        0 <= d,
        n + d <= t.len(),
        forall|i: int| a <= i < n ==> t[i + d] == s[i],
    ensures
        line_feeds_upto(t, n + d) - line_feeds_upto(t, a + d) == line_feeds_upto(s, n)
            - line_feeds_upto(s, a),
    decreases n - a,
{
    if a < n {
        lemma_line_feeds_shift(s, t, d, a, n - 1);
        assert(t[(n - 1) + d] == s[n - 1]);
    }
}

/// Where no line feed stands from position `a` up to `n`, none is counted.
proof fn lemma_line_feeds_none(t: Seq<char>, a: int, n: int)
    requires
        0 <= a <= n <= t.len(),
        forall|i: int| a <= i < n ==> t[i] != '\n',
    ensures
        line_feeds_upto(t, n) == line_feeds_upto(t, a),
    decreases n - a,
{
    if a < n {
        lemma_line_feeds_none(t, a, n - 1);
    }
}

/// Where a word starts in `t` at position `i + d` exactly when one starts in
/// `s` at `i`, from `a` up to `n` in `s`, both have as many word starts there.
proof fn lemma_word_starts_shift(s: Seq<char>, t: Seq<char>, d: int, a: int, n: int)
    requires
        0 <= a <= n <= s.len(),
        0 <= d,
        n + d <= t.len(),
        forall|i: int| a <= i < n ==> word_starts_at(t, i + d) == word_starts_at(s, i),
    ensures
        word_starts_upto(t, n + d) - word_starts_upto(t, a + d) == word_starts_upto(s, n)
            - word_starts_upto(s, a),
    decreases n - a,
{
    if a < n {
        lemma_word_starts_shift(s, t, d, a, n - 1);
        assert(word_starts_at(t, (n - 1) + d) == word_starts_at(s, n - 1));
    }
}

/// Where no word starts from position `a` up to `n`, none is counted.
proof fn lemma_word_starts_none(t: Seq<char>, a: int, n: int)
    requires
        0 <= a <= n <= t.len(),
        forall|i: int| a <= i < n ==> !word_starts_at(t, i),
    ensures
        word_starts_upto(t, n) == word_starts_upto(t, a),
    decreases n - a,
{
    if a < n {
        lemma_word_starts_none(t, a, n - 1);
    }
}

/// The empty text has no line.
pub proof fn lemma_no_lines_in_empty_text()
    ensures
        line_count(Seq::<char>::empty()) == 0,
{
}

/// The lines of a text are its segments between line feeds. After whole
/// lines, one more segment with its line feed is one more line, and so is a
/// last segment that is not empty and has no line feed after it; an empty
/// last segment is no line.
pub proof fn lemma_lines_are_segments(s: Seq<char>, segment: Seq<char>)
    requires
        is_closed(s),
        no_line_feed(segment),
    ensures
        line_count(s + segment.push('\n')) == line_count(s) + 1,
        is_closed(s + segment.push('\n')),
        line_count(s + segment) == line_count(s) + if segment.len() > 0 { 1nat } else { 0nat },
{
    let n = s.len() as int;
    let m = segment.len() as int;
    let closed = s + segment.push('\n');
    let open = s + segment;
    lemma_line_feeds_shift(s, closed, 0, 0, n);
    lemma_line_feeds_shift(s, open, 0, 0, n);
    assert forall|i: int| n <= i < n + m implies closed[i] != '\n' by {
        assert(closed[i] == segment[i - n]);
    }
    assert forall|i: int| n <= i < n + m implies open[i] != '\n' by {
        assert(open[i] == segment[i - n]);
    }
    lemma_line_feeds_none(closed, n, n + m);
    lemma_line_feeds_none(open, n, n + m);
    assert(closed[n + m] == '\n');
    assert(closed.len() == n + m + 1);
    assert(line_feeds_upto(closed, n + m + 1) == line_feeds_upto(closed, n + m) + 1);
    if m > 0 {
        assert(open.last() == segment[m - 1]);
    } else {
        assert(open =~= s);
    }
}

/// More white space changes no word count where it is put before the first
/// word, after the last, or beside white space that is already there.
pub proof fn lemma_words_ignore_added_space(s: Seq<char>, at: int, added: Seq<char>)
    requires
        0 <= at <= s.len(),
        all_space(added),
        at == 0 || at == s.len() || is_space(s[at - 1]) || is_space(s[at]),
    ensures
        word_count(s.take(at) + added + s.skip(at)) == word_count(s),
{
    let t = s.take(at) + added + s.skip(at);
    let n = s.len() as int;
    let d = added.len() as int;
    assert forall|i: int| 0 <= i < at implies word_starts_at(t, i) == word_starts_at(s, i) by {
        assert(t[i] == s[i]);
        if i > 0 {
            assert(t[i - 1] == s[i - 1]);
        }
    }
    lemma_word_starts_shift(s, t, 0, 0, at);
    assert forall|i: int| at <= i < at + d implies !word_starts_at(t, i) by {
        assert(t[i] == added[i - at]);
    }
    lemma_word_starts_none(t, at, at + d);
    assert forall|i: int| at <= i < n implies word_starts_at(t, i + d) == word_starts_at(s, i) by {
        assert(t[i + d] == s[i]);
        if i > at {
            assert(t[i + d - 1] == s[i - 1]);
        } else if d > 0 {
            assert(t[at + d - 1] == added[d - 1]);
        } else if at > 0 {
            assert(t[at - 1] == s[at - 1]);
        }
    }
    lemma_word_starts_shift(s, t, d, at, n);
}

/// White space before the first word and after the last changes no word
/// count.
pub proof fn lemma_words_ignore_outer_space(before: Seq<char>, s: Seq<char>, after: Seq<char>)
    requires
        all_space(before),
        all_space(after),
    ensures
        word_count(before + s + after) == word_count(s),
{
    let t = before + s + after;
    let d = before.len() as int;
    let n = s.len() as int;
    assert forall|i: int| 0 <= i < d implies !word_starts_at(t, i) by {
        assert(t[i] == before[i]);
    }
    lemma_word_starts_none(t, 0, d);
    assert forall|i: int| 0 <= i < n implies word_starts_at(t, i + d) == word_starts_at(s, i) by {
        assert(t[i + d] == s[i]);
        if i > 0 {
            assert(t[i + d - 1] == s[i - 1]);
        } else if d > 0 {
            assert(t[d - 1] == before[d - 1]);
        }
    }
    lemma_word_starts_shift(s, t, d, 0, n);
    assert forall|i: int| d + n <= i < t.len() implies !word_starts_at(t, i) by {
        assert(t[i] == after[i - d - n]);
    }
    lemma_word_starts_none(t, d + n, t.len() as int);
}

/// Whether `c` is white space, as `char::is_whitespace` has it.
pub fn is_whitespace(c: char) -> (r: bool)
    ensures
        r == is_space(c),
{
    let u: u32 = c as u32;
    (0x09 <= u && u <= 0x0D) || u == 0x20 || u == 0x85 || u == 0xA0 || u == 0x1680 || (0x2000 <= u
        && u <= 0x200A) || u == 0x2028 || u == 0x2029 || u == 0x202F || u == 0x205F || u == 0x3000
}

/// The number of bytes that `contents` takes in memory.
pub fn count_bytes(contents: &str) -> (n: usize)
    ensures
        n == byte_count(contents@),
{
    contents.as_bytes().len()
}

/// The number of Unicode scalar values of `contents`.
pub fn count_chars(contents: &str) -> (n: usize)
    ensures
        n == char_count(contents@),
{
    let bytes: usize = count_bytes(contents);
    let mut n: usize = 0;
    proof {
        lemma_chars_at_most_bytes(contents@);
    }
    for c in it: contents.chars()
        invariant
            it.seq() == contents@,
            contents@.len() <= bytes,
            n == it.index(),
    {
        n = n + 1;
    }
    n
}

/// The number of lines of `contents`.
pub fn count_lines(contents: &str) -> (n: usize)
    ensures
        n == line_count(contents@),
        contents@.len() == 0 ==> n == 0,
{
    let bytes: usize = count_bytes(contents);
    let mut feeds: usize = 0;
    let mut open: bool = false;
    proof {
        lemma_chars_at_most_bytes(contents@);
    }
    for c in it: contents.chars()
        invariant
            it.seq() == contents@,
            contents@.len() <= bytes,
            feeds == line_feeds_upto(contents@, it.index() as int),
            feeds + if open { 1int } else { 0int } <= it.index(),
            open == has_open_line(contents@.take(it.index() as int)),
    {
        proof {
            let i = it.index() as int;
            assert(contents@.take(i + 1).last() == contents@[i]);
        }
        if c == '\n' {
            feeds = feeds + 1;
            open = false;
        } else {
            open = true;
        }
    }
    assert(contents@.take(contents@.len() as int) == contents@);
    if open {
        feeds + 1
    } else {
        feeds
    }
}

/// The number of words of `contents`.
pub fn count_words(contents: &str) -> (n: usize)
    ensures
        n == word_count(contents@),
{
    let bytes: usize = count_bytes(contents);
    let mut n: usize = 0;
    let mut in_word: bool = false;
    proof {
        lemma_chars_at_most_bytes(contents@);
    }
    for c in it: contents.chars()
        invariant
            it.seq() == contents@,
            contents@.len() <= bytes,
            n == word_starts_upto(contents@, it.index() as int),
            n <= it.index(),
            in_word == (it.index() > 0 && !is_space(contents@[it.index() - 1])),
    {
        let space = is_whitespace(c);
        if !space && !in_word {
            n = n + 1;
        }
        in_word = !space;
    }
    n
}

} // verus!
