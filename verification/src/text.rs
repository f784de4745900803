//! Text as sequences of characters: search, lines, white space and words.

use vstd::prelude::*;
use vstd::slice::slice_subrange;
use vstd::utf8::{decode_utf8, valid_utf8};

verus! {

/// `String::push` of the standard library: the character is added at the end
/// and nothing else changes.
pub assume_specification[ String::push ](s: &mut String, c: char)
    ensures
        final(s)@ == old(s)@.push(c),
;

/// Unicode white space, the set that `char::is_whitespace` accepts.
pub open spec fn is_space(c: char) -> bool {
    let n = c as u32;
    ||| 0x09 <= n <= 0x0D
    ||| n == 0x20
    ||| n == 0x85
    ||| n == 0xA0
    ||| n == 0x1680
    ||| 0x2000 <= n <= 0x200A
    ||| n == 0x2028
    ||| n == 0x2029
    ||| n == 0x202F
    ||| n == 0x205F
    ||| n == 0x3000
}

/// `needle` stands in `hay` at index `at`.
pub open spec fn occurs_at(hay: Seq<char>, needle: Seq<char>, at: int) -> bool {
    &&& 0 <= at
    &&& at + needle.len() <= hay.len()
    &&& hay.subrange(at, at + needle.len()) == needle
}

/// `needle` stands somewhere in `hay`.
pub open spec fn contains(hay: Seq<char>, needle: Seq<char>) -> bool {
    exists|at: int| occurs_at(hay, needle, at)
}

/// `needle` stands in `hay` at `at` and nowhere before.
pub open spec fn first_occurs_at(hay: Seq<char>, needle: Seq<char>, at: int) -> bool {
    &&& occurs_at(hay, needle, at)
    &&& forall|earlier: int| 0 <= earlier < at ==> !occurs_at(hay, needle, earlier)
}

/// The index at which `needle` first stands in `hay`, where it stands there
/// at all.
pub open spec fn first_index(hay: Seq<char>, needle: Seq<char>) -> int {
    choose|at: int| first_occurs_at(hay, needle, at)
}

/// What follows the first occurrence of `needle` in `hay`.
pub open spec fn after_first(hay: Seq<char>, needle: Seq<char>) -> Seq<char> {
    hay.skip(first_index(hay, needle) + needle.len())
}

/// The text that a byte string stands for, with U+FFFD in place of each
/// malformed sequence: what `String::from_utf8_lossy` gives.
pub uninterp spec fn lossy_text(bytes: Seq<u8>) -> Seq<char>;

/// Only one index is that of the first occurrence.
pub proof fn lemma_first_index(hay: Seq<char>, needle: Seq<char>, at: int)
    requires
        first_occurs_at(hay, needle, at),
    ensures
        first_index(hay, needle) == at,
{
    let chosen = first_index(hay, needle);
    assert(first_occurs_at(hay, needle, chosen));
    if chosen < at {
        assert(!occurs_at(hay, needle, chosen));
    } else if at < chosen {
        assert(!occurs_at(hay, needle, at));
    }
}

/// What follows the first occurrence is what follows the needle, where the
/// needle does not stand earlier.
pub proof fn lemma_after_first(lead: Seq<char>, needle: Seq<char>, rest: Seq<char>)
    requires
        forall|earlier: int|
            0 <= earlier < lead.len() ==> !occurs_at(lead + needle + rest, needle, earlier),
    ensures
        contains(lead + needle + rest, needle),
        first_index(lead + needle + rest, needle) == lead.len(),
        after_first(lead + needle + rest, needle) == rest,
{
    let whole = lead + needle + rest;
    let at = lead.len() as int;
    assert(whole.subrange(at, at + needle.len()) =~= needle);
    assert(occurs_at(whole, needle, at));
    lemma_first_index(whole, needle, at);
    assert(whole.skip(at + needle.len()) =~= rest);
}

/// The index of the first line feed at or after `from`, or the length of the
/// text where none follows.
pub open spec fn line_end(text: Seq<char>, from: int) -> int
    decreases text.len() - from,
{
    if from < 0 || from >= text.len() {
        text.len() as int
    } else if text[from] == '\n' {
        from
    } else {
        line_end(text, from + 1)
    }
}

/// A text holds each of the parts that it is put together from.
pub proof fn lemma_contains_part(before: Seq<char>, part: Seq<char>, after: Seq<char>)
    ensures
        contains(before + part + after, part),
        contains(before + part, part),
        contains(part + after, part),
{
    let whole = before + part + after;
    let at = before.len() as int;
    assert(whole.subrange(at, at + part.len()) =~= part);
    assert(occurs_at(whole, part, at));
    let left = before + part;
    assert(left.subrange(at, at + part.len()) =~= part);
    assert(occurs_at(left, part, at));
    let right = part + after;
    assert(right.subrange(0, part.len() as int) =~= part);
    assert(occurs_at(right, part, 0));
}

/// What a text holds, it still holds with more text around it.
pub proof fn lemma_contains_wider(
    before: Seq<char>,
    inner: Seq<char>,
    after: Seq<char>,
    needle: Seq<char>,
)
    requires
        contains(inner, needle),
    ensures
        contains(before + inner + after, needle),
        contains(before + inner, needle),
        contains(inner + after, needle),
{
    let at = choose|at: int| occurs_at(inner, needle, at);
    let whole = before + inner + after;
    assert(whole.subrange(before.len() + at, before.len() + at + needle.len()) =~= inner.subrange(
        at,
        at + needle.len(),
    ));
    assert(occurs_at(whole, needle, before.len() + at));
    let left = before + inner;
    assert(left.subrange(before.len() + at, before.len() + at + needle.len()) =~= inner.subrange(
        at,
        at + needle.len(),
    ));
    assert(occurs_at(left, needle, before.len() + at));
    let right = inner + after;
    assert(right.subrange(at, at + needle.len()) =~= inner.subrange(at, at + needle.len()));
    assert(occurs_at(right, needle, at));
}

/// What a part of a text holds, the text holds.
pub proof fn lemma_contains_in_part(text: Seq<char>, from: int, to: int, needle: Seq<char>)
    requires
        0 <= from <= to <= text.len(),
        contains(text.subrange(from, to), needle),
    ensures
        contains(text, needle),
{
    let part = text.subrange(from, to);
    let at = choose|at: int| occurs_at(part, needle, at);
    assert(text.subrange(from + at, from + at + needle.len()) =~= part.subrange(
        at,
        at + needle.len(),
    ));
    assert(occurs_at(text, needle, from + at));
}

/// A line ends at or after the place where it starts, within the text, at a
/// line feed or at the end of the text, and holds no line feed.
pub proof fn lemma_line_end(text: Seq<char>, from: int)
    requires
        0 <= from <= text.len(),
    ensures
        from <= line_end(text, from) <= text.len(),
        line_end(text, from) < text.len() ==> text[line_end(text, from)] == '\n',
        forall|i: int| from <= i < line_end(text, from) ==> text[i] != '\n',
    decreases text.len() - from,
{
    if from < text.len() && text[from] != '\n' {
        lemma_line_end(text, from + 1);
    }
}

/// Where a stretch of text without a line feed is followed by a line feed
/// or by the end of the text, the line that starts with it ends there.
pub proof fn lemma_line_end_is(text: Seq<char>, from: int, end: int)
    requires
        0 <= from <= end <= text.len(),
        forall|i: int| from <= i < end ==> text[i] != '\n',
        end == text.len() || text[end] == '\n',
    ensures
        line_end(text, from) == end,
    decreases end - from,
{
    if from < end {
        lemma_line_end_is(text, from + 1, end);
    }
}

/// `s` without the white space at its end.
pub open spec fn trim_end(s: Seq<char>) -> Seq<char>
    decreases s.len(),
{
    if s.len() > 0 && is_space(s.last()) {
        trim_end(s.drop_last())
    } else {
        s
    }
}

/// `s` without the white space at its start.
pub open spec fn trim_start(s: Seq<char>) -> Seq<char>
    decreases s.len(),
{
    if s.len() > 0 && is_space(s.first()) {
        trim_start(s.drop_first())
    } else {
        s
    }
}

/// `s` without the white space at either end.
pub open spec fn trimmed(s: Seq<char>) -> Seq<char> {
    trim_end(trim_start(s))
}

/// Where the run of characters other than white space that ends `s` begins.
pub open spec fn word_start(s: Seq<char>) -> int
    decreases s.len(),
{
    if s.len() > 0 && !is_space(s.last()) {
        word_start(s.drop_last())
    } else {
        s.len() as int
    }
}

/// The last word of `s`: the last maximal run of characters other than white
/// space, empty where `s` holds white space only.
pub open spec fn last_word(s: Seq<char>) -> Seq<char> {
    let body = trim_end(s);
    body.skip(word_start(body))
}

/// `s` without the occurrences of `c` at its end.
pub open spec fn strip_trailing(s: Seq<char>, c: char) -> Seq<char>
    decreases s.len(),
{
    if s.len() > 0 && s.last() == c {
        strip_trailing(s.drop_last(), c)
    } else {
        s
    }
}

/// Whether `c` is white space.
pub fn is_space_char(c: char) -> (b: bool)
    ensures
        b == is_space(c),
{
    let n: u32 = c as u32;
    (0x09 <= n && n <= 0x0D) || n == 0x20 || n == 0x85 || n == 0xA0 || n == 0x1680 || (0x2000 <= n
        && n <= 0x200A) || n == 0x2028 || n == 0x2029 || n == 0x202F || n == 0x205F || n == 0x3000
}

/// `String::from_utf8_lossy` of the standard library: the text that the bytes
/// stand for, malformed sequences replaced, as a string of its own. Bytes
/// that are well-formed UTF-8 give the text that they encode.
#[verifier::external_body]
pub(crate) fn decode_lossy(bytes: &[u8]) -> (text: String)
    ensures
        text@ == lossy_text(bytes@),
        valid_utf8(bytes@) ==> text@ == decode_utf8(bytes@),
{
    String::from_utf8_lossy(bytes).into_owned()
}

/// The characters of a string, in order.
pub fn chars_of(s: &str) -> (v: Vec<char>)
    ensures
        v@ == s@,
{
    let mut v: Vec<char> = Vec::new();
    for c in it: s.chars()
        invariant
            v@ == it.seq().take(it.index() as int),
    {
        v.push(c);
    }
    v
}

/// The string made of the given characters, in order.
pub fn text_of(chars: &[char]) -> (s: String)
    ensures
        s@ == chars@,
{
    let mut s = String::new();
    let mut i: usize = 0;
    while i < chars.len()
        invariant
            i <= chars.len(),
            s@ == chars@.take(i as int),
        decreases chars.len() - i,
    {
        s.push(chars[i]);
        i += 1;
    }
    s
}

/// Whether `needle` stands in `hay` at index `at`.
pub fn matches_at(hay: &[char], needle: &[char], at: usize) -> (b: bool)
    ensures
        b == occurs_at(hay@, needle@, at as int),
{
    if needle.len() > hay.len() || at > hay.len() - needle.len() {
        return false;
    }
    let mut k: usize = 0;
    while k < needle.len()
        invariant
            k <= needle.len(),
            at + needle.len() <= hay.len(),
            forall|j: int| 0 <= j < k ==> hay@[at + j] == needle@[j],
        decreases needle.len() - k,
    {
        if hay[at + k] != needle[k] {
            assert(hay@.subrange(at as int, at + needle.len())[k as int] != needle@[k as int]);
            return false;
        }
        k += 1;
    }
    assert(hay@.subrange(at as int, at + needle.len()) =~= needle@);
    true
}

/// The index at which `needle` first stands in `hay`.
pub fn find(hay: &[char], needle: &[char]) -> (found: Option<usize>)
    ensures
        found matches Some(at) ==> first_occurs_at(hay@, needle@, at as int) && at == first_index(
            hay@,
            needle@,
        ),
        found is None <==> !contains(hay@, needle@),
{
    if needle.len() > hay.len() {
        return None;
    }
    let last: usize = hay.len() - needle.len();
    let mut at: usize = 0;
    loop
        invariant
            last == hay.len() - needle.len(),
            at <= last,
            forall|earlier: int| 0 <= earlier < at ==> !occurs_at(hay@, needle@, earlier),
        decreases last - at,
    {
        if matches_at(hay, needle, at) {
            proof {
                lemma_first_index(hay@, needle@, at as int);
            }
            return Some(at);
        }
        if at == last {
            return None;
        }
        at += 1;
    }
}

/// Whether `needle` stands somewhere in `hay`.
pub fn includes(hay: &[char], needle: &[char]) -> (b: bool)
    ensures
        b == contains(hay@, needle@),
{
    find(hay, needle).is_some()
}

/// The index of the first line feed at or after `from`, or the length of the
/// text where none follows or `from` lies beyond the text.
pub fn find_line_end(text: &[char], from: usize) -> (end: usize)
    ensures
        end == line_end(text@, from as int),
        end <= text.len(),
        from <= text.len() ==> from <= end,
        forall|i: int| from <= i < end ==> text@[i] != '\n',
        end < text.len() ==> text@[end as int] == '\n',
{
    if from >= text.len() {
        return text.len();
    }
    let mut end: usize = from;
    while end < text.len() && text[end] != '\n'
        invariant
            from <= end <= text.len(),
            line_end(text@, from as int) == line_end(text@, end as int),
            forall|i: int| from <= i < end ==> text@[i] != '\n',
        decreases text.len() - end,
    {
        end += 1;
    }
    end
}

/// How much of `s` is left without the white space at its end.
pub fn trim_end_len(s: &[char]) -> (end: usize)
    ensures
        end <= s.len(),
        s@.take(end as int) == trim_end(s@),
{
    let mut end: usize = s.len();
    assert(s@.take(end as int) =~= s@);
    while end > 0 && is_space_char(s[end - 1])
        invariant
            end <= s.len(),
            trim_end(s@) == trim_end(s@.take(end as int)),
        decreases end,
    {
        assert(s@.take(end as int).drop_last() =~= s@.take(end - 1));
        end -= 1;
    }
    end
}

/// How much of `s` is white space at its start.
pub fn trim_start_len(s: &[char]) -> (start: usize)
    ensures
        start <= s.len(),
        s@.skip(start as int) == trim_start(s@),
{
    let mut start: usize = 0;
    assert(s@.skip(0) =~= s@);
    while start < s.len() && is_space_char(s[start])
        invariant
            start <= s.len(),
            trim_start(s@) == trim_start(s@.skip(start as int)),
        decreases s.len() - start,
    {
        assert(s@.skip(start as int).drop_first() =~= s@.skip(start + 1));
        start += 1;
    }
    start
}

/// Where `s` without the white space at either end begins and ends.
pub fn trim_bounds(s: &[char]) -> (bounds: (usize, usize))
    ensures
        bounds.0 <= bounds.1 <= s.len(),
        s@.subrange(bounds.0 as int, bounds.1 as int) == trimmed(s@),
{
    let start: usize = trim_start_len(s);
    let rest = slice_subrange(s, start, s.len());
    let kept: usize = trim_end_len(rest);
    assert(s@.subrange(start as int, s.len() as int) =~= s@.skip(start as int));
    assert(s@.subrange(start as int, start + kept) =~= s@.skip(start as int).take(kept as int));
    (start, start + kept)
}

/// Where the last word of `s` begins and ends.
pub fn last_word_bounds(s: &[char]) -> (bounds: (usize, usize))
    ensures
        bounds.0 <= bounds.1 <= s.len(),
        s@.subrange(bounds.0 as int, bounds.1 as int) == last_word(s@),
{
    let end: usize = trim_end_len(s);
    let mut start: usize = end;
    while start > 0 && !is_space_char(s[start - 1])
        invariant
            start <= end <= s.len(),
            word_start(s@.take(end as int)) == word_start(s@.take(start as int)),
        decreases start,
    {
        assert(s@.take(start as int).drop_last() =~= s@.take(start - 1));
        start -= 1;
    }
    assert(s@.subrange(start as int, end as int) =~= s@.take(end as int).skip(start as int));
    (start, end)
}

/// How much of `s` is left without the occurrences of `c` at its end.
pub fn strip_trailing_len(s: &[char], c: char) -> (end: usize)
    ensures
        end <= s.len(),
        s@.take(end as int) == strip_trailing(s@, c),
{
    let mut end: usize = s.len();
    assert(s@.take(end as int) =~= s@);
    while end > 0 && s[end - 1] == c
        invariant
            end <= s.len(),
            strip_trailing(s@, c) == strip_trailing(s@.take(end as int), c),
        decreases end,
    {
        assert(s@.take(end as int).drop_last() =~= s@.take(end - 1));
        end -= 1;
    }
    end
}

/// White space after a text does not count: trimming the end gives back what
/// stood before it, where that does not end in white space itself.
pub proof fn lemma_trim_end_of(body: Seq<char>, trail: Seq<char>)
    requires
        body.len() == 0 || !is_space(body.last()),
        forall|i: int| 0 <= i < trail.len() ==> is_space(trail[i]),
    ensures
        trim_end(body + trail) == body,
    decreases trail.len(),
{
    if trail.len() == 0 {
        assert(body + trail =~= body);
    } else {
        assert((body + trail).drop_last() =~= body + trail.drop_last());
        lemma_trim_end_of(body, trail.drop_last());
    }
}

/// White space before a text does not count either.
pub proof fn lemma_trim_start_of(lead: Seq<char>, body: Seq<char>)
    requires
        forall|i: int| 0 <= i < lead.len() ==> is_space(lead[i]),
        body.len() == 0 || !is_space(body.first()),
    ensures
        trim_start(lead + body) == body,
    decreases lead.len(),
{
    if lead.len() == 0 {
        assert(lead + body =~= body);
    } else {
        assert((lead + body).drop_first() =~= lead.drop_first() + body);
        lemma_trim_start_of(lead.drop_first(), body);
    }
}

/// Trimming gives back the text that white space stood around, where that
/// neither starts nor ends in white space itself.
pub proof fn lemma_trimmed_of(lead: Seq<char>, body: Seq<char>, trail: Seq<char>)
    requires
        forall|i: int| 0 <= i < lead.len() ==> is_space(lead[i]),
        forall|i: int| 0 <= i < trail.len() ==> is_space(trail[i]),
        body.len() == 0 || (!is_space(body.first()) && !is_space(body.last())),
    ensures
        trimmed(lead + body + trail) == body,
{
    if body.len() == 0 {
        let spaces = lead + trail;
        assert(lead + body + trail =~= spaces + body);
        assert forall|i: int| 0 <= i < spaces.len() implies is_space(spaces[i]) by {
            if i >= lead.len() {
                assert(spaces[i] == trail[i - lead.len()]);
            }
        }
        lemma_trim_start_of(spaces, body);
    } else {
        assert(lead + body + trail =~= lead + (body + trail));
        assert((body + trail).first() == body.first());
        lemma_trim_start_of(lead, body + trail);
        lemma_trim_end_of(body, trail);
    }
}

/// A word that follows white space, or nothing, starts where that ends.
pub proof fn lemma_word_start_of(lead: Seq<char>, word: Seq<char>)
    requires
        lead.len() == 0 || is_space(lead.last()),
        forall|i: int| 0 <= i < word.len() ==> !is_space(word[i]),
    ensures
        word_start(lead + word) == lead.len(),
    decreases word.len(),
{
    if word.len() == 0 {
        assert(lead + word =~= lead);
    } else {
        assert((lead + word).drop_last() =~= lead + word.drop_last());
        lemma_word_start_of(lead, word.drop_last());
    }
}

/// The last word of a text is the word that only white space follows and
/// that white space, or nothing, stands before.
pub proof fn lemma_last_word_of(lead: Seq<char>, word: Seq<char>, trail: Seq<char>)
    requires
        lead.len() == 0 || is_space(lead.last()),
        word.len() > 0,
        forall|i: int| 0 <= i < word.len() ==> !is_space(word[i]),
        forall|i: int| 0 <= i < trail.len() ==> is_space(trail[i]),
    ensures
        last_word(lead + word + trail) == word,
{
    lemma_trim_end_of(lead + word, trail);
    lemma_word_start_of(lead, word);
    assert((lead + word).skip(lead.len() as int) =~= word);
}

/// What is stripped is what was added: occurrences of `c` after a text that
/// does not end in `c`.
pub proof fn lemma_strip_trailing_of(body: Seq<char>, c: char, trail: Seq<char>)
    requires
        body.len() == 0 || body.last() != c,
        forall|i: int| 0 <= i < trail.len() ==> trail[i] == c,
    ensures
        strip_trailing(body + trail, c) == body,
    decreases trail.len(),
{
    if trail.len() == 0 {
        assert(body + trail =~= body);
    } else {
        assert((body + trail).drop_last() =~= body + trail.drop_last());
        lemma_strip_trailing_of(body, c, trail.drop_last());
    }
}

} // verus!
