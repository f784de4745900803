//! The switch's hostname, read out of its configuration text.

use crate::text::{
    chars_of, contains, find_line_end, includes, is_space, last_word, last_word_bounds,
    lemma_contains_in_part, lemma_last_word_of, lemma_line_end, lemma_line_end_is, line_end,
    strip_trailing, strip_trailing_len, text_of,
};
use vstd::prelude::*;
use vstd::slice::slice_subrange;

verus! {

/// The configuration statement that sets the hostname.
pub open spec fn host_statement() -> Seq<char> {
    "set system host-name"@
}

/// The bare word that other dialects use for the hostname.
pub open spec fn host_token() -> Seq<char> {
    "hostname"@
}

/// What stands for a hostname that the text does not give.
pub open spec fn unknown_host() -> Seq<char> {
    "Unknown"@
}

/// The line speaks of the hostname.
pub open spec fn names_host(line: Seq<char>) -> bool {
    contains(line, host_statement()) || contains(line, host_token())
}

/// The name that a line gives: its last word, without the semicolons that
/// end the statement.
pub open spec fn name_on(line: Seq<char>) -> Seq<char> {
    strip_trailing(last_word(line), ';')
}

/// The hostname given by the lines of `text` that begin at or after `from`:
/// the name on the first line that speaks of the hostname.
pub open spec fn hostname_from(text: Seq<char>, from: int) -> Seq<char>
    decreases text.len() + 1 - from,
    via hostname_from_ends
{
    if from < 0 || from >= text.len() {
        unknown_host()
    } else {
        let end = line_end(text, from);
        let line = text.subrange(from, end);
        if names_host(line) {
            name_on(line)
        } else {
            hostname_from(text, end + 1)
        }
    }
}

#[via_fn]
proof fn hostname_from_ends(text: Seq<char>, from: int) {
    if 0 <= from < text.len() {
        lemma_line_end(text, from);
    }
}

/// The hostname that a configuration text gives.
pub open spec fn hostname_in(text: Seq<char>) -> Seq<char> {
    hostname_from(text, 0)
}

/// The hostname in a configuration given as characters.
pub fn hostname_of(text: &[char]) -> (name: String)
    ensures
        name@ == hostname_in(text@),
{
    let statement = chars_of("set system host-name");
    let token = chars_of("hostname");
    let mut from: usize = 0;
    while from < text.len()
        invariant
            from <= text.len(),
            statement@ == host_statement(),
            token@ == host_token(),
            hostname_in(text@) == hostname_from(text@, from as int),
        decreases text.len() - from,
    {
        let end: usize = find_line_end(text, from);
        let line = slice_subrange(text, from, end);
        if includes(line, statement.as_slice()) || includes(line, token.as_slice()) {
            let (start, stop) = last_word_bounds(line);
            let word = slice_subrange(line, start, stop);
            let kept: usize = strip_trailing_len(word, ';');
            return text_of(slice_subrange(word, 0, kept));
        }
        if end == text.len() {
            assert(hostname_from(text@, end + 1) == unknown_host());
            return String::from_str("Unknown");
        }
        from = end + 1;
    }
    String::from_str("Unknown")
}

/// The hostname in a configuration text: the last word of the first line that
/// holds `set system host-name` or `hostname`, without the semicolons at its
/// end; `Unknown` where no line does.
pub fn extract_hostname(config: &str) -> (name: String)
    ensures
        name@ == hostname_in(config@),
{
    let text = chars_of(config);
    hostname_of(text.as_slice())
}

/// A text that nowhere holds the statement or the word gives no hostname,
/// from whichever line on it is read.
pub proof fn lemma_unknown_from(text: Seq<char>, from: int)
    requires
        !contains(text, host_statement()),
        !contains(text, host_token()),
    ensures
        hostname_from(text, from) == unknown_host(),
    decreases text.len() + 1 - from,
{
    if 0 <= from < text.len() {
        lemma_line_end(text, from);
        let end = line_end(text, from);
        let line = text.subrange(from, end);
        if contains(line, host_statement()) {
            lemma_contains_in_part(text, from, end, host_statement());
        }
        if contains(line, host_token()) {
            lemma_contains_in_part(text, from, end, host_token());
        }
        lemma_unknown_from(text, end + 1);
    }
}

/// A text that nowhere holds the statement or the word gives the hostname
/// that stands for none.
pub proof fn lemma_unknown_without_mention(text: Seq<char>)
    requires
        !contains(text, host_statement()),
        !contains(text, host_token()),
    ensures
        hostname_in(text) == unknown_host(),
{
    lemma_unknown_from(text, 0);
}

/// The text that `before`, `line` and `after` make up, read from a line
/// that starts within `before`, gives the name on `line`.
proof fn lemma_naming_line_reached(
    before: Seq<char>,
    line: Seq<char>,
    after: Seq<char>,
    from: int,
)
    requires
        before.len() == 0 || before.last() == '\n',
        !contains(before, host_statement()),
        !contains(before, host_token()),
        forall|i: int| 0 <= i < line.len() ==> line[i] != '\n',
        names_host(line),
        after.len() == 0 || after[0] == '\n',
        0 <= from <= before.len(),
    ensures
        hostname_from(before + line + after, from) == name_on(line),
    decreases before.len() - from,
{
    let text = before + line + after;
    assert(line.len() > 0) by {
        reveal_strlit("set system host-name");
        reveal_strlit("hostname");
    }
    if from == before.len() {
        let end = (before.len() + line.len()) as int;
        assert forall|i: int| from <= i < end implies text[i] != '\n' by {
            assert(text[i] == line[i - before.len()]);
        }
        if end < text.len() {
            assert(text[end] == after[0]);
        }
        lemma_line_end_is(text, from, end);
        assert(text.subrange(from, end) =~= line);
    } else {
        lemma_line_end(text, from);
        let end = line_end(text, from);
        let stop = before.len() - 1;
        assert(text[stop] == before[stop]);
        assert(end <= stop);
        assert(text.subrange(from, end) =~= before.subrange(from, end));
        if contains(before.subrange(from, end), host_statement()) {
            lemma_contains_in_part(before, from, end, host_statement());
        }
        if contains(before.subrange(from, end), host_token()) {
            lemma_contains_in_part(before, from, end, host_token());
        }
        lemma_naming_line_reached(before, line, after, end + 1);
    }
}

/// The first match wins: where whole lines that do not mention the hostname
/// come first, the hostname is the name on the line that follows them and
/// does, whatever stands on the lines after it.
pub proof fn lemma_first_naming_line_wins(before: Seq<char>, line: Seq<char>, after: Seq<char>)
    requires
        before.len() == 0 || before.last() == '\n',
        !contains(before, host_statement()),
        !contains(before, host_token()),
        forall|i: int| 0 <= i < line.len() ==> line[i] != '\n',
        names_host(line),
        after.len() == 0 || after[0] == '\n',
    ensures
        hostname_in(before + line + after) == name_on(line),
{
    lemma_naming_line_reached(before, line, after, 0);
}

/// The name on a line is its last word as it stands, where that word does
/// not end in a semicolon: what stands before the word, and the white space
/// after it, do not count.
pub proof fn lemma_name_is_last_word(lead: Seq<char>, word: Seq<char>, trail: Seq<char>)
    requires
        lead.len() == 0 || is_space(lead.last()),
        word.len() > 0,
        forall|i: int| 0 <= i < word.len() ==> !is_space(word[i]),
        forall|i: int| 0 <= i < trail.len() ==> is_space(trail[i]),
    ensures
        name_on(lead + word + trail) == strip_trailing(word, ';'),
        word.last() != ';' ==> name_on(lead + word + trail) == word,
{
    lemma_last_word_of(lead, word, trail);
}

} // verus!
