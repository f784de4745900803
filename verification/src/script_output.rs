//! What the script prints: the lines by which it says that it has succeeded,
//! and the line that names the file with the configuration.

use crate::outcome::text_view;
use crate::text::{
    after_first, chars_of, contains, find, find_line_end, first_index, first_occurs_at, includes,
    is_space, lemma_after_first, lemma_contains_in_part, lemma_line_end, lemma_line_end_is,
    lemma_trimmed_of, line_end, occurs_at, text_of, trim_bounds, trimmed,
};
use vstd::prelude::*;
use vstd::slice::slice_subrange;

verus! {

/// The line by which the script says that it has fetched the configuration.
pub open spec fn success_marker() -> Seq<char> {
    "✅ Récupération terminée avec succès!"@
}

/// What the script prints before the path of the file that it has made.
pub open spec fn generated_marker() -> Seq<char> {
    "📄 Fichier généré:"@
}

/// What the script prints before the path under which it has saved the
/// configuration.
pub open spec fn saved_marker() -> Seq<char> {
    "📁 Configuration sauvegardée:"@
}

/// The script's output says that it has succeeded.
pub open spec fn reports_success(stdout: Seq<char>) -> bool {
    contains(stdout, success_marker()) || contains(stdout, generated_marker())
}

/// The path that a line of the script's output gives: what follows the first
/// marker on it, without the white space around.
pub open spec fn path_on(line: Seq<char>) -> Option<Seq<char>> {
    if contains(line, saved_marker()) {
        Some(trimmed(after_first(line, saved_marker())))
    } else if contains(line, generated_marker()) {
        Some(trimmed(after_first(line, generated_marker())))
    } else {
        None
    }
}

/// The path given by the lines of `stdout` that begin at or after `from`: that
/// on the first line that gives one.
pub open spec fn config_path_from(stdout: Seq<char>, from: int) -> Option<Seq<char>>
    decreases stdout.len() + 1 - from,
    via config_path_from_ends
{
    if from < 0 || from >= stdout.len() {
        None
    } else {
        let end = line_end(stdout, from);
        match path_on(stdout.subrange(from, end)) {
            Some(path) => Some(path),
            None => config_path_from(stdout, end + 1),
        }
    }
}

#[via_fn]
proof fn config_path_from_ends(stdout: Seq<char>, from: int) {
    if 0 <= from < stdout.len() {
        lemma_line_end(stdout, from);
    }
}

/// The path of the configuration file that the script's output gives.
pub open spec fn config_path_in(stdout: Seq<char>) -> Option<Seq<char>> {
    config_path_from(stdout, 0)
}

/// Whether the script's output says that it has succeeded.
pub fn output_reports_success(stdout: &[char]) -> (yes: bool)
    ensures
        yes == reports_success(stdout@),
{
    let success = chars_of("✅ Récupération terminée avec succès!");
    let generated = chars_of("📄 Fichier généré:");
    includes(stdout, success.as_slice()) || includes(stdout, generated.as_slice())
}

/// What follows the first occurrence of `marker` on `line`, trimmed.
fn trimmed_after(line: &[char], marker: &[char], at: usize) -> (path: String)
    requires
        at as int == first_index(line@, marker@),
        first_occurs_at(line@, marker@, at as int),
    ensures
        path@ == trimmed(after_first(line@, marker@)),
{
    let len: usize = line.len();
    assert(at + marker@.len() <= len);
    let rest = slice_subrange(line, at + marker.len(), len);
    assert(rest@ =~= line@.skip(at + marker.len()));
    let (start, stop) = trim_bounds(rest);
    text_of(slice_subrange(rest, start, stop))
}

/// The path that a line of the script's output gives.
fn path_on_line(line: &[char], saved: &[char], generated: &[char]) -> (path: Option<String>)
    requires
        saved@ == saved_marker(),
        generated@ == generated_marker(),
    ensures
        text_view(path) == path_on(line@),
{
    match find(line, saved) {
        Some(at) => Some(trimmed_after(line, saved, at)),
        None => match find(line, generated) {
            Some(at) => Some(trimmed_after(line, generated, at)),
            None => None,
        },
    }
}

/// The path of the configuration file that the script's output gives: on the
/// first line that holds a marker of a saved or generated file, what follows
/// the marker, trimmed.
pub fn find_config_path(stdout: &[char]) -> (path: Option<String>)
    ensures
        text_view(path) == config_path_in(stdout@),
{
    let saved = chars_of("📁 Configuration sauvegardée:");
    let generated = chars_of("📄 Fichier généré:");
    let mut from: usize = 0;
    while from < stdout.len()
        invariant
            from <= stdout.len(),
            saved@ == saved_marker(),
            generated@ == generated_marker(),
            config_path_in(stdout@) == config_path_from(stdout@, from as int),
        decreases stdout.len() - from,
    {
        let end: usize = find_line_end(stdout, from);
        let line = slice_subrange(stdout, from, end);
        let path = path_on_line(line, saved.as_slice(), generated.as_slice());
        if path.is_some() {
            return path;
        }
        if end == stdout.len() {
            assert(config_path_from(stdout@, end + 1) is None);
            return None;
        }
        from = end + 1;
    }
    None
}

/// The path on a line is what follows the marker of a saved configuration,
/// without the white space around it, where the marker does not stand
/// earlier on the line.
pub proof fn lemma_path_follows_saved(
    lead: Seq<char>,
    pad: Seq<char>,
    path: Seq<char>,
    trail: Seq<char>,
)
    requires
        forall|earlier: int|
            0 <= earlier < lead.len() ==> !occurs_at(
                lead + saved_marker() + (pad + path + trail),
                saved_marker(),
                earlier,
            ),
        forall|i: int| 0 <= i < pad.len() ==> is_space(pad[i]),
        forall|i: int| 0 <= i < trail.len() ==> is_space(trail[i]),
        path.len() == 0 || (!is_space(path.first()) && !is_space(path.last())),
    ensures
        path_on(lead + saved_marker() + (pad + path + trail)) == Some(path),
{
    lemma_after_first(lead, saved_marker(), pad + path + trail);
    lemma_trimmed_of(pad, path, trail);
}

/// The same of the marker of a generated file, on a line that does not
/// hold the marker of a saved configuration.
pub proof fn lemma_path_follows_generated(
    lead: Seq<char>,
    pad: Seq<char>,
    path: Seq<char>,
    trail: Seq<char>,
)
    requires
        !contains(lead + generated_marker() + (pad + path + trail), saved_marker()),
        forall|earlier: int|
            0 <= earlier < lead.len() ==> !occurs_at(
                lead + generated_marker() + (pad + path + trail),
                generated_marker(),
                earlier,
            ),
        forall|i: int| 0 <= i < pad.len() ==> is_space(pad[i]),
        forall|i: int| 0 <= i < trail.len() ==> is_space(trail[i]),
        path.len() == 0 || (!is_space(path.first()) && !is_space(path.last())),
    ensures
        path_on(lead + generated_marker() + (pad + path + trail)) == Some(path),
{
    lemma_after_first(lead, generated_marker(), pad + path + trail);
    lemma_trimmed_of(pad, path, trail);
}

/// The output that `before`, `line` and `after` make up, read from a line
/// that starts within `before`, gives the path on `line`.
proof fn lemma_path_line_reached(
    before: Seq<char>,
    line: Seq<char>,
    after: Seq<char>,
    from: int,
)
    requires
        before.len() == 0 || before.last() == '\n',
        !contains(before, saved_marker()),
        !contains(before, generated_marker()),
        forall|i: int| 0 <= i < line.len() ==> line[i] != '\n',
        path_on(line) is Some,
        after.len() == 0 || after[0] == '\n',
        0 <= from <= before.len(),
    ensures
        config_path_from(before + line + after, from) == path_on(line),
    decreases before.len() - from,
{
    let text = before + line + after;
    assert(line.len() > 0) by {
        reveal_strlit("📁 Configuration sauvegardée:");
        reveal_strlit("📄 Fichier généré:");
    }
    if from == before.len() {
        let end = (before.len() + line.len()) as int;
        assert forall|i: int| from <= i < end implies text[i] != '\n' by {
            assert(text[i] == line[i - before.len()]);
        }
        if end < text.len() {
            assert(text[end] == after[0]);
        }
        lemma_line_end_is(text, from, end);
        assert(text.subrange(from, end) =~= line);
    } else {
        lemma_line_end(text, from);
        let end = line_end(text, from);
        let stop = before.len() - 1;
        assert(text[stop] == before[stop]);
        assert(end <= stop);
        assert(text.subrange(from, end) =~= before.subrange(from, end));
        if contains(before.subrange(from, end), saved_marker()) {
            lemma_contains_in_part(before, from, end, saved_marker());
        }
        if contains(before.subrange(from, end), generated_marker()) {
            lemma_contains_in_part(before, from, end, generated_marker());
        }
        lemma_path_line_reached(before, line, after, end + 1);
    }
}

/// The first line that gives a path decides: where whole lines without a
/// marker come first, the path is that on the line that follows them,
/// whatever stands on the lines after it.
pub proof fn lemma_first_path_line_wins(before: Seq<char>, line: Seq<char>, after: Seq<char>)
    requires
        before.len() == 0 || before.last() == '\n',
        !contains(before, saved_marker()),
        !contains(before, generated_marker()),
        forall|i: int| 0 <= i < line.len() ==> line[i] != '\n',
        path_on(line) is Some,
        after.len() == 0 || after[0] == '\n',
    ensures
        config_path_in(before + line + after) == path_on(line),
{
    lemma_path_line_reached(before, line, after, 0);
}

/// An output without a marker of a saved or generated file gives no path.
pub proof fn lemma_no_marker_no_path(stdout: Seq<char>, from: int)
    requires
        !contains(stdout, saved_marker()),
        !contains(stdout, generated_marker()),
    ensures
        config_path_from(stdout, from) is None,
        from == 0 ==> config_path_in(stdout) is None,
    decreases stdout.len() + 1 - from,
{
    if 0 <= from < stdout.len() {
        lemma_line_end(stdout, from);
        let end = line_end(stdout, from);
        let line = stdout.subrange(from, end);
        if contains(line, saved_marker()) {
            lemma_contains_in_part(stdout, from, end, saved_marker());
        }
        if contains(line, generated_marker()) {
            lemma_contains_in_part(stdout, from, end, generated_marker());
        }
        lemma_no_marker_no_path(stdout, end + 1);
    }
}

} // verus!
