//! Helpers of the generator of the custom resource definitions: the
//! generated manifest gets a placeholder label, and the line that holds it
//! is replaced by the line that the chart's template needs.

use crate::text::{chars_of, contains, join, joined, string_of, vec_contains};
use crate::types::labels::Labels;
use crate::types::object::{ObjectMeta, ObjectMetaView};
use vstd::prelude::*;
use vstd::string::*;

verus! {

/// Key and value of the label that marks where the chart's labels go.
pub const LABEL_PLACEHOLDER: &'static str = "CHECKPOINT_LABEL_PLACEHOLDER";

/// The line that stands in place of the placeholder label.
pub const LABEL_REPLACE_TARGET: &'static str =
    "    {{- include \"checkpoint.labels\" . | nindent 4 }}";

/// The labels of a definition with the placeholder label.
pub open spec fn with_placeholder(labels: Option<Map<Seq<char>, Seq<char>>>) -> Map<
    Seq<char>,
    Seq<char>,
> {
    match labels {
        Some(m) => m.insert(LABEL_PLACEHOLDER@, LABEL_PLACEHOLDER@),
        None => Map::<Seq<char>, Seq<char>>::empty().insert(LABEL_PLACEHOLDER@, LABEL_PLACEHOLDER@),
    }
}

/// Adds the placeholder label to the metadata of a definition; its other
/// labels stay.
pub fn add_label_placeholder(metadata: ObjectMeta) -> (r: ObjectMeta)
    ensures
        r@ == (ObjectMetaView { labels: Some(with_placeholder(metadata@.labels)), ..metadata@ }),
{
    let ObjectMeta { name, namespace, owner_references, labels, annotations } = metadata;
    let mut labels = match labels {
        Some(l) => l,
        None => Labels::new(),
    };
    labels.insert(String::from_str(LABEL_PLACEHOLDER), String::from_str(LABEL_PLACEHOLDER));
    ObjectMeta { name, namespace, owner_references, labels: Some(labels), annotations }
}

/// The lines of a text: what stands between its line feeds, so that a text
/// with `n` line feeds has `n + 1` lines, empty ones among them.
pub open spec fn lines_of(s: Seq<char>) -> Seq<Seq<char>>
    decreases s.len(),
{
    if s.len() == 0 {
        seq![Seq::empty()]
    } else {
        let before = lines_of(s.drop_last());
        if s.last() == '\n' {
            before.push(Seq::empty())
        } else {
            before.update(before.len() - 1, before.last().push(s.last()))
        }
    }
}

/// A text has a line.
pub proof fn lemma_lines_not_empty(s: Seq<char>)
    ensures
        lines_of(s).len() > 0,
    decreases s.len(),
{
    if s.len() > 0 {
        lemma_lines_not_empty(s.drop_last());
    }
}

/// No line of a text holds a line feed.
pub proof fn lemma_lines_hold_no_line_feed(s: Seq<char>)
    ensures
        forall|i: int, j: int|
            0 <= i < lines_of(s).len() && 0 <= j < lines_of(s)[i].len() ==> lines_of(s)[i][j]
                != '\n',
    decreases s.len(),
{
    if s.len() > 0 {
        lemma_lines_hold_no_line_feed(s.drop_last());
        lemma_lines_not_empty(s.drop_last());
    }
}

/// The lines of a text, with line feeds between them, are the text.
pub proof fn lemma_lines_joined(s: Seq<char>)
    ensures
        joined(lines_of(s), seq!['\n']) == s,
    decreases s.len(),
{
    let nl = seq!['\n'];
    if s.len() == 0 {
        assert(s =~= Seq::empty());
    } else {
        let before = lines_of(s.drop_last());
        lemma_lines_joined(s.drop_last());
        lemma_lines_not_empty(s.drop_last());
        if s.last() == '\n' {
            let after = before.push(Seq::empty());
            assert(after.drop_last() =~= before);
            assert(joined(after, nl) =~= joined(before, nl) + nl + Seq::<char>::empty());
            assert(s =~= s.drop_last() + nl);
        } else {
            let last = before.last().push(s.last());
            let after = before.update(before.len() - 1, last);
            if before.len() == 1 {
                assert(joined(before, nl) == before[0]);
                assert(joined(after, nl) == last);
                assert(s =~= s.drop_last().push(s.last()));
            } else {
                assert(after.drop_last() =~= before.drop_last());
                assert(joined(after, nl) =~= joined(before.drop_last(), nl) + nl + last);
                assert(joined(before, nl) =~= joined(before.drop_last(), nl) + nl + before.last());
                assert(s =~= s.drop_last().push(s.last()));
            }
        }
    }
}

/// A line of the generated manifest as the chart has it: the replacement
/// for a line that holds the placeholder, the line itself for any other.
pub open spec fn replaced_line(line: Seq<char>) -> Seq<char> {
    if contains(line, LABEL_PLACEHOLDER@) {
        LABEL_REPLACE_TARGET@
    } else {
        line
    }
}

/// The generated manifest as the chart has it.
pub open spec fn replaced(yaml: Seq<char>) -> Seq<char> {
    joined(lines_of(yaml).map_values(|l: Seq<char>| replaced_line(l)), "\n"@)
}

/// The lines of a text.
pub fn split_lines(text: &str) -> (r: Vec<Vec<char>>)
    ensures
        r.len() == lines_of(text@).len(),
        forall|i: int| 0 <= i < r.len() ==> (#[trigger] r@[i])@ == lines_of(text@)[i],
{
    let s = chars_of(text);
    let mut done: Vec<Vec<char>> = Vec::new();
    let mut current: Vec<char> = Vec::new();
    let mut i: usize = 0;
    assert(s@.take(0) =~= Seq::empty());
    while i < s.len()
        invariant
            i <= s.len(),
            s@ == text@,
            lines_of(s@.take(i as int)).len() == done.len() + 1,
            forall|k: int| 0 <= k < done.len() ==> (#[trigger] done@[k])@ == lines_of(s@.take(i as int))[k],
            current@ == lines_of(s@.take(i as int))[done.len() as int],
        decreases s.len() - i,
    {
        proof {
            assert(s@.take(i + 1).drop_last() =~= s@.take(i as int));
            assert(s@.take(i + 1).last() == s@[i as int]);
        }
        if s[i] == '\n' {
            done.push(current);
            current = Vec::new();
        } else {
            current.push(s[i]);
        }
        i += 1;
    }
    assert(s@.take(s.len() as int) =~= s@);
    done.push(current);
    done
}

/// The generated manifest as the chart has it: every line that holds the
/// placeholder label is replaced by the line that includes the chart's
/// labels; every other line stays.
pub fn replace_placeholder(yaml_string: String) -> (r: String)
    ensures
        r@ == replaced(yaml_string@),
{
    let lines = split_lines(yaml_string.as_str());
    let placeholder = chars_of(LABEL_PLACEHOLDER);
    let ghost all = lines_of(yaml_string@);
    let mut out: Vec<String> = Vec::new();
    let mut i: usize = 0;
    while i < lines.len()
        invariant
            i <= lines.len(),
            out.len() == i,
            lines.len() == all.len(),
            placeholder@ == LABEL_PLACEHOLDER@,
            forall|k: int| 0 <= k < lines.len() ==> (#[trigger] lines@[k])@ == all[k],
            forall|k: int| 0 <= k < i ==> (#[trigger] out.deep_view()[k]) == replaced_line(all[k]),
        decreases lines.len() - i,
    {
        let ghost before = out.deep_view();
        let line = if vec_contains(&lines[i], &placeholder) {
            String::from_str(LABEL_REPLACE_TARGET)
        } else {
            string_of(&lines[i])
        };
        assert(line@ == replaced_line(all[i as int]));
        out.push(line);
        assert(out.deep_view() =~= before.push(line@));
        i += 1;
    }
    assert(out.deep_view() =~= all.map_values(|l: Seq<char>| replaced_line(l)));
    join(&out, "\n")
}

} // verus!
