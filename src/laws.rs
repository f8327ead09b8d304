use vstd::prelude::*;

use crate::search::{holds_query, holds_query_folded, line_views, lines_of, matching_lines};
use crate::text::has_substring;

verus! {

/// The empty pattern occurs in every text.
pub proof fn lemma_empty_pattern_everywhere(text: Seq<char>, pattern: Seq<char>)
    requires
        pattern.len() == 0,
    ensures
        has_substring(text, pattern),
{
    assert(text.subrange(0, 0int + pattern.len()) =~= pattern);
}

/// Filtering by a test that every line passes keeps every line.
pub proof fn lemma_filter_keeps_all(lines: Seq<Seq<char>>, pred: spec_fn(Seq<char>) -> bool)
    requires
        forall|l: Seq<char>| #[trigger] pred(l),
    ensures
        lines.filter(pred) == lines,
    decreases lines.len(),
{
    reveal(Seq::filter);
    if lines.len() > 0 {
        lemma_filter_keeps_all(lines.drop_last(), pred);
        assert(lines.drop_last().push(lines.last()) =~= lines);
    }
}

/// A case-sensitive search for the empty query returns every line of the
/// text.
pub proof fn lemma_empty_query_matches_every_line(contents: Seq<char>)
    ensures
        lines_of(contents).filter(holds_query(Seq::empty())) == lines_of(contents),
{
    assert forall|l: Seq<char>| #[trigger] holds_query(Seq::empty())(l) by {
        lemma_empty_pattern_everywhere(l, Seq::empty());
    }
    lemma_filter_keeps_all(lines_of(contents), holds_query(Seq::empty()));
}

/// Empty text has no lines, so both searches return nothing on it, whatever
/// the query.
pub proof fn lemma_empty_content_no_matches(query: Seq<char>)
    ensures
        lines_of(Seq::empty()).filter(holds_query(query)).len() == 0,
        lines_of(Seq::empty()).filter(holds_query_folded(query)).len() == 0,
{
    reveal(Seq::filter);
}

/// A search is a function of its query, its text and its case mode: two
/// runs on the same input return the same lines.
pub proof fn lemma_search_repeatable(
    query: Seq<char>,
    contents: Seq<char>,
    case_sensitive: bool,
    first: Seq<&str>,
    second: Seq<&str>,
)
    requires
        line_views(first) == matching_lines(query, contents, case_sensitive),
        line_views(second) == matching_lines(query, contents, case_sensitive),
    ensures
        line_views(first) == line_views(second),
{
}

} // verus!
