use vstd::prelude::*;

use crate::config::Config;
use crate::laws::{lemma_empty_pattern_everywhere, lemma_filter_keeps_all};
use crate::text::{contains, has_substring};

verus! {

/// Number of characters before the first newline of `s` (all of them when
/// there is none).
pub open spec fn line_end(s: Seq<char>) -> nat
    decreases s.len(),
{
    if s.len() == 0 {
        0
    } else if s[0] == '\n' {
        0
    } else {
        1 + line_end(s.drop_first())
    }
}

/// A line that was ended by "\r\n" loses its carriage return.
pub open spec fn strip_cr(line: Seq<char>) -> Seq<char> {
    if line.len() > 0 && line.last() == '\r' {
        line.drop_last()
    } else {
        line
    }
}

/// The lines of `s`: pieces separated by "\n" or "\r\n", terminators left
/// out. A final terminator ends the last line and opens no new one, so empty
/// text has no lines at all.
pub open spec fn lines_of(s: Seq<char>) -> Seq<Seq<char>>
    decreases s.len(),
{
    if s.len() == 0 {
        Seq::empty()
    } else if line_end(s) < s.len() {
        seq![strip_cr(s.take(line_end(s) as int))] + lines_of(s.skip(line_end(s) + 1int))
    } else {
        seq![s]
    }
}

/// The text of each line slice.
pub open spec fn line_views(lines: Seq<&str>) -> Seq<Seq<char>> {
    lines.map_values(|l: &str| l@)
}

/// The test of the case-sensitive search: the line holds the query as it is.
pub open spec fn holds_query(query: Seq<char>) -> spec_fn(Seq<char>) -> bool {
    |line: Seq<char>| has_substring(line, query)
}

/// The test of the case-insensitive search: the lowercased line holds the
/// lowercased query.
pub open spec fn holds_query_folded(query: Seq<char>) -> spec_fn(Seq<char>) -> bool {
    |line: Seq<char>| has_substring(lower_of(line), lower_of(query))
}

/// The lines that a search of `contents` for `query` returns, in file order.
pub open spec fn matching_lines(query: Seq<char>, contents: Seq<char>, case_sensitive: bool) -> Seq<
    Seq<char>,
> {
    if case_sensitive {
        lines_of(contents).filter(holds_query(query))
    } else {
        lines_of(contents).filter(holds_query_folded(query))
    }
}

/// What `str::to_lowercase` makes of a text.
pub uninterp spec fn lower_of(s: Seq<char>) -> Seq<char>;

/// Relies on `str::lines`: splits at "\n" and "\r\n", drops the terminators,
/// yields no line for empty text and none after a final terminator.
#[verifier::external_body]
fn split_lines<'a>(s: &'a str) -> (r: Vec<&'a str>)
    ensures
        line_views(r@) == lines_of(s@),
{
    s.lines().collect()
}

/// Relies on `str::to_lowercase`: the result depends on the characters alone,
/// and empty text stays empty.
#[verifier::external_body]
fn lowercase(s: &str) -> (r: String)
    ensures
        r@ == lower_of(s@),
        s@.len() == 0 ==> r@.len() == 0,
{
    s.to_lowercase()
}

proof fn lemma_filter_step(lines: Seq<Seq<char>>, i: int, pred: spec_fn(Seq<char>) -> bool)
    requires
        0 <= i < lines.len(),
    ensures
        lines.take(i + 1).filter(pred) == (if pred(lines[i]) {
            lines.take(i).filter(pred).push(lines[i])
        } else {
            lines.take(i).filter(pred)
        }),
{
    reveal(Seq::filter);
    assert(lines.take(i + 1).drop_last() =~= lines.take(i));
    assert(lines.take(i + 1).last() == lines[i]);
}

proof fn lemma_views_push<'a>(out: Seq<&'a str>, line: &'a str)
    ensures
        line_views(out.push(line)) == line_views(out).push(line@),
{
    assert(line_views(out.push(line)) =~= line_views(out).push(line@));
}

/// The lines of `contents` that hold `query`, in file order, as slices of
/// `contents`.
pub fn search<'a>(query: &str, contents: &'a str) -> (r: Vec<&'a str>)
    ensures
        line_views(r@) == lines_of(contents@).filter(holds_query(query@)),
{
    let lines = split_lines(contents);
    let ghost all = lines_of(contents@);
    let mut result: Vec<&'a str> = Vec::new();
    let mut i: usize = 0;
    while i < lines.len()
        invariant
            i <= lines@.len(),
            line_views(lines@) == all,
            line_views(result@) == all.take(i as int).filter(holds_query(query@)),
        decreases lines@.len() - i,
    {
        let line = lines[i];
        let found = contains(line, query);
        proof {
            assert(all[i as int] == line@);
            lemma_filter_step(all, i as int, holds_query(query@));
            lemma_views_push(result@, line);
        }
        if found {
            result.push(line);
        }
        i = i + 1;
    }
    assert(all.take(i as int) =~= all);
    result
}

/// The lines of `contents` whose lowercased text holds the lowercased
/// `query`, in file order, as slices of `contents` in their own casing.
pub fn search_case_insensitive<'a>(query: &str, contents: &'a str) -> (r: Vec<&'a str>)
    ensures
        line_views(r@) == lines_of(contents@).filter(holds_query_folded(query@)),
        query@.len() == 0 ==> line_views(r@) == lines_of(contents@),
{
    let query_lower = lowercase(query);
    proof {
        if query@.len() == 0 {
            assert forall|l: Seq<char>| #[trigger] holds_query_folded(query@)(l) by {
                lemma_empty_pattern_everywhere(lower_of(l), query_lower@);
            }
            lemma_filter_keeps_all(lines_of(contents@), holds_query_folded(query@));
        }
    }
    let lines = split_lines(contents);
    let ghost all = lines_of(contents@);
    let mut result: Vec<&'a str> = Vec::new();
    let mut i: usize = 0;
    while i < lines.len()
        invariant
            i <= lines@.len(),
            query_lower@ == lower_of(query@),
            line_views(lines@) == all,
            line_views(result@) == all.take(i as int).filter(holds_query_folded(query@)),
        decreases lines@.len() - i,
    {
        let line = lines[i];
        let line_lower = lowercase(line);
        let found = contains(line_lower.as_str(), query_lower.as_str());
        proof {
            assert(all[i as int] == line@);
            lemma_filter_step(all, i as int, holds_query_folded(query@));
            lemma_views_push(result@, line);
        }
        if found {
            result.push(line);
        }
        i = i + 1;
    }
    assert(all.take(i as int) =~= all);
    result
}

/// The search that `config` asks for, run over `contents`: case-sensitive
/// when `config.case_sensitive` holds, case-insensitive otherwise.
pub fn search_with_config<'a>(config: &Config, contents: &'a str) -> (r: Vec<&'a str>)
    ensures
        line_views(r@) == matching_lines(config.query@, contents@, config.case_sensitive),
{
    if config.case_sensitive {
        search(config.query.as_str(), contents)
    } else {
        search_case_insensitive(config.query.as_str(), contents)
    }
}

} // verus!
