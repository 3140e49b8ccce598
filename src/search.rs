use vstd::prelude::*;

use crate::lines::{lines_of, split_lines, views};
use crate::query::{matches_all, Query};
use crate::text::{char_is_upper, has_infix, lower_of, push_char, str_lowercase, upper_char};
use vstd::string::StringExecFns;

verus! {

/// How letters of different case compare while searching.
#[derive(Debug, PartialEq, Eq, Structural, Clone, Copy)]
pub enum SearchMode {
    CaseSensitive,
    CaseInsensitive,
}

/// Some character of `s` is uppercase.
pub open spec fn has_upper(s: Seq<char>) -> bool {
    exists|i: int| 0 <= i < s.len() && upper_char(#[trigger] s[i])
}

/// The mode that smart case picks for a seed string.
pub open spec fn smart_mode(s: Seq<char>) -> SearchMode {
    if has_upper(s) {
        SearchMode::CaseSensitive
    } else {
        SearchMode::CaseInsensitive
    }
}

impl SearchMode {
    /// Case sensitive if the seed holds an uppercase character, else insensitive.
    pub fn smart(s: &str) -> (r: Self)
        ensures
            r == smart_mode(s@),
    {
        broadcast use vstd::string::axiom_spec_iter;

        let mut found = false;
        for c in it: s.chars()
            invariant
                it.seq() == s@,
                found == exists|i: int| 0 <= i < it.index() && upper_char(#[trigger] s@[i]),
        {
            if char_is_upper(c) {
                found = true;
            }
        }
        if found {
            SearchMode::CaseSensitive
        } else {
            SearchMode::CaseInsensitive
        }
    }
}

/// What one search is made of: the queries, all of which a line must meet, and
/// the mode.
#[derive(Debug, PartialEq)]
pub struct Config {
    pub queries: Vec<Query>,
    pub search_mode: SearchMode,
}

impl Config {
    pub fn new(queries: Vec<Query>, search_mode: SearchMode) -> (r: Config)
        ensures
            r.queries@ == queries@,
            r.search_mode == search_mode,
    {
        Config { queries, search_mode }
    }
}

/// A string as the mode compares it: lowercased when case is ignored.
pub open spec fn normalize(mode: SearchMode, s: Seq<char>) -> Seq<char> {
    match mode {
        SearchMode::CaseSensitive => s,
        SearchMode::CaseInsensitive => lower_of(s),
    }
}

/// Every query's text, normalized, occurs in the normalized line.
pub open spec fn selects(queries: Seq<Query>, mode: SearchMode, line: Seq<char>) -> bool {
    forall|j: int|
        0 <= j < queries.len() ==> has_infix(
            normalize(mode, line),
            normalize(mode, (#[trigger] queries[j]).text()),
        )
}

/// The lines of `text` that all queries select, as they stand in `text`, in
/// their order.
pub open spec fn search_result(queries: Seq<Query>, mode: SearchMode, text: Seq<char>) -> Seq<
    Seq<char>,
> {
    lines_of(text).filter(selector(queries, mode))
}

/// `selects` as a predicate on lines.
pub open spec fn selector(queries: Seq<Query>, mode: SearchMode) -> spec_fn(Seq<char>) -> bool {
    |l: Seq<char>| selects(queries, mode, l)
}

/// The queries as the mode compares them.
fn normalize_queries(queries: Vec<Query>, mode: SearchMode) -> (r: Vec<Query>)
    ensures
        r@.len() == queries@.len(),
        forall|j: int|
            0 <= j < r@.len() ==> (#[trigger] r@[j]).text() == normalize(mode, queries@[j].text()),
{
    match mode {
        SearchMode::CaseSensitive => queries,
        SearchMode::CaseInsensitive => {
            let mut r: Vec<Query> = Vec::new();
            for i in 0..queries.len()
                invariant
                    r@.len() == i,
                    forall|j: int|
                        0 <= j < i ==> (#[trigger] r@[j]).text() == lower_of(queries@[j].text()),
            {
                r.push(queries[i].to_lowercase());
            }
            r
        },
    }
}

/// The lines of `contents` that every query matches under the mode, with
/// their original text, in their original order.
pub fn search(config: Config, contents: &str) -> (r: Vec<String>)
    ensures
        views(r@) == search_result(config.queries@, config.search_mode, contents@),
{
    broadcast use vstd::seq_lib::group_filter_ensures, Seq::lemma_filter_push;

    let Config { queries, search_mode } = config;
    let ghost pred = selector(queries@, search_mode);
    let normalized = normalize_queries(queries, search_mode);
    let lines = split_lines(contents);
    let mut out: Vec<String> = Vec::new();
    for i in 0..lines.len()
        invariant
            views(lines@) == lines_of(contents@),
            normalized@.len() == queries@.len(),
            forall|j: int|
                0 <= j < normalized@.len() ==> (#[trigger] normalized@[j]).text() == normalize(
                    search_mode,
                    queries@[j].text(),
                ),
            pred == selector(queries@, search_mode),
            views(out@) == views(lines@).take(i as int).filter(pred),
    {
        let line = &lines[i];
        let ghost probe = normalize(search_mode, line@);
        assert(views(lines@)[i as int] == line@);
        let keep = match search_mode {
            SearchMode::CaseSensitive => matches_all(&normalized, line.as_str()),
            SearchMode::CaseInsensitive => {
                // Lowercasing never makes or removes a line ending, and no
                // character's lowercase form looks past one, so each line is
                // lowercased on its own.
                let low = str_lowercase(line.as_str());
                matches_all(&normalized, low.as_str())
            },
        };
        assert(keep == forall|j: int|
            0 <= j < normalized@.len() ==> (#[trigger] normalized@[j]).accepts(probe));
        assert(keep == pred(line@)) by {
            assert(pred(line@) == selects(queries@, search_mode, line@));
            if keep {
                assert forall|j: int| 0 <= j < queries@.len() implies has_infix(
                    normalize(search_mode, line@),
                    normalize(search_mode, (#[trigger] queries@[j]).text()),
                ) by {
                    assert(normalized@[j].accepts(normalize(search_mode, line@)));
                }
            } else {
                let j = choose|j: int|
                    0 <= j < normalized@.len() && !(#[trigger] normalized@[j]).accepts(
                        normalize(search_mode, line@),
                    );
                assert(!has_infix(
                    normalize(search_mode, line@),
                    normalize(search_mode, queries@[j].text()),
                ));
            }
        }
        assert(views(lines@).take(i + 1) =~= views(lines@).take(i as int).push(line@));
        let ghost prev = out@;
        if keep {
            out.push(line.clone());
            assert(views(out@) =~= views(prev).push(line@));
        }
        proof {
            Seq::lemma_filter_push(views(lines@).take(i as int), line@, pred);
        }
    }
    assert(views(lines@).take(lines@.len() as int) =~= views(lines@));
    out
}

/// Each line followed by '\n', one after the other.
pub open spec fn joined(ls: Seq<Seq<char>>) -> Seq<char>
    decreases ls.len(),
{
    if ls.len() == 0 {
        Seq::empty()
    } else {
        joined(ls.drop_last()) + ls.last().push('\n')
    }
}

/// The block of text that prints a result: each line followed by a newline.
pub fn render(lines: &Vec<String>) -> (r: String)
    ensures
        r@ == joined(views(lines@)),
{
    let mut r = String::new();
    for i in 0..lines.len()
        invariant
            r@ == joined(views(lines@).take(i as int)),
    {
        r.append(lines[i].as_str());
        push_char(&mut r, '\n');
        assert(views(lines@).take(i + 1).drop_last() =~= views(lines@).take(i as int));
    }
    assert(views(lines@).take(lines@.len() as int) =~= views(lines@));
    r
}

} // verus!
