use vstd::prelude::*;

use crate::text::{has_infix, lower_of, str_contains, str_lowercase};

verus! {

/// A predicate on lines. The one kind so far is a literal substring.
#[derive(Debug, PartialEq)]
pub enum Query {
    String(String),
}

impl Query {
    /// The text that the query looks for.
    pub open spec fn text(&self) -> Seq<char> {
        match self {
            Query::String(q) => q@,
        }
    }

    /// Whether the query accepts a line.
    pub open spec fn accepts(&self, line: Seq<char>) -> bool {
        match self {
            Query::String(q) => has_infix(line, q@),
        }
    }

    /// Builds a literal query; a literal never fails to build.
    pub fn new(s: &str) -> (r: Result<Query, &'static str>)
        ensures
            r is Ok,
            r matches Ok(q) && q.text() == s@ && q is String,
    {
        Ok(Query::String(s.to_owned()))
    }

    /// True exactly when the line holds the query's text as a substring.
    pub fn matches(&self, s: &str) -> (r: bool)
        ensures
            r == self.accepts(s@),
    {
        match self {
            Query::String(q) => str_contains(s, q.as_str()),
        }
    }

    /// The same kind of query over the lowercased text.
    pub fn to_lowercase(&self) -> (r: Self)
        ensures
            r.text() == lower_of(self.text()),
            self is String ==> r is String,
    {
        match self {
            Query::String(q) => Query::String(str_lowercase(q.as_str())),
        }
    }
}

/// True exactly when every query accepts the line.
pub fn matches_all(queries: &Vec<Query>, line: &str) -> (r: bool)
    ensures
        r == forall|j: int| 0 <= j < queries@.len() ==> (#[trigger] queries@[j]).accepts(line@),
{
    let mut i: usize = 0;
    while i < queries.len()
        invariant
            i <= queries@.len(),
            forall|j: int| 0 <= j < i ==> (#[trigger] queries@[j]).accepts(line@),
        decreases queries@.len() - i,
    {
        if !queries[i].matches(line) {
            return false;
        }
        i = i + 1;
    }
    true
}

} // verus!
