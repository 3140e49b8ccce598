use vstd::prelude::*;

use crate::text::push_char;

verus! {

/// A line without the one '\r' that may stand before its '\n'.
pub open spec fn strip_cr(l: Seq<char>) -> Seq<char> {
    if l.len() > 0 && l.last() == '\r' {
        l.drop_last()
    } else {
        l
    }
}

/// The characters after the last '\n' of `s` (all of `s` if it has none).
pub open spec fn tail(s: Seq<char>) -> Seq<char>
    decreases s.len(),
{
    if s.len() == 0 {
        s
    } else if s.last() == '\n' {
        Seq::empty()
    } else {
        tail(s.drop_last()).push(s.last())
    }
}

/// The lines of `s` that a '\n' ends, in order, each without its line ending.
pub open spec fn ended_lines(s: Seq<char>) -> Seq<Seq<char>>
    decreases s.len(),
{
    if s.len() == 0 {
        Seq::empty()
    } else if s.last() == '\n' {
        ended_lines(s.drop_last()).push(strip_cr(tail(s.drop_last())))
    } else {
        ended_lines(s.drop_last())
    }
}

/// The lines of a text: those that "\n" or "\r\n" ends, then the unterminated
/// rest if it is not empty. An empty text has no lines, and a final line
/// ending adds no empty line.
pub open spec fn lines_of(s: Seq<char>) -> Seq<Seq<char>> {
    if tail(s).len() == 0 {
        ended_lines(s)
    } else {
        ended_lines(s).push(tail(s))
    }
}

/// The character sequences that a vector of strings holds.
pub open spec fn views(v: Seq<String>) -> Seq<Seq<char>> {
    v.map_values(|l: String| l@)
}

/// A string made of the given characters.
fn string_from_chars(cs: &Vec<char>) -> (r: String)
    ensures
        r@ == cs@,
{
    let mut r = String::new();
    for i in 0..cs.len()
        invariant
            r@ == cs@.take(i as int),
    {
        push_char(&mut r, cs[i]);
        assert(cs@.take(i + 1) =~= cs@.take(i as int).push(cs@[i as int]));
    }
    assert(cs@.take(cs.len() as int) =~= cs@);
    r
}

/// Cuts a text into its lines, as `lines_of` describes them.
pub fn split_lines(text: &str) -> (r: Vec<String>)
    ensures
        views(r@) == lines_of(text@),
{
    broadcast use vstd::string::axiom_spec_iter;

    let mut done: Vec<String> = Vec::new();
    let mut cur: Vec<char> = Vec::new();
    for c in it: text.chars()
        invariant
            it.seq() == text@,
            views(done@) == ended_lines(text@.take(it.index() as int)),
            cur@ == tail(text@.take(it.index() as int)),
    {
        let ghost before = text@.take(it.index() as int);
        assert(text@.take(it.index() + 1).drop_last() =~= before);
        if c == '\n' {
            if cur.len() > 0 && cur[cur.len() - 1] == '\r' {
                cur.pop();
            }
            let line = string_from_chars(&cur);
            done.push(line);
            cur = Vec::new();
            assert(views(done@) =~= ended_lines(before).push(line@));
        } else {
            cur.push(c);
            assert(views(done@) =~= views(done@));
        }
    }
    assert(text@.take(text@.len() as int) =~= text@);
    if cur.len() > 0 {
        let line = string_from_chars(&cur);
        done.push(line);
        assert(views(done@) =~= ended_lines(text@).push(line@));
    }
    done
}

} // verus!
