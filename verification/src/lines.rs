//! Lines of a text, as `str::lines` splits them.

use vstd::prelude::*;
use vstd::std_specs::iter::IteratorSpec;

verus! {

broadcast use vstd::string::group_string_axioms;

/// The pieces of `s` between its newlines: one more piece than there are
/// newlines, the last one being what follows the last newline.
pub open spec fn newline_pieces(s: Seq<char>) -> Seq<Seq<char>>
    decreases s.len(),
{
    if s.len() == 0 {
        seq![Seq::<char>::empty()]
    } else if s.last() == '\n' {
        newline_pieces(s.drop_last()).push(Seq::<char>::empty())
    } else {
        let p = newline_pieces(s.drop_last());
        p.update(p.len() - 1, p.last().push(s.last()))
    }
}

/// A line without the carriage return that ended it, if any.
pub open spec fn strip_cr(l: Seq<char>) -> Seq<char> {
    if l.len() > 0 && l.last() == '\r' {
        l.drop_last()
    } else {
        l
    }
}

/// The lines of `s`: its pieces between newlines, each newline-terminated
/// one without a carriage return before its newline, and the final piece
/// only where it is not empty.
pub open spec fn text_lines(s: Seq<char>) -> Seq<Seq<char>> {
    let p = newline_pieces(s);
    let body = p.drop_last().map_values(|l: Seq<char>| strip_cr(l));
    if p.last().len() == 0 {
        body
    } else {
        body.push(p.last())
    }
}

pub proof fn lemma_newline_pieces_nonempty(s: Seq<char>)
    ensures
        newline_pieces(s).len() >= 1,
    decreases s.len(),
{
    if s.len() > 0 {
        lemma_newline_pieces_nonempty(s.drop_last());
    }
}

/// The characters of `s`.
pub fn chars_of(s: &str) -> (r: Vec<char>)
    ensures
        r@ == s@,
{
    let mut it = s.chars();
    let mut v: Vec<char> = Vec::new();
    loop
        invariant
            v@ + it.remaining() == s@,
            it.decrease() is Some,
        decreases it.decrease()->0,
    {
        let ghost before = it.remaining();
        match it.next() {
            Some(c) => {
                v.push(c);
                assert(v@ + it.remaining() =~= s@) by {
                    assert(before == seq![c] + it.remaining());
                }
            },
            None => {
                assert(v@ =~= s@);
                return v;
            },
        }
    }
}

/// The lines of `s`, as `str::lines` yields them.
pub fn lines_of(s: &str) -> (r: Vec<String>)
    ensures
        r@.map_values(|l: String| l@) == text_lines(s@),
{
    let cs = chars_of(s);
    let n = cs.len();
    let mut done: Vec<String> = Vec::new();
    let mut start: usize = 0;
    let mut i: usize = 0;
    assert(s@.take(0) =~= Seq::<char>::empty());
    assert(done@.map_values(|l: String| l@).push(s@.subrange(0, 0)) =~= seq![
        Seq::<char>::empty(),
    ]);
    while i < n
        invariant
            n == cs@.len(),
            cs@ == s@,
            start <= i <= n,
            newline_pieces(s@.take(i as int)) == done@.map_values(|l: String| l@).push(
                s@.subrange(start as int, i as int),
            ),
        decreases n - i,
    {
        let ghost prev = s@.take(i as int);
        let ghost next = s@.take(i + 1);
        let ghost old_done = done@.map_values(|l: String| l@);
        assert(next.drop_last() =~= prev);
        assert(next.last() == cs@[i as int]);
        if cs[i] == '\n' {
            let piece = s.substring_char(start, i);
            done.push(String::from_str(piece));
            assert(done@.map_values(|l: String| l@) =~= old_done.push(
                s@.subrange(start as int, i as int),
            ));
            start = i + 1;
            assert(s@.subrange(start as int, i + 1) =~= Seq::<char>::empty());
            assert(newline_pieces(next) == newline_pieces(prev).push(Seq::<char>::empty()));
        } else {
            let ghost p = newline_pieces(prev);
            assert(p == old_done.push(s@.subrange(start as int, i as int)));
            assert(newline_pieces(next) == p.update(p.len() - 1, p.last().push(cs@[i as int])));
            assert(s@.subrange(start as int, i as int).push(cs@[i as int]) =~= s@.subrange(
                start as int,
                i + 1,
            ));
            assert(p.update(p.len() - 1, p.last().push(cs@[i as int])) =~= old_done.push(
                s@.subrange(start as int, i + 1),
            ));
        }
        i = i + 1;
    }
    assert(s@.take(n as int) =~= s@);
    let ghost pieces = newline_pieces(s@);
    let last = s.substring_char(start, n);
    // done now holds the newline-terminated pieces; strip their carriage returns.
    let mut lines: Vec<String> = Vec::new();
    let mut j: usize = 0;
    while j < done.len()
        invariant
            j <= done@.len(),
            pieces == done@.map_values(|l: String| l@).push(last@),
            lines@.map_values(|l: String| l@) == pieces.take(j as int).map_values(
                |l: Seq<char>| strip_cr(l),
            ),
        decreases done@.len() - j,
    {
        let d = done[j].as_str();
        let len = d.unicode_len();
        let stripped = if len > 0 && d.get_char(len - 1) == '\r' {
            d.substring_char(0, len - 1)
        } else {
            d
        };
        assert(stripped@ == strip_cr(pieces[j as int])) by {
            assert(pieces[j as int] == done@[j as int]@);
            if len > 0 && d@[len - 1] == '\r' {
                assert(d@.subrange(0, len - 1) =~= d@.drop_last());
            }
        }
        lines.push(String::from_str(stripped));
        assert(pieces.take(j + 1).map_values(|l: Seq<char>| strip_cr(l)) =~= pieces.take(
            j as int,
        ).map_values(|l: Seq<char>| strip_cr(l)).push(strip_cr(pieces[j as int])));
        j = j + 1;
    }
    assert(pieces.take(done@.len() as int) =~= pieces.drop_last());
    if last.unicode_len() > 0 {
        lines.push(String::from_str(last));
    }
    assert(lines@.map_values(|l: String| l@) =~= text_lines(s@));
    lines
}

} // verus!
