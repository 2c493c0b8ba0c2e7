//! Sequences of characters: the joining and repetition that the formatting
//! rules are stated with, and their executable counterparts on `String`.

use vstd::prelude::*;

verus! {

/// The pieces in order, with `sep` between each two neighbours.
pub open spec fn join(pieces: Seq<Seq<char>>, sep: Seq<char>) -> Seq<char>
    decreases pieces.len(),
{
    if pieces.len() == 0 {
        Seq::empty()
    } else if pieces.len() == 1 {
        pieces[0]
    } else {
        join(pieces.drop_last(), sep) + sep + pieces.last()
    }
}

/// `count` copies of `c`.
pub open spec fn repeated(c: char, count: nat) -> Seq<char> {
    Seq::new(count, |i: int| c)
}

/// The strings of a vector as sequences of characters.
pub open spec fn texts(items: Seq<String>) -> Seq<Seq<char>> {
    Seq::new(items.len(), |i: int| items[i]@)
}

/// Joins the first `count` of `items` with `sep` between each two neighbours.
pub(crate) fn join_prefix(items: &Vec<String>, count: usize, sep: &str) -> (out: String)
    requires
        count <= items@.len(),
    ensures
        out@ == join(texts(items@).take(count as int), sep@),
{
    let mut out = String::new();
    let mut i: usize = 0;
    while i < count
        invariant
            i <= count <= items@.len(),
            out@ == join(texts(items@).take(i as int), sep@),
        decreases count - i,
    {
        if i > 0 {
            out.append(sep);
        }
        out.append(items[i].as_str());
        proof {
            let all = texts(items@);
            assert(all.take(i + 1).drop_last() == all.take(i as int));
            assert(all.take(i + 1).last() == items[i as int]@);
            if i == 0 {
                assert(out@ == items[0]@);
            }
        }
        i += 1;
    }
    out
}

/// Joins `items` with `sep` between each two neighbours.
pub fn join_strings(items: &Vec<String>, sep: &str) -> (out: String)
    ensures
        out@ == join(texts(items@), sep@),
{
    proof {
        assert(texts(items@).take(items@.len() as int) == texts(items@));
    }
    join_prefix(items, items.len(), sep)
}

/// A line of `count` dashes.
pub fn dashes(count: usize) -> (out: String)
    ensures
        out@ == repeated('-', count as nat),
{
    let mut out = String::new();
    let mut i: usize = 0;
    while i < count
        invariant
            i <= count,
            out@ == repeated('-', i as nat),
        decreases count - i,
    {
        out.append("-");
        proof {
            reveal_strlit("-");
            assert(out@ == repeated('-', (i + 1) as nat));
        }
        i += 1;
    }
    out
}

} // verus!
