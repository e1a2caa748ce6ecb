//! Text as sequences of characters: its order, and its lower-case form.

use vstd::prelude::*;
use vstd::std_specs::iter::IteratorSpec;

verus! {

/// How one value stands to another in a total order.
#[derive(Clone, Copy, Debug, PartialEq, Eq, Structural)]
pub enum Rank {
    Before,
    Same,
    After,
}

/// The rank of `a` against `b` in lexicographic order by code point: the first position at
/// which the two differ decides, and a proper prefix comes before what it is a prefix of.
pub open spec fn text_rank(a: Seq<char>, b: Seq<char>) -> Rank
    decreases a.len(),
{
    if a.len() == 0 {
        if b.len() == 0 {
            Rank::Same
        } else {
            Rank::Before
        }
    } else if b.len() == 0 {
        Rank::After
    } else if a[0] < b[0] {
        Rank::Before
    } else if a[0] > b[0] {
        Rank::After
    } else {
        text_rank(a.drop_first(), b.drop_first())
    }
}

/// Ranks two strings in lexicographic order by code point.
pub fn rank_text(a: &str, b: &str) -> (rank: Rank)
    ensures
        rank == text_rank(a@, b@),
{
    broadcast use vstd::string::group_string_axioms;

    let mut xs = a.chars();
    let mut ys = b.chars();
    let ghost mut seen: int = 0;
    loop
        invariant
            0 <= seen <= a@.len(),
            xs.remaining() == a@.skip(seen),
            text_rank(a@, b@) == text_rank(xs.remaining(), ys.remaining()),
        decreases a@.len() - seen,
    {
        let x = xs.next();
        let y = ys.next();
        match (x, y) {
            (None, None) => {
                return Rank::Same;
            },
            (None, Some(_)) => {
                return Rank::Before;
            },
            (Some(_), None) => {
                return Rank::After;
            },
            (Some(c), Some(d)) => {
                if c < d {
                    return Rank::Before;
                }
                if c > d {
                    return Rank::After;
                }
                proof {
                    assert(a@.skip(seen).drop_first() == a@.skip(seen + 1));
                    seen = seen + 1;
                }
            },
        }
    }
}

/// The rank of `false` against `true`, with `false` first.
pub open spec fn flag_rank(a: bool, b: bool) -> Rank {
    if a == b {
        Rank::Same
    } else if b {
        Rank::Before
    } else {
        Rank::After
    }
}

/// The rank by a first key, refined by a second where the first does not decide.
pub open spec fn refine(first: Rank, second: Rank) -> Rank {
    if first == Rank::Same {
        second
    } else {
        first
    }
}

/// The rank seen from the other side.
pub open spec fn flip(rank: Rank) -> Rank {
    match rank {
        Rank::Before => Rank::After,
        Rank::Same => Rank::Same,
        Rank::After => Rank::Before,
    }
}

/// Two texts rank the same exactly when they are equal.
pub proof fn lemma_text_rank_same(a: Seq<char>, b: Seq<char>)
    ensures
        text_rank(a, b) == Rank::Same <==> a == b,
    decreases a.len(),
{
    if a.len() > 0 && b.len() > 0 {
        lemma_text_rank_same(a.drop_first(), b.drop_first());
        if a[0] == b[0] && a.drop_first() == b.drop_first() {
            assert(a =~= seq![a[0]] + a.drop_first());
            assert(b =~= seq![b[0]] + b.drop_first());
        }
    } else if a.len() == 0 && b.len() == 0 {
        assert(a =~= b);
    }
}

/// Swapping the two texts flips their rank.
pub proof fn lemma_text_rank_flip(a: Seq<char>, b: Seq<char>)
    ensures
        text_rank(b, a) == flip(text_rank(a, b)),
    decreases a.len(),
{
    if a.len() > 0 && b.len() > 0 {
        lemma_text_rank_flip(a.drop_first(), b.drop_first());
    }
}

/// The order of text is transitive, and strict as soon as one of the two steps is.
pub proof fn lemma_text_rank_chain(a: Seq<char>, b: Seq<char>, c: Seq<char>)
    requires
        text_rank(a, b) != Rank::After,
        text_rank(b, c) != Rank::After,
    ensures
        text_rank(a, c) != Rank::After,
        text_rank(a, b) == Rank::Before || text_rank(b, c) == Rank::Before ==> text_rank(a, c)
            == Rank::Before,
    decreases a.len(),
{
    if a.len() > 0 && b.len() > 0 && c.len() > 0 {
        if a[0] == b[0] && b[0] == c[0] {
            lemma_text_rank_chain(a.drop_first(), b.drop_first(), c.drop_first());
        }
    }
}

/// The lower-case form of an ASCII capital letter; any other character is left as it is.
pub open spec fn ascii_lower(c: char) -> char {
    if 'A' <= c <= 'Z' {
        (c as int + 32) as char
    } else {
        c
    }
}

/// A text with each of its ASCII capital letters in lower case.
pub open spec fn lowered(text: Seq<char>) -> Seq<char> {
    text.map_values(|c: char| ascii_lower(c))
}

/// Puts an ASCII capital letter in lower case.
pub fn lower(c: char) -> (low: char)
    ensures
        low == ascii_lower(c),
{
    if 'A' <= c && c <= 'Z' {
        ((c as u8) + 32) as char
    } else {
        c
    }
}

/// Whether `text`, with its ASCII capital letters in lower case, reads `target`.
pub fn lowers_to(text: &str, target: &str) -> (same: bool)
    ensures
        same == (lowered(text@) == target@),
{
    broadcast use vstd::string::group_string_axioms;

    let mut xs = text.chars();
    let mut ys = target.chars();
    let ghost mut seen: int = 0;
    loop
        invariant
            0 <= seen <= text@.len(),
            seen <= target@.len(),
            xs.remaining() == text@.skip(seen),
            ys.remaining() == target@.skip(seen),
            lowered(text@).take(seen) == target@.take(seen),
        decreases text@.len() - seen,
    {
        let x = xs.next();
        let y = ys.next();
        match (x, y) {
            (None, None) => {
                assert(lowered(text@).take(seen) == lowered(text@));
                assert(target@.take(seen) == target@);
                return true;
            },
            (Some(c), Some(d)) => {
                if lower(c) != d {
                    assert(lowered(text@)[seen] != target@[seen]);
                    return false;
                }
                proof {
                    assert(text@.skip(seen).drop_first() == text@.skip(seen + 1));
                    assert(target@.skip(seen).drop_first() == target@.skip(seen + 1));
                    assert(lowered(text@).take(seen + 1) == lowered(text@).take(seen).push(
                        lowered(text@)[seen],
                    ));
                    assert(target@.take(seen + 1) == target@.take(seen).push(target@[seen]));
                    seen = seen + 1;
                }
            },
            _ => {
                assert(lowered(text@).len() != target@.len());
                return false;
            },
        }
    }
}

} // verus!
