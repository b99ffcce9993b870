//! Comparisons on text, stated over sequences of characters.

use vstd::prelude::*;
use vstd::std_specs::iter::IteratorSpec;

verus! {

/// The upper-case form of an ASCII letter; every other character is itself.
pub open spec fn upper(c: char) -> char {
    if 'a' as u32 <= c as u32 && c as u32 <= 'z' as u32 {
        ((c as u32 - 32) as u8) as char
    } else {
        c
    }
}

/// A text with each ASCII letter in upper case.
pub open spec fn folded(s: Seq<char>) -> Seq<char> {
    s.map_values(|c: char| upper(c))
}

/// Whether `a` comes strictly before `b` when texts are ordered character by
/// character, by code point, a proper prefix coming first.
pub open spec fn precedes(a: Seq<char>, b: Seq<char>) -> bool
    decreases a.len(),
{
    if b.len() == 0 {
        false
    } else if a.len() == 0 {
        true
    } else if a[0] == b[0] {
        precedes(a.drop_first(), b.drop_first())
    } else {
        (a[0] as int) < (b[0] as int)
    }
}

/// Upper-cases one ASCII letter.
pub fn to_upper(c: char) -> (u: char)
    ensures
        u == upper(c),
{
    if 'a' as u32 <= c as u32 && c as u32 <= 'z' as u32 {
        ((c as u32 - 32) as u8) as char
    } else {
        c
    }
}

/// Whether two texts hold the same characters.
pub fn same_text(a: &str, b: &str) -> (r: bool)
    ensures
        r == (a@ == b@),
{
    let mut rest = b.chars();
    for c in it: a.chars()
        invariant
            it.seq() == a@,
            it.index() <= b@.len(),
            rest.remaining() == b@.skip(it.index()),
            a@.take(it.index()) == b@.take(it.index()),
    {
        match rest.next() {
            None => {
                return false;
            },
            Some(d) => {
                if c != d {
                    return false;
                }
            },
        }
    }
    let last = rest.next();
    proof {
        assert(a@.take(a@.len() as int) =~= a@);
        if last is None {
            assert(b@.take(a@.len() as int) =~= b@);
        }
    }
    last.is_none()
}

/// Whether two texts are the same once ASCII letter case is set aside.
pub fn same_ignoring_case(a: &str, b: &str) -> (r: bool)
    ensures
        r == (folded(a@) == folded(b@)),
{
    let mut rest = b.chars();
    for c in it: a.chars()
        invariant
            it.seq() == a@,
            it.index() <= b@.len(),
            rest.remaining() == b@.skip(it.index()),
            folded(a@).take(it.index()) == folded(b@).take(it.index()),
    {
        match rest.next() {
            None => {
                assert(folded(a@).len() != folded(b@).len());
                return false;
            },
            Some(d) => {
                if to_upper(c) != to_upper(d) {
                    assert(folded(a@)[it.index()] != folded(b@)[it.index()]);
                    return false;
                }
            },
        }
    }
    let last = rest.next();
    proof {
        assert(folded(a@).take(a@.len() as int) =~= folded(a@));
        if last is None {
            assert(folded(b@).take(a@.len() as int) =~= folded(b@));
        }
    }
    last.is_none()
}

/// Whether `a` comes strictly before `b` in the order of `precedes`.
pub fn comes_before(a: &str, b: &str) -> (r: bool)
    ensures
        r == precedes(a@, b@),
{
    let mut rest = b.chars();
    proof {
        assert(a@.skip(0) =~= a@);
    }
    for c in it: a.chars()
        invariant
            it.seq() == a@,
            it.index() <= b@.len(),
            rest.remaining() == b@.skip(it.index()),
            precedes(a@, b@) == precedes(a@.skip(it.index()), b@.skip(it.index())),
    {
        let ghost i = it.index();
        match rest.next() {
            None => {
                return false;
            },
            Some(d) => {
                proof {
                    assert(a@.skip(i).drop_first() =~= a@.skip(i + 1));
                    assert(b@.skip(i).drop_first() =~= b@.skip(i + 1));
                }
                if c != d {
                    return c < d;
                }
            },
        }
    }
    let last = rest.next();
    last.is_some()
}

/// No text comes before itself.
pub proof fn lemma_precedes_irreflexive(a: Seq<char>)
    ensures
        !precedes(a, a),
    decreases a.len(),
{
    if a.len() > 0 {
        lemma_precedes_irreflexive(a.drop_first());
    }
}

/// What comes before a text comes before all that the text comes before.
pub proof fn lemma_precedes_transitive(a: Seq<char>, b: Seq<char>, c: Seq<char>)
    requires
        precedes(a, b),
        precedes(b, c),
    ensures
        precedes(a, c),
    decreases a.len(),
{
    if a.len() > 0 && a[0] == b[0] && b[0] == c[0] {
        lemma_precedes_transitive(a.drop_first(), b.drop_first(), c.drop_first());
    }
}

/// Of two different texts one comes before the other.
pub proof fn lemma_precedes_total(a: Seq<char>, b: Seq<char>)
    requires
        a != b,
    ensures
        precedes(a, b) || precedes(b, a),
    decreases a.len(),
{
    if a.len() > 0 && b.len() > 0 && a[0] == b[0] {
        if a.drop_first() == b.drop_first() {
            assert(a =~= seq![a[0]] + a.drop_first());
            assert(b =~= seq![b[0]] + b.drop_first());
        }
        lemma_precedes_total(a.drop_first(), b.drop_first());
    } else if a.len() == 0 && b.len() == 0 {
        assert(a =~= b);
    }
}

} // verus!
