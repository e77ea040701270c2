//! Order and character classes of text.

use vstd::prelude::*;
use vstd::std_specs::iter::IteratorSpec;

verus! {

/// Whether `c` may stand in an identifier: an ASCII letter, an ASCII digit or
/// an underscore.
pub open spec fn is_identifier_char(c: char) -> bool {
    ('a' <= c && c <= 'z') || ('A' <= c && c <= 'Z') || ('0' <= c && c <= '9') || c == '_'
}

/// Whether `c` may start an identifier: an ASCII letter or an underscore.
pub open spec fn is_identifier_start(c: char) -> bool {
    ('a' <= c && c <= 'z') || ('A' <= c && c <= 'Z') || c == '_'
}

/// Whether `s` is an identifier: it is not empty, starts with a letter or an
/// underscore, and holds only letters, digits and underscores.
pub open spec fn is_identifier(s: Seq<char>) -> bool {
    &&& s.len() > 0
    &&& is_identifier_start(s[0])
    &&& forall|i: int| 0 <= i < s.len() ==> is_identifier_char(#[trigger] s[i])
}

/// Whether every character of `s` may stand in an identifier.
pub open spec fn all_identifier_chars(s: Seq<char>) -> bool {
    forall|i: int| 0 <= i < s.len() ==> is_identifier_char(#[trigger] s[i])
}

/// Whether `a` comes before `b` in dictionary order, characters compared by
/// code point. This is the order in which strings sort.
pub open spec fn precedes(a: Seq<char>, b: Seq<char>) -> bool
    decreases a.len(),
{
    if b.len() == 0 {
        false
    } else if a.len() == 0 {
        true
    } else if a[0] != b[0] {
        a[0] < b[0]
    } else {
        precedes(a.drop_first(), b.drop_first())
    }
}

/// No text comes before itself.
pub proof fn lemma_precedes_irreflexive(a: Seq<char>)
    ensures
        !precedes(a, a),
    decreases a.len(),
{
    if a.len() > 0 {
        lemma_precedes_irreflexive(a.drop_first());
    }
}

/// What comes before something that comes before `c` comes before `c`.
pub proof fn lemma_precedes_transitive(a: Seq<char>, b: Seq<char>, c: Seq<char>)
    requires
        precedes(a, b),
        precedes(b, c),
    ensures
        precedes(a, c),
    decreases a.len(),
{
    if a.len() > 0 && a[0] == b[0] && b[0] == c[0] {
        lemma_precedes_transitive(a.drop_first(), b.drop_first(), c.drop_first());
    }
}

/// Of two different texts one comes before the other.
pub proof fn lemma_precedes_total(a: Seq<char>, b: Seq<char>)
    requires
        a != b,
    ensures
        precedes(a, b) || precedes(b, a),
    decreases a.len(),
{
    if a.len() > 0 && b.len() > 0 && a[0] == b[0] {
        if a.drop_first() == b.drop_first() {
            assert(a =~= seq![a[0]] + a.drop_first());
            assert(b =~= seq![b[0]] + b.drop_first());
        }
        lemma_precedes_total(a.drop_first(), b.drop_first());
    } else if a.len() == 0 && b.len() == 0 {
        assert(a =~= b);
    }
}

/// Two texts do not come before each other.
pub proof fn lemma_precedes_asymmetric(a: Seq<char>, b: Seq<char>)
    requires
        precedes(a, b),
    ensures
        !precedes(b, a),
{
    if precedes(b, a) {
        lemma_precedes_transitive(a, b, a);
        lemma_precedes_irreflexive(a);
    }
}

/// How one text stands to another in dictionary order.
#[derive(Clone, Copy, Debug, PartialEq, Eq, Structural)]
pub enum Rank {
    Before,
    Same,
    After,
}

/// The rank of `a` relative to `b`.
pub open spec fn rank_of(a: Seq<char>, b: Seq<char>) -> Rank {
    if a == b {
        Rank::Same
    } else if precedes(a, b) {
        Rank::Before
    } else {
        Rank::After
    }
}

/// Compares two texts in dictionary order, in one pass over both.
pub fn compare_text(a: &str, b: &str) -> (r: Rank)
    ensures
        r == rank_of(a@, b@),
        r == Rank::Before <==> precedes(a@, b@),
        r == Rank::After <==> precedes(b@, a@),
        r == Rank::Same <==> a@ == b@,
{
    proof {
        lemma_precedes_irreflexive(a@);
        if a@ != b@ {
            lemma_precedes_total(a@, b@);
        }
        if precedes(a@, b@) {
            lemma_precedes_asymmetric(a@, b@);
        }
    }
    let mut ia = a.chars();
    let mut ib = b.chars();
    let ghost mut seen: Seq<char> = Seq::empty();
    loop
        invariant
            ia.obeys_prophetic_iter_laws(),
            ib.obeys_prophetic_iter_laws(),
            ia.decrease() is Some,
            a@ == seen + ia.remaining(),
            b@ == seen + ib.remaining(),
            precedes(a@, b@) == precedes(ia.remaining(), ib.remaining()),
            a@ != b@ ==> precedes(a@, b@) || precedes(b@, a@),
            precedes(a@, b@) ==> !precedes(b@, a@),
            !precedes(a@, a@),
        decreases ia.decrease()->0,
    {
        let ghost ra = ia.remaining();
        let ghost rb = ib.remaining();
        let x = ia.next();
        let y = ib.next();
        match (x, y) {
            (None, None) => {
                return Rank::Same;
            },
            (None, Some(_)) => {
                assert(a@.len() != b@.len());
                return Rank::Before;
            },
            (Some(_), None) => {
                assert(a@.len() != b@.len());
                return Rank::After;
            },
            (Some(ca), Some(cb)) => {
                if ca != cb {
                    assert(a@[seen.len() as int] == ca);
                    assert(b@[seen.len() as int] == cb);
                    if ca < cb {
                        return Rank::Before;
                    } else {
                        return Rank::After;
                    }
                }
                proof {
                    assert(seen + ra =~= seen.push(ca) + ra.drop_first());
                    assert(seen + rb =~= seen.push(cb) + rb.drop_first());
                    seen = seen.push(ca);
                }
            },
        }
    }
}

/// Whether `s` holds only characters that may stand in an identifier.
pub fn has_only_identifier_chars(s: &str) -> (r: bool)
    ensures
        r == all_identifier_chars(s@),
{
    let mut it = s.chars();
    let ghost mut seen: Seq<char> = Seq::empty();
    loop
        invariant
            it.obeys_prophetic_iter_laws(),
            it.decrease() is Some,
            s@ == seen + it.remaining(),
            all_identifier_chars(seen),
        decreases it.decrease()->0,
    {
        let ghost rest = it.remaining();
        match it.next() {
            None => {
                assert(s@ =~= seen);
                return true;
            },
            Some(c) => {
                assert(s@[seen.len() as int] == c);
                if !(('a' <= c && c <= 'z') || ('A' <= c && c <= 'Z') || ('0' <= c && c <= '9')
                    || c == '_') {
                    return false;
                }
                proof {
                    assert(seen + rest =~= seen.push(c) + rest.drop_first());
                    seen = seen.push(c);
                }
            },
        }
    }
}

/// The first character of `s`, if it has one.
pub fn first_char(s: &str) -> (r: Option<char>)
    ensures
        s@.len() == 0 ==> r is None,
        s@.len() > 0 ==> r == Some(s@[0]),
{
    let mut it = s.chars();
    it.next()
}

} // verus!
