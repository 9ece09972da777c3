//! Lexical ordering of extension names and the sort behind the summary line.
//!
//! The order is lexicographic over the sequences of characters, comparing
//! characters by code point; the executable comparison leans on `str`'s own
//! ordering, and the sort itself is a verified insertion sort whose result is
//! pinned exactly by a specification-level sort.

use vstd::multiset::Multiset;
use vstd::prelude::*;

verus! {

/// Lexicographic order on character sequences, by code point; a prefix comes
/// before every extension of it.
pub open spec fn lex_le(a: Seq<char>, b: Seq<char>) -> bool
    decreases a.len(),
{
    if a.len() == 0 {
        true
    } else if b.len() == 0 {
        false
    } else if a[0] == b[0] {
        lex_le(a.drop_first(), b.drop_first())
    } else {
        (a[0] as u32) < (b[0] as u32)
    }
}

/// A sequence of names in nondecreasing lexical order.
pub open spec fn sorted_lex(s: Seq<Seq<char>>) -> bool {
    forall|i: int, j: int| 0 <= i < j < s.len() ==> lex_le(s[i], s[j])
}

/// The views of a sequence of string slices.
pub open spec fn views_of(s: Seq<&str>) -> Seq<Seq<char>> {
    s.map_values(|t: &str| t@)
}

/// Where the insertion sort puts a new name in an already sorted sequence.
pub open spec fn spec_insert(x: Seq<char>, s: Seq<Seq<char>>) -> Seq<Seq<char>>
    decreases s.len(),
{
    if s.len() == 0 {
        seq![x]
    } else if lex_le(x, s[0]) {
        seq![x] + s
    } else {
        seq![s[0]] + spec_insert(x, s.drop_first())
    }
}

/// The insertion sort of a sequence of names.
pub open spec fn spec_sort(s: Seq<Seq<char>>) -> Seq<Seq<char>>
    decreases s.len(),
{
    if s.len() == 0 {
        Seq::empty()
    } else {
        spec_insert(s.last(), spec_sort(s.drop_last()))
    }
}

/// The lexical order is total: any two names compare one way or the other.
pub proof fn lemma_lex_le_total(a: Seq<char>, b: Seq<char>)
    ensures
        lex_le(a, b) || lex_le(b, a),
    decreases a.len(),
{
    if a.len() == 0 || b.len() == 0 {
    } else if a[0] == b[0] {
        lemma_lex_le_total(a.drop_first(), b.drop_first());
    } else {
        vstd::utf8::char_u32_cast(a[0], a[0] as u32);
        vstd::utf8::char_u32_cast(b[0], b[0] as u32);
    }
}

/// The lexical order is antisymmetric: names that compare equal both ways are
/// the same name.
pub proof fn lemma_lex_le_antisymmetric(a: Seq<char>, b: Seq<char>)
    requires
        lex_le(a, b),
        lex_le(b, a),
    ensures
        a == b,
    decreases a.len(),
{
    if a.len() == 0 {
        assert(b.len() == 0);
        assert(a =~= b);
    } else {
        assert(b.len() > 0);
        if a[0] == b[0] {
            lemma_lex_le_antisymmetric(a.drop_first(), b.drop_first());
            assert(a.len() == b.len());
            assert forall|i: int| 0 <= i < a.len() implies a[i] == b[i] by {
                if i > 0 {
                    assert(a.drop_first()[i - 1] == b.drop_first()[i - 1]);
                }
            }
            assert(a =~= b);
        } else {
            vstd::utf8::char_u32_cast(a[0], a[0] as u32);
            vstd::utf8::char_u32_cast(b[0], b[0] as u32);
        }
    }
}

/// The lexical order is transitive.
pub proof fn lemma_lex_le_transitive(a: Seq<char>, b: Seq<char>, c: Seq<char>)
    requires
        lex_le(a, b),
        lex_le(b, c),
    ensures
        lex_le(a, c),
    decreases a.len(),
{
    if a.len() == 0 || b.len() == 0 || c.len() == 0 {
    } else if a[0] == b[0] && b[0] == c[0] {
        lemma_lex_le_transitive(a.drop_first(), b.drop_first(), c.drop_first());
    }
}

/// Relies on `str`'s `PartialOrd`: string slices order lexicographically by
/// their byte values, which orders Unicode code points by their positions in
/// the code charts, the order `lex_le` states over the character views.
#[verifier::external_body]
fn str_le(a: &str, b: &str) -> (r: bool)
    ensures
        r == lex_le(a@, b@),
{
    a <= b
}

/// Inserting into a sequence whose first `j` names come strictly before the
/// new one lands the new name exactly at position `j`.
proof fn lemma_insert_at(x: Seq<char>, s: Seq<Seq<char>>, j: int)
    requires
        0 <= j <= s.len(),
        forall|k: int| 0 <= k < j ==> !lex_le(x, s[k]),
        j < s.len() ==> lex_le(x, s[j]),
    ensures
        spec_insert(x, s) == s.insert(j, x),
    decreases j,
{
    if j == 0 {
        if s.len() == 0 {
            assert(spec_insert(x, s) =~= s.insert(0, x));
        } else {
            assert(spec_insert(x, s) =~= s.insert(0, x));
        }
    } else {
        assert(!lex_le(x, s[0]));
        lemma_insert_at(x, s.drop_first(), j - 1);
        assert(seq![s[0]] + s.drop_first().insert(j - 1, x) =~= s.insert(j, x));
    }
}

/// Inserting a name into a sorted sequence keeps it sorted and adds exactly
/// that name to the contents.
pub proof fn lemma_insert_sorted(x: Seq<char>, s: Seq<Seq<char>>)
    requires
        sorted_lex(s),
    ensures
        sorted_lex(spec_insert(x, s)),
        spec_insert(x, s).to_multiset() == s.to_multiset().insert(x),
        spec_insert(x, s).len() == s.len() + 1,
    decreases s.len(),
{
    broadcast use vstd::seq_lib::group_to_multiset_ensures;

    if s.len() == 0 {
        assert(seq![x] =~= Seq::empty().push(x));
        assert(spec_insert(x, s).to_multiset() =~= s.to_multiset().insert(x));
        assert(sorted_lex(spec_insert(x, s)));
    } else if lex_le(x, s[0]) {
        let r = seq![x] + s;
        assert(r =~= s.insert(0, x));
        assert(r =~= Seq::empty().push(x) + s);
        vstd::seq_lib::lemma_multiset_commutative(Seq::empty().push(x), s);
        assert(Seq::<Seq<char>>::empty().to_multiset() =~= Multiset::empty());
        assert(r.to_multiset() =~= s.to_multiset().insert(x));
        assert forall|i: int, j: int| 0 <= i < j < r.len() implies lex_le(r[i], r[j]) by {
            if i == 0 {
                if j > 0 {
                    assert(r[j] == s[j - 1]);
                    if j - 1 == 0 {
                    } else {
                        assert(lex_le(s[0], s[j - 1]));
                        lemma_lex_le_transitive(x, s[0], s[j - 1]);
                    }
                }
            }
        }
    } else {
        let rest = spec_insert(x, s.drop_first());
        let r = seq![s[0]] + rest;
        assert(sorted_lex(s.drop_first())) by {
            assert(forall|i: int, j: int|
                0 <= i < j < s.drop_first().len() ==> #[trigger] lex_le(
                    s.drop_first()[i],
                    s.drop_first()[j],
                ));
        }
        lemma_insert_sorted(x, s.drop_first());
        assert(s =~= seq![s[0]] + s.drop_first());
        vstd::seq_lib::lemma_multiset_commutative(seq![s[0]], s.drop_first());
        vstd::seq_lib::lemma_multiset_commutative(seq![s[0]], rest);
        assert(seq![s[0]] =~= Seq::empty().push(s[0]));
        assert(Seq::<Seq<char>>::empty().to_multiset() =~= Multiset::empty());
        assert(r.to_multiset() =~= s.to_multiset().insert(x));
        assert forall|i: int, j: int| 0 <= i < j < r.len() implies lex_le(r[i], r[j]) by {
            if i == 0 {
                // s[0] comes before x (the order is total) and before every
                // name of the tail, so it comes before everything inserted.
                lemma_lex_le_total(x, s[0]);
                assert(rest.to_multiset().contains(r[j]));
                assert(rest.to_multiset() == s.drop_first().to_multiset().insert(x));
                if r[j] == x {
                } else {
                    assert(s.drop_first().to_multiset().contains(r[j]));
                    assert(s.drop_first().contains(r[j]));
                    let k = choose|k: int|
                        0 <= k < s.drop_first().len() && s.drop_first()[k] == r[j];
                    assert(lex_le(s[0], s[k + 1]));
                }
            } else {
                assert(lex_le(rest[i - 1], rest[j - 1]));
            }
        }
    }
}

/// The sort returns the same names, in nondecreasing lexical order.
pub proof fn lemma_sort_sorted(s: Seq<Seq<char>>)
    ensures
        sorted_lex(spec_sort(s)),
        spec_sort(s).to_multiset() == s.to_multiset(),
        spec_sort(s).len() == s.len(),
    decreases s.len(),
{
    broadcast use vstd::seq_lib::group_to_multiset_ensures;

    if s.len() == 0 {
    } else {
        lemma_sort_sorted(s.drop_last());
        lemma_insert_sorted(s.last(), spec_sort(s.drop_last()));
        assert(s =~= s.drop_last().push(s.last()));
        assert(s.to_multiset() == s.drop_last().to_multiset().insert(s.last()));
    }
}

/// Two sorted sequences holding the same names are the same sequence; with
/// `lemma_sort_sorted` this makes the sorted summary of a scan unique.
pub proof fn lemma_sorted_lex_unique(a: Seq<Seq<char>>, b: Seq<Seq<char>>)
    requires
        sorted_lex(a),
        sorted_lex(b),
        a.to_multiset() == b.to_multiset(),
    ensures
        a == b,
{
    let leq = |x: Seq<char>, y: Seq<char>| lex_le(x, y);
    assert(vstd::relations::total_ordering(leq)) by {
        assert forall|x: Seq<char>, y: Seq<char>| #[trigger] leq(x, y) && #[trigger] leq(y, x)
            implies x == y by {
            lemma_lex_le_antisymmetric(x, y);
        }
        assert forall|x: Seq<char>, y: Seq<char>, z: Seq<char>|
            #[trigger] leq(x, y) && #[trigger] leq(y, z) implies leq(x, z) by {
            lemma_lex_le_transitive(x, y, z);
        }
        assert forall|x: Seq<char>, y: Seq<char>| #[trigger] leq(x, y) || #[trigger] leq(
            y,
            x,
        ) by {
            lemma_lex_le_total(x, y);
        }
        assert forall|x: Seq<char>| #[trigger] leq(x, x) by {
            lemma_lex_le_total(x, x);
        }
    }
    assert(vstd::relations::sorted_by(a, leq)) by {
        assert(forall|i: int, j: int| 0 <= i < j < a.len() ==> #[trigger] lex_le(a[i], a[j]));
    }
    assert(vstd::relations::sorted_by(b, leq)) by {
        assert(forall|i: int, j: int| 0 <= i < j < b.len() ==> #[trigger] lex_le(b[i], b[j]));
    }
    vstd::seq_lib::lemma_sorted_unique(a, b, leq);
}

/// Inserts a name into an already sorted vector at its lexical position.
fn insert_name(v: &mut Vec<&'static str>, x: &'static str)
    ensures
        views_of(final(v)@) == spec_insert(x@, views_of(old(v)@)),
{
    let ghost s = views_of(v@);
    let mut j: usize = 0;
    while j < v.len()
        invariant_except_break
            0 <= j <= v@.len(),
            forall|k: int| 0 <= k < j ==> !lex_le(x@, s[k]),
        invariant
            v@ == old(v)@,
            s == views_of(v@),
        ensures
            0 <= j <= v@.len(),
            forall|k: int| 0 <= k < j ==> !lex_le(x@, s[k]),
            j < v@.len() ==> lex_le(x@, s[j as int]),
        decreases v@.len() - j,
    {
        if str_le(x, v[j]) {
            break ;
        }
        j = j + 1;
    }
    proof {
        lemma_insert_at(x@, s, j as int);
    }
    v.insert(j, x);
    proof {
        assert(views_of(v@) =~= s.insert(j as int, x@));
    }
}

/// Returns the names in nondecreasing lexical order; the result is exactly the
/// specification-level insertion sort of the input.
pub fn sorted_names(input: &Vec<&'static str>) -> (out: Vec<&'static str>)
    ensures
        views_of(out@) == spec_sort(views_of(input@)),
{
    let mut out: Vec<&'static str> = Vec::new();
    let mut i: usize = 0;
    while i < input.len()
        invariant
            0 <= i <= input@.len(),
            views_of(out@) == spec_sort(views_of(input@.take(i as int))),
        decreases input@.len() - i,
    {
        insert_name(&mut out, input[i]);
        proof {
            assert(views_of(input@.take(i + 1 as int)).drop_last() =~= views_of(
                input@.take(i as int),
            ));
            assert(views_of(input@.take(i + 1 as int)).last() == input@[i as int]@);
        }
        i = i + 1;
    }
    proof {
        assert(input@.take(input@.len() as int) =~= input@);
    }
    out
}

} // verus!
