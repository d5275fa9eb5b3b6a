//! The order in which the command line lists names: `String`'s order,
//! character by character, and a stable sort of named entries by it.

use vstd::prelude::*;
use crate::numeric::chars_of;
use vstd::multiset::Multiset;

verus! {

broadcast use vstd::seq_lib::group_to_multiset_ensures;

/// `a` comes before `b` or equals it, comparing character by character and
/// a prefix before the longer text (the order of `str`'s `Ord`).
pub open spec fn text_le(a: Seq<char>, b: Seq<char>) -> bool
    decreases a.len(),
{
    if a.len() == 0 {
        true
    } else if b.len() == 0 {
        false
    } else if a[0] != b[0] {
        a[0] < b[0]
    } else {
        text_le(a.drop_first(), b.drop_first())
    }
}

/// Of two texts, one comes first.
pub proof fn lemma_text_le_total(a: Seq<char>, b: Seq<char>)
    ensures
        text_le(a, b) || text_le(b, a),
    decreases a.len(),
{
    if a.len() > 0 && b.len() > 0 && a[0] == b[0] {
        lemma_text_le_total(a.drop_first(), b.drop_first());
    }
}

/// The order is transitive.
pub proof fn lemma_text_le_transitive(a: Seq<char>, b: Seq<char>, c: Seq<char>)
    requires
        text_le(a, b),
        text_le(b, c),
    ensures
        text_le(a, c),
    decreases a.len(),
{
    if a.len() > 0 && b.len() > 0 && c.len() > 0 && a[0] == b[0] && b[0] == c[0] {
        lemma_text_le_transitive(a.drop_first(), b.drop_first(), c.drop_first());
    }
}

/// Whether `a` comes before `b` or equals it.
pub fn chars_le(a: &Vec<char>, b: &Vec<char>) -> (r: bool)
    ensures
        r == text_le(a@, b@),
{
    let mut i: usize = 0;
    assert(a@.skip(0) =~= a@);
    assert(b@.skip(0) =~= b@);
    while i < a.len() && i < b.len() && a[i] == b[i]
        invariant
            i <= a@.len(),
            i <= b@.len(),
            text_le(a@.skip(i as int), b@.skip(i as int)) == text_le(a@, b@),
        decreases a@.len() - i,
    {
        assert(a@.skip(i as int).drop_first() =~= a@.skip(i + 1));
        assert(b@.skip(i as int).drop_first() =~= b@.skip(i + 1));
        i = i + 1;
    }
    if i == a.len() {
        true
    } else if i == b.len() {
        false
    } else {
        a[i] < b[i]
    }
}

/// Whether the text `a` comes before `b` or equals it.
pub fn str_le(a: &str, b: &str) -> (r: bool)
    ensures
        r == text_le(a@, b@),
{
    chars_le(&chars_of(a), &chars_of(b))
}

/// The texts of entries named by a text and carrying a second text.
pub open spec fn pair_texts(v: Seq<(String, String)>) -> Seq<(Seq<char>, Seq<char>)> {
    v.map_values(|p: (String, String)| (p.0@, p.1@))
}

/// Named entries with their names as texts.
pub open spec fn keyed<V>(v: Seq<(String, V)>) -> Seq<(Seq<char>, V)> {
    v.map_values(|p: (String, V)| (p.0@, p.1))
}

/// The entries are in the order of their names.
pub open spec fn sorted_by_name<V>(v: Seq<(Seq<char>, V)>) -> bool {
    forall|i: int, j: int| 0 <= i < j < v.len() ==> text_le(#[trigger] v[i].0, #[trigger] v[j].0)
}

/// The test "is named `n`" on named entries.
pub open spec fn name_is<V>(n: Seq<char>) -> spec_fn((Seq<char>, V)) -> bool {
    |e: (Seq<char>, V)| e.0 == n
}

/// The entries of `v` named `n`, in their order in `v`.
pub open spec fn named<V>(v: Seq<(Seq<char>, V)>, n: Seq<char>) -> Seq<(Seq<char>, V)> {
    v.filter(name_is::<V>(n))
}

proof fn lemma_named_none<V>(s: Seq<(Seq<char>, V)>, n: Seq<char>)
    requires
        forall|k: int| 0 <= k < s.len() ==> s[k].0 != n,
    ensures
        named(s, n) == Seq::<(Seq<char>, V)>::empty(),
    decreases s.len(),
{
    reveal(Seq::filter);
    if s.len() > 0 {
        lemma_named_none(s.drop_last(), n);
    }
    assert(named(s, n) =~= Seq::<(Seq<char>, V)>::empty());
}

proof fn lemma_named_push<V>(s: Seq<(Seq<char>, V)>, x: (Seq<char>, V), n: Seq<char>)
    ensures
        named(s.push(x), n) == (if x.0 == n {
            named(s, n).push(x)
        } else {
            named(s, n)
        }),
{
    s.lemma_filter_push(x, name_is::<V>(n));
}

/// Inserting `x` in front of every entry of its name adds it first among
/// the entries of that name and changes no other name's entries.
proof fn lemma_named_insert<V>(before: Seq<(Seq<char>, V)>, p: int, x: (Seq<char>, V), n: Seq<char>)
    requires
        0 <= p <= before.len(),
        forall|k: int| 0 <= k < p ==> before[k].0 != x.0,
    ensures
        named(before.insert(p, x), n) == (if x.0 == n {
            seq![x] + named(before, n)
        } else {
            named(before, n)
        }),
{
    let f = name_is::<V>(n);
    let head = before.take(p);
    let tail = before.skip(p);
    let one = Seq::<(Seq<char>, V)>::empty().push(x);
    assert(before.insert(p, x) =~= head + one + tail);
    assert(before =~= head + tail);
    Seq::filter_distributes_over_add(head + one, tail, f);
    Seq::filter_distributes_over_add(head, one, f);
    Seq::filter_distributes_over_add(head, tail, f);
    lemma_named_push(Seq::<(Seq<char>, V)>::empty(), x, n);
    lemma_named_none(Seq::<(Seq<char>, V)>::empty(), n);
    if x.0 == n {
        lemma_named_none(head, n);
        assert(named(one, n) =~= seq![x]);
        assert(named(before.insert(p, x), n) =~= seq![x] + named(before, n));
    } else {
        assert(named(one, n) =~= Seq::<(Seq<char>, V)>::empty());
        assert(named(before.insert(p, x), n) =~= named(before, n));
    }
}

/// `v` sorted by name: the same entries, in the order of their names, those
/// with equal names in their order in `v` (as the stable `sort_by` on the
/// names does).
pub fn sort_by_name<V>(v: Vec<(String, V)>) -> (r: Vec<(String, V)>)
    ensures
        keyed(r@).to_multiset() == keyed(v@).to_multiset(),
        sorted_by_name(keyed(r@)),
        forall|n: Seq<char>| #[trigger] named(keyed(r@), n) == named(keyed(v@), n),
{
    let ghost all = keyed(v@);
    let mut rest = v;
    let mut r: Vec<(String, V)> = Vec::new();
    proof {
        assert(keyed(r@) =~= Seq::<(Seq<char>, V)>::empty());
        assert(keyed(r@).to_multiset() =~= Multiset::<(Seq<char>, V)>::empty());
        assert forall|n: Seq<char>| named(keyed(rest@), n) + #[trigger] named(keyed(r@), n) == named(all, n) by {
            lemma_named_none(keyed(r@), n);
            assert(named(keyed(rest@), n) + named(keyed(r@), n) =~= named(all, n));
        }
    }
    while rest.len() > 0
        invariant
            keyed(r@).to_multiset().add(keyed(rest@).to_multiset()) == all.to_multiset(),
            sorted_by_name(keyed(r@)),
            forall|n: Seq<char>| named(keyed(rest@), n) + #[trigger] named(keyed(r@), n) == named(all, n),
        decreases rest@.len(),
    {
        let ghost before_rest = keyed(rest@);
        let ghost before = keyed(r@);
        let x = rest.pop().unwrap();
        let ghost xk = (x.0@, x.1);
        proof {
            assert(keyed(rest@) =~= before_rest.drop_last());
            assert(before_rest.drop_last().push(before_rest.last()) =~= before_rest);
            assert(before_rest.last() == xk);
        }
        let name = chars_of(x.0.as_str());
        let mut p: usize = 0;
        while p < r.len() && !chars_le(&name, &chars_of(r[p].0.as_str()))
            invariant
                p <= r@.len(),
                before == keyed(r@),
                name@ == xk.0,
                forall|k: int| 0 <= k < p ==> !text_le(xk.0, #[trigger] before[k].0),
            decreases r@.len() - p,
        {
            p = p + 1;
        }
        proof {
            assert forall|k: int| 0 <= k < p implies text_le(#[trigger] before[k].0, xk.0) by {
                lemma_text_le_total(xk.0, before[k].0);
            }
            assert forall|k: int| p <= k < before.len() implies text_le(xk.0, #[trigger] before[k].0) by {
                if k > p {
                    lemma_text_le_transitive(xk.0, before[p as int].0, before[k].0);
                }
            }
        }
        r.insert(p, x);
        proof {
            assert(keyed(r@) =~= before.insert(p as int, xk));
            assert forall|k: int| 0 <= k < p implies before[k].0 != xk.0 by {
                lemma_text_le_total(xk.0, xk.0);
            }
            assert forall|n: Seq<char>| named(keyed(rest@), n) + #[trigger] named(keyed(r@), n) == named(all, n) by {
                lemma_named_insert(before, p as int, xk, n);
                lemma_named_push(keyed(rest@), xk, n);
                assert(named(before_rest, n) + named(before, n) == named(all, n));
                if xk.0 == n {
                    assert(named(keyed(rest@), n) + named(keyed(r@), n) =~= named(before_rest, n) + named(before, n));
                }
            }
            let after = keyed(r@);
            assert forall|a: int, b: int| 0 <= a < b < after.len() implies text_le(
                #[trigger] after[a].0,
                #[trigger] after[b].0,
            ) by {
                if a < p && b < p {
                } else if a < p && b == p {
                } else if a < p && b > p {
                    assert(after[b] == before[b - 1]);
                    lemma_text_le_transitive(after[a].0, xk.0, after[b].0);
                } else if a == p {
                    assert(after[b] == before[b - 1]);
                } else {
                    assert(after[a] == before[a - 1]);
                    assert(after[b] == before[b - 1]);
                }
            }
            assert(keyed(r@).to_multiset() == before.to_multiset().insert(xk));
            assert(before_rest.to_multiset() == keyed(rest@).to_multiset().insert(xk));
            assert(keyed(r@).to_multiset().add(keyed(rest@).to_multiset()) =~= before.to_multiset().add(
                before_rest.to_multiset(),
            ));
        }
    }
    proof {
        assert(keyed(rest@) =~= Seq::<(Seq<char>, V)>::empty());
        assert forall|n: Seq<char>| #[trigger] named(keyed(r@), n) == named(keyed(v@), n) by {
            lemma_named_none(keyed(rest@), n);
            assert(named(keyed(rest@), n) + named(keyed(r@), n) =~= named(keyed(r@), n));
        }
        assert(keyed(rest@).to_multiset() =~= Multiset::<(Seq<char>, V)>::empty());
        assert(keyed(r@).to_multiset().add(Multiset::<(Seq<char>, V)>::empty()) =~= keyed(
            r@,
        ).to_multiset());
    }
    r
}

} // verus!
