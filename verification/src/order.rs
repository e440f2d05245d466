//! Lists put in the order of a key, with what has the same key left in the order in
//! which it came.

use vstd::prelude::*;
use vstd::seq_lib::{to_multiset_build, to_multiset_insert};

verus! {

/// What has a key to be ordered by.
pub trait Keyed {
    /// The key: what has the smaller key comes first.
    spec fn key(self) -> int;
}

/// Whether the keys of `s` never fall.
pub open spec fn is_ordered<V: Keyed>(s: Seq<V>) -> bool {
    forall|i: int, j: int| 0 <= i <= j < s.len() ==> (#[trigger] s[i]).key() <= (#[trigger] s[j]).key()
}

/// The place of an item with the key `k` in `s`: behind the last item of `s` whose key is
/// not greater.
pub open spec fn place<V: Keyed>(s: Seq<V>, k: int) -> int
    decreases s.len(),
{
    if s.len() == 0 {
        0
    } else if s.last().key() <= k {
        s.len() as int
    } else {
        place(s.drop_last(), k)
    }
}

/// `s` with `x` at its place.
pub open spec fn inserted<V: Keyed>(s: Seq<V>, x: V) -> Seq<V> {
    s.insert(place(s, x.key()), x)
}

/// `s` in the order of the keys. Items with one key stay in the order in which they came.
pub open spec fn ordered<V: Keyed>(s: Seq<V>) -> Seq<V>
    decreases s.len(),
{
    if s.len() == 0 {
        s
    } else {
        inserted(ordered(s.drop_last()), s.last())
    }
}

/// The place of a key is within the list; every item from it on has a greater key, and
/// the item before it has none.
pub proof fn lemma_place<V: Keyed>(s: Seq<V>, k: int)
    ensures
        0 <= place(s, k) <= s.len(),
        forall|j: int| place(s, k) <= j < s.len() ==> (#[trigger] s[j]).key() > k,
        place(s, k) > 0 ==> s[place(s, k) - 1].key() <= k,
    decreases s.len(),
{
    if s.len() > 0 && s.last().key() > k {
        lemma_place(s.drop_last(), k);
        assert forall|j: int| place(s, k) <= j < s.len() implies (#[trigger] s[j]).key() > k by {
            if j < s.len() - 1 {
                assert(s.drop_last()[j] == s[j]);
            }
        }
    }
}

/// A list in order stays in order when an item is put at its place.
pub proof fn lemma_inserted_is_ordered<V: Keyed>(s: Seq<V>, x: V)
    requires
        is_ordered(s),
    ensures
        is_ordered(inserted(s, x)),
{
    let p = place(s, x.key());
    lemma_place(s, x.key());
    s.insert_ensures(p, x);
    let t = inserted(s, x);
    assert forall|i: int, j: int| 0 <= i <= j < t.len() implies (#[trigger] t[i]).key() <= (
    #[trigger] t[j]).key() by {
        if i < p {
            assert(t[i] == s[i]);
            assert(s[i].key() <= s[p - 1].key());
        } else if i > p {
            assert(t[i] == s[i - 1]);
        }
        if j < p {
            assert(t[j] == s[j]);
        } else if j > p {
            assert(t[j] == s[j - 1]);
        }
    }
}

/// A list put in order is in order, and holds what the list held: each item as often as
/// before.
pub proof fn lemma_ordered<V: Keyed>(s: Seq<V>)
    ensures
        is_ordered(ordered(s)),
        ordered(s).len() == s.len(),
        ordered(s).to_multiset() == s.to_multiset(),
    decreases s.len(),
{
    if s.len() > 0 {
        let init = s.drop_last();
        lemma_ordered(init);
        lemma_inserted_is_ordered(ordered(init), s.last());
        lemma_place(ordered(init), s.last().key());
        ordered(init).insert_ensures(place(ordered(init), s.last().key()), s.last());
        to_multiset_insert(ordered(init), place(ordered(init), s.last().key()), s.last());
        to_multiset_build(init, s.last());
        assert(init.push(s.last()) =~= s);
    }
}

/// Every item of a list put in order is an item of the list.
pub proof fn lemma_ordered_holds<V: Keyed>(s: Seq<V>, i: int)
    requires
        0 <= i < ordered(s).len(),
    ensures
        exists|j: int| 0 <= j < s.len() && s[j] == #[trigger] ordered(s)[i],
    decreases s.len(),
{
    if s.len() > 0 {
        let init = s.drop_last();
        let p = place(ordered(init), s.last().key());
        lemma_place(ordered(init), s.last().key());
        ordered(init).insert_ensures(p, s.last());
        lemma_ordered(init);
        if i == p {
            assert(s[s.len() - 1] == ordered(s)[i]);
        } else {
            let k = if i < p {
                i
            } else {
                i - 1
            };
            assert(ordered(init)[k] == ordered(s)[i]);
            lemma_ordered_holds(init, k);
            let j = choose|j: int| 0 <= j < init.len() && init[j] == ordered(init)[k];
            assert(s[j] == ordered(s)[i]);
        }
    }
}

/// A list that is in order already is left as it is.
pub proof fn lemma_ordered_stays<V: Keyed>(s: Seq<V>)
    requires
        is_ordered(s),
    ensures
        ordered(s) == s,
    decreases s.len(),
{
    if s.len() > 0 {
        let init = s.drop_last();
        assert(is_ordered(init)) by {
            assert forall|i: int, j: int| 0 <= i <= j < init.len() implies (#[trigger] init[i]).key()
                <= (#[trigger] init[j]).key() by {
                assert(init[i] == s[i] && init[j] == s[j]);
            }
        }
        lemma_ordered_stays(init);
        if init.len() > 0 {
            assert(init.last() == s[s.len() - 2]);
            assert(s[s.len() - 2].key() <= s[s.len() - 1].key());
        }
        assert(place(init, s.last().key()) == init.len());
        assert(init.insert(init.len() as int, s.last()) =~= s);
    }
}

/// Records that can be put in the order of the key of their views.
pub trait InOrder: DeepView + Sized where <Self as DeepView>::V: Keyed {
    /// Whether the key of this record is not greater than that of `other`.
    fn not_after(&self, other: &Self) -> (r: bool)
        ensures
            r == (self.deep_view().key() <= other.deep_view().key()),
    ;
}

/// Puts `x` at its place in `out`.
pub fn insert_in_order<T: InOrder>(out: &mut Vec<T>, x: T) where <T as DeepView>::V: Keyed
    ensures
        final(out).deep_view() == inserted(old(out).deep_view(), x.deep_view()),
{
    let ghost all = out.deep_view();
    let ghost k = x.deep_view().key();
    let mut p: usize = out.len();
    assert(all.take(p as int) =~= all);
    while p > 0 && !out[p - 1].not_after(&x)
        invariant
            p <= out.len(),
            *out == *old(out),
            all == out.deep_view(),
            k == x.deep_view().key(),
            place(all, k) == place(all.take(p as int), k),
        decreases p,
    {
        assert(all.take(p as int).drop_last() =~= all.take(p - 1));
        assert(all.take(p as int).last() == out@[p - 1].deep_view());
        p -= 1;
    }
    proof {
        if p > 0 {
            assert(all.take(p as int).last() == out@[p - 1].deep_view());
        }
        assert(place(all, k) == p);
    }
    out.insert(p, x);
    assert(out.deep_view() =~= all.insert(p as int, x.deep_view()));
}

/// `items` in the order of their keys. Records with one key stay in the order in which
/// they came.
pub fn put_in_order<T: InOrder>(items: Vec<T>) -> (r: Vec<T>) where <T as DeepView>::V: Keyed
    ensures
        r.deep_view() == ordered(items.deep_view()),
        is_ordered(r.deep_view()),
        r.len() == items.len(),
        r.deep_view().to_multiset() == items.deep_view().to_multiset(),
        is_ordered(items.deep_view()) ==> r.deep_view() == items.deep_view(),
{
    let ghost all = items.deep_view();
    let mut out: Vec<T> = Vec::new();
    assert(all.take(0) =~= Seq::empty());
    assert(out.deep_view() =~= Seq::empty());
    for x in it: items
        invariant
            all == it.seq().map_values(|t: T| t.deep_view()),
            out.deep_view() == ordered(all.take(it.index() as int)),
    {
        assert(all.take(it.index() + 1).drop_last() =~= all.take(it.index() as int));
        assert(all.take(it.index() + 1).last() == x.deep_view());
        insert_in_order(&mut out, x);
    }
    proof {
        assert(all.take(all.len() as int) =~= all);
        lemma_ordered(all);
        if is_ordered(all) {
            lemma_ordered_stays(all);
        }
    }
    out
}

} // verus!
