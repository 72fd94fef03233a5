//! Association sequences: keyed entries in a fixed order, the model of the keyed
//! collections in this crate.

use vstd::prelude::*;

verus! {

/// The position of the last entry of `s` whose key is `k`.
pub open spec fn index_of<T>(s: Seq<(Seq<char>, T)>, k: Seq<char>) -> Option<int>
    decreases s.len(),
{
    if s.len() == 0 {
        None
    } else if s.last().0 == k {
        Some(s.len() - 1)
    } else {
        index_of(s.drop_last(), k)
    }
}

/// Whether some entry of `s` has the key `k`.
pub open spec fn has_key<T>(s: Seq<(Seq<char>, T)>, k: Seq<char>) -> bool {
    index_of(s, k) is Some
}

/// The value that `s` holds under the key `k`.
pub open spec fn value_of<T>(s: Seq<(Seq<char>, T)>, k: Seq<char>) -> Option<T> {
    match index_of(s, k) {
        Some(i) => Some(s[i].1),
        None => None,
    }
}

/// The entries of `s` whose key is not `k`, in their order.
pub open spec fn without_key<T>(s: Seq<(Seq<char>, T)>, k: Seq<char>) -> Seq<(Seq<char>, T)>
    decreases s.len(),
{
    if s.len() == 0 {
        s
    } else if s.last().0 == k {
        without_key(s.drop_last(), k)
    } else {
        without_key(s.drop_last(), k).push(s.last())
    }
}

/// `s` with the entry `(k, v)` put last, in place of any entry that had the key `k`.
pub open spec fn put_last<T>(s: Seq<(Seq<char>, T)>, k: Seq<char>, v: T) -> Seq<(Seq<char>, T)> {
    without_key(s, k).push((k, v))
}

/// No two entries of `s` share a key.
pub open spec fn distinct_keys<T>(s: Seq<(Seq<char>, T)>) -> bool {
    forall|i: int, j: int| 0 <= i < j < s.len() ==> (#[trigger] s[i]).0 != (#[trigger] s[j]).0
}

/// What `index_of` finds: an entry with the key and none after it, or no entry at all.
pub proof fn lemma_index_of<T>(s: Seq<(Seq<char>, T)>, k: Seq<char>)
    ensures
        match index_of(s, k) {
            Some(i) => 0 <= i < s.len() && s[i].0 == k && forall|j: int|
                i < j < s.len() ==> (#[trigger] s[j]).0 != k,
            None => forall|j: int| 0 <= j < s.len() ==> (#[trigger] s[j]).0 != k,
        },
    decreases s.len(),
{
    if s.len() > 0 && s.last().0 != k {
        let t = s.drop_last();
        lemma_index_of(t, k);
        assert forall|j: int| 0 <= j < t.len() implies #[trigger] s[j] == t[j] by {}
        match index_of(t, k) {
            Some(i) => {
                assert forall|j: int| i < j < s.len() implies (#[trigger] s[j]).0 != k by {
                    if j < t.len() {
                        assert(t[j].0 != k);
                    }
                }
            },
            None => {
                assert forall|j: int| 0 <= j < s.len() implies (#[trigger] s[j]).0 != k by {
                    if j < t.len() {
                        assert(t[j].0 != k);
                    }
                }
            },
        }
    }
}

/// With distinct keys, the entry at `i` is the one that its key finds.
pub proof fn lemma_index_of_unique<T>(s: Seq<(Seq<char>, T)>, i: int)
    requires
        distinct_keys(s),
        0 <= i < s.len(),
    ensures
        index_of(s, s[i].0) == Some(i),
{
    lemma_index_of(s, s[i].0);
}

/// Two sequences with the same keys at the same places find a key at the same place.
pub proof fn lemma_index_of_same_keys<T, U>(
    a: Seq<(Seq<char>, T)>,
    b: Seq<(Seq<char>, U)>,
    k: Seq<char>,
)
    requires
        a.len() == b.len(),
        forall|i: int| 0 <= i < a.len() ==> (#[trigger] a[i]).0 == b[i].0,
    ensures
        index_of(a, k) == index_of(b, k),
    decreases a.len(),
{
    if a.len() > 0 && a.last().0 != k {
        lemma_index_of_same_keys(a.drop_last(), b.drop_last(), k);
    }
}

/// With distinct keys, dropping a key removes one entry or none.
pub proof fn lemma_without_key<T>(s: Seq<(Seq<char>, T)>, k: Seq<char>)
    requires
        distinct_keys(s),
    ensures
        without_key(s, k) == match index_of(s, k) {
            Some(i) => s.remove(i),
            None => s,
        },
    decreases s.len(),
{
    if s.len() > 0 {
        let t = s.drop_last();
        assert(distinct_keys(t)) by {
            assert forall|i: int, j: int| 0 <= i < j < t.len() implies (#[trigger] t[i]).0 != (
            #[trigger] t[j]).0 by {
                assert(t[i] == s[i] && t[j] == s[j]);
            }
        }
        lemma_without_key(t, k);
        lemma_index_of(t, k);
        if s.last().0 == k {
            assert(index_of(t, k) is None) by {
                if index_of(t, k) is Some {
                    let i = index_of(t, k)->0;
                    assert(s[i] == t[i]);
                    assert(s[i].0 != s[s.len() - 1].0);
                }
            }
            assert(s.remove(s.len() - 1) =~= t);
        } else {
            match index_of(t, k) {
                Some(i) => {
                    assert(t.remove(i).push(s.last()) =~= s.remove(i));
                },
                None => {
                    assert(t.push(s.last()) =~= s);
                },
            }
        }
    }
}

/// Putting an entry last keeps the keys distinct.
pub proof fn lemma_put_last_distinct<T>(s: Seq<(Seq<char>, T)>, k: Seq<char>, v: T)
    requires
        distinct_keys(s),
    ensures
        distinct_keys(put_last(s, k, v)),
{
    lemma_without_key(s, k);
    lemma_index_of(s, k);
    let w = without_key(s, k);
    let p = put_last(s, k, v);
    assert forall|i: int, j: int| 0 <= i < j < p.len() implies (#[trigger] p[i]).0 != (
    #[trigger] p[j]).0 by {
        match index_of(s, k) {
            Some(x) => {
                let i2 = if i < x { i } else { i + 1 };
                assert(p[i] == s[i2]);
                if j < w.len() {
                    let j2 = if j < x { j } else { j + 1 };
                    assert(p[j] == s[j2]);
                } else {
                    assert(s[i2].0 != s[x].0);
                }
            },
            None => {
                assert(p[i] == s[i]);
                if j < w.len() {
                    assert(p[j] == s[j]);
                }
            },
        }
    }
}

/// What a key finds after an entry was put last.
pub proof fn lemma_put_last_value<T>(s: Seq<(Seq<char>, T)>, k: Seq<char>, v: T, q: Seq<char>)
    requires
        distinct_keys(s),
    ensures
        value_of(put_last(s, k, v), q) == if q == k {
            Some(v)
        } else {
            value_of(s, q)
        },
{
    let p = put_last(s, k, v);
    let w = without_key(s, k);
    assert(p.drop_last() =~= w);
    if q != k {
        lemma_without_key(s, k);
        lemma_index_of(s, k);
        lemma_index_of(s, q);
        lemma_index_of(w, q);
        lemma_put_last_distinct(s, k, v);
        match index_of(s, q) {
            Some(y) => {
                match index_of(s, k) {
                    Some(x) => {
                        let y2 = if y < x { y } else { y - 1 };
                        assert(w[y2] == s[y]);
                        assert(distinct_keys(w)) by {
                            assert forall|i: int, j: int| 0 <= i < j < w.len() implies (
                            #[trigger] w[i]).0 != (#[trigger] w[j]).0 by {
                                assert(p[i] == w[i] && p[j] == w[j]);
                            }
                        }
                        lemma_index_of_unique(w, y2);
                    },
                    None => {},
                }
            },
            None => {
                if index_of(w, q) is Some {
                    let z = index_of(w, q)->0;
                    match index_of(s, k) {
                        Some(x) => {
                            let z2 = if z < x { z } else { z + 1 };
                            assert(w[z] == s[z2]);
                        },
                        None => {},
                    }
                }
            },
        }
    }
}

/// The entries of `s` with `f` applied to each value.
pub open spec fn map_vals<T, U>(s: Seq<(Seq<char>, T)>, f: spec_fn(T) -> U) -> Seq<(Seq<char>, U)> {
    Seq::new(s.len(), |i: int| (s[i].0, f(s[i].1)))
}

/// Mapping the values moves no key.
pub proof fn lemma_map_vals_index_of<T, U>(s: Seq<(Seq<char>, T)>, f: spec_fn(T) -> U, k: Seq<char>)
    ensures
        index_of(map_vals(s, f), k) == index_of(s, k),
{
    lemma_index_of_same_keys(map_vals(s, f), s, k);
}

/// Mapping the values keeps the keys distinct.
pub proof fn lemma_map_vals_distinct<T, U>(s: Seq<(Seq<char>, T)>, f: spec_fn(T) -> U)
    requires
        distinct_keys(s),
    ensures
        distinct_keys(map_vals(s, f)),
{
    let m = map_vals(s, f);
    assert forall|i: int, j: int| 0 <= i < j < m.len() implies (#[trigger] m[i]).0 != (
    #[trigger] m[j]).0 by {
        assert(s[i].0 != s[j].0);
    }
}

/// Dropping a key and mapping the values can be done in either order.
pub proof fn lemma_map_vals_without<T, U>(s: Seq<(Seq<char>, T)>, f: spec_fn(T) -> U, k: Seq<char>)
    ensures
        map_vals(without_key(s, k), f) == without_key(map_vals(s, f), k),
    decreases s.len(),
{
    if s.len() == 0 {
        assert(map_vals(without_key(s, k), f) =~= without_key(map_vals(s, f), k));
    } else {
        let t = s.drop_last();
        lemma_map_vals_without(t, f, k);
        assert(map_vals(s, f).drop_last() =~= map_vals(t, f));
        if s.last().0 == k {
        } else {
            assert(map_vals(without_key(t, k).push(s.last()), f) =~= map_vals(
                without_key(t, k),
                f,
            ).push((s.last().0, f(s.last().1))));
        }
    }
}

/// Putting an entry last and mapping the values can be done in either order.
pub proof fn lemma_map_vals_put_last<T, U>(
    s: Seq<(Seq<char>, T)>,
    f: spec_fn(T) -> U,
    k: Seq<char>,
    v: T,
)
    ensures
        map_vals(put_last(s, k, v), f) == put_last(map_vals(s, f), k, f(v)),
{
    lemma_map_vals_without(s, f, k);
    assert(map_vals(put_last(s, k, v), f) =~= put_last(map_vals(s, f), k, f(v)));
}

} // verus!
