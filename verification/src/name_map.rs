//! A name-keyed map backed by a vector of `(name, value)` pairs.
//!
//! The configuration model keys several of its collections by a name:
//! environments, globals, and the rule set itself. The map keeps insertion
//! order, never holds two entries with the same key, and resolves an insert
//! of an existing key by replacing the prior entry in place — which is what
//! makes "later configuration wins" hold under merging.

use crate::decode::str_eq;
use vstd::prelude::*;

verus! {

/// No two pairs share a key.
pub open spec fn keys_distinct<A>(s: Seq<(Seq<char>, A)>) -> bool {
    forall|i: int, j: int| 0 <= i < j < s.len() ==> s[i].0 != s[j].0
}

/// The value at a key: the first pair that carries it, if any.
pub open spec fn map_get<A>(s: Seq<(Seq<char>, A)>, k: Seq<char>) -> Option<A>
    decreases s.len(),
{
    if s.len() == 0 {
        None
    } else if s[0].0 == k {
        Some(s[0].1)
    } else {
        map_get(s.drop_first(), k)
    }
}

/// Whether some pair carries the key.
pub open spec fn map_has_key<A>(s: Seq<(Seq<char>, A)>, k: Seq<char>) -> bool {
    map_get(s, k) is Some
}

/// Inserting replaces the first pair carrying the key in place, or appends
/// a new pair when the key is absent.
pub open spec fn map_insert<A>(s: Seq<(Seq<char>, A)>, k: Seq<char>, v: A) -> Seq<
    (Seq<char>, A),
>
    decreases s.len(),
{
    if s.len() == 0 {
        seq![(k, v)]
    } else if s[0].0 == k {
        seq![(k, v)] + s.drop_first()
    } else {
        seq![s[0]] + map_insert(s.drop_first(), k, v)
    }
}

/// Map union: each incoming pair is inserted in order, so an incoming entry
/// overwrites a present entry with the same key.
pub open spec fn map_merge<A>(s: Seq<(Seq<char>, A)>, t: Seq<(Seq<char>, A)>) -> Seq<
    (Seq<char>, A),
>
    decreases t.len(),
{
    if t.len() == 0 {
        s
    } else {
        map_merge(map_insert(s, t[0].0, t[0].1), t.drop_first())
    }
}

/// After an insert, the inserted key holds the inserted value and every
/// other key is untouched; distinct keys stay distinct.
pub proof fn lemma_insert_get<A>(s: Seq<(Seq<char>, A)>, k: Seq<char>, v: A)
    ensures
        map_get(map_insert(s, k, v), k) == Some(v),
        forall|k2: Seq<char>| k2 != k ==> map_get(map_insert(s, k, v), k2) == map_get(s, k2),
        keys_distinct(s) ==> keys_distinct(map_insert(s, k, v)),
    decreases s.len(),
{
    if s.len() == 0 {
        let r = map_insert(s, k, v);
        assert forall|k2: Seq<char>| k2 != k implies map_get(r, k2) == map_get(s, k2) by {
            assert(r.drop_first() =~= Seq::<(Seq<char>, A)>::empty());
            assert(map_get(r.drop_first(), k2) is None);
            assert(map_get(s, k2) is None);
        }
    } else if s[0].0 == k {
        let r = map_insert(s, k, v);
        assert(r.drop_first() =~= s.drop_first());
        assert forall|k2: Seq<char>| k2 != k implies map_get(r, k2) == map_get(s, k2) by {
            assert(map_get(r, k2) == map_get(s.drop_first(), k2));
        }
    } else {
        lemma_insert_get(s.drop_first(), k, v);
        let r = map_insert(s, k, v);
        assert(r[0] == s[0]);
        assert(r.drop_first() =~= map_insert(s.drop_first(), k, v));
        assert forall|k2: Seq<char>| k2 != k implies map_get(r, k2) == map_get(s, k2) by {
            if s[0].0 != k2 {
                assert(map_get(r, k2) == map_get(map_insert(s.drop_first(), k, v), k2));
                assert(map_get(s, k2) == map_get(s.drop_first(), k2));
            }
        }
        assert(map_get(r, k) == Some(v)) by {
            assert(map_get(r, k) == map_get(map_insert(s.drop_first(), k, v), k));
        }
        if keys_distinct(s) {
            assert(keys_distinct(s.drop_first())) by {
                assert(forall|i: int, j: int|
                    0 <= i < j < s.drop_first().len() ==> s.drop_first()[i].0
                        != s.drop_first()[j].0);
            }
            let ri = map_insert(s.drop_first(), k, v);
            assert forall|i: int, j: int| 0 <= i < j < r.len() implies r[i].0 != r[j].0 by {
                if i == 0 {
                    if r[j].0 == s[0].0 {
                        assert(map_get(ri, s[0].0) == map_get(s.drop_first(), s[0].0));
                        lemma_get_present(ri, j - 1);
                        lemma_has_key_bound(s.drop_first(), s[0].0);
                    }
                } else {
                    assert(r[i] == ri[i - 1] && r[j] == ri[j - 1]);
                }
            }
        }
    }
}

/// If a pair sits at index `i`, the map holds its key.
pub proof fn lemma_get_present<A>(s: Seq<(Seq<char>, A)>, i: int)
    requires
        0 <= i < s.len(),
    ensures
        map_has_key(s, s[i].0),
    decreases s.len(),
{
    if i > 0 && s[0].0 != s[i].0 {
        lemma_get_present(s.drop_first(), i - 1);
    }
}

/// If a map holds a key, some pair carries it.
pub proof fn lemma_has_key_bound<A>(s: Seq<(Seq<char>, A)>, k: Seq<char>)
    requires
        map_has_key(s, k),
    ensures
        exists|i: int| 0 <= i < s.len() && s[i].0 == k,
    decreases s.len(),
{
    if s.len() > 0 && s[0].0 != k {
        lemma_has_key_bound(s.drop_first(), k);
        let i = choose|i: int| 0 <= i < s.drop_first().len() && s.drop_first()[i].0 == k;
        assert(s[i + 1].0 == k);
    }
}

/// Merging keeps distinct keys distinct, and the merged map answers every
/// lookup from the incoming side when it knows the key, from the present
/// side otherwise: the incoming configuration wins.
pub proof fn lemma_merge_get<A>(s: Seq<(Seq<char>, A)>, t: Seq<(Seq<char>, A)>)
    requires
        keys_distinct(t),
    ensures
        forall|k: Seq<char>|
            #[trigger] map_get(map_merge(s, t), k) == if map_has_key(t, k) {
                map_get(t, k)
            } else {
                map_get(s, k)
            },
        keys_distinct(s) ==> keys_distinct(map_merge(s, t)),
    decreases t.len(),
{
    if t.len() > 0 {
        let s1 = map_insert(s, t[0].0, t[0].1);
        assert(keys_distinct(t.drop_first())) by {
            assert(forall|i: int, j: int|
                0 <= i < j < t.drop_first().len() ==> t.drop_first()[i].0 != t.drop_first()[j].0);
        }
        lemma_insert_get(s, t[0].0, t[0].1);
        lemma_merge_get(s1, t.drop_first());
        assert forall|k: Seq<char>|
            #[trigger] map_get(map_merge(s, t), k) == if map_has_key(t, k) {
                map_get(t, k)
            } else {
                map_get(s, k)
            } by {
            if map_has_key(t.drop_first(), k) {
                lemma_has_key_bound(t.drop_first(), k);
                let i = choose|i: int| 0 <= i < t.drop_first().len() && t.drop_first()[i].0 == k;
                assert(t[i + 1].0 == k);
                lemma_get_present(t, i + 1);
                assert(k != t[0].0);
            }
        }
    }
}


/// Merging in entries whose keys are all new appends them in order.
pub proof fn lemma_merge_disjoint<A>(s: Seq<(Seq<char>, A)>, t: Seq<(Seq<char>, A)>)
    requires
        keys_distinct(t),
        forall|i: int, j: int|
            0 <= i < s.len() && 0 <= j < t.len() ==> (#[trigger] s[i]).0 != (#[trigger] t[j]).0,
    ensures
        map_merge(s, t) == s + t,
    decreases t.len(),
{
    if t.len() == 0 {
        assert(map_merge(s, t) =~= s + t);
    } else {
        assert(forall|j: int| 0 <= j < s.len() ==> s[j].0 != t[0].0);
        lemma_insert_absent(s, t[0].0, t[0].1);
        let s1 = s.push(t[0]);
        assert(keys_distinct(t.drop_first())) by {
            assert(forall|i: int, j: int|
                0 <= i < j < t.drop_first().len() ==> t.drop_first()[i].0 != t.drop_first()[j].0);
        }
        assert forall|i: int, j: int|
            0 <= i < s1.len() && 0 <= j < t.drop_first().len() implies (#[trigger] s1[i]).0 != (
        #[trigger] t.drop_first()[j]).0 by {
            if i < s.len() {
                assert(s1[i] == s[i] && t.drop_first()[j] == t[j + 1]);
            } else {
                assert(s1[i] == t[0] && t.drop_first()[j] == t[j + 1]);
            }
        }
        lemma_merge_disjoint(s1, t.drop_first());
        assert(map_insert(s, t[0].0, t[0].1) =~= s1);
        assert(s1 + t.drop_first() =~= s + t);
    }
}

/// Inserting a pair the map already holds, with the same value at the same
/// key, changes nothing.
pub proof fn lemma_insert_noop<A>(s: Seq<(Seq<char>, A)>, k: Seq<char>, v: A)
    requires
        map_get(s, k) == Some(v),
    ensures
        map_insert(s, k, v) == s,
    decreases s.len(),
{
    if s.len() == 0 {
    } else if s[0].0 == k {
        assert(map_insert(s, k, v) =~= s);
    } else {
        lemma_insert_noop(s.drop_first(), k, v);
        assert(map_insert(s, k, v) =~= s);
    }
}

/// Merging in entries the map already agrees with changes nothing.
pub proof fn lemma_merge_agreeing_noop<A>(s: Seq<(Seq<char>, A)>, t: Seq<(Seq<char>, A)>)
    requires
        forall|i: int| 0 <= i < t.len() ==> map_get(s, #[trigger] t[i].0) == Some(t[i].1),
    ensures
        map_merge(s, t) == s,
    decreases t.len(),
{
    if t.len() > 0 {
        lemma_insert_noop(s, t[0].0, t[0].1);
        assert(forall|i: int|
            0 <= i < t.drop_first().len() ==> map_get(s, #[trigger] t.drop_first()[i].0) == Some(
                t.drop_first()[i].1,
            ));
        lemma_merge_agreeing_noop(s, t.drop_first());
    }
}

/// In a map with distinct keys, every pair is what lookup of its key finds.
pub proof fn lemma_distinct_get_self<A>(s: Seq<(Seq<char>, A)>)
    requires
        keys_distinct(s),
    ensures
        forall|i: int| 0 <= i < s.len() ==> map_get(s, #[trigger] s[i].0) == Some(s[i].1),
    decreases s.len(),
{
    if s.len() > 0 {
        assert(keys_distinct(s.drop_first())) by {
            assert(forall|i: int, j: int|
                0 <= i < j < s.drop_first().len() ==> s.drop_first()[i].0 != s.drop_first()[j].0);
        }
        lemma_distinct_get_self(s.drop_first());
        assert forall|i: int| 0 <= i < s.len() implies map_get(s, #[trigger] s[i].0) == Some(
            s[i].1,
        ) by {
            if i > 0 {
                assert(s.drop_first()[i - 1] == s[i]);
                assert(s[0].0 != s[i].0);
            }
        }
    }
}

/// Merging a map with itself yields the identical map: name-keyed overwrite
/// is idempotent.
pub proof fn lemma_merge_self_identity<A>(s: Seq<(Seq<char>, A)>)
    requires
        keys_distinct(s),
    ensures
        map_merge(s, s) == s,
{
    lemma_distinct_get_self(s);
    lemma_merge_agreeing_noop(s, s);
}

/// A property that holds of every pair of a map and of the inserted pair
/// holds of every pair after the insert.
pub proof fn lemma_insert_pairs<A>(
    s: Seq<(Seq<char>, A)>,
    k: Seq<char>,
    v: A,
    p: spec_fn((Seq<char>, A)) -> bool,
)
    requires
        forall|i: int| 0 <= i < s.len() ==> p(#[trigger] s[i]),
        p((k, v)),
    ensures
        forall|i: int|
            0 <= i < map_insert(s, k, v).len() ==> p(#[trigger] map_insert(s, k, v)[i]),
    decreases s.len(),
{
    if s.len() > 0 && s[0].0 != k {
        assert(forall|i: int|
            0 <= i < s.drop_first().len() ==> p(#[trigger] s.drop_first()[i]));
        lemma_insert_pairs(s.drop_first(), k, v, p);
        assert forall|i: int| 0 <= i < map_insert(s, k, v).len() implies p(
            #[trigger] map_insert(s, k, v)[i],
        ) by {
            if i > 0 {
                assert(map_insert(s, k, v)[i] == map_insert(s.drop_first(), k, v)[i - 1]);
            }
        }
    }
}

/// A property that holds of every pair of both maps holds of every pair of
/// their merge.
pub proof fn lemma_merge_pairs<A>(
    s: Seq<(Seq<char>, A)>,
    t: Seq<(Seq<char>, A)>,
    p: spec_fn((Seq<char>, A)) -> bool,
)
    requires
        forall|i: int| 0 <= i < s.len() ==> p(#[trigger] s[i]),
        forall|i: int| 0 <= i < t.len() ==> p(#[trigger] t[i]),
    ensures
        forall|i: int|
            0 <= i < map_merge(s, t).len() ==> p(#[trigger] map_merge(s, t)[i]),
    decreases t.len(),
{
    if t.len() > 0 {
        lemma_insert_pairs(s, t[0].0, t[0].1, p);
        assert(forall|i: int|
            0 <= i < t.drop_first().len() ==> p(#[trigger] t.drop_first()[i]));
        lemma_merge_pairs(map_insert(s, t[0].0, t[0].1), t.drop_first(), p);
        assert(map_merge(s, t) == map_merge(map_insert(s, t[0].0, t[0].1), t.drop_first()));
    }
}

/// An insert at an index whose key matches, with no earlier pair carrying
/// the key, is an in-place update.
pub proof fn lemma_insert_at<A>(s: Seq<(Seq<char>, A)>, k: Seq<char>, v: A, i: int)
    requires
        0 <= i < s.len(),
        s[i].0 == k,
        forall|j: int| 0 <= j < i ==> s[j].0 != k,
    ensures
        map_insert(s, k, v) == s.update(i, (k, v)),
    decreases s.len(),
{
    if i == 0 {
        assert(map_insert(s, k, v) =~= s.update(0, (k, v)));
    } else {
        assert(forall|j: int| 0 <= j < i - 1 ==> s.drop_first()[j].0 != k);
        lemma_insert_at(s.drop_first(), k, v, i - 1);
        assert(map_insert(s, k, v) =~= s.update(i, (k, v)));
    }
}

/// An insert of an absent key appends the pair.
pub proof fn lemma_insert_absent<A>(s: Seq<(Seq<char>, A)>, k: Seq<char>, v: A)
    requires
        forall|j: int| 0 <= j < s.len() ==> s[j].0 != k,
    ensures
        map_insert(s, k, v) == s.push((k, v)),
    decreases s.len(),
{
    if s.len() > 0 {
        assert(forall|j: int| 0 <= j < s.drop_first().len() ==> s.drop_first()[j].0 != k);
        lemma_insert_absent(s.drop_first(), k, v);
        assert(map_insert(s, k, v) =~= s.push((k, v)));
    }
}

/// Lookup of a key found at index `i`, with no earlier pair carrying it,
/// yields that pair's value.
pub proof fn lemma_get_at<A>(s: Seq<(Seq<char>, A)>, k: Seq<char>, i: int)
    requires
        0 <= i < s.len(),
        s[i].0 == k,
        forall|j: int| 0 <= j < i ==> s[j].0 != k,
    ensures
        map_get(s, k) == Some(s[i].1),
    decreases s.len(),
{
    if i > 0 {
        assert(forall|j: int| 0 <= j < i - 1 ==> s.drop_first()[j].0 != k);
        lemma_get_at(s.drop_first(), k, i - 1);
    }
}

/// Lookup of a key no pair carries fails.
pub proof fn lemma_get_absent<A>(s: Seq<(Seq<char>, A)>, k: Seq<char>)
    requires
        forall|j: int| 0 <= j < s.len() ==> s[j].0 != k,
    ensures
        map_get(s, k) is None,
    decreases s.len(),
{
    if s.len() > 0 {
        assert(forall|j: int| 0 <= j < s.drop_first().len() ==> s.drop_first()[j].0 != k);
        lemma_get_absent(s.drop_first(), k);
    }
}

/// A name-keyed map with insertion order and in-place overwrite.
#[derive(Debug)]
pub struct NameMap<V> {
    pub entries: Vec<(String, V)>,
}

impl<V: DeepView> DeepView for NameMap<V> {
    type V = Seq<(Seq<char>, V::V)>;

    open spec fn deep_view(&self) -> Seq<(Seq<char>, V::V)> {
        self.entries.deep_view()
    }
}

impl<V: DeepView> NameMap<V> {
    /// The map's keys never repeat.
    pub open spec fn wf(&self) -> bool {
        keys_distinct(self.deep_view())
    }

    /// The empty map.
    pub fn new() -> (r: NameMap<V>)
        ensures
            r.deep_view() =~= Seq::<(Seq<char>, V::V)>::empty(),
            r.wf(),
    {
        NameMap { entries: Vec::new() }
    }

    /// How many entries the map holds.
    pub fn len(&self) -> (r: usize)
        ensures
            r == self.deep_view().len(),
    {
        self.entries.len()
    }

    /// Whether the map holds no entry.
    pub fn is_empty(&self) -> (r: bool)
        ensures
            r == (self.deep_view().len() == 0),
    {
        self.entries.len() == 0
    }

    /// Inserts a pair, replacing a present entry with the same key in place.
    #[verifier::loop_isolation(false)]
    pub fn insert(&mut self, key: String, value: V)
        ensures
            final(self).deep_view() == map_insert(
                old(self).deep_view(),
                key.deep_view(),
                value.deep_view(),
            ),
            old(self).wf() ==> final(self).wf(),
    {
        let ghost s0 = self.deep_view();
        let n = self.entries.len();
        let mut i: usize = 0;
        while i < n
            invariant
                n == self.entries.len(),
                i <= n,
                self.deep_view() == s0,
                forall|j: int| 0 <= j < i ==> s0[j].0 != key.deep_view(),
            decreases n - i,
        {
            if str_eq(self.entries[i].0.as_str(), key.as_str()) {
                proof {
                    lemma_insert_at(s0, key.deep_view(), value.deep_view(), i as int);
                }
                let ghost kv = (key.deep_view(), value.deep_view());
                self.entries[i] = (key, value);
                proof {
                    assert(self.deep_view() =~= s0.update(i as int, kv));
                    if old(self).wf() {
                        assert forall|a: int, b: int|
                            0 <= a < b < self.deep_view().len() implies self.deep_view()[a].0
                            != self.deep_view()[b].0 by {
                            assert(self.deep_view()[a].0 == s0[a].0);
                            assert(self.deep_view()[b].0 == s0[b].0);
                        }
                    }
                }
                return ;
            }
            i += 1;
        }
        proof {
            lemma_insert_absent(s0, key.deep_view(), value.deep_view());
        }
        self.entries.push((key, value));
        proof {
            assert(self.deep_view() =~= s0.push((key.deep_view(), value.deep_view())));
        }
        proof {
            if old(self).wf() {
                lemma_insert_get(s0, key.deep_view(), value.deep_view());
            }
        }
    }

    /// Looks a key up.
    #[verifier::loop_isolation(false)]
    pub fn get(&self, key: &str) -> (r: Option<&V>)
        ensures
            r.deep_view() == map_get(self.deep_view(), key@),
    {
        let n = self.entries.len();
        let mut i: usize = 0;
        while i < n
            invariant
                n == self.entries.len(),
                i <= n,
                forall|j: int| 0 <= j < i ==> self.deep_view()[j].0 != key@,
            decreases n - i,
        {
            if str_eq(self.entries[i].0.as_str(), key) {
                proof {
                    lemma_get_at(self.deep_view(), key@, i as int);
                }
                return Some(&self.entries[i].1);
            }
            i += 1;
        }
        proof {
            lemma_get_absent(self.deep_view(), key@);
        }
        None
    }

    /// Map union: every incoming entry is inserted in order, so the incoming
    /// map wins on shared keys.
    #[verifier::loop_isolation(false)]
    pub fn merge_with(&mut self, other: NameMap<V>)
        ensures
            final(self).deep_view() == map_merge(old(self).deep_view(), other.deep_view()),
            old(self).wf() ==> final(self).wf(),
    {
        let ghost s0 = self.deep_view();
        let ghost t = other.deep_view();
        let mut incoming = other.entries;
        let ghost total = incoming@.len();
        while incoming.len() > 0
            invariant
                incoming.deep_view().len() <= t.len(),
                incoming.deep_view() =~= t.subrange(
                    t.len() - incoming.deep_view().len(),
                    t.len() as int,
                ),
                map_merge(s0, t) == map_merge(self.deep_view(), incoming.deep_view()),
                old(self).wf() ==> self.wf(),
            decreases incoming.len(),
        {
            let ghost rem = incoming.deep_view();
            let kv = incoming.remove(0);
            proof {
                assert(incoming.deep_view() =~= rem.drop_first());
                assert((kv.0.deep_view(), kv.1.deep_view()) == rem[0]);
            }
            self.insert(kv.0, kv.1);
        }
        proof {
            assert(incoming.deep_view().len() == 0);
        }
    }
}

} // verus!
