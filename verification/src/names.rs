//! A map from names to values, kept in the order of its keys.
//!
//! It stands where a hash map keyed by strings would: no key occurs twice,
//! and its entries come out in one fixed order, that of the keys as std
//! orders strings.

use vstd::prelude::*;
use crate::text::{chars_of, chars_eq};

verus! {

/// The order of strings: by the first character that differs, a proper
/// prefix first. This is the order of their UTF-8 bytes.
pub open spec fn lex_lt(a: Seq<char>, b: Seq<char>) -> bool
    decreases a.len(),
{
    if b.len() == 0 {
        false
    } else if a.len() == 0 {
        true
    } else if a[0] != b[0] {
        (a[0] as u32) < (b[0] as u32)
    } else {
        lex_lt(a.drop_first(), b.drop_first())
    }
}

/// No string comes before itself.
pub proof fn lemma_lex_irreflexive(a: Seq<char>)
    ensures
        !lex_lt(a, a),
    decreases a.len(),
{
    if a.len() > 0 {
        lemma_lex_irreflexive(a.drop_first());
    }
}

/// The order is transitive.
pub proof fn lemma_lex_transitive(a: Seq<char>, b: Seq<char>, c: Seq<char>)
    requires
        lex_lt(a, b),
        lex_lt(b, c),
    ensures
        lex_lt(a, c),
    decreases a.len(),
{
    if a.len() > 0 && a[0] == b[0] && b[0] == c[0] {
        lemma_lex_transitive(a.drop_first(), b.drop_first(), c.drop_first());
    }
}

/// Of two different strings one comes before the other.
pub proof fn lemma_lex_total(a: Seq<char>, b: Seq<char>)
    ensures
        lex_lt(a, b) || lex_lt(b, a) || a == b,
    decreases a.len(),
{
    if a.len() > 0 && b.len() > 0 && a[0] == b[0] {
        lemma_lex_total(a.drop_first(), b.drop_first());
        if a.drop_first() == b.drop_first() {
            assert(a =~= seq![a[0]] + a.drop_first());
            assert(b =~= seq![b[0]] + b.drop_first());
        }
    } else if a.len() == 0 && b.len() == 0 {
        assert(a =~= b);
    } else if a.len() > 0 && b.len() > 0 {
        vstd::utf8::char_u32_cast(a[0], a[0] as u32);
        vstd::utf8::char_u32_cast(b[0], b[0] as u32);
    }
}

/// Each string of `keys` comes before the next.
pub open spec fn strictly_sorted(keys: Seq<Seq<char>>) -> bool {
    forall|i: int, j: int| 0 <= i < j < keys.len() ==> lex_lt(#[trigger] keys[i], #[trigger] keys[j])
}

/// Whether `a` comes before `b`.
pub fn chars_lt(a: &Vec<char>, b: &Vec<char>) -> (r: bool)
    ensures
        r == lex_lt(a@, b@),
{
    let mut i: usize = 0;
    assert(a@.subrange(0, a@.len() as int) == a@);
    assert(b@.subrange(0, b@.len() as int) == b@);
    while i < a.len() && i < b.len()
        invariant
            i <= a@.len(),
            i <= b@.len(),
            lex_lt(a@, b@) == lex_lt(
                a@.subrange(i as int, a@.len() as int),
                b@.subrange(i as int, b@.len() as int),
            ),
        decreases a@.len() - i,
    {
        let ghost x = a@.subrange(i as int, a@.len() as int);
        let ghost y = b@.subrange(i as int, b@.len() as int);
        assert(x.drop_first() == a@.subrange(i + 1, a@.len() as int));
        assert(y.drop_first() == b@.subrange(i + 1, b@.len() as int));
        if a[i] != b[i] {
            return (a[i] as u32) < (b[i] as u32);
        }
        i += 1;
    }
    i < b.len()
}

/// No string of `keys` comes before one that stands earlier.
pub open spec fn sorted(keys: Seq<Seq<char>>) -> bool {
    forall|i: int, j: int| 0 <= i < j < keys.len() ==> !lex_lt(#[trigger] keys[j], #[trigger] keys[i])
}

/// A string that comes before another comes before all that are not
/// before that other.
pub proof fn lemma_lex_lt_le(a: Seq<char>, b: Seq<char>, c: Seq<char>)
    requires
        lex_lt(a, b),
        !lex_lt(c, b),
    ensures
        lex_lt(a, c),
{
    lemma_lex_total(b, c);
    if b != c {
        lemma_lex_transitive(a, b, c);
    }
}

/// The strings of `items` in the order of strings; equal strings stay in
/// the order in which they came.
pub fn sort_strings(items: Vec<String>) -> (out: Vec<String>)
    ensures
        sorted(crate::text::views(out@)),
        crate::text::views(out@).to_multiset() == crate::text::views(items@).to_multiset(),
        out@.len() == items@.len(),
{
    let mut out: Vec<String> = Vec::new();
    let ghost all = crate::text::views(items@);
    let ghost whole = items@;
    assert(all.take(0) =~= Seq::<Seq<char>>::empty());
    assert(crate::text::views(out@) =~= Seq::<Seq<char>>::empty());
    for item in it: items
        invariant
            it.seq() == whole,
            all == crate::text::views(whole),
            out@.len() == it.index(),
            sorted(crate::text::views(out@)),
            crate::text::views(out@).to_multiset() == all.take(it.index() as int).to_multiset(),
    {
        let x = chars_of(item.as_str());
        let mut p: usize = 0;
        while p < out.len() && !chars_lt(&x, &chars_of(out[p].as_str()))
            invariant
                p <= out@.len(),
                forall|q: int| 0 <= q < p ==> !lex_lt(x@, #[trigger] out@[q]@),
            decreases out@.len() - p,
        {
            p += 1;
        }
        let ghost before = crate::text::views(out@);
        out.insert(p, item);
        proof {
            let after = crate::text::views(out@);
            assert(after =~= before.insert(p as int, x@));
            vstd::seq_lib::to_multiset_insert(before, p as int, x@);
            let k = it.index() as int;
            assert(all.take(k + 1) =~= all.take(k).push(x@));
            vstd::seq_lib::to_multiset_build(all.take(k), x@);
            assert forall|i: int, j: int| 0 <= i < j < after.len() implies !lex_lt(
                #[trigger] after[j],
                #[trigger] after[i],
            ) by {
                if j < p {
                    assert(after[i] == before[i] && after[j] == before[j]);
                } else if j == p {
                    assert(after[i] == before[i]);
                } else if i < p {
                    assert(after[i] == before[i] && after[j] == before[j - 1]);
                } else if i == p {
                    assert(after[j] == before[j - 1]);
                    assert(lex_lt(x@, before[p as int]));
                    lemma_lex_irreflexive(before[p as int]);
                    assert(!lex_lt(before[j - 1], before[p as int]));
                    lemma_lex_lt_le(x@, before[p as int], before[j - 1]);
                    if lex_lt(before[j - 1], x@) {
                        lemma_lex_transitive(before[j - 1], x@, before[j - 1]);
                        lemma_lex_irreflexive(before[j - 1]);
                    }
                } else {
                    assert(after[i] == before[i - 1] && after[j] == before[j - 1]);
                }
            }
        }
    }
    assert(all.take(all.len() as int) == all);
    out
}

/// A map from names to values of type `V`.
#[derive(Debug, Clone)]
pub struct NameMap<V> {
    entries: Vec<(String, V)>,
}

/// The keys of a sequence of entries.
pub open spec fn keys_of<V>(es: Seq<(String, V)>) -> Seq<Seq<char>> {
    Seq::new(es.len(), |i: int| es[i].0@)
}

/// Whether `k` is the key of one of the entries.
pub open spec fn has_key<V>(es: Seq<(String, V)>, k: Seq<char>) -> bool {
    exists|i: int| 0 <= i < es.len() && (#[trigger] es[i]).0@ == k
}

/// The index of an entry whose key is `k`.
pub open spec fn key_index<V>(es: Seq<(String, V)>, k: Seq<char>) -> int {
    choose|i: int| 0 <= i < es.len() && (#[trigger] es[i]).0@ == k
}

/// The map that a sequence of entries stands for.
pub open spec fn map_of<V>(es: Seq<(String, V)>) -> Map<Seq<char>, V> {
    Map::new(|k: Seq<char>| has_key(es, k), |k: Seq<char>| es[key_index(es, k)].1)
}

/// In a sorted sequence of entries a key stands at one index only.
pub proof fn lemma_key_unique<V>(es: Seq<(String, V)>, i: int, j: int)
    requires
        strictly_sorted(keys_of(es)),
        0 <= i < es.len(),
        0 <= j < es.len(),
        es[i].0@ == es[j].0@,
    ensures
        i == j,
{
    let ks = keys_of(es);
    lemma_lex_irreflexive(ks[i]);
    if i < j {
        assert(lex_lt(ks[i], ks[j]));
    } else if j < i {
        assert(lex_lt(ks[j], ks[i]));
    }
}

/// The value that a sorted sequence of entries gives the key at index `i`.
pub proof fn lemma_map_of_at<V>(es: Seq<(String, V)>, i: int)
    requires
        strictly_sorted(keys_of(es)),
        0 <= i < es.len(),
    ensures
        map_of(es).dom().contains(es[i].0@),
        map_of(es)[es[i].0@] == es[i].1,
{
    let k = es[i].0@;
    assert(has_key(es, k));
    lemma_key_unique(es, i, key_index(es, k));
}

impl<V> NameMap<V> {
    /// The entries are in the strict order of their keys.
    pub closed spec fn wf(&self) -> bool {
        strictly_sorted(keys_of(self.entries@))
    }

    /// The map this stands for.
    pub closed spec fn view(&self) -> Map<Seq<char>, V> {
        map_of(self.entries@)
    }

    /// The keys, in order.
    pub closed spec fn keys(&self) -> Seq<Seq<char>> {
        keys_of(self.entries@)
    }

    /// The values, in the order of their keys.
    pub closed spec fn values(&self) -> Seq<V> {
        Seq::new(self.entries@.len(), |i: int| self.entries@[i].1)
    }

    /// How the ordered keys and values relate to the map.
    pub proof fn lemma_listing(&self)
        requires
            self.wf(),
        ensures
            strictly_sorted(self.keys()),
            self.keys().len() == self.values().len(),
            forall|i: int|
                0 <= i < self.keys().len() ==> self@.dom().contains(#[trigger] self.keys()[i])
                    && self@[self.keys()[i]] == self.values()[i],
            forall|k: Seq<char>|
                self@.dom().contains(k) ==> exists|i: int|
                    0 <= i < self.keys().len() && #[trigger] self.keys()[i] == k,
    {
        let es = self.entries@;
        assert forall|i: int| 0 <= i < self.keys().len() implies self@.dom().contains(
            #[trigger] self.keys()[i],
        ) && self@[self.keys()[i]] == self.values()[i] by {
            lemma_map_of_at(es, i);
        }
        assert forall|k: Seq<char>| self@.dom().contains(k) implies exists|i: int|
            0 <= i < self.keys().len() && #[trigger] self.keys()[i] == k by {
            let i = key_index(es, k);
            assert(self.keys()[i] == k);
        }
    }

    /// The map has as many keys as there are entries.
    pub proof fn lemma_dom_len(&self)
        requires
            self.wf(),
        ensures
            self@.dom().finite(),
            self@.dom().len() == self.keys().len(),
    {
        let ks = self.keys();
        assert(ks.no_duplicates()) by {
            assert forall|i: int, j: int| 0 <= i < ks.len() && 0 <= j < ks.len() && i != j implies ks[i]
                != ks[j] by {
                if ks[i] == ks[j] {
                    lemma_key_unique(self.entries@, i, j);
                }
            }
        }
        assert(self@.dom() =~= ks.to_set()) by {
            assert forall|k: Seq<char>| self@.dom().contains(k) <==> ks.to_set().contains(k) by {
                if self@.dom().contains(k) {
                    let i = key_index(self.entries@, k);
                    assert(ks[i] == k);
                    assert(ks.contains(k));
                }
                if ks.to_set().contains(k) {
                    let i = choose|i: int| 0 <= i < ks.len() && ks[i] == k;
                    assert(self.entries@[i].0@ == k);
                }
            }
        }
        ks.unique_seq_to_set();
        vstd::seq_lib::seq_to_set_is_finite(ks);
    }

    /// The empty map.
    pub fn new() -> (m: Self)
        ensures
            m.wf(),
            m@ == Map::<Seq<char>, V>::empty(),
            m.keys().len() == 0,
    {
        let m = NameMap { entries: Vec::new() };
        assert(m@ =~= Map::<Seq<char>, V>::empty());
        m
    }

    /// The number of entries.
    pub fn len(&self) -> (n: usize)
        ensures
            n == self.keys().len(),
            n == self.values().len(),
    {
        self.entries.len()
    }

    /// The index of the first entry whose key does not come before `key`,
    /// and whether that entry has the key `key`.
    fn locate(&self, key: &Vec<char>) -> (r: (usize, bool))
        requires
            self.wf(),
        ensures
            r.0 <= self.entries@.len(),
            forall|i: int| 0 <= i < r.0 ==> lex_lt(#[trigger] self.entries@[i].0@, key@),
            r.1 ==> r.0 < self.entries@.len() && self.entries@[r.0 as int].0@ == key@,
            !r.1 ==> forall|i: int|
                r.0 <= i < self.entries@.len() ==> lex_lt(key@, #[trigger] self.entries@[i].0@),
            r.1 == has_key(self.entries@, key@),
    {
        let mut i: usize = 0;
        let ghost ks = keys_of(self.entries@);
        while i < self.entries.len()
            invariant
                i <= self.entries@.len(),
                ks == keys_of(self.entries@),
                strictly_sorted(ks),
                forall|j: int| 0 <= j < i ==> lex_lt(#[trigger] self.entries@[j].0@, key@),
            decreases self.entries@.len() - i,
        {
            let k = chars_of(self.entries[i].0.as_str());
            if chars_eq(&k, key) {
                return (i, true);
            }
            if !chars_lt(&k, key) {
                proof {
                    lemma_lex_total(k@, key@);
                    assert forall|j: int| i <= j < self.entries@.len() implies lex_lt(
                        key@,
                        #[trigger] self.entries@[j].0@,
                    ) by {
                        if j > i {
                            assert(lex_lt(ks[i as int], ks[j]));
                            lemma_lex_transitive(key@, k@, self.entries@[j].0@);
                        }
                    }
                    assert(!has_key(self.entries@, key@)) by {
                        if has_key(self.entries@, key@) {
                            let j = key_index(self.entries@, key@);
                            lemma_lex_irreflexive(key@);
                        }
                    }
                }
                return (i, false);
            }
            i += 1;
        }
        proof {
            assert(!has_key(self.entries@, key@)) by {
                if has_key(self.entries@, key@) {
                    let j = key_index(self.entries@, key@);
                    lemma_lex_irreflexive(key@);
                }
            }
        }
        (i, false)
    }

    /// Whether `key` has a value.
    pub fn contains_key(&self, key: &str) -> (r: bool)
        requires
            self.wf(),
        ensures
            r == self@.dom().contains(key@),
    {
        let k = chars_of(key);
        let (_, found) = self.locate(&k);
        found
    }

    /// The value of `key`, where it has one.
    pub fn get(&self, key: &str) -> (r: Option<&V>)
        requires
            self.wf(),
        ensures
            match r {
                Some(v) => self@.dom().contains(key@) && *v == self@[key@],
                None => !self@.dom().contains(key@),
            },
    {
        let k = chars_of(key);
        let (i, found) = self.locate(&k);
        if found {
            proof {
                lemma_map_of_at(self.entries@, i as int);
            }
            Some(&self.entries[i].1)
        } else {
            None
        }
    }

    /// Gives `key` the value `value`, in place of the value it had, if any.
    pub fn insert(&mut self, key: String, value: V)
        requires
            old(self).wf(),
        ensures
            final(self).wf(),
            final(self)@ == old(self)@.insert(key@, value),
    {
        let k = chars_of(key.as_str());
        let (i, found) = self.locate(&k);
        let ghost before = self.entries@;
        let ghost kv = key@;
        if found {
            self.entries.set(i, (key, value));
            let ghost after = self.entries@;
            proof {
                assert(keys_of(after) =~= keys_of(before));
                assert forall|q: Seq<char>| has_key(after, q) == (has_key(before, q) || q == kv) by {
                    if has_key(before, q) {
                        let j = key_index(before, q);
                        assert(after[j].0@ == q);
                    }
                    if q == kv {
                        assert(after[i as int].0@ == q);
                    }
                    if has_key(after, q) {
                        let j = key_index(after, q);
                        assert(before[j].0@ == q);
                    }
                }
                assert forall|q: Seq<char>| has_key(after, q) implies map_of(after)[q] == (if q
                    == kv {
                    value
                } else {
                    map_of(before)[q]
                }) by {
                    let j = key_index(after, q);
                    lemma_map_of_at(after, j);
                    if q != kv {
                        assert(before[j].0@ == q);
                        lemma_map_of_at(before, j);
                    } else {
                        lemma_key_unique(after, j, i as int);
                    }
                }
                assert(map_of(after) =~= map_of(before).insert(kv, value));
            }
        } else {
            self.entries.insert(i, (key, value));
            let ghost after = self.entries@;
            proof {
                assert forall|a: int, b: int| 0 <= a < b < after.len() implies lex_lt(
                    #[trigger] keys_of(after)[a],
                    #[trigger] keys_of(after)[b],
                ) by {
                    let ka = keys_of(after)[a];
                    let kb = keys_of(after)[b];
                    if b < i {
                        assert(lex_lt(keys_of(before)[a], keys_of(before)[b]));
                    } else if b == i {
                        assert(ka == before[a].0@);
                    } else if a < i {
                        assert(lex_lt(keys_of(before)[a], keys_of(before)[b - 1]));
                    } else if a == i {
                        assert(kb == before[b - 1].0@);
                    } else {
                        assert(lex_lt(keys_of(before)[a - 1], keys_of(before)[b - 1]));
                    }
                }
                assert forall|q: Seq<char>| has_key(after, q) == (has_key(before, q) || q == kv) by {
                    if has_key(before, q) {
                        let j = key_index(before, q);
                        if j < i {
                            assert(after[j].0@ == q);
                        } else {
                            assert(after[j + 1].0@ == q);
                        }
                    }
                    if q == kv {
                        assert(after[i as int].0@ == q);
                    }
                    if has_key(after, q) && q != kv {
                        let j = key_index(after, q);
                        if j < i {
                            assert(before[j].0@ == q);
                        } else {
                            assert(before[j - 1].0@ == q);
                        }
                    }
                }
                assert forall|q: Seq<char>| has_key(after, q) implies map_of(after)[q] == (if q
                    == kv {
                    value
                } else {
                    map_of(before)[q]
                }) by {
                    let j = key_index(after, q);
                    lemma_map_of_at(after, j);
                    if q != kv {
                        if j < i {
                            assert(before[j].0@ == q);
                            lemma_map_of_at(before, j);
                        } else {
                            assert(before[j - 1].0@ == q);
                            lemma_map_of_at(before, j - 1);
                        }
                    } else {
                        lemma_key_unique(after, j, i as int);
                    }
                }
                assert(map_of(after) =~= map_of(before).insert(kv, value));
            }
        }
    }

    /// Takes the entry of `key` out, if there is one.
    pub fn remove(&mut self, key: &str)
        requires
            old(self).wf(),
        ensures
            final(self).wf(),
            final(self)@ == old(self)@.remove(key@),
    {
        let k = chars_of(key);
        let (i, found) = self.locate(&k);
        let ghost before = self.entries@;
        let ghost kv = key@;
        if found {
            self.entries.remove(i);
            let ghost after = self.entries@;
            proof {
                assert forall|a: int, b: int| 0 <= a < b < after.len() implies lex_lt(
                    #[trigger] keys_of(after)[a],
                    #[trigger] keys_of(after)[b],
                ) by {
                    let x = if a < i {
                        a
                    } else {
                        a + 1
                    };
                    let y = if b < i {
                        b
                    } else {
                        b + 1
                    };
                    assert(lex_lt(keys_of(before)[x], keys_of(before)[y]));
                }
                assert forall|q: Seq<char>| has_key(after, q) == (has_key(before, q) && q != kv) by {
                    if has_key(before, q) && q != kv {
                        let j = key_index(before, q);
                        if j < i {
                            assert(after[j].0@ == q);
                        } else {
                            assert(after[j - 1].0@ == q);
                        }
                    }
                    if has_key(after, q) {
                        let j = key_index(after, q);
                        if j < i {
                            assert(before[j].0@ == q);
                            if q == kv {
                                lemma_key_unique(before, j, i as int);
                            }
                        } else {
                            assert(before[j + 1].0@ == q);
                            if q == kv {
                                lemma_key_unique(before, j + 1, i as int);
                            }
                        }
                    }
                }
                assert forall|q: Seq<char>| has_key(after, q) implies map_of(after)[q] == map_of(
                    before,
                )[q] by {
                    let j = key_index(after, q);
                    lemma_map_of_at(after, j);
                    if j < i {
                        assert(before[j].0@ == q);
                        lemma_map_of_at(before, j);
                    } else {
                        assert(before[j + 1].0@ == q);
                        lemma_map_of_at(before, j + 1);
                    }
                }
                assert(map_of(after) =~= map_of(before).remove(kv));
            }
        } else {
            assert(map_of(before) =~= map_of(before).remove(kv));
        }
    }

    /// Takes every entry out.
    pub fn clear(&mut self)
        ensures
            final(self).wf(),
            final(self)@ == Map::<Seq<char>, V>::empty(),
            final(self).keys().len() == 0,
    {
        self.entries.clear();
        assert(self@ =~= Map::<Seq<char>, V>::empty());
    }

    /// The key at index `i` in the order of the keys.
    pub fn key_at(&self, i: usize) -> (k: &String)
        requires
            i < self.keys().len(),
        ensures
            k@ == self.keys()[i as int],
    {
        &self.entries[i].0
    }

    /// The value at index `i` in the order of the keys.
    pub fn value_at(&self, i: usize) -> (v: &V)
        requires
            i < self.values().len(),
        ensures
            *v == self.values()[i as int],
    {
        &self.entries[i].1
    }
}

} // verus!
