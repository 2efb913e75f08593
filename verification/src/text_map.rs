//! Maps with texts as keys.
use vstd::prelude::*;

use crate::text::comes_before;
use crate::text::same_text;
use crate::text::text_lt;
use crate::text::text_lt_irreflexive;
use crate::text::text_lt_total;
use crate::text::text_lt_transitive;
use crate::text_set::ascending;

verus! {

/// The value that stands first under `key`.
pub open spec fn lookup<V>(entries: Seq<(String, V)>, key: Seq<char>) -> Option<V>
    decreases entries.len(),
{
    if entries.len() == 0 {
        None
    } else if entries[0].0@ == key {
        Some(entries[0].1)
    } else {
        lookup(entries.drop_first(), key)
    }
}

/// The keys in order.
pub open spec fn keys_of<V>(entries: Seq<(String, V)>) -> Seq<Seq<char>> {
    Seq::new(entries.len(), |i: int| entries[i].0@)
}

/// A lookup succeeds at the first position that holds the key.
pub proof fn lookup_at<V>(entries: Seq<(String, V)>, key: Seq<char>, at: int)
    requires
        0 <= at < entries.len(),
        entries[at].0@ == key,
        forall|k: int| 0 <= k < at ==> (#[trigger] entries[k]).0@ != key,
    ensures
        lookup(entries, key) == Some(entries[at].1),
    decreases at,
{
    if at > 0 {
        assert(entries[0].0@ != key);
        lookup_at(entries.drop_first(), key, at - 1);
    }
}

/// A lookup fails when no position holds the key.
pub proof fn lookup_none<V>(entries: Seq<(String, V)>, key: Seq<char>)
    requires
        forall|k: int| 0 <= k < entries.len() ==> (#[trigger] entries[k]).0@ != key,
    ensures
        lookup(entries, key) is None,
    decreases entries.len(),
{
    if entries.len() > 0 {
        assert(entries[0].0@ != key);
        lookup_none(entries.drop_first(), key);
    }
}

/// A successful lookup names a position.
pub proof fn lookup_position<V>(entries: Seq<(String, V)>, key: Seq<char>) -> (at: int)
    requires
        lookup(entries, key) is Some,
    ensures
        0 <= at < entries.len(),
        entries[at].0@ == key,
        lookup(entries, key) == Some(entries[at].1),
        forall|k: int| 0 <= k < at ==> (#[trigger] entries[k]).0@ != key,
    decreases entries.len(),
{
    if entries[0].0@ == key {
        0
    } else {
        let rest = entries.drop_first();
        let at = lookup_position(rest, key);
        assert forall|k: int| 0 <= k < at + 1 implies (#[trigger] entries[k]).0@ != key by {
            if k > 0 {
                assert(rest[k - 1].0@ != key);
            }
        }
        at + 1
    }
}

/// A map from texts to values, kept in ascending key order.
#[derive(Clone, Debug)]
pub struct TextMap<V> {
    entries: Vec<(String, V)>,
}

impl<V> View for TextMap<V> {
    type V = Seq<(String, V)>;

    closed spec fn view(&self) -> Seq<(String, V)> {
        self.entries@
    }
}

impl<V> TextMap<V> {
    /// Whether the keys stand in ascending order, so that none occurs twice.
    pub open spec fn wf(self) -> bool {
        ascending(keys_of(self@))
    }

    /// The value under `key`.
    pub open spec fn at(self, key: Seq<char>) -> Option<V> {
        lookup(self@, key)
    }

    /// Creates an empty map.
    pub fn new() -> (map: TextMap<V>)
        ensures
            map.wf(),
            map@ == Seq::<(String, V)>::empty(),
    {
        TextMap { entries: Vec::new() }
    }

    /// Returns the number of keys.
    pub fn len(&self) -> (n: usize)
        ensures
            n == self@.len(),
    {
        self.entries.len()
    }

    /// Returns whether there is no key.
    pub fn is_empty(&self) -> (empty: bool)
        ensures
            empty == (self@.len() == 0),
    {
        self.entries.len() == 0
    }

    /// Returns the key at a position.
    pub fn key(&self, at: usize) -> (key: &str)
        requires
            at < self@.len(),
        ensures
            key@ == self@[at as int].0@,
    {
        self.entries[at].0.as_str()
    }

    /// Returns the value at a position.
    pub fn value(&self, at: usize) -> (value: &V)
        requires
            at < self@.len(),
        ensures
            *value == self@[at as int].1,
    {
        &self.entries[at].1
    }

    /// Returns the value under `key`.
    pub fn get(&self, key: &str) -> (value: Option<&V>)
        ensures
            match value {
                Some(found) => self.at(key@) == Some(*found),
                None => self.at(key@) is None,
            },
    {
        for i in 0..self.entries.len()
            invariant
                forall|k: int| 0 <= k < i ==> (#[trigger] self@[k]).0@ != key@,
        {
            if same_text(self.entries[i].0.as_str(), key) {
                proof {
                    lookup_at(self@, key@, i as int);
                }
                return Some(&self.entries[i].1);
            }
        }
        proof {
            lookup_none(self@, key@);
        }
        None
    }

    /// Puts `value` under `key` in place of any earlier value.
    pub fn insert(&mut self, key: String, value: V)
        requires
            old(self).wf(),
        ensures
            final(self).wf(),
            final(self).at(key@) == Some(value),
            forall|k: Seq<char>| k != key@ ==> #[trigger] final(self).at(k) == old(self).at(k),
    {
        let n: usize = self.entries.len();
        let mut at: usize = 0;
        while at < n && comes_before(self.entries[at].0.as_str(), key.as_str())
            invariant
                n == self.entries@.len(),
                at <= n,
                *self == *old(self),
                forall|k: int| 0 <= k < at ==> text_lt((#[trigger] self@[k]).0@, key@),
            decreases n - at,
        {
            at += 1;
        }
        let ghost name = key@;
        let ghost before = old(self)@;
        proof {
            assert forall|k: int| 0 <= k < at implies (#[trigger] before[k]).0@ != name by {
                text_lt_irreflexive(name);
            }
        }
        if at < n && same_text(self.entries[at].0.as_str(), key.as_str()) {
            self.entries.set(at, (key, value));
            proof {
                let after = self@;
                assert(after =~= before.update(at as int, (key, value)));
                assert(keys_of(after) =~= keys_of(before));
                lookup_at(after, name, at as int);
                assert forall|k: Seq<char>| k != name implies #[trigger] self.at(k) == old(self).at(k) by {
                    lookup_same(before, after, k);
                }
            }
        } else {
            self.entries.insert(at, (key, value));
            proof {
                let after = self@;
                assert(after =~= before.insert(at as int, (key, value)));
                let old_keys = keys_of(before);
                let new_keys = keys_of(after);
                assert(new_keys =~= old_keys.insert(at as int, name));
                assert forall|i: int, j: int| 0 <= i < j < new_keys.len() implies text_lt(
                    #[trigger] new_keys[i],
                    #[trigger] new_keys[j],
                ) by {
                    if j == at {
                        assert(new_keys[i] == before[i].0@);
                    } else if i == at {
                        text_lt_total(old_keys[at as int], name);
                        if at < j - 1 {
                            assert(text_lt(old_keys[at as int], old_keys[j - 1]));
                            text_lt_transitive(name, old_keys[at as int], old_keys[j - 1]);
                        }
                    } else {
                        let p = if i < at { i } else { i - 1 };
                        let q = if j < at { j } else { j - 1 };
                        assert(new_keys[i] == old_keys[p] && new_keys[j] == old_keys[q]);
                        assert(text_lt(old_keys[p], old_keys[q]));
                    }
                }
                lookup_at(after, name, at as int);
                assert forall|k: Seq<char>| k != name implies #[trigger] self.at(k) == old(self).at(k) by {
                    lookup_insert(before, at as int, (key, value), k);
                }
            }
        }
    }
}

/// Under ascending keys every position is found by its own key.
pub proof fn lookup_own_key<V>(entries: Seq<(String, V)>, at: int)
    requires
        ascending(keys_of(entries)),
        0 <= at < entries.len(),
    ensures
        lookup(entries, entries[at].0@) == Some(entries[at].1),
{
    assert forall|k: int| 0 <= k < at implies (#[trigger] entries[k]).0@ != entries[at].0@ by {
        assert(text_lt(keys_of(entries)[k], keys_of(entries)[at]));
        text_lt_irreflexive(entries[at].0@);
    }
    lookup_at(entries, entries[at].0@, at);
}

impl<V> TextMap<V> {
    /// Returns the keys in order, each with its value.
    pub fn into_entries(self) -> (entries: Vec<(String, V)>)
        ensures
            entries@ == self@,
    {
        self.entries
    }

    /// Takes the value under `key` out of the map.
    pub fn remove(&mut self, key: &str) -> (value: Option<V>)
        requires
            old(self).wf(),
        ensures
            final(self).wf(),
            value == old(self).at(key@),
            final(self).at(key@) is None,
            forall|k: Seq<char>| k != key@ ==> #[trigger] final(self).at(k) == old(self).at(k),
    {
        let n: usize = self.entries.len();
        let mut at: usize = 0;
        while at < n && !same_text(self.entries[at].0.as_str(), key)
            invariant
                n == self.entries@.len(),
                at <= n,
                *self == *old(self),
                forall|k: int| 0 <= k < at ==> (#[trigger] self@[k]).0@ != key@,
            decreases n - at,
        {
            at += 1;
        }
        let ghost before = self@;
        if at == n {
            proof {
                lookup_none(before, key@);
            }
            return None;
        }
        let (_key, value) = self.entries.remove(at);
        proof {
            let after = self@;
            assert(after =~= before.remove(at as int));
            lookup_at(before, key@, at as int);
            let old_keys = keys_of(before);
            let new_keys = keys_of(after);
            assert forall|i: int, j: int| 0 <= i < j < new_keys.len() implies text_lt(
                #[trigger] new_keys[i],
                #[trigger] new_keys[j],
            ) by {
                let p = if i < at { i } else { i + 1 };
                let q = if j < at { j } else { j + 1 };
                assert(new_keys[i] == old_keys[p] && new_keys[j] == old_keys[q]);
                assert(text_lt(old_keys[p], old_keys[q]));
            }
            assert forall|k: int| 0 <= k < after.len() implies (#[trigger] after[k]).0@ != key@ by {
                let p = if k < at { k } else { k + 1 };
                assert(after[k] == before[p]);
                if p < at {
                    assert(text_lt(old_keys[p], old_keys[at as int]));
                } else {
                    assert(text_lt(old_keys[at as int], old_keys[p]));
                }
                text_lt_irreflexive(key@);
            }
            lookup_none(after, key@);
            assert forall|k: Seq<char>| k != key@ implies #[trigger] self.at(k) == old(self).at(k) by {
                assert(before =~= after.insert(at as int, before[at as int]));
                lookup_insert(after, at as int, before[at as int], k);
            }
        }
        Some(value)
    }
}

/// Whether a value is a text.
pub open spec fn value_is(value: Option<String>, text: Seq<char>) -> bool {
    match value {
        Some(found) => found@ == text,
        None => false,
    }
}

impl TextMap<String> {
    /// Copies the map.
    pub fn copy(&self) -> (copy: TextMap<String>)
        ensures
            copy@ == self@,
    {
        let mut entries: Vec<(String, String)> = Vec::new();
        let n: usize = self.entries.len();
        for i in 0..n
            invariant
                n == self.entries@.len(),
                entries@ == self.entries@.take(i as int),
        {
            entries.push((self.entries[i].0.clone(), self.entries[i].1.clone()));
            assert(entries@ =~= self.entries@.take(i + 1));
        }
        assert(self.entries@.take(n as int) =~= self.entries@);
        TextMap { entries }
    }

    /// Takes out every key whose value is `value`.
    pub fn remove_values(&mut self, value: &str)
        requires
            old(self).wf(),
        ensures
            final(self).wf(),
            forall|k: Seq<char>|
                #[trigger] final(self).at(k) == if value_is(old(self).at(k), value@) {
                    None
                } else {
                    old(self).at(k)
                },
    {
        let mut kept: TextMap<String> = TextMap::new();
        let n: usize = self.entries.len();
        let ghost before = self@;
        for i in 0..n
            invariant
                *self == *old(self),
                before == self@,
                n == before.len(),
                old(self).wf(),
                kept.wf(),
                forall|k: Seq<char>|
                    #[trigger] kept.at(k) == if value_is(lookup(before.take(i as int), k), value@) {
                        None
                    } else {
                        lookup(before.take(i as int), k)
                    },
        {
            let ghost earlier = kept;
            if !same_text(self.entries[i].1.as_str(), value) {
                kept.insert(self.entries[i].0.clone(), self.entries[i].1.clone());
            }
            proof {
                let key = before[i as int].0@;
                assert forall|k: Seq<char>|
                    #[trigger] kept.at(k) == if value_is(lookup(before.take(i + 1), k), value@) {
                        None
                    } else {
                        lookup(before.take(i + 1), k)
                    } by {
                    assert(earlier.at(k) == if value_is(
                        lookup(before.take(i as int), k),
                        value@,
                    ) {
                        None
                    } else {
                        lookup(before.take(i as int), k)
                    });
                    lookup_take(before, i as int, k);
                    if k == key {
                        assert forall|j: int| 0 <= j < i implies (#[trigger] before.take(
                            i as int,
                        )[j]).0@ != key by {
                            assert(text_lt(keys_of(before)[j], keys_of(before)[i as int]));
                            text_lt_irreflexive(key);
                        }
                        lookup_none(before.take(i as int), key);
                    }
                }
            }
        }
        assert(before.take(n as int) =~= before);
        *self = kept;
    }
}

/// Looking up in one entry more.
proof fn lookup_take<V>(entries: Seq<(String, V)>, i: int, key: Seq<char>)
    requires
        0 <= i < entries.len(),
    ensures
        lookup(entries.take(i + 1), key) == match lookup(entries.take(i), key) {
            Some(value) => Some(value),
            None => if entries[i].0@ == key {
                Some(entries[i].1)
            } else {
                None
            },
        },
{
    let more = entries.take(i + 1);
    let less = entries.take(i);
    if lookup(less, key) is Some {
        let at = lookup_position(less, key);
        assert forall|k: int| 0 <= k < at implies (#[trigger] more[k]).0@ != key by {
            assert(less[k].0@ != key);
        }
        lookup_at(more, key, at);
    } else {
        assert forall|k: int| 0 <= k < i implies (#[trigger] less[k]).0@ != key by {
            if less[k].0@ == key {
                lookup_found(less, key, k);
            }
        }
        if entries[i].0@ == key {
            assert forall|k: int| 0 <= k < i implies (#[trigger] more[k]).0@ != key by {
                assert(less[k].0@ != key);
            }
            lookup_at(more, key, i);
        } else {
            assert forall|k: int| 0 <= k < more.len() implies (#[trigger] more[k]).0@ != key by {
                if k < i {
                    assert(less[k].0@ != key);
                }
            }
            lookup_none(more, key);
        }
    }
}

/// A position that holds the key makes the lookup succeed.
pub proof fn lookup_found<V>(entries: Seq<(String, V)>, key: Seq<char>, at: int)
    requires
        0 <= at < entries.len(),
        entries[at].0@ == key,
    ensures
        lookup(entries, key) is Some,
    decreases at,
{
    if at > 0 && entries[0].0@ != key {
        lookup_found(entries.drop_first(), key, at - 1);
    }
}

/// Changing the values under one key leaves every other lookup alone.
proof fn lookup_same<V>(a: Seq<(String, V)>, b: Seq<(String, V)>, key: Seq<char>)
    requires
        a.len() == b.len(),
        forall|i: int| 0 <= i < a.len() ==> (#[trigger] a[i]).0@ == b[i].0@,
        forall|i: int| 0 <= i < a.len() && (#[trigger] a[i]).0@ == key ==> a[i].1 == b[i].1,
    ensures
        lookup(a, key) == lookup(b, key),
    decreases a.len(),
{
    if a.len() > 0 {
        assert(a[0].0@ == b[0].0@);
        let a1 = a.drop_first();
        let b1 = b.drop_first();
        assert forall|i: int| 0 <= i < a1.len() implies (#[trigger] a1[i]).0@ == b1[i].0@ by {
            assert(a[i + 1].0@ == b[i + 1].0@);
        }
        assert forall|i: int| 0 <= i < a1.len() && (#[trigger] a1[i]).0@ == key implies a1[i].1
            == b1[i].1 by {
            assert(a[i + 1].0@ == key);
        }
        lookup_same(a1, b1, key);
    }
}

/// A new key leaves every other lookup alone.
proof fn lookup_insert<V>(a: Seq<(String, V)>, at: int, pair: (String, V), key: Seq<char>)
    requires
        0 <= at <= a.len(),
        pair.0@ != key,
    ensures
        lookup(a.insert(at, pair), key) == lookup(a, key),
    decreases a.len(),
{
    let b = a.insert(at, pair);
    if at == 0 {
        assert(b.drop_first() =~= a);
    } else {
        assert(b[0] == a[0]);
        assert(b.drop_first() =~= a.drop_first().insert(at - 1, pair));
        lookup_insert(a.drop_first(), at - 1, pair, key);
    }
}

/// The count under `key`, zero when there is none.
pub open spec fn count_at(map: TextMap<usize>, key: Seq<char>) -> int {
    match map.at(key) {
        Some(count) => count as int,
        None => 0,
    }
}

impl TextMap<usize> {
    /// Copies the counts.
    pub fn copy(&self) -> (copy: TextMap<usize>)
        ensures
            copy@ == self@,
    {
        let mut entries: Vec<(String, usize)> = Vec::new();
        let n: usize = self.entries.len();
        for i in 0..n
            invariant
                n == self.entries@.len(),
                entries@ == self.entries@.take(i as int),
        {
            entries.push((self.entries[i].0.clone(), self.entries[i].1));
            assert(entries@ =~= self.entries@.take(i + 1));
        }
        assert(self.entries@.take(n as int) =~= self.entries@);
        TextMap { entries }
    }

    /// Returns the count under `key`, zero when there is none.
    pub fn count(&self, key: &str) -> (count: usize)
        ensures
            count == count_at(*self, key@),
    {
        match self.get(key) {
            Some(count) => *count,
            None => 0,
        }
    }

    /// Adds `n` to the count under `key`.
    pub fn add_count(&mut self, key: &str, n: usize)
        requires
            old(self).wf(),
            count_at(*old(self), key@) + n <= usize::MAX,
        ensures
            final(self).wf(),
            final(self).at(key@) == Some((count_at(*old(self), key@) + n) as usize),
            forall|k: Seq<char>| k != key@ ==> #[trigger] final(self).at(k) == old(self).at(k),
    {
        let count: usize = self.count(key);
        self.insert(key.to_owned(), count + n);
    }
}

} // verus!
