//! Ordered sets of texts.
use vstd::prelude::*;

use crate::text::comes_before;
use crate::text::copy_texts;
use crate::text::same_text;
use crate::text::text_lt;
use crate::text::text_lt_irreflexive;
use crate::text::text_lt_total;
use crate::text::text_lt_transitive;
use crate::text::texts;

verus! {

/// Whether every text comes strictly before all later ones.
pub open spec fn ascending(items: Seq<Seq<char>>) -> bool {
    forall|i: int, j: int| 0 <= i < j < items.len() ==> text_lt(#[trigger] items[i], #[trigger] items[j])
}

/// The elements of `items` that are also elements of `kept`, in order.
pub open spec fn shared(items: Seq<Seq<char>>, kept: Seq<Seq<char>>) -> Seq<Seq<char>> {
    items.filter(|item: Seq<char>| kept.contains(item))
}

/// The elements of `items` that are no elements of `dropped`, in order.
pub open spec fn without(items: Seq<Seq<char>>, dropped: Seq<Seq<char>>) -> Seq<Seq<char>> {
    items.filter(|item: Seq<char>| !dropped.contains(item))
}

/// Filtering one element more adds that element exactly when it passes.
pub proof fn filter_step<A>(items: Seq<A>, i: int, pass: spec_fn(A) -> bool)
    requires
        0 <= i < items.len(),
    ensures
        items.take(i + 1).filter(pass) == if pass(items[i]) {
            items.take(i).filter(pass).push(items[i])
        } else {
            items.take(i).filter(pass)
        },
{
    reveal(Seq::filter);
    assert(items.take(i + 1).drop_last() =~= items.take(i));
}

/// A filtered list holds the elements that pass.
pub proof fn filter_has<A>(items: Seq<A>, pass: spec_fn(A) -> bool, x: A)
    ensures
        items.filter(pass).contains(x) <==> items.contains(x) && pass(x),
    decreases items.len(),
{
    reveal(Seq::filter);
    if items.len() > 0 {
        let init = items.drop_last();
        let kept = init.filter(pass);
        filter_has(init, pass, x);
        assert(items =~= init.push(items.last()));
        if pass(items.last()) {
            let all = kept.push(items.last());
            assert(items.filter(pass) == all);
            if kept.contains(x) {
                assert(all[kept.index_of(x)] == x);
            }
            if x == items.last() {
                assert(all[kept.len() as int] == x);
            }
        }
        if init.contains(x) {
            assert(items[init.index_of(x)] == x);
        }
    }
}

/// A filtered ascending list is ascending.
pub proof fn filter_keeps_ascending(items: Seq<Seq<char>>, pass: spec_fn(Seq<char>) -> bool)
    requires
        ascending(items),
    ensures
        ascending(items.filter(pass)),
        forall|x: Seq<char>| #[trigger] items.filter(pass).contains(x) <==> items.contains(x) && pass(x),
    decreases items.len(),
{
    reveal(Seq::filter);
    if items.len() > 0 {
        let init = items.drop_last();
        let last = items.last();
        assert(ascending(init));
        filter_keeps_ascending(init, pass);
        let kept = init.filter(pass);
        assert forall|x: Seq<char>| #[trigger] items.contains(x) <==> init.contains(x) || x == last by {
            if init.contains(x) {
                let k = init.index_of(x);
                assert(items[k] == x);
            }
            if x == last {
                assert(items[items.len() - 1] == x);
            }
            if items.contains(x) && x != last {
                let k = items.index_of(x);
                assert(init[k] == x);
            }
        }
        if pass(last) {
            let longer = kept.push(last);
            assert(items.filter(pass) == longer);
            assert forall|i: int, j: int| 0 <= i < j < longer.len() implies text_lt(
                #[trigger] longer[i],
                #[trigger] longer[j],
            ) by {
                if j == kept.len() {
                    assert(kept.contains(kept[i]));
                    assert(init.contains(kept[i]));
                    let k = init.index_of(kept[i]);
                    assert(text_lt(items[k], items[items.len() - 1]));
                }
            }
            assert forall|x: Seq<char>| #[trigger] longer.contains(x) <==> kept.contains(x) || x == last by {
                if kept.contains(x) {
                    let k = kept.index_of(x);
                    assert(longer[k] == x);
                }
                if x == last {
                    assert(longer[kept.len() as int] == x);
                }
                if longer.contains(x) && x != last {
                    let k = longer.index_of(x);
                    assert(kept[k] == x);
                }
            }
        }
    }
}

/// An ascending list is fixed by its elements.
pub proof fn ascending_is_canonical(a: Seq<Seq<char>>, b: Seq<Seq<char>>)
    requires
        ascending(a),
        ascending(b),
        forall|x: Seq<char>| a.contains(x) <==> b.contains(x),
    ensures
        a == b,
    decreases a.len(),
{
    if a.len() == 0 {
        if b.len() > 0 {
            assert(b.contains(b[0]));
            assert(a.contains(b[0]));
        }
        assert(a =~= b);
    } else {
        assert(a.contains(a[0]));
        assert(b.contains(a[0]));
        let at_b = b.index_of(a[0]);
        assert(b.contains(b[0]));
        assert(a.contains(b[0]));
        let at_a = a.index_of(b[0]);
        if at_b > 0 && at_a > 0 {
            assert(text_lt(b[0], b[at_b]));
            assert(text_lt(a[0], a[at_a]));
            text_lt_transitive(a[0], b[0], a[0]);
            text_lt_irreflexive(a[0]);
        }
        assert(a[0] == b[0]);
        let a1 = a.drop_first();
        let b1 = b.drop_first();
        assert forall|x: Seq<char>| a1.contains(x) <==> b1.contains(x) by {
            if a1.contains(x) {
                let k = a1.index_of(x);
                assert(a[k + 1] == x);
                assert(a.contains(x));
                assert(text_lt(a[0], a[k + 1]));
                text_lt_irreflexive(x);
                let m = b.index_of(x);
                assert(b[m] == x && m > 0);
                assert(b1[m - 1] == x);
            }
            if b1.contains(x) {
                let k = b1.index_of(x);
                assert(b[k + 1] == x);
                assert(b.contains(x));
                assert(text_lt(b[0], b[k + 1]));
                text_lt_irreflexive(x);
                let m = a.index_of(x);
                assert(a[m] == x && m > 0);
                assert(a1[m - 1] == x);
            }
        }
        ascending_is_canonical(a1, b1);
        assert(a =~= seq![a[0]] + a1);
        assert(b =~= seq![b[0]] + b1);
    }
}

/// A set of texts, kept in ascending order.
#[derive(Clone, Debug)]
pub struct TextSet {
    items: Vec<String>,
}

impl View for TextSet {
    type V = Seq<Seq<char>>;

    closed spec fn view(&self) -> Seq<Seq<char>> {
        texts(self.items@)
    }
}

impl TextSet {
    /// Whether the elements stand in ascending order, so that none occurs twice.
    pub open spec fn wf(self) -> bool {
        ascending(self@)
    }

    /// Whether `item` is an element.
    pub open spec fn has(self, item: Seq<char>) -> bool {
        self@.contains(item)
    }

    /// Creates an empty set.
    pub fn new() -> (set: TextSet)
        ensures
            set.wf(),
            set@ == Seq::<Seq<char>>::empty(),
    {
        let set = TextSet { items: Vec::new() };
        assert(set@ =~= Seq::<Seq<char>>::empty());
        set
    }

    /// Returns the number of elements.
    pub fn len(&self) -> (n: usize)
        ensures
            n == self@.len(),
    {
        self.items.len()
    }

    /// Returns whether there is no element.
    pub fn is_empty(&self) -> (empty: bool)
        ensures
            empty == (self@.len() == 0),
    {
        self.items.len() == 0
    }

    /// Returns whether `item` is an element.
    pub fn contains(&self, item: &str) -> (found: bool)
        ensures
            found == self.has(item@),
    {
        for i in 0..self.items.len()
            invariant
                forall|k: int| 0 <= k < i ==> self@[k] != item@,
        {
            if same_text(self.items[i].as_str(), item) {
                assert(self@[i as int] == item@);
                return true;
            }
        }
        false
    }

    /// Adds `item`; returns whether it was new.
    pub fn insert(&mut self, item: String) -> (added: bool)
        ensures
            added == !old(self).has(item@),
            forall|x: Seq<char>| #[trigger] final(self).has(x) <==> old(self).has(x) || x == item@,
            old(self).wf() ==> final(self).wf(),
            !added ==> final(self)@ == old(self)@,
    {
        if self.contains(item.as_str()) {
            return false;
        }
        let n: usize = self.items.len();
        let mut at: usize = 0;
        while at < n && comes_before(self.items[at].as_str(), item.as_str())
            invariant
                n == self.items@.len(),
                at <= n,
                *self == *old(self),
                forall|k: int| 0 <= k < at ==> text_lt(#[trigger] self@[k], item@),
            decreases n - at,
        {
            at += 1;
        }
        let ghost value = item@;
        self.items.insert(at, item);
        proof {
            let before = old(self)@;
            let after = self@;
            assert(after =~= before.insert(at as int, value));
            assert forall|x: Seq<char>| #[trigger] self.has(x) <==> old(self).has(x) || x == value by {
                if old(self).has(x) {
                    let k = before.index_of(x);
                    if k < at {
                        assert(after[k] == x);
                    } else {
                        assert(after[k + 1] == x);
                    }
                }
                if x == value {
                    assert(after[at as int] == x);
                }
                if self.has(x) && x != value {
                    let k = after.index_of(x);
                    if k < at {
                        assert(before[k] == x);
                    } else {
                        assert(before[k - 1] == x);
                    }
                }
            }
            if old(self).wf() {
                assert forall|i: int, j: int| 0 <= i < j < after.len() implies text_lt(
                    #[trigger] after[i],
                    #[trigger] after[j],
                ) by {
                    if j == at {
                        assert(after[i] == before[i]);
                    } else if i == at {
                        assert(after[j] == before[j - 1]);
                        assert(before.contains(before[at as int]));
                        text_lt_total(before[at as int], value);
                        if at < j - 1 {
                            assert(text_lt(before[at as int], before[j - 1]));
                            text_lt_transitive(value, before[at as int], before[j - 1]);
                        }
                    } else {
                        let p = if i < at { i } else { i - 1 };
                        let q = if j < at { j } else { j - 1 };
                        assert(after[i] == before[p] && after[j] == before[q]);
                        assert(text_lt(before[p], before[q]));
                    }
                }
            }
        }
        true
    }

    /// Removes `item`; returns whether it was an element.
    pub fn remove(&mut self, item: &str) -> (removed: bool)
        requires
            old(self).wf(),
        ensures
            final(self).wf(),
            removed == old(self).has(item@),
            forall|x: Seq<char>| #[trigger] final(self).has(x) <==> old(self).has(x) && x != item@,
    {
        let n: usize = self.items.len();
        let mut at: usize = 0;
        while at < n && !same_text(self.items[at].as_str(), item)
            invariant
                n == self.items@.len(),
                at <= n,
                *self == *old(self),
                forall|k: int| 0 <= k < at ==> #[trigger] self@[k] != item@,
            decreases n - at,
        {
            at += 1;
        }
        if at == n {
            proof {
                assert(!self.has(item@));
            }
            return false;
        }
        let _gone = self.items.remove(at);
        proof {
            let before = old(self)@;
            let after = self@;
            assert(before[at as int] == item@);
            assert(after =~= before.remove(at as int));
            assert forall|x: Seq<char>| #[trigger] self.has(x) <==> old(self).has(x) && x != item@ by {
                if self.has(x) {
                    let k = after.index_of(x);
                    let p = if k < at { k } else { k + 1 };
                    assert(before[p] == x);
                    if p < at {
                        assert(text_lt(before[p], before[at as int]));
                    } else {
                        assert(text_lt(before[at as int], before[p]));
                    }
                    text_lt_irreflexive(x);
                }
                if old(self).has(x) && x != item@ {
                    let k = before.index_of(x);
                    if k < at {
                        assert(after[k] == x);
                    } else {
                        assert(after[k - 1] == x);
                    }
                }
            }
            assert forall|i: int, j: int| 0 <= i < j < after.len() implies text_lt(
                #[trigger] after[i],
                #[trigger] after[j],
            ) by {
                let p = if i < at { i } else { i + 1 };
                let q = if j < at { j } else { j + 1 };
                assert(after[i] == before[p] && after[j] == before[q]);
                assert(text_lt(before[p], before[q]));
            }
        }
        true
    }

    /// Collects texts into a set.
    pub fn from_texts(items: &Vec<String>) -> (set: TextSet)
        ensures
            set.wf(),
            forall|x: Seq<char>| #[trigger] set.has(x) <==> texts(items@).contains(x),
    {
        let mut set = TextSet::new();
        let n: usize = items.len();
        for i in 0..n
            invariant
                n == items@.len(),
                set.wf(),
                forall|x: Seq<char>| #[trigger] set.has(x) <==> texts(items@).take(i as int).contains(x),
        {
            let ghost before = set;
            set.insert(items[i].clone());
            proof {
                let all = texts(items@);
                assert forall|x: Seq<char>| #[trigger] set.has(x) <==> all.take(i + 1).contains(x) by {
                    lemma_take_contains(all, i as int, x);
                    assert(before.has(x) <==> all.take(i as int).contains(x));
                }
            }
        }
        proof {
            assert(texts(items@).take(n as int) =~= texts(items@));
        }
        set
    }

    /// Adds every element of `other`.
    pub fn extend(&mut self, other: &TextSet)
        ensures
            forall|x: Seq<char>| #[trigger] final(self).has(x) <==> old(self).has(x) || other.has(x),
            old(self).wf() ==> final(self).wf(),
    {
        let n: usize = other.items.len();
        for i in 0..n
            invariant
                n == other.items@.len(),
                old(self).wf() ==> self.wf(),
                forall|x: Seq<char>| #[trigger] self.has(x) <==> old(self).has(x) || other@.take(i as int).contains(x),
        {
            let ghost before = *self;
            self.insert(other.items[i].clone());
            proof {
                assert forall|x: Seq<char>| #[trigger] self.has(x) <==> old(self).has(x) || other@.take(i + 1).contains(x) by {
                    lemma_take_contains(other@, i as int, x);
                    assert(before.has(x) <==> old(self).has(x) || other@.take(i as int).contains(x));
                }
            }
        }
        proof {
            assert(other@.take(n as int) =~= other@);
        }
    }

    /// Returns the elements in ascending order.
    pub fn to_texts(&self) -> (items: Vec<String>)
        ensures
            texts(items@) == self@,
    {
        copy_texts(&self.items)
    }

    /// Returns the elements shared with `other`, in ascending order.
    pub fn intersection(&self, other: &TextSet) -> (items: Vec<String>)
        ensures
            texts(items@) == shared(self@, other@),
    {
        self.select(other, true)
    }

    /// Returns the elements that `other` lacks, in ascending order.
    pub fn difference(&self, other: &TextSet) -> (items: Vec<String>)
        ensures
            texts(items@) == without(self@, other@),
    {
        self.select(other, false)
    }

    fn select(&self, other: &TextSet, wanted: bool) -> (items: Vec<String>)
        ensures
            wanted ==> texts(items@) == shared(self@, other@),
            !wanted ==> texts(items@) == without(self@, other@),
    {
        let mut items: Vec<String> = Vec::new();
        let n: usize = self.items.len();
        for i in 0..n
            invariant
                n == self.items@.len(),
                wanted ==> texts(items@) == shared(self@.take(i as int), other@),
                !wanted ==> texts(items@) == without(self@.take(i as int), other@),
        {
            proof {
                filter_step(self@, i as int, |item: Seq<char>| other@.contains(item));
                filter_step(self@, i as int, |item: Seq<char>| !other@.contains(item));
            }
            if other.contains(self.items[i].as_str()) == wanted {
                let ghost before = items@;
                items.push(self.items[i].clone());
                assert(texts(items@) =~= texts(before).push(self@[i as int]));
            }
        }
        proof {
            assert(self@.take(n as int) =~= self@);
        }
        items
    }

    /// Returns whether no element is shared with `other`.
    pub fn is_disjoint(&self, other: &TextSet) -> (disjoint: bool)
        ensures
            disjoint == (forall|x: Seq<char>| self.has(x) ==> !other.has(x)),
    {
        for i in 0..self.items.len()
            invariant
                forall|k: int| 0 <= k < i ==> !other.has(#[trigger] self@[k]),
        {
            if other.contains(self.items[i].as_str()) {
                assert(self.has(self@[i as int]));
                return false;
            }
        }
        true
    }

    /// Returns whether both sets hold the same elements.
    pub fn same_as(&self, other: &TextSet) -> (same: bool)
        ensures
            same == (self@ == other@),
    {
        if self.items.len() != other.items.len() {
            assert(self@.len() != other@.len());
            return false;
        }
        for i in 0..self.items.len()
            invariant
                self@.len() == other@.len(),
                forall|k: int| 0 <= k < i ==> self@[k] == other@[k],
        {
            if !same_text(self.items[i].as_str(), other.items[i].as_str()) {
                assert(self@[i as int] != other@[i as int]);
                return false;
            }
        }
        assert(self@ =~= other@);
        true
    }
}

/// One element more is taken.
pub proof fn lemma_take_contains<A>(items: Seq<A>, i: int, x: A)
    requires
        0 <= i < items.len(),
    ensures
        items.take(i + 1).contains(x) <==> items.take(i).contains(x) || x == items[i],
{
    let more = items.take(i + 1);
    let less = items.take(i);
    if less.contains(x) {
        let k = less.index_of(x);
        assert(more[k] == x);
    }
    if x == items[i] {
        assert(more[i] == x);
    }
    if more.contains(x) && x != items[i] {
        let k = more.index_of(x);
        assert(less[k] == x);
    }
}

/// Two sets with the same elements are shown as the same list.
pub proof fn sets_with_equal_elements_are_equal(a: TextSet, b: TextSet)
    requires
        a.wf(),
        b.wf(),
        forall|x: Seq<char>| a.has(x) <==> b.has(x),
    ensures
        a@ == b@,
{
    assert forall|x: Seq<char>| a@.contains(x) <==> b@.contains(x) by {
        assert(a.has(x) <==> b.has(x));
    }
    ascending_is_canonical(a@, b@);
}

} // verus!
