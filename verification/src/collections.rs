//! Maps and sets kept as lists in which no key occurs twice.

use crate::primitives::Guid;
use crate::text::same_text;
use vstd::prelude::*;

verus! {

/// A type whose values can serve as keys: two keys are the same key if and
/// only if their views are equal.
pub trait Key: View + Sized {
    fn same_key(&self, other: &Self) -> (same: bool)
        ensures
            same == (self@ == other@),
    ;
}

impl Key for String {
    fn same_key(&self, other: &Self) -> (same: bool) {
        same_text(self.as_str(), other.as_str())
    }
}

impl Key for Guid {
    fn same_key(&self, other: &Self) -> (same: bool) {
        self.same(other)
    }
}

/// The map that a list of entries stands for. Where a key occurs twice, the
/// later entry counts.
pub open spec fn entries_map<K: View, V>(entries: Seq<(K, V)>) -> Map<K::V, V>
    decreases entries.len(),
{
    if entries.len() == 0 {
        Map::empty()
    } else {
        entries_map(entries.drop_last()).insert(entries.last().0@, entries.last().1)
    }
}

/// No key occurs twice in `entries`.
pub open spec fn keys_differ<K: View, V>(entries: Seq<(K, V)>) -> bool {
    forall|i: int, j: int|
        0 <= i < j < entries.len() ==> (#[trigger] entries[i]).0@ != (#[trigger] entries[j]).0@
}

/// `after` is `before` with `key` bound to `value`: a key that is new goes to
/// the end, a key that is present stays in its place with the new value.
pub open spec fn inserted<K: View, V>(
    before: Seq<(K, V)>,
    after: Seq<(K, V)>,
    key: K,
    value: V,
) -> bool {
    ||| {
        &&& forall|j: int| 0 <= j < before.len() ==> (#[trigger] before[j]).0@ != key@
        &&& after == before.push((key, value))
    }
    ||| exists|i: int|
        {
            &&& 0 <= i < before.len()
            &&& (#[trigger] before[i]).0@ == key@
            &&& forall|j: int| i < j < before.len() ==> (#[trigger] before[j]).0@ != key@
            &&& after == before.update(i, (key, value))
        }
}

/// Binding a key in the list binds it in the map.
pub proof fn lemma_inserted_map<K: View, V>(
    before: Seq<(K, V)>,
    after: Seq<(K, V)>,
    key: K,
    value: V,
)
    requires
        inserted(before, after, key, value),
    ensures
        entries_map(after) == entries_map(before).insert(key@, value),
    decreases before.len(),
{
    if after == before.push((key, value)) {
        assert(after.drop_last() =~= before);
    } else {
        let i = choose|i: int|
            {
                &&& 0 <= i < before.len()
                &&& (#[trigger] before[i]).0@ == key@
                &&& forall|j: int| i < j < before.len() ==> (#[trigger] before[j]).0@ != key@
                &&& after == before.update(i, (key, value))
            };
        if i == before.len() - 1 {
            assert(after.drop_last() =~= before.drop_last());
            assert(entries_map(after) =~= entries_map(before).insert(key@, value));
        } else {
            let last = before.last();
            assert(after.drop_last() =~= before.drop_last().update(i, (key, value)));
            assert(before.drop_last()[i] == before[i]);
            lemma_inserted_map(before.drop_last(), after.drop_last(), key, value);
            assert(last.0@ != key@);
            assert(entries_map(after) =~= entries_map(before).insert(key@, value));
        }
    }
}

/// What the map of a list without repeated keys holds: the keys of the list,
/// each with the value beside it.
pub proof fn lemma_entries_map_holds<K: View, V>(entries: Seq<(K, V)>)
    requires
        keys_differ(entries),
    ensures
        forall|i: int|
            0 <= i < entries.len() ==> entries_map(entries).contains_key(
                (#[trigger] entries[i]).0@,
            ) && entries_map(entries)[entries[i].0@] == entries[i].1,
        forall|k: K::V| #[trigger]
            entries_map(entries).contains_key(k) ==> exists|i: int|
                0 <= i < entries.len() && (#[trigger] entries[i]).0@ == k,
    decreases entries.len(),
{
    if entries.len() > 0 {
        let front = entries.drop_last();
        lemma_entries_map_holds(front);
        assert forall|i: int| 0 <= i < entries.len() implies entries_map(entries).contains_key(
            (#[trigger] entries[i]).0@,
        ) && entries_map(entries)[entries[i].0@] == entries[i].1 by {
            if i < entries.len() - 1 {
                assert(front[i] == entries[i]);
                assert(entries[i].0@ != entries[entries.len() - 1].0@);
            }
        }
        assert forall|k: K::V| #[trigger] entries_map(entries).contains_key(k) implies exists|
            i: int,
        |
            0 <= i < entries.len() && (#[trigger] entries[i]).0@ == k by {
            if k == entries.last().0@ {
                assert(entries[entries.len() - 1].0@ == k);
            } else {
                assert(entries_map(front).contains_key(k));
                let i = choose|i: int| 0 <= i < front.len() && (#[trigger] front[i]).0@ == k;
                assert(entries[i].0@ == k);
            }
        }
    }
}

/// The map of a list without repeated keys has as many keys as the list has
/// entries.
pub proof fn lemma_entries_map_count<K: View, V>(entries: Seq<(K, V)>)
    requires
        keys_differ(entries),
    ensures
        entries_map(entries).dom().finite(),
        entries_map(entries).dom().len() == entries.len(),
    decreases entries.len(),
{
    if entries.len() > 0 {
        let front = entries.drop_last();
        lemma_entries_map_count(front);
        lemma_entries_map_holds(front);
        if entries_map(front).contains_key(entries.last().0@) {
            let i = choose|i: int|
                0 <= i < front.len() && (#[trigger] front[i]).0@ == entries.last().0@;
            assert(entries[i].0@ != entries[entries.len() - 1].0@);
        }
    }
}

/// A map from keys to values that remembers the order in which its keys
/// first came.
#[derive(Debug)]
pub struct VecMap<K: Key, V> {
    entries: Vec<(K, V)>,
}

impl<K: Key, V> VecMap<K, V> {
    #[verifier::type_invariant]
    spec fn well_formed(self) -> bool {
        keys_differ(self.entries@)
    }

    /// The entries, in the order in which their keys first came.
    pub closed spec fn entries(self) -> Seq<(K, V)> {
        self.entries@
    }

    /// The map that the entries stand for: from the views of the keys to
    /// the values.
    pub open spec fn map(self) -> Map<K::V, V> {
        entries_map(self.entries())
    }

    /// The entries are structurally smaller than the map that holds them.
    pub proof fn lemma_entries_decrease(self)
        ensures
            decreases_to!(self => self.entries()),
    {
    }

    /// A map without entries.
    pub fn new() -> (map: Self)
        ensures
            map.entries() == Seq::<(K, V)>::empty(),
            map.map() == Map::<K::V, V>::empty(),
    {
        VecMap { entries: Vec::new() }
    }

    /// The number of keys.
    pub fn len(&self) -> (len: usize)
        ensures
            len == self.entries().len(),
            len == self.map().dom().len(),
    {
        proof {
            use_type_invariant(self);
            lemma_entries_map_count(self.entries@);
        }
        self.entries.len()
    }

    /// Whether the map has no entries.
    pub fn is_empty(&self) -> (empty: bool)
        ensures
            empty == (self.entries().len() == 0),
            empty == (self.map() == Map::<K::V, V>::empty()),
    {
        proof {
            use_type_invariant(self);
            lemma_entries_map_count(self.entries@);
            if self.entries@.len() == 0 {
                assert(self.map() =~= Map::<K::V, V>::empty());
            }
        }
        self.entries.len() == 0
    }

    /// The entries, in the order in which their keys first came.
    pub fn as_slice(&self) -> (entries: &[(K, V)])
        ensures
            entries@ == self.entries(),
            keys_differ(entries@),
    {
        proof {
            use_type_invariant(self);
        }
        self.entries.as_slice()
    }

    /// Binds `key` to `value`. A binding of the same key is replaced.
    pub fn insert(&mut self, key: K, value: V)
        ensures
            inserted(old(self).entries(), final(self).entries(), key, value),
            final(self).map() == old(self).map().insert(key@, value),
    {
        proof {
            use_type_invariant(&*self);
        }
        let ghost before = self.entries@;
        let mut entries: Vec<(K, V)> = Vec::new();
        std::mem::swap(&mut self.entries, &mut entries);
        let mut i: usize = 0;
        let mut found = false;
        while i < entries.len() && !found
            invariant
                i <= entries@.len(),
                entries@ == before,
                forall|j: int| 0 <= j < i ==> (#[trigger] before[j]).0@ != key@,
                found ==> i < entries@.len() && before[i as int].0@ == key@,
            decreases entries@.len() - i + if found { 0int } else { 1int },
        {
            if entries[i].0.same_key(&key) {
                found = true;
            } else {
                i += 1;
            }
        }
        if found {
            entries[i] = (key, value);
            proof {
                assert forall|j: int| i < j < before.len() implies (#[trigger] before[j]).0@
                    != key@ by {
                    assert(before[i as int].0@ != before[j].0@);
                }
                assert forall|a: int, b: int| 0 <= a < b < entries@.len() implies (
                #[trigger] entries@[a]).0@ != (#[trigger] entries@[b]).0@ by {
                    assert(before[a].0@ != before[b].0@);
                }
            }
        } else {
            entries.push((key, value));
        }
        proof {
            assert(inserted(before, entries@, key, value));
            lemma_inserted_map(before, entries@, key, value);
        }
        std::mem::swap(&mut self.entries, &mut entries);
    }

    /// The value that `key` is bound to.
    pub fn get(&self, key: &K) -> (value: Option<&V>)
        ensures
            value is Some == self.map().contains_key(key@),
            value matches Some(v) ==> self.map()[key@] == *v,
    {
        proof {
            use_type_invariant(self);
            lemma_entries_map_holds(self.entries@);
        }
        let mut i: usize = 0;
        while i < self.entries.len()
            invariant
                i <= self.entries@.len(),
                forall|j: int| 0 <= j < i ==> (#[trigger] self.entries@[j]).0@ != key@,
                forall|j: int|
                    0 <= j < self.entries@.len() ==> self.map().contains_key(
                        (#[trigger] self.entries@[j]).0@,
                    ) && self.map()[self.entries@[j].0@] == self.entries@[j].1,
            decreases self.entries@.len() - i,
        {
            if self.entries[i].0.same_key(key) {
                return Some(&self.entries[i].1);
            }
            i += 1;
        }
        None
    }
}

/// The set that a list of items stands for.
pub open spec fn items_set<K: View>(items: Seq<K>) -> Set<K::V> {
    Set::new(|member: K::V| exists|i: int| 0 <= i < items.len() && (#[trigger] items[i])@ == member)
}

/// No item occurs twice in `items`.
pub open spec fn items_differ<K: View>(items: Seq<K>) -> bool {
    forall|i: int, j: int|
        0 <= i < j < items.len() ==> (#[trigger] items[i])@ != (#[trigger] items[j])@
}

/// `after` is `before` with `item` in it: an item that is new goes to the
/// end, one that is present leaves the list as it is.
pub open spec fn added<K: View>(before: Seq<K>, after: Seq<K>, item: K) -> bool {
    if items_set(before).contains(item@) {
        after == before
    } else {
        after == before.push(item)
    }
}

/// The set of a list without repeated items has as many members as the list
/// has items.
pub proof fn lemma_items_set_count<K: View>(items: Seq<K>)
    requires
        items_differ(items),
    ensures
        items_set(items).finite(),
        items_set(items).len() == items.len(),
    decreases items.len(),
{
    if items.len() == 0 {
        assert(items_set(items) =~= Set::<K::V>::empty());
    } else {
        let front = items.drop_last();
        lemma_items_set_count(front);
        assert forall|member: K::V|
            items_set(items).contains(member) == items_set(front).insert(items.last()@).contains(
                member,
            ) by {
            if items_set(items).contains(member) {
                let i = choose|i: int| 0 <= i < items.len() && (#[trigger] items[i])@ == member;
                if i < front.len() {
                    assert(front[i]@ == member);
                }
            }
            if items_set(front).contains(member) {
                let i = choose|i: int| 0 <= i < front.len() && (#[trigger] front[i])@ == member;
                assert(items[i]@ == member);
            }
            if member == items.last()@ {
                assert(items[items.len() - 1]@ == member);
            }
        }
        assert(items_set(items) =~= items_set(front).insert(items.last()@));
        if items_set(front).contains(items.last()@) {
            let i = choose|i: int| 0 <= i < front.len() && (#[trigger] front[i])@ == items.last()@;
            assert(items[i]@ != items[items.len() - 1]@);
        }
    }
}

/// A set that remembers the order in which its items first came.
#[derive(Debug)]
pub struct VecSet<K: Key> {
    items: Vec<K>,
}

impl<K: Key> View for VecSet<K> {
    type V = Set<K::V>;

    /// The set that the items stand for.
    open spec fn view(&self) -> Set<K::V> {
        items_set(self.items())
    }
}

impl<K: Key> VecSet<K> {
    #[verifier::type_invariant]
    spec fn well_formed(self) -> bool {
        items_differ(self.items@)
    }

    /// The items, in the order in which they first came.
    pub closed spec fn items(self) -> Seq<K> {
        self.items@
    }

    /// A set without items.
    pub fn new() -> (set: Self)
        ensures
            set.items() == Seq::<K>::empty(),
            set@ == Set::<K::V>::empty(),
    {
        let set = VecSet { items: Vec::new() };
        assert(set@ =~= Set::<K::V>::empty());
        set
    }

    /// The number of items.
    pub fn len(&self) -> (len: usize)
        ensures
            len == self.items().len(),
            len == self@.len(),
    {
        proof {
            use_type_invariant(self);
            lemma_items_set_count(self.items@);
        }
        self.items.len()
    }

    /// Whether the set has no items.
    pub fn is_empty(&self) -> (empty: bool)
        ensures
            empty == (self.items().len() == 0),
            empty == (self@ == Set::<K::V>::empty()),
    {
        proof {
            use_type_invariant(self);
            lemma_items_set_count(self.items@);
            if self.items@.len() == 0 {
                assert(self@ =~= Set::<K::V>::empty());
            }
        }
        self.items.len() == 0
    }

    /// The items, in the order in which they first came.
    pub fn as_slice(&self) -> (items: &[K])
        ensures
            items@ == self.items(),
            items_differ(items@),
    {
        proof {
            use_type_invariant(self);
        }
        self.items.as_slice()
    }

    /// Whether `item` is in the set.
    pub fn contains(&self, item: &K) -> (found: bool)
        ensures
            found == self@.contains(item@),
    {
        let mut i: usize = 0;
        while i < self.items.len()
            invariant
                i <= self.items@.len(),
                forall|j: int| 0 <= j < i ==> (#[trigger] self.items@[j])@ != item@,
            decreases self.items@.len() - i,
        {
            if self.items[i].same_key(item) {
                return true;
            }
            i += 1;
        }
        false
    }

    /// Puts `item` into the set, unless it is there.
    pub fn insert(&mut self, item: K)
        ensures
            added(old(self).items(), final(self).items(), item),
            final(self)@ == old(self)@.insert(item@),
    {
        proof {
            use_type_invariant(&*self);
        }
        let ghost before = self.items@;
        if self.contains(&item) {
            assert(self@ =~= self@.insert(item@));
        } else {
            let mut items: Vec<K> = Vec::new();
            std::mem::swap(&mut self.items, &mut items);
            items.push(item);
            proof {
                assert forall|member: K::V|
                    items_set(items@).contains(member) == items_set(before).insert(
                        item@,
                    ).contains(member) by {
                    if items_set(items@).contains(member) {
                        let i = choose|i: int|
                            0 <= i < items@.len() && (#[trigger] items@[i])@ == member;
                        if i < before.len() {
                            assert(before[i]@ == member);
                        }
                    }
                    if items_set(before).contains(member) {
                        let i = choose|i: int|
                            0 <= i < before.len() && (#[trigger] before[i])@ == member;
                        assert(items@[i]@ == member);
                    }
                    if member == item@ {
                        assert(items@[before.len() as int]@ == member);
                    }
                }
                assert(items_set(items@) =~= items_set(before).insert(item@));
            }
            std::mem::swap(&mut self.items, &mut items);
        }
    }
}

} // verus!
