//! Tables: finite maps kept as association lists.

use crate::address::Address;
use crate::list::push;
use crate::text::Text;
use vstd::prelude::*;

verus! {

/// A type whose values can key a [`Table`]: equality of what two keys stand for can be tested.
pub trait Key: DeepView + Sized {
    /// Whether the two keys stand for the same value.
    fn same_key(&self, other: &Self) -> (r: bool)
        ensures
            r == (self.deep_view() == other.deep_view()),
    ;

    /// A key that stands for the same value.
    fn copy_key(&self) -> (r: Self)
        ensures
            r.deep_view() == self.deep_view(),
    ;
}

impl Key for Address {
    fn same_key(&self, other: &Address) -> (r: bool) {
        *self == *other
    }

    fn copy_key(&self) -> (r: Address) {
        *self
    }
}

impl Key for (Address, Address) {
    fn same_key(&self, other: &(Address, Address)) -> (r: bool) {
        self.0 == other.0 && self.1 == other.1
    }

    fn copy_key(&self) -> (r: (Address, Address)) {
        (self.0, self.1)
    }
}

impl Key for u32 {
    fn same_key(&self, other: &u32) -> (r: bool) {
        *self == *other
    }

    fn copy_key(&self) -> (r: u32) {
        *self
    }
}

impl Key for Text {
    fn same_key(&self, other: &Text) -> (r: bool) {
        self.same(other)
    }

    fn copy_key(&self) -> (r: Text) {
        self.clone()
    }
}

/// The map that an association list stands for: of several pairs with one key, the first counts.
pub open spec fn contents<K, V>(slots: Seq<(K, V)>) -> Map<K, V>
    decreases slots.len(),
{
    if slots.len() == 0 {
        Map::empty()
    } else {
        contents(slots.drop_first()).insert(slots[0].0, slots[0].1)
    }
}

proof fn lemma_absent<K, V>(slots: Seq<(K, V)>, key: K)
    requires
        forall|j: int| 0 <= j < slots.len() ==> (#[trigger] slots[j]).0 != key,
    ensures
        !contents(slots).contains_key(key),
    decreases slots.len(),
{
    if slots.len() > 0 {
        assert(slots[0].0 != key);
        assert forall|j: int| 0 <= j < slots.drop_first().len() implies (
        #[trigger] slots.drop_first()[j]).0 != key by {
            assert(slots.drop_first()[j] == slots[j + 1]);
        }
        lemma_absent(slots.drop_first(), key);
    }
}

proof fn lemma_present<K, V>(slots: Seq<(K, V)>, i: int)
    requires
        0 <= i < slots.len(),
        forall|j: int| 0 <= j < i ==> (#[trigger] slots[j]).0 != slots[i].0,
    ensures
        contents(slots).contains_key(slots[i].0),
        contents(slots)[slots[i].0] == slots[i].1,
    decreases slots.len(),
{
    if i > 0 {
        let rest = slots.drop_first();
        assert(slots[0].0 != slots[i].0);
        assert(rest[i - 1] == slots[i]);
        assert forall|j: int| 0 <= j < i - 1 implies (#[trigger] rest[j]).0 != rest[i - 1].0 by {
            assert(rest[j] == slots[j + 1]);
        }
        lemma_present(rest, i - 1);
    }
}

proof fn lemma_domain<K, V>(slots: Seq<(K, V)>, key: K)
    ensures
        contents(slots).contains_key(key) <==> exists|j: int|
            0 <= j < slots.len() && (#[trigger] slots[j]).0 == key,
    decreases slots.len(),
{
    if slots.len() > 0 {
        let rest = slots.drop_first();
        lemma_domain(rest, key);
        if slots[0].0 != key {
            if contents(rest).contains_key(key) {
                let j = choose|j: int| 0 <= j < rest.len() && (#[trigger] rest[j]).0 == key;
                assert(slots[j + 1].0 == key);
            }
            if exists|j: int| 0 <= j < slots.len() && (#[trigger] slots[j]).0 == key {
                let j = choose|j: int| 0 <= j < slots.len() && (#[trigger] slots[j]).0 == key;
                assert(rest[j - 1].0 == key);
            }
        }
    }
}

proof fn lemma_push<K, V>(slots: Seq<(K, V)>, key: K, value: V)
    requires
        forall|j: int| 0 <= j < slots.len() ==> (#[trigger] slots[j]).0 != key,
    ensures
        contents(slots.push((key, value))) == contents(slots).insert(key, value),
    decreases slots.len(),
{
    let longer = slots.push((key, value));
    if slots.len() == 0 {
        assert(longer.drop_first() =~= slots);
    } else {
        let rest = slots.drop_first();
        assert(slots[0].0 != key);
        assert forall|j: int| 0 <= j < rest.len() implies (#[trigger] rest[j]).0 != key by {
            assert(rest[j] == slots[j + 1]);
        }
        lemma_push(rest, key, value);
        assert(longer.drop_first() =~= rest.push((key, value)));
    }
    assert(contents(longer) =~= contents(slots).insert(key, value));
}

proof fn lemma_replace<K, V>(slots: Seq<(K, V)>, i: int, value: V)
    requires
        0 <= i < slots.len(),
        forall|j: int| 0 <= j < i ==> (#[trigger] slots[j]).0 != slots[i].0,
    ensures
        contents(slots.update(i, (slots[i].0, value))) == contents(slots).insert(slots[i].0, value),
    decreases slots.len(),
{
    let key = slots[i].0;
    let changed = slots.update(i, (key, value));
    let rest = slots.drop_first();
    if i == 0 {
        assert(changed.drop_first() =~= rest);
    } else {
        assert(slots[0].0 != key);
        assert(rest[i - 1] == slots[i]);
        assert forall|j: int| 0 <= j < i - 1 implies (#[trigger] rest[j]).0 != rest[i - 1].0 by {
            assert(rest[j] == slots[j + 1]);
        }
        lemma_replace(rest, i - 1, value);
        assert(changed.drop_first() =~= rest.update(i - 1, (key, value)));
    }
    assert(contents(changed) =~= contents(slots).insert(key, value));
}

proof fn lemma_delete<K, V>(slots: Seq<(K, V)>, i: int)
    requires
        0 <= i < slots.len(),
    ensures
        contents(slots.remove(i)).remove(slots[i].0) == contents(slots).remove(slots[i].0),
    decreases slots.len(),
{
    let key = slots[i].0;
    let shorter = slots.remove(i);
    let rest = slots.drop_first();
    if i == 0 {
        assert(shorter =~= rest);
        assert(contents(slots) == contents(rest).insert(key, slots[0].1));
    } else {
        assert(rest[i - 1] == slots[i]);
        lemma_delete(rest, i - 1);
        assert(shorter.drop_first() =~= rest.remove(i - 1));
        assert(shorter[0] == slots[0]);
        assert(contents(shorter) == contents(shorter.drop_first()).insert(slots[0].0, slots[0].1));
        assert(contents(slots) == contents(rest).insert(slots[0].0, slots[0].1));
        let a = contents(rest.remove(i - 1));
        let b = contents(rest);
        let (k0, v0) = slots[0];
        assert(a.remove(key) == b.remove(key));
        if k0 == key {
            assert(a.insert(k0, v0).remove(key) =~= a.remove(key));
            assert(b.insert(k0, v0).remove(key) =~= b.remove(key));
        } else {
            assert(a.insert(k0, v0).remove(key) =~= a.remove(key).insert(k0, v0));
            assert(b.insert(k0, v0).remove(key) =~= b.remove(key).insert(k0, v0));
        }
    }
    assert(contents(shorter).remove(key) =~= contents(slots).remove(key));
}

/// A finite map from keys to values.
#[derive(Debug)]
pub struct Table<K, V> {
    slots: Vec<(K, V)>,
}

impl<K: DeepView, V: DeepView> View for Table<K, V> {
    type V = Map<K::V, V::V>;

    closed spec fn view(&self) -> Map<K::V, V::V> {
        contents(self.slots.deep_view())
    }
}

impl<K: Key, V: DeepView> Table<K, V> {
    /// The table without entries.
    pub fn new() -> (r: Self)
        ensures
            r@ == Map::<K::V, V::V>::empty(),
    {
        Table { slots: Vec::new() }
    }

    /// The position of the first slot for `key`, or the number of slots.
    fn find(&self, key: &K) -> (r: usize)
        ensures
            r <= self.slots@.len(),
            r < self.slots@.len() ==> self.slots.deep_view()[r as int].0 == key.deep_view(),
            forall|j: int|
                0 <= j < r ==> (#[trigger] self.slots.deep_view()[j]).0 != key.deep_view(),
    {
        let mut i: usize = 0;
        while i < self.slots.len()
            invariant
                i <= self.slots.len(),
                forall|j: int|
                    0 <= j < i ==> (#[trigger] self.slots.deep_view()[j]).0 != key.deep_view(),
            decreases self.slots.len() - i,
        {
            if self.slots[i].0.same_key(key) {
                return i;
            }
            i += 1;
        }
        i
    }

    /// Whether the table has an entry for `key`.
    pub fn has(&self, key: &K) -> (r: bool)
        ensures
            r == self@.contains_key(key.deep_view()),
    {
        let i = self.find(key);
        proof {
            if i < self.slots@.len() {
                lemma_present(self.slots.deep_view(), i as int);
            } else {
                lemma_absent(self.slots.deep_view(), key.deep_view());
            }
        }
        i < self.slots.len()
    }

    /// The value for `key`, if there is one.
    pub fn get(&self, key: &K) -> (r: Option<&V>)
        ensures
            match r {
                Some(value) => self@.contains_key(key.deep_view()) && self@[key.deep_view()]
                    == value.deep_view(),
                None => !self@.contains_key(key.deep_view()),
            },
    {
        let i = self.find(key);
        if i < self.slots.len() {
            proof {
                lemma_present(self.slots.deep_view(), i as int);
            }
            Some(&self.slots[i].1)
        } else {
            proof {
                lemma_absent(self.slots.deep_view(), key.deep_view());
            }
            None
        }
    }

    /// Makes `value` the value for `key`.
    pub fn set(&mut self, key: K, value: V)
        ensures
            final(self)@ == old(self)@.insert(key.deep_view(), value.deep_view()),
    {
        let i = self.find(&key);
        let ghost before = self.slots.deep_view();
        let ghost k = key.deep_view();
        let ghost v = value.deep_view();
        if i < self.slots.len() {
            self.slots[i] = (key, value);
            proof {
                lemma_replace(before, i as int, v);
                assert(self.slots.deep_view() =~= before.update(i as int, (k, v)));
            }
        } else {
            self.slots.push((key, value));
            proof {
                lemma_push(before, k, v);
                assert(self.slots.deep_view() =~= before.push((k, v)));
            }
        }
    }

    /// Drops the entry for `key`, if there is one.
    pub fn remove(&mut self, key: &K)
        ensures
            final(self)@ == old(self)@.remove(key.deep_view()),
    {
        let mut i: usize = 0;
        while i < self.slots.len()
            invariant
                i <= self.slots.len(),
                self@.remove(key.deep_view()) == old(self)@.remove(key.deep_view()),
                forall|j: int|
                    0 <= j < i ==> (#[trigger] self.slots.deep_view()[j]).0 != key.deep_view(),
            decreases self.slots.len() - i,
        {
            if self.slots[i].0.same_key(key) {
                let ghost before = self.slots.deep_view();
                let _ = self.slots.remove(i);
                proof {
                    lemma_delete(before, i as int);
                    assert(self.slots.deep_view() =~= before.remove(i as int));
                }
            } else {
                i += 1;
            }
        }
        proof {
            lemma_absent(self.slots.deep_view(), key.deep_view());
            assert(self@.remove(key.deep_view()) =~= self@);
        }
    }

    /// The keys that have an entry.
    pub fn keys(&self) -> (r: Vec<K>)
        ensures
            r.deep_view().to_set() == self@.dom(),
    {
        let mut keys: Vec<K> = Vec::new();
        let mut i: usize = 0;
        while i < self.slots.len()
            invariant
                i <= self.slots.len(),
                keys.deep_view().len() == i,
                forall|j: int|
                    0 <= j < i ==> (#[trigger] keys.deep_view()[j])
                        == self.slots.deep_view()[j].0,
            decreases self.slots.len() - i,
        {
            let ghost before = keys.deep_view();
            push(&mut keys, self.slots[i].0.copy_key());
            i += 1;
            assert forall|j: int| 0 <= j < i implies (#[trigger] keys.deep_view()[j])
                == self.slots.deep_view()[j].0 by {
                if j < i - 1 {
                    assert(before[j] == self.slots.deep_view()[j].0);
                }
            }
        }
        proof {
            let slots = self.slots.deep_view();
            assert forall|k: K::V| keys.deep_view().to_set().contains(k) == self@.dom().contains(k) by {
                lemma_domain(slots, k);
                if keys.deep_view().contains(k) {
                    let j = choose|j: int| 0 <= j < keys.deep_view().len() && keys.deep_view()[j] == k;
                    assert(slots[j].0 == k);
                }
                if self@.contains_key(k) {
                    let j = choose|j: int| 0 <= j < slots.len() && (#[trigger] slots[j]).0 == k;
                    assert(keys.deep_view()[j] == k);
                }
            }
            assert(keys.deep_view().to_set() =~= self@.dom());
        }
        keys
    }
}

} // verus!
