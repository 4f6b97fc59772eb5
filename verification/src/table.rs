//! An association table: at most one value for each key, with a mathematical map as its model.
use vstd::prelude::*;

verus! {

/// What a table can be keyed by: two keys are the same key where their views agree.
pub trait Key: View + Sized {
    fn same(&self, other: &Self) -> (r: bool)
        ensures
            r == (self@ == other@),
    ;

    fn duplicate(&self) -> (r: Self)
        ensures
            r == *self,
    ;
}

/// The key of an optional value.
pub open spec fn opt_view<K: View>(value: Option<K>) -> Option<K::V> {
    match value {
        Some(value) => Some(value@),
        None => None,
    }
}

/// Whether two optional keys are the same.
pub fn same_option<K: Key>(left: &Option<K>, right: &Option<K>) -> (r: bool)
    ensures
        r == (opt_view(*left) == opt_view(*right)),
{
    match (left, right) {
        (Some(left), Some(right)) => left.same(right),
        (None, None) => true,
        _ => false,
    }
}

/// Whether an optional key is there and is the given one.
pub fn is_some_of<K: Key>(value: &Option<K>, key: &K) -> (r: bool)
    ensures
        r == (opt_view(*value) == Some(key@)),
{
    match value {
        Some(value) => value.same(key),
        None => false,
    }
}

/// What a map holds under a key.
pub open spec fn lookup<A, B>(map: Map<A, B>, key: A) -> Option<B> {
    if map.contains_key(key) {
        Some(map[key])
    } else {
        None
    }
}

/// A list that holds the value of each key of a map once, in some order.
pub open spec fn lists<A, B>(list: Seq<B>, map: Map<A, B>) -> bool {
    exists|keys: Seq<A>|
        {
            &&& #[trigger] enumerates(keys, map.dom())
            &&& list == keys.map_values(|key: A| map[key])
        }
}

/// A list that holds each member of a set once, in some order.
pub open spec fn enumerates<A>(keys: Seq<A>, members: Set<A>) -> bool {
    &&& keys.no_duplicates()
    &&& forall|key: A| #[trigger] keys.contains(key) <==> members.contains(key)
}

/// One more member, and one more entry at the end of the list.
pub proof fn lemma_enumerates_push<A>(keys: Seq<A>, members: Set<A>, next: A)
    requires
        enumerates(keys, members),
        !members.contains(next),
    ensures
        enumerates(keys.push(next), members.insert(next)),
{
    let longer = keys.push(next);
    assert(!keys.contains(next));
    assert forall|i: int, j: int| 0 <= i < longer.len() && 0 <= j < longer.len() && i != j implies
        longer[i] != longer[j] by {
        if i < keys.len() {
            assert(keys.contains(keys[i]));
        }
        if j < keys.len() {
            assert(keys.contains(keys[j]));
        }
    }
    assert forall|key: A| #[trigger] longer.contains(key) <==> members.insert(next).contains(key) by {
        if keys.contains(key) {
            let i = keys.index_of(key);
            assert(longer[i] == key);
        }
        if key == next {
            assert(longer[keys.len() as int] == next);
        }
        if longer.contains(key) && key != next {
            let i = longer.index_of(key);
            assert(keys[i] == key);
        }
    }
}

/// The views of a list of keys.
pub open spec fn views<K: View>(keys: Seq<K>) -> Seq<K::V> {
    keys.map_values(|key: K| key@)
}

/// The place of a key among the items, or -1.
spec fn place<K: Key, T>(items: Seq<(K, T)>, key: K::V) -> int
    decreases items.len(),
{
    if items.len() == 0 {
        -1
    } else if items.last().0@ == key {
        items.len() - 1
    } else {
        place(items.drop_last(), key)
    }
}

proof fn lemma_place<K: Key, T>(items: Seq<(K, T)>, key: K::V)
    ensures
        -1 <= place(items, key) < items.len(),
        place(items, key) >= 0 ==> items[place(items, key)].0@ == key,
        place(items, key) < 0 ==> forall|i: int|
            0 <= i < items.len() ==> (#[trigger] items[i]).0@ != key,
    decreases items.len(),
{
    if items.len() > 0 && items.last().0@ != key {
        lemma_place(items.drop_last(), key);
        assert forall|i: int|
            place(items, key) < 0 && 0 <= i < items.len() implies (#[trigger] items[i]).0@ != key by {
            if i < items.len() - 1 {
                assert(items.drop_last()[i] == items[i]);
            }
        }
    }
}

/// The keys of the items are pairwise different.
pub open spec fn distinct_keys<K: Key, T>(items: Seq<(K, T)>) -> bool {
    forall|i: int, j: int|
        0 <= i < j < items.len() ==> (#[trigger] items[i]).0@ != (#[trigger] items[j]).0@
}

/// Keys and values in no promised order, each key once.
pub struct Table<K: Key, T> {
    entries: Vec<(K, T)>,
}

impl<K: Key, T> View for Table<K, T> {
    type V = Map<K::V, T>;

    closed spec fn view(&self) -> Map<K::V, T> {
        Map::new(
            |key: K::V| place(self.entries@, key) >= 0,
            |key: K::V| self.entries@[place(self.entries@, key)].1,
        )
    }
}

impl<K: Key, T> Table<K, T> {
    /// The keys and values in the order in which they are stored.
    pub closed spec fn items(self) -> Seq<(K, T)> {
        self.entries@
    }

    #[verifier::type_invariant]
    spec fn well_keyed(self) -> bool {
        distinct_keys(self.entries@)
    }

    /// The items and the map hold the same associations.
    pub open spec fn agrees(self) -> bool {
        &&& distinct_keys(self.items())
        &&& forall|i: int|
            0 <= i < self.items().len() ==> {
                &&& self@.contains_key((#[trigger] self.items()[i]).0@)
                &&& self@[self.items()[i].0@] == self.items()[i].1
            }
        &&& forall|key: K::V| #[trigger]
            self@.contains_key(key) ==> exists|i: int|
                0 <= i < self.items().len() && (#[trigger] self.items()[i]).0@ == key
    }

    proof fn lemma_agrees(self)
        requires
            distinct_keys(self.entries@),
        ensures
            self.agrees(),
    {
        assert forall|i: int| 0 <= i < self.items().len() implies {
            &&& self@.contains_key((#[trigger] self.items()[i]).0@)
            &&& self@[self.items()[i].0@] == self.items()[i].1
        } by {
            lemma_place(self.entries@, self.items()[i].0@);
        }
        assert forall|key: K::V| #[trigger] self@.contains_key(key) implies exists|i: int|
            0 <= i < self.items().len() && (#[trigger] self.items()[i]).0@ == key by {
            lemma_place(self.entries@, key);
            assert(self.items()[place(self.entries@, key)].0@ == key);
        }
    }

    pub fn new() -> (r: Self)
        ensures
            r@ == Map::<K::V, T>::empty(),
            r.items() == Seq::<(K, T)>::empty(),
    {
        let r = Table { entries: Vec::new() };
        assert(r@ =~= Map::<K::V, T>::empty());
        r
    }

    pub fn len(&self) -> (r: usize)
        ensures
            r == self.items().len(),
            self.agrees(),
    {
        proof {
            use_type_invariant(self);
            self.lemma_agrees();
        }
        self.entries.len()
    }

    pub fn is_empty(&self) -> (r: bool)
        ensures
            r == (self@ == Map::<K::V, T>::empty()),
            r == (forall|key: K::V| !#[trigger] self@.contains_key(key)),
    {
        let n: usize = self.len();
        proof {
            if n == 0 {
                assert(self@ =~= Map::<K::V, T>::empty());
            } else {
                assert(self@.contains_key(self.items()[0].0@));
            }
        }
        n == 0
    }

    /// The item stored at a place.
    pub fn item_at(&self, i: usize) -> (r: &(K, T))
        requires
            i < self.items().len(),
        ensures
            *r == self.items()[i as int],
    {
        &self.entries[i]
    }

    fn find(&self, key: &K) -> (r: Option<usize>)
        ensures
            r is None <==> !self@.contains_key(key@),
            r matches Some(i) ==> i < self.entries@.len() && self.entries@[i as int].0@ == key@
                && self@[key@] == self.entries@[i as int].1,
    {
        proof {
            use_type_invariant(self);
            self.lemma_agrees();
        }
        let mut i: usize = 0;
        while i < self.entries.len()
            invariant
                i <= self.entries@.len(),
                self.agrees(),
                forall|j: int| 0 <= j < i ==> (#[trigger] self.entries@[j]).0@ != key@,
            decreases self.entries@.len() - i,
        {
            if self.entries[i].0.same(key) {
                assert(self.items()[i as int].0@ == key@);
                return Some(i);
            }
            i += 1;
        }
        None
    }

    pub fn contains_key(&self, key: &K) -> (r: bool)
        ensures
            r == self@.contains_key(key@),
    {
        self.find(key).is_some()
    }

    pub fn get(&self, key: &K) -> (r: Option<&T>)
        ensures
            r == (if self@.contains_key(key@) {
                Some(&self@[key@])
            } else {
                None
            }),
    {
        match self.find(key) {
            Some(i) => Some(&self.entries[i].1),
            None => None,
        }
    }

    /// Takes a key and its value out.
    pub fn remove(&mut self, key: &K) -> (r: Option<T>)
        ensures
            final(self)@ == old(self)@.remove(key@),
            r == (if old(self)@.contains_key(key@) {
                Some(old(self)@[key@])
            } else {
                None
            }),
    {
        match self.find(key) {
            Some(i) => {
                proof {
                    use_type_invariant(&*self);
                }
                let ghost before = *self;
                let mut entries: Vec<(K, T)> = Vec::new();
                std::mem::swap(&mut entries, &mut self.entries);
                let taken = entries.remove(i);
                proof {
                    lemma_remove(before.entries@, i as int);
                }
                self.entries = entries;
                assert(self@ =~= before@.remove(key@)) by {
                    assert forall|x: K::V| #[trigger] self@.contains_key(x) implies
                        before@.remove(key@).contains_key(x) && self@[x] == before@[x] by {
                        lemma_removed_place(before.entries@, i as int, x);
                    }
                    assert forall|x: K::V| #[trigger] before@.remove(key@).contains_key(x) implies
                        self@.contains_key(x) by {
                        lemma_removed_place(before.entries@, i as int, x);
                    }
                }
                Some(taken.1)
            },
            None => {
                assert(self@ =~= self@.remove(key@));
                None
            },
        }
    }

    /// Stores a value under a key and hands back the value that it displaces.
    pub fn insert(&mut self, key: K, value: T) -> (r: Option<T>)
        ensures
            final(self)@ == old(self)@.insert(key@, value),
            r == (if old(self)@.contains_key(key@) {
                Some(old(self)@[key@])
            } else {
                None
            }),
    {
        let displaced = self.remove(&key);
        proof {
            use_type_invariant(&*self);
            self.lemma_agrees();
        }
        let ghost before = *self;
        let ghost pair = (key, value);
        let mut entries: Vec<(K, T)> = Vec::new();
        std::mem::swap(&mut entries, &mut self.entries);
        entries.push((key, value));
        assert forall|i: int, j: int| 0 <= i < j < entries@.len() implies
            (#[trigger] entries@[i]).0@ != (#[trigger] entries@[j]).0@ by {
            assert(before.items()[i].0@ == entries@[i].0@);
        }
        self.entries = entries;
        assert(before.entries@.push(pair).drop_last() =~= before.entries@);
        assert(self@ =~= before@.insert(key@, value)) by {
            assert forall|x: K::V|
                #![trigger self@.contains_key(x)]
                #![trigger before@.contains_key(x)]
                {
                    &&& self@.contains_key(x) == before@.insert(key@, value).contains_key(x)
                    &&& self@.contains_key(x) ==> self@[x] == before@.insert(key@, value)[x]
                } by {
                lemma_place(before.entries@, x);
                assert(place(self.entries@, x) == if key@ == x {
                    before.entries@.len() as int
                } else {
                    place(before.entries@, x)
                });
            }
        }
        displaced
    }

    /// The keys, each once.
    pub fn keys(&self) -> (r: Vec<K>)
        ensures
            enumerates(views(r@), self@.dom()),
    {
        let n: usize = self.len();
        let mut keys: Vec<K> = Vec::new();
        let mut i: usize = 0;
        while i < n
            invariant
                i <= n,
                n == self.items().len(),
                keys@ == Seq::new(i as nat, |j: int| self.items()[j].0),
            decreases n - i,
        {
            keys.push(self.item_at(i).0.duplicate());
            i += 1;
            assert(keys@ =~= Seq::new(i as nat, |j: int| self.items()[j].0));
        }
        proof {
            let listed = views(keys@);
            assert forall|a: int, b: int|
                0 <= a < listed.len() && 0 <= b < listed.len() && a != b implies listed[a]
                != listed[b] by {
                assert(self.items()[a].0@ == listed[a]);
                assert(self.items()[b].0@ == listed[b]);
            }
            assert forall|key: K::V| #[trigger] listed.contains(key) <==> self@.dom().contains(
                key,
            ) by {
                if listed.contains(key) {
                    let j = listed.index_of(key);
                    assert(self.items()[j].0@ == key);
                }
                if self@.contains_key(key) {
                    let j = choose|j: int|
                        0 <= j < self.items().len() && (#[trigger] self.items()[j]).0@ == key;
                    assert(listed[j] == key);
                }
            }
        }
        keys
    }

    /// The values, each key's once.
    pub fn into_values(self) -> (r: Vec<T>)
        ensures
            lists(r@, self@),
    {
        let n: usize = self.len();
        let mut entries = self.entries;
        let ghost items = entries@;
        let mut values: Vec<T> = Vec::new();
        let ghost mut keys: Seq<K::V> = Seq::empty();
        while entries.len() > 0
            invariant
                entries@.len() <= items.len(),
                entries@ == items.take(entries@.len() as int),
                values@.len() == items.len() - entries@.len(),
                keys.len() == values@.len(),
                forall|j: int| #![auto]
                    0 <= j < keys.len() ==> keys[j] == items[items.len() - 1 - j].0@ && values@[j]
                        == items[items.len() - 1 - j].1,
            decreases entries@.len(),
        {
            let ghost last = entries@.len() - 1;
            let taken = entries.pop();
            if let Some((key, value)) = taken {
                proof {
                    keys = keys.push(key@);
                }
                values.push(value);
            }
            assert(entries@ =~= items.take(entries@.len() as int));
        }
        proof {
            assert forall|a: int, b: int|
                0 <= a < keys.len() && 0 <= b < keys.len() && a != b implies keys[a] != keys[b] by {
                assert(self.items()[items.len() - 1 - a].0@ == keys[a]);
                assert(self.items()[items.len() - 1 - b].0@ == keys[b]);
            }
            assert forall|key: K::V| #[trigger] keys.contains(key) <==> self@.dom().contains(key) by {
                if keys.contains(key) {
                    let j = keys.index_of(key);
                    assert(self.items()[items.len() - 1 - j].0@ == key);
                }
                if self@.contains_key(key) {
                    let j = choose|j: int|
                        0 <= j < self.items().len() && (#[trigger] self.items()[j]).0@ == key;
                    assert(keys[items.len() - 1 - j] == key);
                }
            }
            assert(enumerates(keys, self@.dom()));
            assert(values@ =~= keys.map_values(|key: K::V| self@[key])) by {
                assert forall|j: int| 0 <= j < keys.len() implies values@[j] == self@[keys[j]] by {
                    assert(self.items()[items.len() - 1 - j].0@ == keys[j]);
                }
            }
        }
        values
    }

    /// Replaces the value stored at a place, and hands the old one back.
    pub fn replace_at(&mut self, i: usize, value: T) -> (r: T)
        requires
            i < old(self).items().len(),
        ensures
            r == old(self).items()[i as int].1,
            final(self).items() == old(self).items().update(
                i as int,
                (old(self).items()[i as int].0, value),
            ),
            final(self)@ == old(self)@.insert(old(self).items()[i as int].0@, value),
    {
        proof {
            use_type_invariant(&*self);
            self.lemma_agrees();
        }
        let ghost before = *self;
        let mut entries: Vec<(K, T)> = Vec::new();
        std::mem::swap(&mut entries, &mut self.entries);
        let (key, taken) = entries.remove(i);
        entries.insert(i, (key, value));
        assert(entries@ =~= before.entries@.update(i as int, (key, value)));
        assert(distinct_keys(entries@)) by {
            assert forall|a: int, b: int| 0 <= a < b < entries@.len() implies
                (#[trigger] entries@[a]).0@ != (#[trigger] entries@[b]).0@ by {
                assert(before.entries@[a].0@ != before.entries@[b].0@);
            }
        }
        self.entries = entries;
        assert(self@ =~= before@.insert(key@, value)) by {
            assert forall|x: K::V|
                #![trigger self@.contains_key(x)]
                #![trigger before@.contains_key(x)]
                {
                    &&& self@.contains_key(x) == before@.insert(key@, value).contains_key(x)
                    &&& self@.contains_key(x) ==> self@[x] == before@.insert(key@, value)[x]
                } by {
                lemma_same_keys(before.entries@, self.entries@, x);
                lemma_place(before.entries@, x);
                let p = place(before.entries@, x);
                if p >= 0 && x != key@ {
                    assert(p != i);
                }
                if x == key@ {
                    lemma_place(before.entries@, key@);
                    if p < 0 {
                        assert(before.entries@[i as int].0@ == key@);
                    } else if p != i {
                        assert(before.entries@[p].0@ == before.entries@[i as int].0@);
                    }
                }
            }
        }
        taken
    }
}

proof fn lemma_same_keys<K: Key, T>(left: Seq<(K, T)>, right: Seq<(K, T)>, key: K::V)
    requires
        left.len() == right.len(),
        forall|i: int| 0 <= i < left.len() ==> (#[trigger] left[i]).0@ == right[i].0@,
    ensures
        place(left, key) == place(right, key),
    decreases left.len(),
{
    if left.len() > 0 {
        assert(left[left.len() - 1].0@ == right[left.len() - 1].0@);
        assert forall|i: int| 0 <= i < left.drop_last().len() implies
            (#[trigger] left.drop_last()[i]).0@ == right.drop_last()[i].0@ by {
            assert(left[i].0@ == right[i].0@);
        }
        lemma_same_keys(left.drop_last(), right.drop_last(), key);
    }
}

proof fn lemma_remove<K: Key, T>(items: Seq<(K, T)>, gone: int)
    requires
        distinct_keys(items),
        0 <= gone < items.len(),
    ensures
        distinct_keys(items.remove(gone)),
{
    let rest = items.remove(gone);
    assert forall|i: int, j: int| 0 <= i < j < rest.len() implies (#[trigger] rest[i]).0@ != (
    #[trigger] rest[j]).0@ by {
        let a = if i < gone { i } else { i + 1 };
        let b = if j < gone { j } else { j + 1 };
        assert(items[a].0@ != items[b].0@);
    }
}

/// Taking one item out moves no other key to another value.
proof fn lemma_removed_place<K: Key, T>(items: Seq<(K, T)>, gone: int, key: K::V)
    requires
        distinct_keys(items),
        0 <= gone < items.len(),
    ensures
        ({
            let rest = items.remove(gone);
            &&& place(rest, key) >= 0 <==> place(items, key) >= 0 && key != items[gone].0@
            &&& place(rest, key) >= 0 ==> rest[place(rest, key)].1 == items[place(items, key)].1
        }),
{
    let rest = items.remove(gone);
    lemma_place(items, key);
    lemma_place(rest, key);
    lemma_remove(items, gone);
    if place(rest, key) >= 0 {
        let p = place(rest, key);
        let a = if p < gone { p } else { p + 1 };
        assert(items[a] == rest[p]);
        assert(items[a].0@ == key);
        let q = place(items, key);
        if q != a {
            assert(items[q].0@ == key);
            assert(false);
        }
        if key == items[gone].0@ {
            assert(false);
        }
    } else if place(items, key) >= 0 && key != items[gone].0@ {
        let q = place(items, key);
        let b = if q < gone { q } else { q - 1 };
        assert(rest[b] == items[q]);
    }
}

} // verus!
