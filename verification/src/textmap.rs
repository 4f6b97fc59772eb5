//! A map from texts, kept in dictionary order.
use crate::text::{
    is_text_le, lemma_text_le_antisymmetric, lemma_text_le_total, lemma_text_le_transitive, text_le,
};
use vstd::prelude::*;

verus! {

/// The names of entries.
pub open spec fn names_of<T>(entries: Seq<(String, T)>) -> Seq<Seq<char>> {
    entries.map_values(|entry: (String, T)| entry.0@)
}

/// Texts in dictionary order, each once.
pub open spec fn is_strictly_sorted(names: Seq<Seq<char>>) -> bool {
    forall|i: int, j: int|
        0 <= i < j < names.len() ==> text_le(#[trigger] names[i], #[trigger] names[j]) && names[i]
            != names[j]
}

/// The map that entries make up.
pub open spec fn map_of<T>(entries: Seq<(String, T)>) -> Map<Seq<char>, T>
    decreases entries.len(),
{
    if entries.len() == 0 {
        Map::empty()
    } else {
        map_of(entries.drop_last()).insert(entries.last().0@, entries.last().1)
    }
}

/// A map from texts, whose entries stand in dictionary order.
#[derive(Debug)]
pub struct TextMap<T> {
    entries: Vec<(String, T)>,
}

impl<T> View for TextMap<T> {
    type V = Map<Seq<char>, T>;

    closed spec fn view(&self) -> Map<Seq<char>, T> {
        map_of(self.entries@)
    }
}

/// What the map of sorted entries holds.
proof fn lemma_map_of<T>(entries: Seq<(String, T)>)
    requires
        is_strictly_sorted(names_of(entries)),
    ensures
        forall|i: int|
            0 <= i < entries.len() ==> map_of(entries).contains_key(
                (#[trigger] entries[i]).0@,
            ) && map_of(entries)[entries[i].0@] == entries[i].1,
        forall|name: Seq<char>| #[trigger]
            map_of(entries).contains_key(name) ==> names_of(entries).contains(name),
    decreases entries.len(),
{
    if entries.len() > 0 {
        let fewer = entries.drop_last();
        assert(names_of(fewer) =~= names_of(entries).drop_last());
        lemma_map_of(fewer);
        assert forall|i: int| 0 <= i < entries.len() implies map_of(entries).contains_key(
            (#[trigger] entries[i]).0@,
        ) && map_of(entries)[entries[i].0@] == entries[i].1 by {
            if i < entries.len() - 1 {
                assert(fewer[i] == entries[i]);
                assert(names_of(entries)[i] != names_of(entries)[entries.len() - 1]);
            }
        }
        assert forall|name: Seq<char>| #[trigger] map_of(entries).contains_key(name) implies names_of(
            entries,
        ).contains(name) by {
            if name == entries.last().0@ {
                assert(names_of(entries)[entries.len() - 1] == name);
            } else {
                assert(names_of(fewer).contains(name));
                let at = names_of(fewer).index_of(name);
                assert(names_of(entries)[at] == name);
            }
        }
    }
}

impl<T> TextMap<T> {
    #[verifier::type_invariant]
    spec fn in_order(self) -> bool {
        is_strictly_sorted(names_of(self.entries@))
    }

    /// The entries, in order.
    pub closed spec fn items(&self) -> Seq<(String, T)> {
        self.entries@
    }

    pub fn new() -> (r: Self)
        ensures
            r@ == Map::<Seq<char>, T>::empty(),
            r.items().len() == 0,
    {
        TextMap { entries: Vec::new() }
    }

    /// How many entries there are. They stand in dictionary order, each name once, and are what the map
    /// holds.
    pub fn len(&self) -> (r: usize)
        ensures
            r == self.items().len(),
            is_strictly_sorted(names_of(self.items())),
            self@ == map_of(self.items()),
    {
        proof {
            use_type_invariant(self);
        }
        self.entries.len()
    }

    /// An entry, by its place.
    pub fn item_at(&self, i: usize) -> (r: &(String, T))
        requires
            i < self.items().len(),
        ensures
            *r == self.items()[i as int],
    {
        &self.entries[i]
    }

    /// Puts a value under a name, in the place of the one that was there.
    pub fn insert(&mut self, name: String, value: T)
        ensures
            final(self)@ == old(self)@.insert(name@, value),
    {
        proof {
            use_type_invariant(&*self);
        }
        let mut entries: Vec<(String, T)> = Vec::new();
        std::mem::swap(&mut entries, &mut self.entries);
        let ghost before = entries@;
        let ghost names = names_of(before);
        let mut place: usize = 0;
        while place < entries.len() && !is_text_le(name.as_str(), entries[place].0.as_str())
            invariant
                place <= entries@.len(),
                entries@ == before,
                names == names_of(before),
                forall|j: int| 0 <= j < place ==> !text_le(name@, #[trigger] names[j]),
            decreases entries@.len() - place,
        {
            place = place + 1;
        }
        let taken = place < entries.len() && entries[place].0 == name;
        let ghost item = (name, value);
        let ghost p = place as int;
        if taken {
            let _ = entries.remove(place);
        }
        let ghost rest = entries@;
        entries.insert(place, (name, value));
        proof {
            let after = entries@;
            let sorted = names_of(after);
            let kept = names_of(rest);
            lemma_insertion(before, rest, after, item, p, taken);
            lemma_map_of(before);
            lemma_map_of(after);
            assert forall|key: Seq<char>| #[trigger] map_of(after).contains_key(key) == (map_of(
                before,
            ).insert(item.0@, value)).contains_key(key) by {
                lemma_same_names(before, after, item, p, taken, key);
            }
            assert forall|key: Seq<char>| #[trigger] map_of(after).contains_key(key) implies map_of(
                after,
            )[key] == map_of(before).insert(item.0@, value)[key] by {
                lemma_same_names(before, after, item, p, taken, key);
            }
            assert(map_of(after) =~= map_of(before).insert(item.0@, value));
        }
        self.entries = entries;
    }
}

/// An entry that is put in its place keeps the order.
proof fn lemma_insertion<T>(
    before: Seq<(String, T)>,
    rest: Seq<(String, T)>,
    after: Seq<(String, T)>,
    item: (String, T),
    place: int,
    taken: bool,
)
    requires
        is_strictly_sorted(names_of(before)),
        0 <= place <= before.len(),
        taken ==> place < before.len() && before[place].0@ == item.0@,
        rest == if taken {
            before.remove(place)
        } else {
            before
        },
        after == rest.insert(place, item),
        forall|j: int| 0 <= j < place ==> !text_le(item.0@, #[trigger] names_of(before)[j]),
        place < before.len() ==> text_le(item.0@, names_of(before)[place]),
        !taken && place < before.len() ==> before[place].0@ != item.0@,
    ensures
        is_strictly_sorted(names_of(after)),
{
    let names = names_of(before);
    let sorted = names_of(after);
    assert forall|i: int, j: int| 0 <= i < j < sorted.len() implies text_le(
        #[trigger] sorted[i],
        #[trigger] sorted[j],
    ) && sorted[i] != sorted[j] by {
        let skip: int = if taken {
            0
        } else {
            1
        };
        let a = if i < place {
            i
        } else {
            i - skip
        };
        let b = if j < place {
            j
        } else {
            j - skip
        };
        if i != place {
            assert(sorted[i] == names[a]);
        }
        if j != place {
            assert(sorted[j] == names[b]);
        }
        if j == place {
            assert(!text_le(item.0@, names[i]));
            lemma_text_le_total(item.0@, names[i]);
        } else if i == place {
            if b == place {
                assert(text_le(item.0@, names[place]));
            } else {
                assert(text_le(names[place], names[b]) && names[place] != names[b]);
                lemma_text_le_transitive(item.0@, names[place], names[b]);
                if item.0@ == names[b] {
                    lemma_text_le_antisymmetric(names[place], names[b]);
                }
            }
        }
    }
}

/// What an inserted entry does to the entries under one name.
proof fn lemma_same_names<T>(
    before: Seq<(String, T)>,
    after: Seq<(String, T)>,
    item: (String, T),
    place: int,
    taken: bool,
    key: Seq<char>,
)
    requires
        is_strictly_sorted(names_of(before)),
        is_strictly_sorted(names_of(after)),
        0 <= place <= before.len(),
        taken ==> place < before.len() && before[place].0@ == item.0@,
        after == (if taken {
            before.remove(place)
        } else {
            before
        }).insert(place, item),
    ensures
        map_of(after).contains_key(key) <==> map_of(before).contains_key(key) || key == item.0@,
        key == item.0@ ==> map_of(after)[key] == item.1,
        key != item.0@ && map_of(before).contains_key(key) ==> map_of(after)[key] == map_of(
            before,
        )[key],
{
    lemma_map_of(before);
    lemma_map_of(after);
    assert(after[place] == item);
    if map_of(before).contains_key(key) && key != item.0@ {
        let at = names_of(before).index_of(key);
        assert(before[at].0@ == key);
        let to: int = if at < place || taken {
            at
        } else {
            at + 1
        };
        assert(after[to] == before[at]);
    }
    if map_of(after).contains_key(key) && key != item.0@ {
        let at = names_of(after).index_of(key);
        assert(after[at].0@ == key);
        let from: int = if at < place || taken {
            at
        } else {
            at - 1
        };
        assert(after[at] == before[from]);
    }
}

} // verus!
