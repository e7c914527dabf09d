//! A table of values by name that remembers the order in which the names
//! came in.

use crate::text::str_eq;
use vstd::prelude::*;
use vstd::string::*;

verus! {

struct Slot<V> {
    name: String,
    value: V,
}

spec fn slot_names<V>(slots: Seq<Slot<V>>) -> Seq<Seq<char>> {
    slots.map_values(|slot: Slot<V>| slot.name@)
}

spec fn slot_values<V>(slots: Seq<Slot<V>>) -> Map<Seq<char>, V> {
    Map::new(
        |name: Seq<char>| slot_names(slots).contains(name),
        |name: Seq<char>| slots[slot_names(slots).index_of(name)].value,
    )
}

/// In a sequence without duplicates an element stands where it is found.
proof fn lemma_index_of_unique(names: Seq<Seq<char>>, i: int)
    requires
        names.no_duplicates(),
        0 <= i < names.len(),
    ensures
        names.index_of(names[i]) == i,
        names.contains(names[i]),
{
    let k = names.index_of(names[i]);
    assert(names.contains(names[i]));
    assert(names[k] == names[i]);
}

/// Replacing the value of a slot changes the value under the name of the
/// slot, and nothing else.
proof fn lemma_replace_value<V>(slots: Seq<Slot<V>>, i: int, slot: Slot<V>)
    requires
        slot_names(slots).no_duplicates(),
        0 <= i < slots.len(),
        slot.name == slots[i].name,
    ensures
        slot_names(slots.update(i, slot)) == slot_names(slots),
        slot_values(slots.update(i, slot)) == slot_values(slots).insert(slots[i].name@, slot.value),
{
    let after = slots.update(i, slot);
    let names = slot_names(slots);
    assert(slot_names(after) =~= names);
    assert(names[i] == slots[i].name@);
    assert forall|n: Seq<char>| #[trigger] slot_values(after).dom().contains(n) implies slot_values(
        after,
    )[n] == slot_values(slots).insert(slots[i].name@, slot.value)[n] by {
        let k = names.index_of(n);
        assert(names[k] == n);
    }
    assert(slot_values(after) =~= slot_values(slots).insert(slots[i].name@, slot.value));
}

/// Values by name, in the order in which the names were first put in.
pub struct NameTable<V> {
    slots: Vec<Slot<V>>,
}

impl<V> View for NameTable<V> {
    type V = Map<Seq<char>, V>;

    /// The value of each name.
    closed spec fn view(&self) -> Map<Seq<char>, V> {
        slot_values(self.slots@)
    }
}

impl<V> NameTable<V> {
    /// The names of the table, in the order in which they were put in.
    pub closed spec fn names(&self) -> Seq<Seq<char>> {
        slot_names(self.slots@)
    }

    /// No name occurs twice, and the names are those that have a value.
    /// Every table that this library hands out is well formed, and every
    /// operation keeps it so.
    pub closed spec fn well_formed(&self) -> bool {
        slot_names(self.slots@).no_duplicates()
    }

    /// The names of a well-formed table are the keys of its view, each once.
    pub proof fn lemma_names_are_keys(&self)
        requires
            self.well_formed(),
        ensures
            self.names().no_duplicates(),
            self@.dom() == self.names().to_set(),
            self@.dom().finite(),
            self@.len() == self.names().len(),
    {
        self.names().unique_seq_to_set();
        assert(self@.dom() =~= self.names().to_set());
    }

    /// An empty table.
    pub fn new() -> (table: Self)
        ensures
            table.well_formed(),
            table@ == Map::<Seq<char>, V>::empty(),
            table.names() == Seq::<Seq<char>>::empty(),
    {
        let table = Self { slots: Vec::new() };
        assert(table@ =~= Map::<Seq<char>, V>::empty());
        assert(table.names() =~= Seq::<Seq<char>>::empty());
        table
    }

    fn position(&self, name: &str) -> (found: Option<usize>)
        requires
            self.well_formed(),
        ensures
            found is Some == self@.contains_key(name@),
            found is Some == self.names().contains(name@),
            found matches Some(i) ==> i < self.slots@.len() && self.slots@[i as int].name@ == name@
                && self.names().index_of(name@) == i && self@[name@] == self.slots@[i as int].value,
    {
        let mut i: usize = 0;
        while i < self.slots.len()
            invariant
                i <= self.slots.len(),
                self.well_formed(),
                forall|j: int| 0 <= j < i ==> #[trigger] slot_names(self.slots@)[j] != name@,
            decreases self.slots.len() - i,
        {
            if str_eq(self.slots[i].name.as_str(), name) {
                proof {
                    assert(slot_names(self.slots@)[i as int] == name@);
                    lemma_index_of_unique(slot_names(self.slots@), i as int);
                }
                return Some(i);
            }
            i += 1;
        }
        proof {
            let names = slot_names(self.slots@);
            if names.contains(name@) {
                let k = choose|k: int| 0 <= k < names.len() && names[k] == name@;
                assert(names[k] != name@);
            }
        }
        None
    }

    /// Whether the name has a value.
    pub fn contains_key(&self, name: &str) -> (found: bool)
        requires
            self.well_formed(),
        ensures
            found == self@.contains_key(name@),
    {
        self.position(name).is_some()
    }

    /// The value of the name.
    pub fn get(&self, name: &str) -> (value: Option<&V>)
        requires
            self.well_formed(),
        ensures
            value is Some == self@.contains_key(name@),
            value matches Some(v) ==> *v == self@[name@],
    {
        match self.position(name) {
            Some(i) => Some(&self.slots[i].value),
            None => None,
        }
    }

    /// A mutable reference to the value of the name. What is written
    /// through it is the value of the name afterwards.
    pub fn get_mut(&mut self, name: &str) -> (value: Option<&mut V>)
        requires
            old(self).well_formed(),
        ensures
            final(self).well_formed(),
            final(self).names() == old(self).names(),
            value is Some == old(self)@.contains_key(name@),
            value matches Some(v) ==> *v == old(self)@[name@] && final(self)@ == old(self)@.insert(
                name@,
                *final(v),
            ),
            value is None ==> final(self)@ == old(self)@,
    {
        match self.position(name) {
            Some(i) => {
                proof {
                    let before = self.slots@;
                    assert forall|slot: Slot<V>| slot.name == before[i as int].name implies slot_names(
                        #[trigger] before.update(i as int, slot),
                    ) == slot_names(before) && slot_values(before.update(i as int, slot))
                        == slot_values(before).insert(name@, slot.value) by {
                        lemma_replace_value(before, i as int, slot);
                    }
                }
                let slot = &mut self.slots[i];
                Some(&mut slot.value)
            },
            None => None,
        }
    }

    /// Puts the value under the name and hands back the value that stood
    /// there before. A new name joins the names at the end; a known name
    /// keeps its place.
    pub fn insert(&mut self, name: String, value: V) -> (replaced: Option<V>)
        requires
            old(self).well_formed(),
        ensures
            final(self).well_formed(),
            final(self)@ == old(self)@.insert(name@, value),
            replaced == (if old(self)@.contains_key(name@) {
                Some(old(self)@[name@])
            } else {
                None
            }),
            final(self).names() == (if old(self)@.contains_key(name@) {
                old(self).names()
            } else {
                old(self).names().push(name@)
            }),
    {
        let ghost key = name@;
        let found = self.position(name.as_str());
        let replaced = match found {
            Some(i) => {
                let previous = self.slots.remove(i);
                self.slots.insert(i, Slot { name, value });
                proof {
                    assert(slot_names(self.slots@) =~= slot_names(old(self).slots@));
                }
                Some(previous.value)
            },
            None => {
                self.slots.push(Slot { name, value });
                proof {
                    let before = slot_names(old(self).slots@);
                    let after = slot_names(self.slots@);
                    assert(after =~= before.push(key));
                    assert forall|a: int, b: int|
                        0 <= a < after.len() && 0 <= b < after.len() && a != b implies after[a]
                        != after[b] by {
                        if a < before.len() && b < before.len() {
                            assert(before[a] != before[b]);
                        } else if a < before.len() {
                            assert(before.contains(before[a]));
                        } else {
                            assert(before.contains(before[b]));
                        }
                    }
                }
                None
            },
        };
        proof {
            let before = slot_names(old(self).slots@);
            let after = slot_names(self.slots@);
            let at = if before.contains(key) {
                before.index_of(key)
            } else {
                before.len() as int
            };
            assert(after[at] == key);
            lemma_index_of_unique(after, at);
            assert forall|n: Seq<char>| #[trigger]
                self@.dom().contains(n) == old(self)@.insert(key, value).dom().contains(n) by {
                if after.contains(n) && n != key {
                    let k = choose|k: int| 0 <= k < after.len() && after[k] == n;
                    assert(before[k] == n);
                }
                if before.contains(n) {
                    let k = choose|k: int| 0 <= k < before.len() && before[k] == n;
                    assert(after[k] == n);
                }
            }
            assert forall|n: Seq<char>| #[trigger] self@.dom().contains(n) implies self@[n] == old(
                self,
            )@.insert(key, value)[n] by {
                let k = after.index_of(n);
                assert(after[k] == n);
                if n != key {
                    assert(k < before.len() && before[k] == n);
                    lemma_index_of_unique(before, k);
                }
            }
            assert(self@ =~= old(self)@.insert(key, value));
        }
        replaced
    }

    /// Takes the name and its value out of the table and hands the value
    /// back. The other names keep their order.
    pub fn remove(&mut self, name: &str) -> (removed: Option<V>)
        requires
            old(self).well_formed(),
        ensures
            final(self).well_formed(),
            final(self)@ == old(self)@.remove(name@),
            removed == (if old(self)@.contains_key(name@) {
                Some(old(self)@[name@])
            } else {
                None
            }),
            final(self).names() == (if old(self)@.contains_key(name@) {
                old(self).names().remove(old(self).names().index_of(name@))
            } else {
                old(self).names()
            }),
    {
        let found = self.position(name);
        match found {
            Some(i) => {
                let slot = self.slots.remove(i);
                proof {
                    let before = slot_names(old(self).slots@);
                    let after = slot_names(self.slots@);
                    assert(after =~= before.remove(i as int));
                    assert forall|a: int, b: int|
                        0 <= a < after.len() && 0 <= b < after.len() && a != b implies after[a]
                        != after[b] by {
                        let a0 = if a < i {
                            a
                        } else {
                            a + 1
                        };
                        let b0 = if b < i {
                            b
                        } else {
                            b + 1
                        };
                        assert(before[a0] != before[b0]);
                    }
                    assert forall|n: Seq<char>| #[trigger]
                        self@.dom().contains(n) == old(self)@.remove(name@).dom().contains(n) by {
                        if after.contains(n) {
                            let k = choose|k: int| 0 <= k < after.len() && after[k] == n;
                            let k0 = if k < i {
                                k
                            } else {
                                k + 1
                            };
                            assert(before[k0] == n);
                            assert(before[i as int] == name@);
                            assert(n != name@);
                        }
                        if before.contains(n) && n != name@ {
                            let k = choose|k: int| 0 <= k < before.len() && before[k] == n;
                            let k1 = if k < i {
                                k
                            } else {
                                k - 1
                            };
                            assert(after[k1] == n);
                        }
                    }
                    assert forall|n: Seq<char>| #[trigger] self@.dom().contains(n) implies self@[n]
                        == old(self)@.remove(name@)[n] by {
                        let k = after.index_of(n);
                        assert(after[k] == n);
                        let k0 = if k < i {
                            k
                        } else {
                            k + 1
                        };
                        assert(before[k0] == n);
                        lemma_index_of_unique(before, k0);
                    }
                    assert(self@ =~= old(self)@.remove(name@));
                }
                Some(slot.value)
            },
            None => {
                proof {
                    assert(self@ =~= old(self)@.remove(name@));
                }
                None
            },
        }
    }

    /// Number of names.
    pub fn len(&self) -> (n: usize)
        requires
            self.well_formed(),
        ensures
            n == self@.len(),
            n == self.names().len(),
            self@.dom().finite(),
    {
        proof {
            self.lemma_names_are_keys();
        }
        self.slots.len()
    }

    /// Whether the table has no name.
    pub fn is_empty(&self) -> (empty: bool)
        requires
            self.well_formed(),
        ensures
            empty == (self@.len() == 0),
            self@.dom().finite(),
    {
        self.len() == 0
    }

    /// The names of the table, in the order in which they were put in.
    pub fn keys(&self) -> (names: Vec<String>)
        requires
            self.well_formed(),
        ensures
            names@.map_values(|name: String| name@) == self.names(),
    {
        let mut names: Vec<String> = Vec::new();
        let mut i: usize = 0;
        while i < self.slots.len()
            invariant
                i <= self.slots.len(),
                names@.len() == i,
                forall|j: int| 0 <= j < i ==> (#[trigger] names@[j])@ == self.slots@[j].name@,
            decreases self.slots.len() - i,
        {
            names.push(self.slots[i].name.clone());
            i += 1;
        }
        assert(names@.map_values(|name: String| name@) =~= self.names());
        names
    }
}

} // verus!
