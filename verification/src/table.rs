//! A table of ledger entries, one for each key.

use vstd::prelude::*;

use crate::key::{DataKey, KeyView};

verus! {

/// Entries of one type, at most one under each key.
#[derive(Debug)]
pub struct Table<V> {
    entries: Vec<(DataKey, V)>,
}

/// No two entries stand under the same key.
spec fn keys_differ<V>(entries: Seq<(DataKey, V)>) -> bool {
    forall|i: int, j: int|
        0 <= i < entries.len() && 0 <= j < entries.len() && i != j
            ==> #[trigger] entries[i].0@ != #[trigger] entries[j].0@
}

/// The entry at `index` stands under `key`.
spec fn stands_at<V>(entries: Seq<(DataKey, V)>, key: KeyView, index: int) -> bool {
    0 <= index < entries.len() && entries[index].0@ == key
}

/// What the entries say: under each key, the value that stands there.
spec fn contents<V: View>(entries: Seq<(DataKey, V)>) -> Map<KeyView, V::V> {
    Map::new(
        |key: KeyView| exists|index: int| stands_at(entries, key, index),
        |key: KeyView| entries[choose|index: int| stands_at(entries, key, index)].1@,
    )
}

/// Changing or adding one entry changes what the entries say under its key alone.
proof fn lemma_contents_insert<V: View>(
    before: Seq<(DataKey, V)>,
    after: Seq<(DataKey, V)>,
    place: int,
)
    requires
        keys_differ(before),
        keys_differ(after),
        0 <= place < after.len(),
        before.len() <= after.len(),
        forall|i: int|
            0 <= i < after.len() && i != place ==> i < before.len() && #[trigger] after[i]
                == before[i],
        place < before.len() ==> before[place].0@ == after[place].0@,
    ensures
        contents(after) == contents(before).insert(after[place].0@, after[place].1@),
{
    let key = after[place].0@;
    let expected = contents(before).insert(key, after[place].1@);
    assert(stands_at(after, key, place));
    assert forall|k: KeyView| contents(after).contains_key(k) <==> expected.contains_key(k) by {
        if k != key {
            if contents(after).contains_key(k) {
                let i = choose|index: int| stands_at(after, k, index);
                assert(stands_at(before, k, i));
            }
            if contents(before).contains_key(k) {
                let i = choose|index: int| stands_at(before, k, index);
                assert(after[i] == before[i]);
                assert(stands_at(after, k, i));
            }
        }
    }
    assert forall|k: KeyView| contents(after).contains_key(k) implies contents(after)[k]
        == expected[k] by {
        let i = choose|index: int| stands_at(after, k, index);
        if k != key {
            assert(stands_at(before, k, i));
            let j = choose|index: int| stands_at(before, k, index);
            assert(before[i].0@ == before[j].0@);
        } else {
            assert(after[i].0@ == after[place].0@);
        }
    }
    assert(contents(after) =~= expected);
}

impl<V: View> View for Table<V> {
    type V = Map<KeyView, V::V>;

    closed spec fn view(&self) -> Map<KeyView, V::V> {
        contents(self.entries@)
    }
}

impl<V> Table<V> {
    #[verifier::type_invariant]
    spec fn well_formed(self) -> bool {
        keys_differ(self.entries@)
    }
}

impl<V: View> Table<V> {
    /// A table without entries.
    pub fn new() -> (table: Table<V>)
        ensures
            table@ == Map::<KeyView, V::V>::empty(),
    {
        let table = Table { entries: Vec::new() };
        assert(table@ =~= Map::<KeyView, V::V>::empty());
        table
    }

    /// The place of the entry under `key`.
    fn position(&self, key: &DataKey) -> (place: Option<usize>)
        ensures
            match place {
                Some(index) => stands_at(self.entries@, key@, index as int),
                None => forall|index: int| !stands_at(self.entries@, key@, index),
            },
    {
        let mut index: usize = 0;
        while index < self.entries.len()
            invariant
                index <= self.entries@.len(),
                forall|i: int| 0 <= i < index ==> !stands_at(self.entries@, key@, i),
            decreases self.entries@.len() - index,
        {
            if self.entries[index].0 == *key {
                return Some(index);
            }
            index = index + 1;
        }
        None
    }

    /// The entry under `key`.
    pub fn get(&self, key: &DataKey) -> (entry: Option<&V>)
        ensures
            match entry {
                Some(value) => self@.contains_key(key@) && self@[key@] == value@,
                None => !self@.contains_key(key@),
            },
    {
        proof {
            use_type_invariant(self);
        }
        match self.position(key) {
            Some(index) => {
                assert(stands_at(self.entries@, key@, index as int));
                Some(&self.entries[index].1)
            },
            None => None,
        }
    }

    /// Puts `value` under `key`, in place of what stood there.
    pub fn set(&mut self, key: DataKey, value: V)
        ensures
            final(self)@ == old(self)@.insert(key@, value@),
    {
        proof {
            use_type_invariant(&*self);
        }
        let place = self.position(&key);
        let ghost before = self.entries@;
        let ghost ghost_key = key@;
        let mut entries: Vec<(DataKey, V)> = Vec::new();
        std::mem::swap(&mut entries, &mut self.entries);
        match place {
            Some(index) => {
                entries.set(index, (key, value));
            },
            None => {
                entries.push((key, value));
            },
        }
        let ghost index: int = match place {
            Some(index) => index as int,
            None => before.len() as int,
        };
        assert(forall|i: int| 0 <= i < before.len() && i != index ==> entries@[i] == before[i]);
        assert(stands_at(entries@, ghost_key, index));
        assert(keys_differ(entries@)) by {
            assert forall|i: int, j: int|
                0 <= i < entries@.len() && 0 <= j < entries@.len() && i != j implies #[trigger]
            entries@[i].0@ != #[trigger] entries@[j].0@ by {
                if place is None {
                    assert(!stands_at(before, ghost_key, i));
                    assert(!stands_at(before, ghost_key, j));
                }
            }
        }
        self.entries = entries;
        proof {
            lemma_contents_insert(before, self.entries@, index);
        }
    }
}

} // verus!
