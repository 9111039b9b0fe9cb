//! The labels of a node: a map from key to value, kept as a list in which no
//! key stands twice.

use vstd::prelude::*;

verus! {

/// One label of a node.
#[derive(Debug)]
struct LabelEntry {
    key: String,
    value: String,
}

/// The labels of a node: each key at most once, in no particular order.
#[derive(Debug)]
pub struct LabelMap {
    entries: Vec<LabelEntry>,
}

/// Whether some entry carries `key`.
spec fn has_key(entries: Seq<LabelEntry>, key: Seq<char>) -> bool {
    exists|i: int| 0 <= i < entries.len() && (#[trigger] entries[i]).key@ == key
}

/// The place of an entry that carries `key`.
spec fn place_of(entries: Seq<LabelEntry>, key: Seq<char>) -> int {
    choose|i: int| 0 <= i < entries.len() && (#[trigger] entries[i]).key@ == key
}

/// No two entries carry the same key.
spec fn distinct_keys(entries: Seq<LabelEntry>) -> bool {
    forall|i: int, j: int|
        0 <= i < j < entries.len() ==> (#[trigger] entries[i]).key@ != (#[trigger] entries[j]).key@
}

/// The map that the entries stand for.
spec fn entries_map(entries: Seq<LabelEntry>) -> Map<Seq<char>, Seq<char>> {
    Map::new(
        |key: Seq<char>| has_key(entries, key),
        |key: Seq<char>| entries[place_of(entries, key)].value@,
    )
}

impl View for LabelMap {
    type V = Map<Seq<char>, Seq<char>>;

    closed spec fn view(&self) -> Map<Seq<char>, Seq<char>> {
        entries_map(self.entries@)
    }
}

impl LabelMap {
    #[verifier::type_invariant]
    spec fn well_formed(self) -> bool {
        distinct_keys(self.entries@)
    }

    /// A node's labels with nothing in them.
    pub fn new() -> (labels: LabelMap)
        ensures
            labels@ == Map::<Seq<char>, Seq<char>>::empty(),
    {
        let labels = LabelMap { entries: Vec::new() };
        labels
    }

    /// How many labels the node has.
    pub fn len(&self) -> (count: usize)
        ensures
            count == self@.len(),
            self@.dom().finite(),
    {
        proof {
            use_type_invariant(self);
            lemma_one_key_per_entry(self.entries@);
        }
        self.entries.len()
    }

    /// Whether the node has no label at all.
    pub fn is_empty(&self) -> (empty: bool)
        ensures
            empty == (self@.len() == 0),
    {
        self.len() == 0
    }

    /// The value that `key` carries, if the node has the label.
    pub fn get(&self, key: &String) -> (value: Option<&String>)
        ensures
            match value {
                Some(found) => self@.contains_key(key@) && self@[key@] == found@,
                None => !self@.contains_key(key@),
            },
    {
        proof {
            use_type_invariant(self);
        }
        match find_key(&self.entries, key) {
            Some(i) => {
                proof {
                    lemma_place_is_unique(self.entries@, i as int);
                }
                Some(&self.entries[i].value)
            },
            None => None,
        }
    }

    /// Gives `key` the value `value`, and returns the value it carried
    /// before, if the node had the label.
    pub fn insert(&mut self, key: String, value: String) -> (previous: Option<String>)
        ensures
            final(self)@ == old(self)@.insert(key@, value@),
            match previous {
                Some(replaced) => old(self)@.contains_key(key@) && old(self)@[key@] == replaced@,
                None => !old(self)@.contains_key(key@),
            },
    {
        proof {
            use_type_invariant(&*self);
        }
        let ghost before = self.entries@;
        let mut entries: Vec<LabelEntry> = Vec::new();
        core::mem::swap(&mut entries, &mut self.entries);
        let previous = match find_key(&entries, &key) {
            Some(i) => {
                let replaced = entries[i].value.clone();
                entries.set(i, LabelEntry { key, value });
                proof {
                    lemma_entry_replaced(before, entries@, i as int);
                }
                Some(replaced)
            },
            None => {
                entries.push(LabelEntry { key, value });
                proof {
                    lemma_entry_added(before, entries@);
                }
                None
            },
        };
        core::mem::swap(&mut entries, &mut self.entries);
        previous
    }
}

impl Clone for LabelMap {
    /// A copy with the same labels.
    fn clone(&self) -> (copy: LabelMap)
        ensures
            copy@ == self@,
    {
        proof {
            use_type_invariant(self);
        }
        let mut entries: Vec<LabelEntry> = Vec::new();
        let mut i: usize = 0;
        while i < self.entries.len()
            invariant
                i <= self.entries@.len(),
                entries@ == self.entries@.take(i as int),
            decreases self.entries@.len() - i,
        {
            let entry = &self.entries[i];
            entries.push(LabelEntry { key: entry.key.clone(), value: entry.value.clone() });
            i += 1;
        }
        assert(entries@ == self.entries@);
        LabelMap { entries }
    }
}

/// Where `key` stands among the entries, if it does.
fn find_key(entries: &Vec<LabelEntry>, key: &String) -> (place: Option<usize>)
    ensures
        match place {
            Some(i) => i < entries@.len() && entries@[i as int].key@ == key@,
            None => !has_key(entries@, key@),
        },
{
    let mut i: usize = 0;
    while i < entries.len()
        invariant
            i <= entries@.len(),
            forall|j: int| 0 <= j < i ==> (#[trigger] entries@[j]).key@ != key@,
        decreases entries@.len() - i,
    {
        if entries[i].key == *key {
            return Some(i);
        }
        i += 1;
    }
    None
}

/// Among distinct keys, the entry at `i` is the one found for its key.
proof fn lemma_place_is_unique(entries: Seq<LabelEntry>, i: int)
    requires
        distinct_keys(entries),
        0 <= i < entries.len(),
    ensures
        has_key(entries, entries[i].key@),
        place_of(entries, entries[i].key@) == i,
        entries_map(entries).contains_key(entries[i].key@),
        entries_map(entries)[entries[i].key@] == entries[i].value@,
{
}

/// Entries with distinct keys stand for a map with as many keys as there are
/// entries.
proof fn lemma_one_key_per_entry(entries: Seq<LabelEntry>)
    requires
        distinct_keys(entries),
    ensures
        entries_map(entries).dom().finite(),
        entries_map(entries).len() == entries.len(),
    decreases entries.len(),
{
    if entries.len() == 0 {
        assert(entries_map(entries).dom() =~= Set::<Seq<char>>::empty());
    } else {
        let rest = entries.drop_last();
        lemma_one_key_per_entry(rest);
        lemma_entry_added(rest, entries);
    }
}

/// Writing a new value at the place of a key gives that key the new value
/// and leaves every other key as it was.
proof fn lemma_entry_replaced(before: Seq<LabelEntry>, after: Seq<LabelEntry>, i: int)
    requires
        distinct_keys(before),
        0 <= i < before.len(),
        after.len() == before.len(),
        after[i].key@ == before[i].key@,
        forall|j: int| 0 <= j < before.len() && j != i ==> after[j] == before[j],
    ensures
        distinct_keys(after),
        entries_map(before).contains_key(before[i].key@),
        entries_map(before)[before[i].key@] == before[i].value@,
        entries_map(after) == entries_map(before).insert(after[i].key@, after[i].value@),
{
    lemma_place_is_unique(before, i);
    assert forall|key: Seq<char>| has_key(after, key) implies has_key(before, key)
        && entries_map(after)[key] == (if key == after[i].key@ {
        after[i].value@
    } else {
        entries_map(before)[key]
    }) by {
        lemma_place_is_unique(before, place_of(after, key));
    }
}

/// Appending an entry under a key that no entry carries adds that key with
/// its value and leaves every other key as it was.
proof fn lemma_entry_added(before: Seq<LabelEntry>, after: Seq<LabelEntry>)
    requires
        distinct_keys(before),
        after.len() == before.len() + 1,
        !has_key(before, after.last().key@),
        forall|j: int| 0 <= j < before.len() ==> after[j] == before[j],
    ensures
        distinct_keys(after),
        !entries_map(before).contains_key(after.last().key@),
        entries_map(after) == entries_map(before).insert(after.last().key@, after.last().value@),
{
    let added = after.last();
    assert forall|key: Seq<char>| has_key(after, key) && key != added.key@ implies has_key(
        before,
        key,
    ) && entries_map(after)[key] == entries_map(before)[key] by {
        lemma_place_is_unique(before, place_of(after, key));
    }
}

} // verus!
