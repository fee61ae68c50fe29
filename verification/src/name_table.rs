//! A small table from names to values, kept as a list of entries.

use vstd::prelude::*;

verus! {

/// One named value.
#[derive(Debug)]
pub struct Entry<V> {
    pub name: String,
    pub value: V,
}

/// The mapping that a list of entries stands for. Where a name occurs more
/// than once the entry nearest the front counts.
pub open spec fn entries_map<V>(entries: Seq<Entry<V>>) -> Map<Seq<char>, V>
    decreases entries.len(),
{
    if entries.len() == 0 {
        Map::empty()
    } else {
        entries_map(entries.drop_first()).insert(entries[0].name@, entries[0].value)
    }
}

proof fn lemma_no_match_absent<V>(entries: Seq<Entry<V>>, name: Seq<char>)
    requires
        forall|i: int| 0 <= i < entries.len() ==> (#[trigger] entries[i]).name@ != name,
    ensures
        !entries_map(entries).contains_key(name),
    decreases entries.len(),
{
    if entries.len() > 0 {
        let rest = entries.drop_first();
        assert forall|i: int| 0 <= i < rest.len() implies (#[trigger] rest[i]).name@ != name by {
            assert(rest[i] == entries[i + 1]);
        }
        lemma_no_match_absent(rest, name);
    }
}

proof fn lemma_first_match<V>(entries: Seq<Entry<V>>, k: int)
    requires
        0 <= k < entries.len(),
        forall|i: int| 0 <= i < k ==> (#[trigger] entries[i]).name@ != entries[k].name@,
    ensures
        entries_map(entries).contains_key(entries[k].name@),
        entries_map(entries)[entries[k].name@] == entries[k].value,
    decreases entries.len(),
{
    if k > 0 {
        let rest = entries.drop_first();
        assert(rest[k - 1] == entries[k]);
        assert forall|i: int| 0 <= i < k - 1 implies (#[trigger] rest[i]).name@ != rest[k - 1].name@ by {
            assert(rest[i] == entries[i + 1]);
        }
        lemma_first_match(rest, k - 1);
    }
}

proof fn lemma_overwrite<V>(entries: Seq<Entry<V>>, k: int, e: Entry<V>)
    requires
        0 <= k < entries.len(),
        e.name@ == entries[k].name@,
        forall|i: int| 0 <= i < k ==> (#[trigger] entries[i]).name@ != e.name@,
    ensures
        entries_map(entries.update(k, e)) == entries_map(entries).insert(e.name@, e.value),
    decreases entries.len(),
{
    let rest = entries.drop_first();
    let after = entries.update(k, e);
    if k == 0 {
        assert(after.drop_first() == rest);
        assert(entries_map(after) == entries_map(rest).insert(e.name@, e.value));
        assert(entries_map(rest).insert(e.name@, entries[0].value).insert(e.name@, e.value)
            == entries_map(rest).insert(e.name@, e.value));
    } else {
        assert(rest[k - 1] == entries[k]);
        assert forall|i: int| 0 <= i < k - 1 implies (#[trigger] rest[i]).name@ != e.name@ by {
            assert(rest[i] == entries[i + 1]);
        }
        lemma_overwrite(rest, k - 1, e);
        assert(after.drop_first() == rest.update(k - 1, e));
        assert(after[0] == entries[0]);
        assert(entries[0].name@ != e.name@);
        assert(entries_map(rest).insert(e.name@, e.value).insert(entries[0].name@, entries[0].value)
            == entries_map(rest).insert(entries[0].name@, entries[0].value).insert(e.name@, e.value));
    }
}

proof fn lemma_append<V>(entries: Seq<Entry<V>>, e: Entry<V>)
    requires
        forall|i: int| 0 <= i < entries.len() ==> (#[trigger] entries[i]).name@ != e.name@,
    ensures
        entries_map(entries.push(e)) == entries_map(entries).insert(e.name@, e.value),
    decreases entries.len(),
{
    let after = entries.push(e);
    if entries.len() == 0 {
        assert(after.drop_first() == entries);
    } else {
        let rest = entries.drop_first();
        assert forall|i: int| 0 <= i < rest.len() implies (#[trigger] rest[i]).name@ != e.name@ by {
            assert(rest[i] == entries[i + 1]);
        }
        lemma_append(rest, e);
        assert(after.drop_first() == rest.push(e));
        assert(after[0] == entries[0]);
        assert(entries[0].name@ != e.name@);
        assert(entries_map(rest).insert(e.name@, e.value).insert(entries[0].name@, entries[0].value)
            == entries_map(rest).insert(entries[0].name@, entries[0].value).insert(e.name@, e.value));
    }
}

/// A mapping from names to values.
#[derive(Debug)]
pub struct NameTable<V> {
    entries: Vec<Entry<V>>,
}

impl<V> View for NameTable<V> {
    type V = Map<Seq<char>, V>;

    closed spec fn view(&self) -> Map<Seq<char>, V> {
        entries_map(self.entries@)
    }
}

impl<V> NameTable<V> {
    /// An empty table.
    pub fn new() -> (t: NameTable<V>)
        ensures
            t@ == Map::<Seq<char>, V>::empty(),
    {
        NameTable { entries: Vec::new() }
    }

    /// Index of the first entry called `key`, or the length if there is none.
    fn position(&self, key: &String) -> (k: usize)
        ensures
            k <= self.entries@.len(),
            forall|i: int| 0 <= i < k ==> (#[trigger] self.entries@[i]).name@ != key@,
            k < self.entries@.len() ==> self.entries@[k as int].name@ == key@,
    {
        let mut k: usize = 0;
        while k < self.entries.len()
            invariant
                k <= self.entries@.len(),
                forall|i: int| 0 <= i < k ==> (#[trigger] self.entries@[i]).name@ != key@,
            decreases self.entries@.len() - k,
        {
            if self.entries[k].name == *key {
                return k;
            }
            k += 1;
        }
        k
    }

    /// Stores `value` under `name`, replacing what was stored there.
    pub fn insert(&mut self, name: &str, value: V)
        ensures
            final(self)@ == old(self)@.insert(name@, value),
    {
        let key = name.to_owned();
        let k = self.position(&key);
        let entry = Entry { name: key, value };
        if k < self.entries.len() {
            proof {
                lemma_overwrite(self.entries@, k as int, entry);
            }
            self.entries[k] = entry;
        } else {
            proof {
                lemma_append(self.entries@, entry);
            }
            self.entries.push(entry);
        }
    }

    /// The value stored under `name`, if any.
    pub fn get(&self, name: &str) -> (r: Option<&V>)
        ensures
            match r {
                Some(v) => self@.contains_key(name@) && self@[name@] == *v,
                None => !self@.contains_key(name@),
            },
    {
        let key = name.to_owned();
        let k = self.position(&key);
        if k < self.entries.len() {
            proof {
                lemma_first_match(self.entries@, k as int);
            }
            Some(&self.entries[k].value)
        } else {
            proof {
                lemma_no_match_absent(self.entries@, name@);
            }
            None
        }
    }
}

} // verus!
