//! What the host keeps for the embedded front-end scripts: a key-value
//! store (saved to disk by the host after each change) and the last probe
//! message, for diagnostics.

use vstd::prelude::*;
use crate::text::is_text;

verus! {

/// String values by string key, each key once.
pub struct KeyValueStore {
    pub entries: Vec<(String, String)>,
}

/// The value stored under `key` in `entries`.
pub open spec fn stored_value(entries: Seq<(String, String)>, key: Seq<char>) -> Option<Seq<char>>
    decreases entries.len(),
{
    if entries.len() == 0 {
        None
    } else if entries.last().0@ == key {
        Some(entries.last().1@)
    } else {
        stored_value(entries.drop_last(), key)
    }
}

pub open spec fn distinct_keys(entries: Seq<(String, String)>) -> bool {
    forall|a: int, b: int| 0 <= a < b < entries.len() ==> entries[a].0@ != entries[b].0@
}

proof fn lemma_value_at(entries: Seq<(String, String)>, key: Seq<char>, i: int)
    requires
        distinct_keys(entries),
        0 <= i < entries.len(),
        entries[i].0@ == key,
    ensures
        stored_value(entries, key) == Some(entries[i].1@),
    decreases entries.len(),
{
    if i < entries.len() - 1 {
        lemma_value_at(entries.drop_last(), key, i);
    }
}

proof fn lemma_value_absent(entries: Seq<(String, String)>, key: Seq<char>)
    requires
        forall|a: int| 0 <= a < entries.len() ==> entries[a].0@ != key,
    ensures
        stored_value(entries, key) is None,
    decreases entries.len(),
{
    if entries.len() > 0 {
        lemma_value_absent(entries.drop_last(), key);
    }
}

proof fn lemma_value_removed(entries: Seq<(String, String)>, i: int, key: Seq<char>)
    requires
        distinct_keys(entries),
        0 <= i < entries.len(),
    ensures
        distinct_keys(entries.remove(i)),
        key == entries[i].0@ ==> stored_value(entries.remove(i), key) is None,
        key != entries[i].0@ ==> stored_value(entries.remove(i), key) == stored_value(entries, key),
    decreases entries.len(),
{
    let r = entries.remove(i);
    assert forall|a: int, b: int| 0 <= a < b < r.len() implies r[a].0@ != r[b].0@ by {
        let a2 = if a < i { a } else { a + 1 };
        let b2 = if b < i { b } else { b + 1 };
        assert(r[a] == entries[a2] && r[b] == entries[b2]);
    }
    if key == entries[i].0@ {
        assert forall|a: int| 0 <= a < r.len() implies r[a].0@ != key by {
            let a2 = if a < i { a } else { a + 1 };
            assert(r[a] == entries[a2]);
        }
        lemma_value_absent(r, key);
    } else if i < entries.len() - 1 {
        assert(r.drop_last() =~= entries.drop_last().remove(i));
        assert(r.last() == entries.last());
        lemma_value_removed(entries.drop_last(), i, key);
    } else {
        assert(r =~= entries.drop_last());
    }
}

impl KeyValueStore {
    pub open spec fn wf(&self) -> bool {
        distinct_keys(self.entries@)
    }

    pub open spec fn value(&self, key: Seq<char>) -> Option<Seq<char>> {
        stored_value(self.entries@, key)
    }

    pub fn new() -> (r: Self)
        ensures
            r.wf(),
            forall|key: Seq<char>| r.value(key) is None,
    {
        KeyValueStore { entries: Vec::new() }
    }

    fn position(&self, key: &str) -> (r: Option<usize>)
        requires
            self.wf(),
        ensures
            match r {
                Some(i) => i < self.entries@.len() && self.entries@[i as int].0@ == key@,
                None => forall|a: int| 0 <= a < self.entries@.len() ==> self.entries@[a].0@ != key@,
            },
    {
        let mut i: usize = 0;
        while i < self.entries.len()
            invariant
                i <= self.entries@.len(),
                forall|a: int| 0 <= a < i ==> self.entries@[a].0@ != key@,
            decreases self.entries@.len() - i,
        {
            if is_text(&self.entries[i].0, key) {
                return Some(i);
            }
            i = i + 1;
        }
        None
    }

    /// The value stored under `key`.
    pub fn get(&self, key: &str) -> (r: Option<&String>)
        requires
            self.wf(),
        ensures
            match r {
                Some(v) => self.value(key@) == Some(v@),
                None => self.value(key@) is None,
            },
    {
        match self.position(key) {
            Some(i) => {
                proof {
                    lemma_value_at(self.entries@, key@, i as int);
                }
                Some(&self.entries[i].1)
            },
            None => {
                proof {
                    lemma_value_absent(self.entries@, key@);
                }
                None
            },
        }
    }

    /// Stores `value` under `key`, in place of any value there.
    pub fn set(&mut self, key: String, value: String)
        requires
            old(self).wf(),
        ensures
            final(self).wf(),
            final(self).value(key@) == Some(value@),
            forall|other: Seq<char>| other != key@ ==> final(self).value(other) == old(self).value(other),
    {
        let ghost k = key@;
        let ghost v = value@;
        match self.position(key.as_str()) {
            Some(i) => {
                let ghost before = self.entries@;
                proof {
                    lemma_value_removed(before, i as int, k);
                    assert forall|other: Seq<char>| other != k implies stored_value(
                        before.remove(i as int),
                        other,
                    ) == stored_value(before, other) by {
                        lemma_value_removed(before, i as int, other);
                    }
                }
                self.entries.remove(i);
            },
            None => {},
        }
        let ghost kept = self.entries@;
        proof {
            assert forall|a: int| 0 <= a < kept.len() implies kept[a].0@ != k by {
                if kept[a].0@ == k {
                    lemma_value_at(kept, k, a);
                }
            }
        }
        self.entries.push((key, value));
        assert(self.entries@.drop_last() =~= kept);
    }

    /// Removes the value under `key`, if any.
    pub fn remove(&mut self, key: String)
        requires
            old(self).wf(),
        ensures
            final(self).wf(),
            final(self).value(key@) is None,
            forall|other: Seq<char>| other != key@ ==> final(self).value(other) == old(self).value(other),
    {
        match self.position(key.as_str()) {
            Some(i) => {
                let ghost before = self.entries@;
                proof {
                    lemma_value_removed(before, i as int, key@);
                    assert forall|other: Seq<char>| other != key@ implies stored_value(
                        before.remove(i as int),
                        other,
                    ) == stored_value(before, other) by {
                        lemma_value_removed(before, i as int, other);
                    }
                }
                self.entries.remove(i);
            },
            None => {
                proof {
                    lemma_value_absent(self.entries@, key@);
                }
            },
        }
    }

    /// Removes every value.
    pub fn clear(&mut self)
        ensures
            final(self).wf(),
            forall|key: Seq<char>| final(self).value(key) is None,
    {
        self.entries.clear();
    }
}

/// The last probe message of the front-end scripts.
pub struct ProbeSlot {
    pub last: String,
}

impl ProbeSlot {
    pub fn new() -> (r: Self)
        ensures
            r.last@.len() == 0,
    {
        ProbeSlot { last: String::new() }
    }
}

/// Keeps `message` as the last probe message.
pub fn record_probe(slot: &mut ProbeSlot, message: &str)
    ensures
        final(slot).last@ == message@,
{
    slot.last = String::from_str(message);
}

/// The last probe message; empty before the first.
pub fn probe_last(slot: &ProbeSlot) -> (r: String)
    ensures
        r@ == slot.last@,
{
    slot.last.clone()
}

} // verus!
