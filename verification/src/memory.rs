//! A credential store that lives in the process: an authoritative store, for
//! use where the operating system's store is not to be touched.

use vstd::prelude::*;
use vstd::string::*;
use crate::error::{FaultKind, StoreFault};
use crate::store::{fault_in, read_answer, Call, CredentialStore, Records, Slot};

verus! {

/// A handle of the in-memory store: the slot it refers to, spelled out.
pub struct MemoryHandle {
    namespace: String,
    key: String,
}

impl MemoryHandle {
    /// The slot that the handle refers to.
    pub closed spec fn slot(&self) -> Slot {
        Slot { namespace: self.namespace@, key: self.key@ }
    }
}

/// One record: a slot and the secret held there.
struct Record {
    namespace: String,
    key: String,
    value: String,
}

impl Record {
    spec fn slot(&self) -> Slot {
        Slot { namespace: self.namespace@, key: self.key@ }
    }
}

/// No two records share a slot.
spec fn distinct_slots(entries: Seq<Record>) -> bool {
    forall|i: int, j: int|
        0 <= i < j < entries.len() ==> (#[trigger] entries[i]).slot() != (#[trigger] entries[j]).slot()
}

/// Some record occupies `slot`.
spec fn occupied(entries: Seq<Record>, slot: Slot) -> bool {
    exists|i: int| 0 <= i < entries.len() && (#[trigger] entries[i]).slot() == slot
}

/// The position of a record that occupies `slot`, where there is one.
spec fn position_of(entries: Seq<Record>, slot: Slot) -> int {
    choose|i: int| 0 <= i < entries.len() && (#[trigger] entries[i]).slot() == slot
}

/// The records as a map from slot to secret.
spec fn records_of(entries: Seq<Record>) -> Records {
    Map::new(|slot: Slot| occupied(entries, slot), |slot: Slot| entries[position_of(entries, slot)].value@)
}

/// Where slots are distinct, the map holds each record under its own slot.
proof fn lemma_record_at(entries: Seq<Record>, i: int)
    requires
        distinct_slots(entries),
        0 <= i < entries.len(),
    ensures
        occupied(entries, entries[i].slot()),
        position_of(entries, entries[i].slot()) == i,
        records_of(entries).contains_key(entries[i].slot()),
        records_of(entries)[entries[i].slot()] == entries[i].value@,
{
    let slot = entries[i].slot();
    assert(occupied(entries, slot));
    let at = position_of(entries, slot);
    assert(0 <= at < entries.len() && entries[at].slot() == slot);
    assert(at == i);
}

/// Replacing a record by one for the same slot puts the new secret under
/// that slot and leaves every other slot as it was.
proof fn lemma_replaced(before: Seq<Record>, i: int, record: Record)
    requires
        distinct_slots(before),
        0 <= i < before.len(),
        record.slot() == before[i].slot(),
    ensures
        distinct_slots(before.update(i, record)),
        records_of(before.update(i, record)) == records_of(before).insert(record.slot(), record.value@),
{
    let after = before.update(i, record);
    let slot = record.slot();
    let expected = records_of(before).insert(slot, record.value@);
    assert(distinct_slots(after));
    assert forall|s: Slot| occupied(after, s) <==> occupied(before, s) || s == slot by {
        if occupied(after, s) {
            assert(before[position_of(after, s)].slot() == s);
        }
        if occupied(before, s) {
            assert(after[position_of(before, s)].slot() == s);
        }
        if s == slot {
            assert(after[i].slot() == s);
        }
    }
    assert forall|s: Slot| occupied(after, s) implies #[trigger] records_of(after)[s] == expected[s] by {
        let at = position_of(after, s);
        lemma_record_at(after, at);
        if at != i {
            assert(before[at].slot() == s);
            lemma_record_at(before, at);
        }
    }
    assert(records_of(after) =~= expected);
}

/// Appending a record for a slot that no record occupies adds its secret
/// under that slot and leaves every other slot as it was.
proof fn lemma_appended(before: Seq<Record>, record: Record)
    requires
        distinct_slots(before),
        !occupied(before, record.slot()),
    ensures
        distinct_slots(before.push(record)),
        records_of(before.push(record)) == records_of(before).insert(record.slot(), record.value@),
{
    let after = before.push(record);
    let slot = record.slot();
    let expected = records_of(before).insert(slot, record.value@);
    let last = before.len() as int;
    assert(after[last].slot() == slot);
    assert forall|a: int, b: int| 0 <= a < b < after.len() implies (#[trigger] after[a]).slot()
        != (#[trigger] after[b]).slot() by {
        assert(after[a] == before[a]);
        if b < last {
            assert(after[b] == before[b]);
        }
    }
    assert forall|s: Slot| occupied(after, s) <==> occupied(before, s) || s == slot by {
        if occupied(after, s) {
            let at = position_of(after, s);
            if at < last {
                assert(before[at].slot() == s);
            }
        }
        if occupied(before, s) {
            assert(after[position_of(before, s)].slot() == s);
        }
    }
    assert forall|s: Slot| occupied(after, s) implies #[trigger] records_of(after)[s] == expected[s] by {
        let at = position_of(after, s);
        lemma_record_at(after, at);
        if at < last {
            assert(before[at].slot() == s);
            lemma_record_at(before, at);
        }
    }
    assert(records_of(after) =~= expected);
}

/// Taking a record out empties its slot and leaves every other slot as it
/// was.
proof fn lemma_removed(before: Seq<Record>, i: int)
    requires
        distinct_slots(before),
        0 <= i < before.len(),
    ensures
        distinct_slots(before.remove(i)),
        records_of(before.remove(i)) == records_of(before).remove(before[i].slot()),
{
    let after = before.remove(i);
    let slot = before[i].slot();
    let expected = records_of(before).remove(slot);
    let origin = |a: int| if a < i { a } else { a + 1 };
    assert forall|a: int| 0 <= a < after.len() implies #[trigger] after[a] == before[origin(a)] by {}
    assert forall|a: int, b: int| 0 <= a < b < after.len() implies (#[trigger] after[a]).slot()
        != (#[trigger] after[b]).slot() by {
        assert(after[a] == before[origin(a)] && after[b] == before[origin(b)]);
    }
    assert forall|s: Slot| occupied(after, s) <==> occupied(before, s) && s != slot by {
        if occupied(after, s) {
            let at = position_of(after, s);
            assert(before[origin(at)].slot() == s);
        }
        if occupied(before, s) && s != slot {
            let from = position_of(before, s);
            let at = if from < i { from } else { from - 1 };
            assert(after[at].slot() == s);
        }
    }
    assert forall|s: Slot| occupied(after, s) implies #[trigger] records_of(after)[s] == expected[s] by {
        let at = position_of(after, s);
        lemma_record_at(after, at);
        assert(before[origin(at)].slot() == s);
        lemma_record_at(before, origin(at));
    }
    assert(records_of(after) =~= expected);
}

/// The message of the one fault that the in-memory store gives: a read or a
/// removal found no record.
pub open spec fn no_record() -> Seq<char> {
    "no record is stored under this key"@
}

/// An in-memory credential store. It starts empty and holds at most one
/// record in each slot.
pub struct MemoryStore {
    entries: Vec<Record>,
    calls: Ghost<Seq<Call>>,
}

impl MemoryStore {
    #[verifier::type_invariant]
    spec fn well_formed(&self) -> bool {
        distinct_slots(self.entries@)
    }

    /// A store without records, of which nothing has been asked yet.
    pub fn new() -> (store: MemoryStore)
        ensures
            store.authoritative(),
            store.records() == Records::empty(),
            store.journal() == Seq::<Call>::empty(),
    {
        let store = MemoryStore { entries: Vec::new(), calls: Ghost(Seq::empty()) };
        assert(store.records() =~= Records::empty());
        store
    }

    /// Puts `entries` in place of the store's records and hands the old ones
    /// out.
    fn exchange(&mut self, entries: Vec<Record>) -> (previous: Vec<Record>)
        requires
            distinct_slots(entries@),
        ensures
            final(self).entries == entries,
            final(self).calls == old(self).calls,
            previous == old(self).entries,
    {
        let mut entries = entries;
        core::mem::swap(&mut self.entries, &mut entries);
        entries
    }
}

/// Where the record of the handle's slot stands, if there is one.
fn position(entries: &Vec<Record>, handle: &MemoryHandle) -> (at: Option<usize>)
    ensures
        match at {
            Some(i) => i < entries@.len() && entries@[i as int].slot() == handle.slot(),
            None => !occupied(entries@, handle.slot()),
        },
{
    let mut i: usize = 0;
    while i < entries.len()
        invariant
            i <= entries@.len(),
            forall|j: int| 0 <= j < i ==> (#[trigger] entries@[j]).slot() != handle.slot(),
        decreases entries@.len() - i,
    {
        let entry = &entries[i];
        if entry.namespace == handle.namespace && entry.key == handle.key {
            return Some(i);
        }
        i += 1;
    }
    None
}

impl CredentialStore for MemoryStore {
    type Handle = MemoryHandle;

    open spec fn authoritative(&self) -> bool {
        true
    }

    closed spec fn records(&self) -> Records {
        records_of(self.entries@)
    }

    closed spec fn journal(&self) -> Seq<Call> {
        self.calls@
    }

    open spec fn slot_of(handle: &MemoryHandle) -> Slot {
        handle.slot()
    }

    /// The in-memory store takes texts of any size.
    open spec fn admits(text: Seq<char>) -> bool {
        true
    }

    /// The in-memory store turns nothing down, so it has no words for it.
    open spec fn refusal() -> Seq<char> {
        Seq::empty()
    }

    open spec fn describes(message: Seq<char>) -> bool {
        message == no_record()
    }

    open spec fn reports(message: Seq<char>) -> bool {
        message == no_record()
    }

    fn create(&mut self, namespace: &str, key: &str) -> (created: Result<MemoryHandle, StoreFault>) {
        proof {
            use_type_invariant(&*self);
        }
        let handle = MemoryHandle {
            namespace: String::from_str(namespace),
            key: String::from_str(key),
        };
        self.calls = Ghost(self.calls@.push(Call::Create { slot: handle.slot(), fault: None }));
        Ok(handle)
    }

    fn write(&mut self, handle: &MemoryHandle, value: &str) -> (written: Result<(), StoreFault>) {
        proof {
            use_type_invariant(&*self);
        }
        let record = Record {
            namespace: handle.namespace.clone(),
            key: handle.key.clone(),
            value: String::from_str(value),
        };
        let place = position(&self.entries, handle);
        let mut entries = self.exchange(Vec::new());
        match place {
            Some(i) => {
                proof {
                    lemma_replaced(entries@, i as int, record);
                }
                entries.set(i, record);
            },
            None => {
                proof {
                    lemma_appended(entries@, record);
                }
                entries.push(record);
            },
        }
        let _ = self.exchange(entries);
        self.calls = Ghost(
            self.calls@.push(Call::Write { slot: handle.slot(), value: value@, fault: None }),
        );
        Ok(())
    }

    fn read(&mut self, handle: &MemoryHandle) -> (found: Result<String, StoreFault>) {
        proof {
            use_type_invariant(&*self);
        }
        let found = match position(&self.entries, handle) {
            Some(i) => {
                proof {
                    lemma_record_at(self.entries@, i as int);
                }
                Ok(self.entries[i].value.clone())
            },
            None => Err(absent()),
        };
        self.calls = Ghost(
            self.calls@.push(Call::Read { slot: handle.slot(), answer: read_answer(found) }),
        );
        found
    }

    fn delete(&mut self, handle: &MemoryHandle) -> (removed: Result<(), StoreFault>) {
        proof {
            use_type_invariant(&*self);
        }
        let removed = match position(&self.entries, handle) {
            Some(i) => {
                let mut entries = self.exchange(Vec::new());
                proof {
                    lemma_removed(entries@, i as int);
                }
                let _ = entries.remove(i);
                let _ = self.exchange(entries);
                Ok(())
            },
            None => Err(absent()),
        };
        self.calls = Ghost(
            self.calls@.push(Call::Delete { slot: handle.slot(), fault: fault_in(removed) }),
        );
        removed
    }
}

/// The fault that reports a slot without a record.
fn absent() -> (fault: StoreFault)
    ensures
        fault.kind == FaultKind::NoEntry,
        fault.message@ == no_record(),
{
    StoreFault {
        kind: FaultKind::NoEntry,
        message: String::from_str("no record is stored under this key"),
    }
}

} // verus!
