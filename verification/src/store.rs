//! The credential store as the gateway sees it: a collaborator that hands out
//! handles to records and writes, reads and removes through them, and that
//! keeps a journal of what was asked of it and what it answered.

use vstd::prelude::*;
use crate::error::{FaultKind, FaultView, StoreFault};

verus! {

/// The place of one record: a service namespace and a key within it.
pub struct Slot {
    pub namespace: Seq<char>,
    pub key: Seq<char>,
}

/// The records of a store: the secret held in each occupied slot.
pub type Records = Map<Slot, Seq<char>>;

/// One request to a store, with the store's answer.
pub enum Call {
    /// A handle was asked for. `fault` is `None` where one was handed out.
    Create { slot: Slot, fault: Option<FaultView> },
    /// A value was to be stored. `fault` is `None` where the store took it.
    Write { slot: Slot, value: Seq<char>, fault: Option<FaultView> },
    /// A value was asked for.
    Read { slot: Slot, answer: Result<Seq<char>, FaultView> },
    /// A record was to be removed. `fault` is `None` where the store did so.
    Delete { slot: Slot, fault: Option<FaultView> },
}

/// The fault in an answer, if the answer is one.
pub open spec fn fault_in<T>(answer: Result<T, StoreFault>) -> Option<FaultView> {
    match answer {
        Ok(_) => None,
        Err(fault) => Some(fault@),
    }
}

/// An answer to a read, with its texts as sequences of characters.
pub open spec fn read_answer(answer: Result<String, StoreFault>) -> Result<Seq<char>, FaultView> {
    match answer {
        Ok(value) => Ok(value@),
        Err(fault) => Err(fault@),
    }
}

/// The fault with which a store turns down a text that it does not admit.
pub open spec fn refused(message: Seq<char>) -> FaultView {
    FaultView { kind: FaultKind::Other, message }
}

/// A credential store. Every operation may be refused, and every operation
/// is entered in the store's journal with its answer.
///
/// A store is *authoritative* when its records change through this value alone
/// and it refuses nothing that it admits but a read or a removal of a record
/// that it does not hold. Of such a store the contracts below say exactly what
/// each operation does to the records. Of any other store (one that belongs to
/// the operating system, which other programs write to and which may be locked
/// or absent) they say what is entered in the journal, which texts the store
/// turns down before it asks anyone, and where the message of a fault comes
/// from.
pub trait CredentialStore {
    /// A reference to one slot of the store, good for one operation or more.
    type Handle;

    /// Whether this store is authoritative.
    spec fn authoritative(&self) -> bool;

    /// The records of an authoritative store, by slot.
    spec fn records(&self) -> Records;

    /// The requests made of this store so far, oldest first.
    spec fn journal(&self) -> Seq<Call>;

    /// The slot that a handle refers to.
    spec fn slot_of(handle: &Self::Handle) -> Slot;

    /// Whether the store takes a namespace, a key or a value of this size.
    spec fn admits(text: Seq<char>) -> bool;

    /// The message with which the store turns down what it does not admit.
    spec fn refusal() -> Seq<char>;

    /// Whether `message` is one that a fault of this store can carry.
    spec fn describes(message: Seq<char>) -> bool;

    /// Whether `message` is one that the store gives for a request that it
    /// took up: not its refusal of a text that it does not admit.
    spec fn reports(message: Seq<char>) -> bool;

    /// Obtains a handle for `key` within `namespace`.
    fn create(&mut self, namespace: &str, key: &str) -> (created: Result<Self::Handle, StoreFault>)
        ensures
            final(self).journal() == old(self).journal().push(
                Call::Create {
                    slot: Slot { namespace: namespace@, key: key@ },
                    fault: fault_in(created),
                },
            ),
            created matches Ok(handle) ==> Self::slot_of(&handle) == (Slot {
                namespace: namespace@,
                key: key@,
            }),
            created matches Err(fault) ==> Self::describes(fault.message@),
            Self::admits(namespace@) && Self::admits(key@) ==> (created matches Err(fault)
                ==> Self::reports(fault.message@)),
            !Self::admits(namespace@) || !Self::admits(key@) ==> fault_in(created) == Some(
                refused(Self::refusal()),
            ),
            final(self).authoritative() == old(self).authoritative(),
            old(self).authoritative() ==> final(self).records() == old(self).records(),
            old(self).authoritative() && Self::admits(namespace@) && Self::admits(key@)
                ==> created is Ok,
    ;

    /// Stores `value` in the handle's slot, in place of any value held there.
    fn write(&mut self, handle: &Self::Handle, value: &str) -> (written: Result<(), StoreFault>)
        ensures
            final(self).journal() == old(self).journal().push(
                Call::Write { slot: Self::slot_of(handle), value: value@, fault: fault_in(written) },
            ),
            written matches Err(fault) ==> Self::describes(fault.message@),
            Self::admits(value@) ==> (written matches Err(fault) ==> Self::reports(fault.message@)),
            !Self::admits(value@) ==> fault_in(written) == Some(refused(Self::refusal())),
            final(self).authoritative() == old(self).authoritative(),
            old(self).authoritative() ==> final(self).records() == (if written is Ok {
                old(self).records().insert(Self::slot_of(handle), value@)
            } else {
                old(self).records()
            }),
            old(self).authoritative() && Self::admits(value@) ==> written is Ok,
    ;

    /// Reads the value in the handle's slot. A slot without a record is
    /// reported as a fault of kind `NoEntry`.
    fn read(&mut self, handle: &Self::Handle) -> (found: Result<String, StoreFault>)
        ensures
            final(self).journal() == old(self).journal().push(
                Call::Read { slot: Self::slot_of(handle), answer: read_answer(found) },
            ),
            found matches Err(fault) ==> Self::describes(fault.message@),
            found matches Err(fault) ==> Self::reports(fault.message@),
            final(self).authoritative() == old(self).authoritative(),
            old(self).authoritative() ==> final(self).records() == old(self).records(),
            old(self).authoritative() ==> match found {
                Ok(value) => {
                    &&& old(self).records().contains_key(Self::slot_of(handle))
                    &&& value@ == old(self).records()[Self::slot_of(handle)]
                },
                Err(fault) => {
                    &&& !old(self).records().contains_key(Self::slot_of(handle))
                    &&& fault.kind == FaultKind::NoEntry
                },
            },
    ;

    /// Removes the record in the handle's slot. A slot without a record is
    /// reported as a fault of kind `NoEntry`, and nothing changes.
    fn delete(&mut self, handle: &Self::Handle) -> (removed: Result<(), StoreFault>)
        ensures
            final(self).journal() == old(self).journal().push(
                Call::Delete { slot: Self::slot_of(handle), fault: fault_in(removed) },
            ),
            removed matches Err(fault) ==> Self::describes(fault.message@),
            removed matches Err(fault) ==> Self::reports(fault.message@),
            final(self).authoritative() == old(self).authoritative(),
            old(self).authoritative() ==> match removed {
                Ok(_) => {
                    &&& old(self).records().contains_key(Self::slot_of(handle))
                    &&& final(self).records() == old(self).records().remove(Self::slot_of(handle))
                },
                Err(fault) => {
                    &&& !old(self).records().contains_key(Self::slot_of(handle))
                    &&& fault.kind == FaultKind::NoEntry
                    &&& final(self).records() == old(self).records()
                },
            },
    ;
}

} // verus!
