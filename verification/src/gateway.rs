//! The gateway's operations: `set`, `get` and `delete` of one secret by its
//! key, on any credential store, under one fixed service namespace.
//!
//! Each operation asks the store for a handle and, where it gets one, makes
//! one request through it. What it returns is decided by the store's answers
//! alone, which stand in the store's journal.

use vstd::prelude::*;
use crate::error::{FaultKind, FaultView, GatewayError, GatewayErrorView, StoreFault};
use crate::store::{fault_in, read_answer, Call, CredentialStore, Records, Slot};

verus! {

/// The service namespace under which the gateway keeps every record.
pub const SERVICE: &'static str = "com.nexusencryption.app";

/// The service namespace, as a sequence of characters.
pub open spec fn service_namespace() -> Seq<char> {
    SERVICE@
}

/// The slot of `key` within the gateway's namespace.
pub open spec fn service_slot(key: Seq<char>) -> Slot {
    Slot { namespace: service_namespace(), key }
}

/// What a read of `key` finds in `records`.
pub open spec fn stored(records: Records, key: Seq<char>) -> Option<Seq<char>> {
    if records.contains_key(service_slot(key)) {
        Some(records[service_slot(key)])
    } else {
        None
    }
}

/// The records once `value` has been set for `key`.
pub open spec fn after_set(records: Records, key: Seq<char>, value: Seq<char>) -> Records {
    records.insert(service_slot(key), value)
}

/// The records once `key` has been deleted.
pub open spec fn after_delete(records: Records, key: Seq<char>) -> Records {
    records.remove(service_slot(key))
}

/// The result of a write or a removal, with its message as a sequence of
/// characters.
pub open spec fn change_view(result: Result<(), GatewayError>) -> Result<(), GatewayErrorView> {
    match result {
        Ok(_) => Ok(()),
        Err(error) => Err(error@),
    }
}

/// The result of a read, with its texts as sequences of characters.
pub open spec fn read_view(result: Result<Option<String>, GatewayError>) -> Result<
    Option<Seq<char>>,
    GatewayErrorView,
> {
    match result {
        Ok(found) => Ok(found.deep_view()),
        Err(error) => Err(error@),
    }
}

/// What the gateway makes of a store's answer to a write or a removal: any
/// fault is a failed operation, whatever its kind.
pub open spec fn change_outcome(fault: Option<FaultView>) -> Result<(), GatewayErrorView> {
    match fault {
        None => Ok(()),
        Some(fault) => Err(GatewayErrorView::OperationFailed(fault.message)),
    }
}

/// What the gateway makes of a store's answer to a read: a value is found, a
/// missing record is an absent value and no error, and any other fault is a
/// failed operation.
pub open spec fn read_outcome(answer: Result<Seq<char>, FaultView>) -> Result<
    Option<Seq<char>>,
    GatewayErrorView,
> {
    match answer {
        Ok(value) => Ok(Some(value)),
        Err(fault) => if fault.kind == FaultKind::NoEntry {
            Ok(None)
        } else {
            Err(GatewayErrorView::OperationFailed(fault.message))
        },
    }
}

/// The requests that were made between two states of a journal.
pub open spec fn made_since(before: Seq<Call>, after: Seq<Call>) -> Seq<Call> {
    after.skip(before.len() as int)
}

/// `made` begins with one request for a handle for `key` in the gateway's
/// namespace. Where that was refused nothing follows, and where a handle was
/// handed out exactly one request follows.
pub open spec fn opens(made: Seq<Call>, key: Seq<char>) -> bool {
    &&& made.len() >= 1
    &&& made[0] matches Call::Create { slot, fault }
    &&& slot == service_slot(key)
    &&& made.len() == (if fault is Some { 1nat } else { 2nat })
}

/// The fault with which the request for a handle was refused, if it was.
pub open spec fn handle_fault(made: Seq<Call>) -> Option<FaultView> {
    match made[0] {
        Call::Create { slot, fault } => fault,
        _ => None,
    }
}

/// The requests that `set` makes for `key` and `value`: one for a handle
/// and, through the handle, one write of `value`. Nothing is read or removed.
pub open spec fn set_calls(made: Seq<Call>, key: Seq<char>, value: Seq<char>) -> bool {
    &&& opens(made, key)
    &&& made.len() == 2 ==> {
        &&& made[1] matches Call::Write { slot, value: written, fault }
        &&& slot == service_slot(key)
        &&& written == value
    }
}

/// What `set` returns for the answers in `made`.
pub open spec fn set_outcome(made: Seq<Call>) -> Result<(), GatewayErrorView> {
    match handle_fault(made) {
        Some(fault) => Err(GatewayErrorView::HandleCreationFailed(fault.message)),
        None => match made[1] {
            Call::Write { slot, value, fault } => change_outcome(fault),
            _ => Ok(()),
        },
    }
}

/// The requests that `get` makes for `key`: one for a handle and, through
/// the handle, one read. Nothing is written or removed.
pub open spec fn get_calls(made: Seq<Call>, key: Seq<char>) -> bool {
    &&& opens(made, key)
    &&& made.len() == 2 ==> {
        &&& made[1] matches Call::Read { slot, answer }
        &&& slot == service_slot(key)
    }
}

/// What `get` returns for the answers in `made`.
pub open spec fn get_outcome(made: Seq<Call>) -> Result<Option<Seq<char>>, GatewayErrorView> {
    match handle_fault(made) {
        Some(fault) => Err(GatewayErrorView::HandleCreationFailed(fault.message)),
        None => match made[1] {
            Call::Read { slot, answer } => read_outcome(answer),
            _ => Ok(None),
        },
    }
}

/// The requests that `delete` makes for `key`: one for a handle and, through
/// the handle, one removal. Nothing is read first, and nothing is written.
pub open spec fn delete_calls(made: Seq<Call>, key: Seq<char>) -> bool {
    &&& opens(made, key)
    &&& made.len() == 2 ==> {
        &&& made[1] matches Call::Delete { slot, fault }
        &&& slot == service_slot(key)
    }
}

/// What `delete` returns for the answers in `made`.
pub open spec fn delete_outcome(made: Seq<Call>) -> Result<(), GatewayErrorView> {
    match handle_fault(made) {
        Some(fault) => Err(GatewayErrorView::HandleCreationFailed(fault.message)),
        None => match made[1] {
            Call::Delete { slot, fault } => change_outcome(fault),
            _ => Ok(()),
        },
    }
}

/// The requests made since `before` are the entries of `after` that follow
/// those of `before`, in their order.
pub proof fn lemma_made_since(before: Seq<Call>, after: Seq<Call>)
    requires
        before.is_prefix_of(after),
    ensures
        made_since(before, after).len() == after.len() - before.len(),
        forall|i: int|
            0 <= i < after.len() - before.len() ==> #[trigger] made_since(before, after)[i]
                == after[before.len() + i],
        before + made_since(before, after) == after,
{
    assert(before + made_since(before, after) =~= after);
}

/// The error for a store that would not hand out a handle.
pub fn handle_error(fault: StoreFault) -> (error: GatewayError)
    ensures
        error@ == GatewayErrorView::HandleCreationFailed(fault.message@),
{
    GatewayError::HandleCreationFailed(fault.message)
}

/// The error for a store that rejected a read, a write or a removal.
pub fn operation_error(fault: StoreFault) -> (error: GatewayError)
    ensures
        error@ == GatewayErrorView::OperationFailed(fault.message@),
{
    GatewayError::OperationFailed(fault.message)
}

/// What the gateway makes of a store's answer to a write or a removal: any
/// fault is a failed operation, whatever its kind.
pub fn change_result(answer: Result<(), StoreFault>) -> (result: Result<(), GatewayError>)
    ensures
        change_view(result) == change_outcome(fault_in(answer)),
{
    match answer {
        Ok(()) => Ok(()),
        Err(fault) => Err(operation_error(fault)),
    }
}

/// What the gateway makes of a store's answer to a read: a value is found, a
/// missing record is an absent value and no error, and any other fault is a
/// failed operation.
pub fn read_result(
    answer: Result<String, StoreFault>,
) -> (result: Result<Option<String>, GatewayError>)
    ensures
        read_view(result) == read_outcome(read_answer(answer)),
        answer matches Ok(value) ==> result == Ok::<Option<String>, GatewayError>(Some(value)),
{
    match answer {
        Ok(value) => Ok(Some(value)),
        Err(fault) => match fault.kind {
            FaultKind::NoEntry => Ok(None),
            FaultKind::Other => Err(operation_error(fault)),
        },
    }
}

/// Sets the secret for `key` to `value`, in place of any secret held for it.
///
/// The store is asked for a handle and, where it hands one out, to write
/// `value` through it: nothing else is asked of it. A refused handle is
/// `HandleCreationFailed` and a refused write is `OperationFailed`, each with
/// the store's message. On an authoritative store that admits key and value
/// this succeeds, and the records are those of before with `value` under
/// `key`.
pub fn set<S: CredentialStore>(
    store: &mut S,
    key: &str,
    value: &str,
) -> (result: Result<(), GatewayError>)
    ensures
        old(store).journal().is_prefix_of(final(store).journal()),
        set_calls(made_since(old(store).journal(), final(store).journal()), key@, value@),
        change_view(result) == set_outcome(
            made_since(old(store).journal(), final(store).journal()),
        ),
        result matches Err(error) ==> S::describes(error@.message()),
        S::admits(service_namespace()) && S::admits(key@) && S::admits(value@) ==> (
            result matches Err(error) ==> S::reports(error@.message())
        ),
        !S::admits(service_namespace()) || !S::admits(key@) ==> change_view(result) == Err::<
            (),
            GatewayErrorView,
        >(GatewayErrorView::HandleCreationFailed(S::refusal())),
        S::admits(service_namespace()) && S::admits(key@) && !S::admits(value@) ==> {
            ||| change_view(result) == Err::<(), GatewayErrorView>(
                GatewayErrorView::OperationFailed(S::refusal()),
            )
            ||| result matches Err(error) && error is HandleCreationFailed && S::reports(
                error@.message(),
            )
        },
        !S::admits(value@) ==> result is Err,
        final(store).authoritative() == old(store).authoritative(),
        old(store).authoritative() ==> final(store).records() == (if result is Ok {
            after_set(old(store).records(), key@, value@)
        } else {
            old(store).records()
        }),
        old(store).authoritative() && S::admits(service_namespace()) && S::admits(key@)
            && S::admits(value@) ==> result is Ok,
{
    let ghost before = store.journal();
    let result = match store.create(SERVICE, key) {
        Err(fault) => Err(handle_error(fault)),
        Ok(handle) => change_result(store.write(&handle, value)),
    };
    proof {
        lemma_made_since(before, store.journal());
    }
    result
}

/// Reads the secret for `key`.
///
/// The store is asked for a handle and, where it hands one out, to read
/// through it: nothing else is asked of it. A missing record is `Ok(None)`.
/// A refused handle is `HandleCreationFailed` and any other refused read is
/// `OperationFailed`, each with the store's message. On an authoritative
/// store that admits the key this succeeds: with the secret where the
/// records hold one for `key`, and with `None` where they do not.
pub fn get<S: CredentialStore>(
    store: &mut S,
    key: &str,
) -> (result: Result<Option<String>, GatewayError>)
    ensures
        old(store).journal().is_prefix_of(final(store).journal()),
        get_calls(made_since(old(store).journal(), final(store).journal()), key@),
        read_view(result) == get_outcome(made_since(old(store).journal(), final(store).journal())),
        result matches Err(error) ==> S::describes(error@.message()),
        S::admits(service_namespace()) && S::admits(key@) ==> (
            result matches Err(error) ==> S::reports(error@.message())
        ),
        !S::admits(service_namespace()) || !S::admits(key@) ==> read_view(result) == Err::<
            Option<Seq<char>>,
            GatewayErrorView,
        >(GatewayErrorView::HandleCreationFailed(S::refusal())),
        final(store).authoritative() == old(store).authoritative(),
        old(store).authoritative() ==> final(store).records() == old(store).records(),
        old(store).authoritative() && S::admits(service_namespace()) && S::admits(key@)
            ==> read_view(result) == Ok::<Option<Seq<char>>, GatewayErrorView>(
            stored(old(store).records(), key@),
        ),
{
    let ghost before = store.journal();
    let result = match store.create(SERVICE, key) {
        Err(fault) => Err(handle_error(fault)),
        Ok(handle) => read_result(store.read(&handle)),
    };
    proof {
        lemma_made_since(before, store.journal());
    }
    result
}

/// Deletes the secret for `key`.
///
/// The store is asked for a handle and, where it hands one out, to remove
/// the record through it: nothing is read first, and nothing else is asked
/// of the store. A refused handle is `HandleCreationFailed` and a refused
/// removal is `OperationFailed`, each with the store's message. On an
/// authoritative store that admits the key this succeeds where the records
/// hold a secret for `key`, which is then gone. Where they hold none it fails
/// with `OperationFailed` and changes nothing.
pub fn delete<S: CredentialStore>(store: &mut S, key: &str) -> (result: Result<(), GatewayError>)
    ensures
        old(store).journal().is_prefix_of(final(store).journal()),
        delete_calls(made_since(old(store).journal(), final(store).journal()), key@),
        change_view(result) == delete_outcome(
            made_since(old(store).journal(), final(store).journal()),
        ),
        result matches Err(error) ==> S::describes(error@.message()),
        S::admits(service_namespace()) && S::admits(key@) ==> (
            result matches Err(error) ==> S::reports(error@.message())
        ),
        !S::admits(service_namespace()) || !S::admits(key@) ==> change_view(result) == Err::<
            (),
            GatewayErrorView,
        >(GatewayErrorView::HandleCreationFailed(S::refusal())),
        final(store).authoritative() == old(store).authoritative(),
        old(store).authoritative() ==> final(store).records() == (if result is Ok {
            after_delete(old(store).records(), key@)
        } else {
            old(store).records()
        }),
        old(store).authoritative() && S::admits(service_namespace()) && S::admits(key@) ==> {
            &&& result is Ok <==> stored(old(store).records(), key@) is Some
            &&& result matches Err(error) ==> error is OperationFailed
        },
{
    let ghost before = store.journal();
    let result = match store.create(SERVICE, key) {
        Err(fault) => Err(handle_error(fault)),
        Ok(handle) => change_result(store.delete(&handle)),
    };
    proof {
        lemma_made_since(before, store.journal());
    }
    result
}

} // verus!
