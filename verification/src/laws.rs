//! What holds of the gateway's operations: on an authoritative store, stated
//! over the records before and after; on any store, stated over the requests
//! that an operation made and the answers that it got.

use vstd::prelude::*;
use crate::error::{FaultKind, FaultView, GatewayErrorView};
use crate::gateway::{
    after_delete, after_set, change_outcome, delete_calls, delete_outcome, get_calls, get_outcome,
    handle_fault, service_slot, stored,
};
use crate::store::{Call, Records};

verus! {

/// A secret that was set for a key is the secret that is read for it.
pub proof fn lemma_set_then_get(records: Records, key: Seq<char>, value: Seq<char>)
    ensures
        stored(after_set(records, key, value), key) == Some(value),
{
}

/// A key for which the records hold nothing reads as absent. So does every
/// key of a store without records.
pub proof fn lemma_get_unwritten(records: Records, key: Seq<char>)
    ensures
        !records.contains_key(service_slot(key)) ==> stored(records, key) is None,
        stored(Records::empty(), key) is None,
{
}

/// A key that was deleted reads as absent.
pub proof fn lemma_get_deleted(records: Records, key: Seq<char>)
    ensures
        stored(after_delete(records, key), key) is None,
{
}

/// Of two secrets set for one key the second stays: the records are those
/// that setting the second alone would give.
pub proof fn lemma_set_overwrites(records: Records, key: Seq<char>, first: Seq<char>, second: Seq<char>)
    ensures
        stored(after_set(after_set(records, key, first), key, second), key) == Some(second),
        after_set(after_set(records, key, first), key, second) == after_set(records, key, second),
{
    assert(after_set(after_set(records, key, first), key, second) =~= after_set(records, key, second));
}

/// A secret that was set and then deleted reads as absent.
pub proof fn lemma_set_delete_get(records: Records, key: Seq<char>, value: Seq<char>)
    ensures
        stored(after_delete(after_set(records, key, value), key), key) is None,
{
}

/// Setting or deleting one key leaves what is read for every other key.
pub proof fn lemma_other_keys_untouched(records: Records, key: Seq<char>, value: Seq<char>, other: Seq<char>)
    requires
        other != key,
    ensures
        stored(after_set(records, key, value), other) == stored(records, other),
        stored(after_delete(records, key), other) == stored(records, other),
{
    assert(service_slot(other) != service_slot(key));
}

/// On any store, a read that is served returns what the store answered.
pub proof fn lemma_get_returns_the_answer(made: Seq<Call>, key: Seq<char>, value: Seq<char>)
    requires
        get_calls(made, key),
        made.len() == 2,
        made[1] matches Call::Read { slot, answer } && answer == Ok::<Seq<char>, FaultView>(value),
    ensures
        get_outcome(made) == Ok::<Option<Seq<char>>, GatewayErrorView>(Some(value)),
{
}

/// On any store, a read that finds no record is an absent value and no
/// error.
pub proof fn lemma_missing_record_is_no_error(made: Seq<Call>, key: Seq<char>)
    requires
        get_calls(made, key),
        made.len() == 2,
        made[1] matches Call::Read { slot, answer } && answer is Err && answer->Err_0.kind
            == FaultKind::NoEntry,
    ensures
        get_outcome(made) == Ok::<Option<Seq<char>>, GatewayErrorView>(None),
{
}

/// On any store that hands out the handle, a delete succeeds or fails as
/// `OperationFailed` with the store's own message for the refused removal,
/// whatever the kind of the fault: a missing record is a failure like any
/// other, and it is never reported as `HandleCreationFailed`.
pub proof fn lemma_refused_delete_is_operation_failed(made: Seq<Call>, key: Seq<char>)
    requires
        delete_calls(made, key),
        handle_fault(made) is None,
    ensures
        made[1] matches Call::Delete { slot, fault } && delete_outcome(made) == change_outcome(
            fault,
        ),
        !(delete_outcome(made) matches Err(GatewayErrorView::HandleCreationFailed(_))),
{
}

} // verus!
