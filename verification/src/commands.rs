//! The commands that a desktop shell calls. Each runs one gateway operation
//! on the credential store of the operating system and reports a failure as
//! the store's own message.

use vstd::prelude::*;
use crate::error::GatewayError;
use crate::gateway;
use crate::gateway::service_namespace;
use crate::keychain::{rendered_by_keyring, too_long, within_limit, OsKeychain};
use crate::store::CredentialStore;

verus! {

/// What a write or a removal returned, with its message as a sequence of
/// characters.
pub open spec fn change_text(result: Result<(), String>) -> Result<(), Seq<char>> {
    match result {
        Ok(_) => Ok(()),
        Err(message) => Err(message@),
    }
}

/// What a read returned, with its texts as sequences of characters.
pub open spec fn read_text(result: Result<Option<String>, String>) -> Result<
    Option<Seq<char>>,
    Seq<char>,
> {
    match result {
        Ok(found) => Ok(found.deep_view()),
        Err(message) => Err(message@),
    }
}

/// The gateway's namespace is within the limit of the platform's store, so
/// that store turns down a request only for its key or its value.
pub proof fn lemma_namespace_within_limit()
    ensures
        within_limit(service_namespace()),
{
    reveal_strlit("com.nexusencryption.app");
    assert(vstd::utf8::is_ascii_chars(service_namespace()));
    vstd::utf8::is_ascii_chars_encode_utf8(service_namespace());
}

/// Renders a failure as its message and leaves a success as it is.
pub fn as_message<T>(result: Result<T, GatewayError>) -> (rendered: Result<T, String>)
    ensures
        match result {
            Ok(value) => rendered == Ok::<T, String>(value),
            Err(error) => rendered is Err && rendered->Err_0@ == error@.message(),
        },
{
    match result {
        Ok(value) => Ok(value),
        Err(error) => Err(error.into_message()),
    }
}

/// Stores `value` under `key` in the operating system's credential store.
///
/// A key over the limit is turned down before the platform is asked, and so
/// is a value over the limit once the platform has handed out a handle. For
/// every other key and value the platform decides: its store may be absent
/// or locked, and a failure then carries the text that `keyring` gives for
/// the platform's error. What is returned is `as_message` of what
/// `gateway::set` makes of the answers.
pub fn keychain_set(key: String, value: String) -> (result: Result<(), String>)
    ensures
        !within_limit(key@) ==> change_text(result) == Err::<(), Seq<char>>(too_long()),
        within_limit(key@) && !within_limit(value@) ==> {
            &&& result matches Err(message)
            &&& message@ == too_long() || rendered_by_keyring(message@)
        },
        within_limit(key@) && within_limit(value@) ==> (result matches Err(message)
            ==> rendered_by_keyring(message@)),
        result matches Err(message) ==> OsKeychain::describes(message@),
{
    proof {
        lemma_namespace_within_limit();
    }
    let mut store = OsKeychain::new();
    as_message(gateway::set(&mut store, key.as_str(), value.as_str()))
}

/// Reads the secret under `key` from the operating system's credential store.
///
/// `Ok(None)` says that the platform holds no secret for the key. A key over
/// the limit is turned down before the platform is asked. For every other
/// key the platform decides, and a failure carries the text that `keyring`
/// gives for the platform's error. What is returned is `as_message` of what
/// `gateway::get` makes of the answers.
pub fn keychain_get(key: String) -> (result: Result<Option<String>, String>)
    ensures
        !within_limit(key@) ==> read_text(result) == Err::<Option<Seq<char>>, Seq<char>>(
            too_long(),
        ),
        within_limit(key@) ==> (result matches Err(message) ==> rendered_by_keyring(message@)),
        result matches Err(message) ==> OsKeychain::describes(message@),
{
    proof {
        lemma_namespace_within_limit();
    }
    let mut store = OsKeychain::new();
    as_message(gateway::get(&mut store, key.as_str()))
}

/// Removes the secret under `key` from the operating system's credential
/// store.
///
/// A key over the limit is turned down before the platform is asked. For
/// every other key the platform decides, and a failure carries the text that
/// `keyring` gives for the platform's error. A platform that holds no secret
/// for the key answers with an error, which is reported like any other. What
/// is returned is `as_message` of what `gateway::delete` makes of the
/// answers.
pub fn keychain_delete(key: String) -> (result: Result<(), String>)
    ensures
        !within_limit(key@) ==> change_text(result) == Err::<(), Seq<char>>(too_long()),
        within_limit(key@) ==> (result matches Err(message) ==> rendered_by_keyring(message@)),
        result matches Err(message) ==> OsKeychain::describes(message@),
{
    proof {
        lemma_namespace_within_limit();
    }
    let mut store = OsKeychain::new();
    as_message(gateway::delete(&mut store, key.as_str()))
}

} // verus!
