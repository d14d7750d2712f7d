//! The credential store of the operating system, reached through `keyring`.

use vstd::prelude::*;
use vstd::string::*;
use crate::error::{FaultKind, StoreFault};
use crate::store::{fault_in, read_answer, Call, CredentialStore, Records, Slot};

verus! {

/// The most bytes that a namespace, a key or a secret may have to be handed
/// to the platform: 128 MiB. Where the platform's store is asked over D-Bus,
/// no message may be longer than that, and `keyring` stops the program where
/// a length in a message does not fit 32 bits. What is over the limit is
/// turned down before `keyring` is called.
pub const LONGEST: usize = 134_217_728;

/// The number of bytes that `text` takes as UTF-8.
pub open spec fn byte_len(text: Seq<char>) -> nat {
    vstd::utf8::encode_utf8(text).len()
}

/// Whether `text` is short enough to be handed to the platform.
pub open spec fn within_limit(text: Seq<char>) -> bool {
    byte_len(text) <= LONGEST
}

/// The message with which a text over the limit is turned down.
pub open spec fn too_long() -> Seq<char> {
    "too long for the credential store"@
}

/// Whether `message` is a text that `keyring` gives for one of its errors.
pub open spec fn rendered_by_keyring(message: Seq<char>) -> bool {
    exists|error: keyring::Error, text: String|
        #[trigger] vstd::string::to_string_from_display_ensures::<keyring::Error>(&error, text)
            && text@ == message
}

/// `keyring::Entry`: a reference to one credential of the platform's store.
/// Nothing is known of what it holds.
#[verifier::external_type_specification]
#[verifier::external_body]
pub struct ExEntry(keyring::Entry);

/// `keyring::Error`: what the platform's store reports. Nothing is known of
/// what it holds but through `is_no_entry` and its rendering as text.
#[verifier::external_type_specification]
#[verifier::external_body]
pub struct ExError(keyring::Error);

/// The service and the user that `keyring::Entry::new` was given when it made
/// `entry`.
pub uninterp spec fn opened_for(entry: keyring::Entry) -> (Seq<char>, Seq<char>);

/// Whether `error` is the variant `keyring::Error::NoEntry`.
pub uninterp spec fn reports_no_entry(error: keyring::Error) -> bool;

/// A handle of the platform's store: a `keyring` entry, with the namespace
/// and the key that it was made for. Both are within the limit.
pub struct KeychainHandle {
    entry: keyring::Entry,
    namespace: String,
    key: String,
}

impl KeychainHandle {
    #[verifier::type_invariant]
    spec fn bounded(&self) -> bool {
        &&& opened_for(self.entry) == (self.namespace@, self.key@)
        &&& within_limit(self.namespace@)
        &&& within_limit(self.key@)
    }

    /// The slot that the handle was made for.
    pub closed spec fn slot(&self) -> Slot {
        Slot { namespace: self.namespace@, key: self.key@ }
    }
}

/// `keyring::Entry::new` builds an entry for a service and a user with the
/// credential builder that is the default at the time of the call. Whether it
/// succeeds is up to that builder, so nothing is claimed of that. An entry
/// that comes back is one for this service and this user, which is all that
/// `opened_for` names. With the builders that `keyring` ships, no service and
/// no user makes it panic.
pub assume_specification[ keyring::Entry::new ](
    service: &str,
    user: &str,
) -> (opened: keyring::Result<keyring::Entry>)
    ensures
        opened matches Ok(entry) ==> opened_for(entry) == (service@, user@),
;

/// `keyring::Entry::set_password` asks the platform's store to hold the
/// password for the entry. Whether the store does so is up to the platform,
/// so nothing is claimed of the result. The request may go out as a message
/// that holds service and user twice and the password once, with lengths in
/// 32 bits: within the limit on all three, five times the limit and the
/// message's own few hundred bytes fit, so no length makes the call panic.
#[verifier::external_body]
fn entry_set_password(
    handle: &KeychainHandle,
    password: &str,
) -> (written: Result<(), keyring::Error>)
    requires
        handle.bounded(),
        within_limit(password@),
{
    handle.entry.set_password(password)
}

/// `keyring::Entry::get_password` asks the platform's store for the entry's
/// password. What the store holds is not known here, so nothing is claimed of
/// the result. The request may go out as a message that holds service and
/// user, with lengths in 32 bits: within the limit on both, every length
/// fits, so no length makes the call panic.
#[verifier::external_body]
fn entry_get_password(handle: &KeychainHandle) -> (found: Result<String, keyring::Error>)
    requires
        handle.bounded(),
{
    handle.entry.get_password()
}

/// `keyring::Entry::delete_password` asks the platform's store to forget the
/// entry's password. What the store holds is not known here, so nothing is
/// claimed of the result. The request may go out as a message that holds
/// service and user, with lengths in 32 bits: within the limit on both,
/// every length fits, so no length makes the call panic.
#[verifier::external_body]
fn entry_delete_password(handle: &KeychainHandle) -> (removed: Result<(), keyring::Error>)
    requires
        handle.bounded(),
{
    handle.entry.delete_password()
}

/// Tells the variant `keyring::Error::NoEntry` from all the others: the
/// answer is what `reports_no_entry` names.
#[verifier::external_body]
fn is_no_entry(error: &keyring::Error) -> (absent: bool)
    ensures
        absent == reports_no_entry(*error),
{
    matches!(error, keyring::Error::NoEntry)
}

/// Turns what the platform reported into a fault: `NoEntry` for the error of
/// that name and `Other` for every other, with the text as `keyring` renders
/// it.
fn fault_of(error: keyring::Error) -> (fault: StoreFault)
    ensures
        fault.kind == (if reports_no_entry(error) {
            FaultKind::NoEntry
        } else {
            FaultKind::Other
        }),
        vstd::string::to_string_from_display_ensures::<keyring::Error>(&error, fault.message),
        rendered_by_keyring(fault.message@),
{
    let kind = if is_no_entry(&error) { FaultKind::NoEntry } else { FaultKind::Other };
    let message = error.to_string();
    StoreFault { kind, message }
}

/// Whether `text` is within the limit.
fn fits(text: &str) -> (short: bool)
    ensures
        short == within_limit(text@),
{
    text.as_bytes().len() <= LONGEST
}

/// The fault for a text over the limit.
fn over_limit() -> (fault: StoreFault)
    ensures
        fault@ == crate::store::refused(too_long()),
{
    StoreFault {
        kind: FaultKind::Other,
        message: String::from_str("too long for the credential store"),
    }
}

/// The credential store of the operating system. It holds no record itself:
/// every operation is a round trip to the platform.
pub struct OsKeychain {
    calls: Ghost<Seq<Call>>,
}

impl OsKeychain {
    /// The platform's store, of which nothing has been asked yet. It is not
    /// authoritative: other programs write to it, and it may be locked or
    /// absent.
    pub fn new() -> (store: OsKeychain)
        ensures
            !store.authoritative(),
            store.journal() == Seq::<Call>::empty(),
    {
        OsKeychain { calls: Ghost(Seq::empty()) }
    }
}

impl CredentialStore for OsKeychain {
    type Handle = KeychainHandle;

    open spec fn authoritative(&self) -> bool {
        false
    }

    /// Nothing is known of the platform's records.
    closed spec fn records(&self) -> Records {
        arbitrary()
    }

    closed spec fn journal(&self) -> Seq<Call> {
        self.calls@
    }

    open spec fn slot_of(handle: &KeychainHandle) -> Slot {
        handle.slot()
    }

    open spec fn admits(text: Seq<char>) -> bool {
        within_limit(text)
    }

    open spec fn refusal() -> Seq<char> {
        too_long()
    }

    /// A fault of this store carries a text of `keyring`, or the refusal of
    /// a text over the limit.
    open spec fn describes(message: Seq<char>) -> bool {
        rendered_by_keyring(message) || message == too_long()
    }

    /// What the platform reports comes as a text of `keyring`.
    open spec fn reports(message: Seq<char>) -> bool {
        rendered_by_keyring(message)
    }

    fn create(&mut self, namespace: &str, key: &str) -> (created: Result<KeychainHandle, StoreFault>) {
        let created = if !fits(namespace) || !fits(key) {
            Err(over_limit())
        } else {
            match keyring::Entry::new(namespace, key) {
                Ok(entry) => Ok(
                    KeychainHandle {
                        entry,
                        namespace: String::from_str(namespace),
                        key: String::from_str(key),
                    },
                ),
                Err(error) => Err(fault_of(error)),
            }
        };
        self.calls = Ghost(
            self.calls@.push(
                Call::Create {
                    slot: Slot { namespace: namespace@, key: key@ },
                    fault: fault_in(created),
                },
            ),
        );
        created
    }

    fn write(&mut self, handle: &KeychainHandle, value: &str) -> (written: Result<(), StoreFault>) {
        proof {
            use_type_invariant(handle);
        }
        let written = if !fits(value) {
            Err(over_limit())
        } else {
            match entry_set_password(handle, value) {
                Ok(()) => Ok(()),
                Err(error) => Err(fault_of(error)),
            }
        };
        self.calls = Ghost(
            self.calls@.push(
                Call::Write { slot: handle.slot(), value: value@, fault: fault_in(written) },
            ),
        );
        written
    }

    fn read(&mut self, handle: &KeychainHandle) -> (found: Result<String, StoreFault>) {
        proof {
            use_type_invariant(handle);
        }
        let found = match entry_get_password(handle) {
            Ok(value) => Ok(value),
            Err(error) => Err(fault_of(error)),
        };
        self.calls = Ghost(
            self.calls@.push(Call::Read { slot: handle.slot(), answer: read_answer(found) }),
        );
        found
    }

    fn delete(&mut self, handle: &KeychainHandle) -> (removed: Result<(), StoreFault>) {
        proof {
            use_type_invariant(handle);
        }
        let removed = match entry_delete_password(handle) {
            Ok(()) => Ok(()),
            Err(error) => Err(fault_of(error)),
        };
        self.calls = Ghost(
            self.calls@.push(Call::Delete { slot: handle.slot(), fault: fault_in(removed) }),
        );
        removed
    }
}

} // verus!
