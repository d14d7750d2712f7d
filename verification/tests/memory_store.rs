use credential_gateway::error::{FaultKind, GatewayError};
use credential_gateway::gateway;
use credential_gateway::memory::MemoryStore;
use credential_gateway::store::CredentialStore;

const ABSENT: &str = "no record is stored under this key";

#[test]
fn service_namespace_is_fixed() {
    assert_eq!(gateway::SERVICE, "com.nexusencryption.app");
}

#[test]
fn set_then_get_returns_the_value() {
    let mut store = MemoryStore::new();
    assert_eq!(gateway::set(&mut store, "token", "s3cret"), Ok(()));
    assert_eq!(gateway::get(&mut store, "token"), Ok(Some("s3cret".to_string())));
}

#[test]
fn get_of_an_unwritten_key_is_absent() {
    let mut store = MemoryStore::new();
    assert_eq!(gateway::get(&mut store, "token"), Ok(None));
}

#[test]
fn get_of_a_deleted_key_is_absent() {
    let mut store = MemoryStore::new();
    gateway::set(&mut store, "a", "1").unwrap();
    gateway::set(&mut store, "b", "2").unwrap();
    assert_eq!(gateway::delete(&mut store, "a"), Ok(()));
    assert_eq!(gateway::get(&mut store, "a"), Ok(None));
    assert_eq!(gateway::get(&mut store, "b"), Ok(Some("2".to_string())));
}

#[test]
fn set_twice_keeps_the_second_value() {
    let mut store = MemoryStore::new();
    assert_eq!(gateway::set(&mut store, "token", "first"), Ok(()));
    assert_eq!(gateway::set(&mut store, "token", "second"), Ok(()));
    assert_eq!(gateway::get(&mut store, "token"), Ok(Some("second".to_string())));
    assert_eq!(gateway::delete(&mut store, "token"), Ok(()));
    assert_eq!(gateway::get(&mut store, "token"), Ok(None));
}

#[test]
fn set_delete_get_is_absent() {
    let mut store = MemoryStore::new();
    assert_eq!(gateway::set(&mut store, "token", "s3cret"), Ok(()));
    assert_eq!(gateway::delete(&mut store, "token"), Ok(()));
    assert_eq!(gateway::get(&mut store, "token"), Ok(None));
}

#[test]
fn delete_of_an_absent_key_fails_and_changes_nothing() {
    let mut store = MemoryStore::new();
    gateway::set(&mut store, "kept", "value").unwrap();
    assert_eq!(
        gateway::delete(&mut store, "missing"),
        Err(GatewayError::OperationFailed(ABSENT.to_string()))
    );
    assert_eq!(gateway::get(&mut store, "kept"), Ok(Some("value".to_string())));
    assert_eq!(gateway::get(&mut store, "missing"), Ok(None));
}

#[test]
fn delete_twice_fails_the_second_time() {
    let mut store = MemoryStore::new();
    gateway::set(&mut store, "token", "v").unwrap();
    assert_eq!(gateway::delete(&mut store, "token"), Ok(()));
    assert_eq!(
        gateway::delete(&mut store, "token"),
        Err(GatewayError::OperationFailed(ABSENT.to_string()))
    );
}

#[test]
fn keys_do_not_touch_each_other() {
    let mut store = MemoryStore::new();
    gateway::set(&mut store, "a", "1").unwrap();
    gateway::set(&mut store, "b", "2").unwrap();
    gateway::set(&mut store, "c", "3").unwrap();
    gateway::set(&mut store, "b", "two").unwrap();
    assert_eq!(gateway::get(&mut store, "a"), Ok(Some("1".to_string())));
    assert_eq!(gateway::get(&mut store, "b"), Ok(Some("two".to_string())));
    assert_eq!(gateway::get(&mut store, "c"), Ok(Some("3".to_string())));
    gateway::delete(&mut store, "a").unwrap();
    assert_eq!(gateway::get(&mut store, "a"), Ok(None));
    assert_eq!(gateway::get(&mut store, "b"), Ok(Some("two".to_string())));
    assert_eq!(gateway::get(&mut store, "c"), Ok(Some("3".to_string())));
}

#[test]
fn empty_key_and_empty_value_are_a_record_like_any_other() {
    let mut store = MemoryStore::new();
    assert_eq!(gateway::set(&mut store, "", ""), Ok(()));
    assert_eq!(gateway::get(&mut store, ""), Ok(Some(String::new())));
    assert_eq!(gateway::get(&mut store, " "), Ok(None));
    assert_eq!(gateway::delete(&mut store, ""), Ok(()));
    assert_eq!(gateway::get(&mut store, ""), Ok(None));
}

#[test]
fn keys_are_compared_exactly() {
    let mut store = MemoryStore::new();
    gateway::set(&mut store, "Token", "upper").unwrap();
    assert_eq!(gateway::get(&mut store, "token"), Ok(None));
    assert_eq!(gateway::get(&mut store, "Token "), Ok(None));
    assert_eq!(gateway::get(&mut store, "Tokén"), Ok(None));
    assert_eq!(gateway::get(&mut store, "Token"), Ok(Some("upper".to_string())));
}

#[test]
fn gateway_writes_under_its_own_namespace() {
    let mut store = MemoryStore::new();
    gateway::set(&mut store, "token", "mine").unwrap();
    let same = store.create("com.nexusencryption.app", "token").unwrap();
    assert_eq!(store.read(&same), Ok("mine".to_string()));
    let elsewhere = store.create("org.example.other", "token").unwrap();
    assert_eq!(store.read(&elsewhere).unwrap_err().kind, FaultKind::NoEntry);
}

#[test]
fn namespaces_do_not_touch_each_other() {
    let mut store = MemoryStore::new();
    let other = store.create("org.example.other", "token").unwrap();
    assert_eq!(store.write(&other, "theirs"), Ok(()));
    assert_eq!(gateway::get(&mut store, "token"), Ok(None));
    gateway::set(&mut store, "token", "mine").unwrap();
    assert_eq!(store.read(&other), Ok("theirs".to_string()));
    assert_eq!(store.delete(&other), Ok(()));
    assert_eq!(gateway::get(&mut store, "token"), Ok(Some("mine".to_string())));
}

#[test]
fn store_reports_a_missing_record_as_no_entry() {
    let mut store = MemoryStore::new();
    let handle = store.create("ns", "k").unwrap();
    let read = store.read(&handle).unwrap_err();
    assert_eq!(read.kind, FaultKind::NoEntry);
    assert_eq!(read.message, ABSENT);
    let removed = store.delete(&handle).unwrap_err();
    assert_eq!(removed.kind, FaultKind::NoEntry);
    assert_eq!(removed.message, ABSENT);
}

#[test]
fn a_handle_serves_more_than_one_operation() {
    let mut store = MemoryStore::new();
    let handle = store.create("ns", "k").unwrap();
    assert_eq!(store.write(&handle, "1"), Ok(()));
    assert_eq!(store.write(&handle, "2"), Ok(()));
    assert_eq!(store.read(&handle), Ok("2".to_string()));
    assert_eq!(store.delete(&handle), Ok(()));
    assert_eq!(store.read(&handle).unwrap_err().kind, FaultKind::NoEntry);
}
