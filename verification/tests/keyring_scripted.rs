use credential_gateway::error::{FaultKind, GatewayError};
use credential_gateway::gateway;
use credential_gateway::keychain::OsKeychain;
use credential_gateway::store::CredentialStore;
use credential_gateway::{keychain_delete, keychain_get, keychain_set};
use keyring::credential::{Credential, CredentialApi, CredentialBuilderApi};
use std::any::Any;
use std::sync::{Arc, Mutex};

// A credential store for `keyring` that answers every request with the error
// that the test has put in place, and with success where there is none.

struct ScriptedCredential {
    next: Arc<Mutex<Option<keyring::Error>>>,
}

impl CredentialApi for ScriptedCredential {
    fn set_password(&self, _password: &str) -> keyring::Result<()> {
        match self.next.lock().unwrap().take() {
            Some(error) => Err(error),
            None => Ok(()),
        }
    }

    fn get_password(&self) -> keyring::Result<String> {
        match self.next.lock().unwrap().take() {
            Some(error) => Err(error),
            None => Ok("scripted".to_string()),
        }
    }

    fn delete_password(&self) -> keyring::Result<()> {
        match self.next.lock().unwrap().take() {
            Some(error) => Err(error),
            None => Ok(()),
        }
    }

    fn as_any(&self) -> &dyn Any {
        self
    }
}

struct ScriptedBuilder {
    next: Arc<Mutex<Option<keyring::Error>>>,
}

impl CredentialBuilderApi for ScriptedBuilder {
    fn build(
        &self,
        _target: Option<&str>,
        _service: &str,
        _user: &str,
    ) -> keyring::Result<Box<Credential>> {
        Ok(Box::new(ScriptedCredential { next: self.next.clone() }))
    }

    fn as_any(&self) -> &dyn Any {
        self
    }
}

fn fail_next(next: &Arc<Mutex<Option<keyring::Error>>>, error: keyring::Error) {
    *next.lock().unwrap() = Some(error);
}

#[test]
fn every_error_of_the_platform_comes_back_with_its_text() {
    let next = Arc::new(Mutex::new(None));
    keyring::set_default_credential_builder(Box::new(ScriptedBuilder { next: next.clone() }));
    let mut store = OsKeychain::new();
    let handle = store.create(gateway::SERVICE, "token").ok().unwrap();

    fail_next(&next, keyring::Error::Invalid("user".to_string(), "bad".to_string()));
    let fault = store.write(&handle, "v").unwrap_err();
    assert_eq!(fault.kind, FaultKind::Other);
    assert_eq!(fault.message, "Attribute user is invalid: bad");

    fail_next(&next, keyring::Error::TooLong("service".to_string(), 3));
    let fault = store.read(&handle).unwrap_err();
    assert_eq!(fault.kind, FaultKind::Other);
    assert_eq!(fault.message, "Attribute 'service' is longer than platform limit of 3 chars");

    fail_next(&next, keyring::Error::BadEncoding(vec![0x80]));
    let fault = store.delete(&handle).unwrap_err();
    assert_eq!(fault.kind, FaultKind::Other);
    assert_eq!(fault.message, "Password cannot be UTF-8 encoded");

    fail_next(&next, keyring::Error::PlatformFailure("the bus is gone".into()));
    let fault = store.read(&handle).unwrap_err();
    assert_eq!(fault.kind, FaultKind::Other);
    assert_eq!(fault.message, "Platform secure storage failure: the bus is gone");

    fail_next(&next, keyring::Error::NoStorageAccess("locked".into()));
    let fault = store.write(&handle, "v").unwrap_err();
    assert_eq!(fault.kind, FaultKind::Other);
    assert_eq!(fault.message, "Couldn't access platform secure storage: locked");

    fail_next(&next, keyring::Error::NoEntry);
    let fault = store.delete(&handle).unwrap_err();
    assert_eq!(fault.kind, FaultKind::NoEntry);
    assert_eq!(fault.message, "No matching entry found in secure storage");

    // the operations: a fault is never taken for success
    fail_next(&next, keyring::Error::NoStorageAccess("locked".into()));
    assert_eq!(
        gateway::set(&mut store, "token", "v"),
        Err(GatewayError::OperationFailed(
            "Couldn't access platform secure storage: locked".to_string()
        ))
    );
    fail_next(&next, keyring::Error::BadEncoding(vec![0xbf]));
    assert_eq!(
        gateway::get(&mut store, "token"),
        Err(GatewayError::OperationFailed("Password cannot be UTF-8 encoded".to_string()))
    );
    fail_next(&next, keyring::Error::NoEntry);
    assert_eq!(gateway::get(&mut store, "token"), Ok(None));
    assert_eq!(gateway::get(&mut store, "token"), Ok(Some("scripted".to_string())));
    fail_next(&next, keyring::Error::PlatformFailure("gone".into()));
    assert_eq!(
        gateway::delete(&mut store, "token"),
        Err(GatewayError::OperationFailed("Platform secure storage failure: gone".to_string()))
    );
    fail_next(&next, keyring::Error::NoEntry);
    assert_eq!(
        gateway::delete(&mut store, "token"),
        Err(GatewayError::OperationFailed(
            "No matching entry found in secure storage".to_string()
        ))
    );

    // the commands: the same, as plain text
    fail_next(&next, keyring::Error::Invalid("password".to_string(), "empty".to_string()));
    assert_eq!(
        keychain_set("token".to_string(), String::new()),
        Err("Attribute password is invalid: empty".to_string())
    );
    assert_eq!(keychain_set("token".to_string(), String::new()), Ok(()));
    fail_next(&next, keyring::Error::NoEntry);
    assert_eq!(keychain_get("token".to_string()), Ok(None));
    fail_next(&next, keyring::Error::NoStorageAccess("locked".into()));
    assert_eq!(
        keychain_get("token".to_string()),
        Err("Couldn't access platform secure storage: locked".to_string())
    );
    fail_next(&next, keyring::Error::NoStorageAccess("locked".into()));
    assert_eq!(
        keychain_delete("token".to_string()),
        Err("Couldn't access platform secure storage: locked".to_string())
    );
    assert_eq!(keychain_delete("token".to_string()), Ok(()));
}
