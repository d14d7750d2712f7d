use credential_gateway::{keychain_delete, keychain_get, keychain_set};
use keyring::credential::{Credential, CredentialApi, CredentialBuilderApi};
use std::any::Any;
use std::sync::{Arc, Mutex};

// A credential store for `keyring` that writes down every request it gets,
// and can be told to hand out no credential.

struct RecordingCredential {
    requests: Arc<Mutex<Vec<String>>>,
}

impl CredentialApi for RecordingCredential {
    fn set_password(&self, password: &str) -> keyring::Result<()> {
        self.requests.lock().unwrap().push(format!("set [{}]", password));
        Ok(())
    }

    fn get_password(&self) -> keyring::Result<String> {
        self.requests.lock().unwrap().push("get".to_string());
        Err(keyring::Error::NoEntry)
    }

    fn delete_password(&self) -> keyring::Result<()> {
        self.requests.lock().unwrap().push("delete".to_string());
        Err(keyring::Error::NoEntry)
    }

    fn as_any(&self) -> &dyn Any {
        self
    }
}

struct RecordingBuilder {
    requests: Arc<Mutex<Vec<String>>>,
    refuse: Arc<Mutex<bool>>,
}

impl CredentialBuilderApi for RecordingBuilder {
    fn build(
        &self,
        target: Option<&str>,
        service: &str,
        user: &str,
    ) -> keyring::Result<Box<Credential>> {
        self.requests
            .lock()
            .unwrap()
            .push(format!("build {:?} [{}] [{}]", target, service, user));
        if *self.refuse.lock().unwrap() {
            return Err(keyring::Error::Invalid("user".to_string(), "refused".to_string()));
        }
        Ok(Box::new(RecordingCredential { requests: self.requests.clone() }))
    }

    fn as_any(&self) -> &dyn Any {
        self
    }
}

fn taken(requests: &Arc<Mutex<Vec<String>>>) -> Vec<String> {
    std::mem::take(&mut *requests.lock().unwrap())
}

#[test]
fn each_command_asks_for_a_handle_and_makes_one_request() {
    let requests = Arc::new(Mutex::new(Vec::new()));
    let refuse = Arc::new(Mutex::new(false));
    keyring::set_default_credential_builder(Box::new(RecordingBuilder {
        requests: requests.clone(),
        refuse: refuse.clone(),
    }));

    assert_eq!(keychain_set("tokén ".to_string(), " s3crét\n".to_string()), Ok(()));
    assert_eq!(
        taken(&requests),
        vec![
            "build None [com.nexusencryption.app] [tokén ]".to_string(),
            "set [ s3crét\n]".to_string()
        ]
    );

    assert_eq!(keychain_get("token".to_string()), Ok(None));
    assert_eq!(
        taken(&requests),
        vec!["build None [com.nexusencryption.app] [token]".to_string(), "get".to_string()]
    );

    assert_eq!(
        keychain_delete("".to_string()),
        Err("No matching entry found in secure storage".to_string())
    );
    assert_eq!(
        taken(&requests),
        vec!["build None [com.nexusencryption.app] []".to_string(), "delete".to_string()]
    );

    // where no handle is handed out nothing follows
    *refuse.lock().unwrap() = true;
    let refused = Err("Attribute user is invalid: refused".to_string());
    assert_eq!(keychain_set("token".to_string(), "v".to_string()), refused);
    assert_eq!(
        taken(&requests),
        vec!["build None [com.nexusencryption.app] [token]".to_string()]
    );
    assert_eq!(
        keychain_get("token".to_string()),
        Err("Attribute user is invalid: refused".to_string())
    );
    assert_eq!(
        taken(&requests),
        vec!["build None [com.nexusencryption.app] [token]".to_string()]
    );
    assert_eq!(keychain_delete("token".to_string()), refused);
    assert_eq!(
        taken(&requests),
        vec!["build None [com.nexusencryption.app] [token]".to_string()]
    );

    // what is over the limit asks nothing of the platform
    *refuse.lock().unwrap() = false;
    let long = "k".repeat(credential_gateway::keychain::LONGEST + 1);
    assert!(keychain_set(long.clone(), "v".to_string()).is_err());
    assert!(keychain_get(long.clone()).is_err());
    assert!(keychain_delete(long.clone()).is_err());
    assert_eq!(taken(&requests), Vec::<String>::new());
    assert!(keychain_set("token".to_string(), long).is_err());
    assert_eq!(
        taken(&requests),
        vec!["build None [com.nexusencryption.app] [token]".to_string()]
    );
}
