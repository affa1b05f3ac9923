use bytestashy::api_client::APIClient;
use bytestashy::config::{Config, CredentialStore};
use bytestashy::errors::ByteStashyError;

#[test]
fn test_config_creation() {
    let config = Config {
        api_url: "https://example.com".to_string(),
        api_key: "test-key".to_string(),
    };

    assert_eq!(config.api_url, "https://example.com");
    assert_eq!(config.api_key, "test-key");
}

#[test]
fn save_then_load_gives_the_same_credential() {
    let mut store = CredentialStore {
        config_endpoint: Some("https://old".to_string()),
        vault: Err("no entry".to_string()),
    };
    let cfg = Config {
        api_url: "https://host".to_string(),
        api_key: "abc123".to_string(),
    };
    cfg.save(&mut store);
    match Config::load(&store) {
        Ok(Some(loaded)) => {
            assert_eq!(loaded.api_url, "https://host");
            assert_eq!(loaded.api_key, "abc123");
        }
        _ => panic!("expected a saved credential"),
    }
}

#[test]
fn load_without_config_file_is_absent() {
    let store = CredentialStore {
        config_endpoint: None,
        vault: Err("no entry".to_string()),
    };
    assert!(matches!(Config::load(&store), Ok(None)));
    let store = CredentialStore {
        config_endpoint: None,
        vault: Ok("stale".to_string()),
    };
    assert!(matches!(Config::load(&store), Ok(None)));
}

#[test]
fn load_with_config_but_no_vault_entry_is_an_error() {
    let store = CredentialStore {
        config_endpoint: Some("https://host".to_string()),
        vault: Err("no entry".to_string()),
    };
    match Config::load(&store) {
        Err(ByteStashyError::Credential { message }) => {
            assert_eq!(message, "error loading the api key from the vault: no entry")
        }
        _ => panic!("expected a credential error"),
    }
}

#[test]
fn load_with_empty_key_is_an_error() {
    let store = CredentialStore {
        config_endpoint: Some("https://host".to_string()),
        vault: Ok(String::new()),
    };
    assert!(matches!(
        Config::load(&store),
        Err(ByteStashyError::Credential { .. })
    ));
}

#[test]
fn client_needs_a_saved_credential() {
    let store = CredentialStore {
        config_endpoint: None,
        vault: Err("no entry".to_string()),
    };
    match APIClient::new(&store) {
        Err(ByteStashyError::Credential { message }) => assert_eq!(
            message,
            "No saved api key found. Run `bytestashy login <api-url>`."
        ),
        _ => panic!("expected a credential error"),
    }
    let store = CredentialStore {
        config_endpoint: Some("https://host".to_string()),
        vault: Ok("k".to_string()),
    };
    let client = APIClient::new(&store).ok().unwrap();
    assert_eq!(client.api_url, "https://host");
    assert_eq!(client.api_key, "k");
}
