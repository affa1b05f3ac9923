use vstd::prelude::*;
use vstd::string::StringExecFns;

use crate::errors::ByteStashyError;

verus! {

/// The credential the client works with: the server's URL and its API key.
pub struct Config {
    pub api_url: String,
    /// Kept in the credential vault, never in the config file.
    pub api_key: String,
}

impl Config {
    pub open spec fn view(&self) -> (Seq<char>, Seq<char>) {
        (self.api_url@, self.api_key@)
    }

    /// A credential is usable when both its parts are non-empty.
    pub open spec fn usable(&self) -> bool {
        self.api_url@.len() > 0 && self.api_key@.len() > 0
    }
}

/// The persisted state of a credential: the URL recorded in the config file
/// (`None` when there is no config file) and what the vault lookup of the
/// fixed service and account gives (the secret, or why it failed).
pub struct CredentialStore {
    pub config_endpoint: Option<String>,
    pub vault: Result<String, String>,
}

/// A store seen as plain values.
pub ghost struct StoreModel {
    pub endpoint: Option<Seq<char>>,
    pub secret: Result<Seq<char>, Seq<char>>,
}

impl CredentialStore {
    pub open spec fn view(&self) -> StoreModel {
        StoreModel {
            endpoint: match self.config_endpoint {
                Some(e) => Some(e@),
                None => None,
            },
            secret: match self.vault {
                Ok(k) => Ok(k@),
                Err(e) => Err(e@),
            },
        }
    }
}

/// What loading a store yields: `None` for a credential error, `Some(None)`
/// when nothing was saved, `Some(Some((url, key)))` for a usable credential.
pub open spec fn loaded(s: StoreModel) -> Option<Option<(Seq<char>, Seq<char>)>> {
    match s.endpoint {
        None => Some(None),
        Some(e) => match s.secret {
            Ok(k) => if e.len() > 0 && k.len() > 0 {
                Some(Some((e, k)))
            } else {
                None
            },
            Err(_) => None,
        },
    }
}

/// The store after saving the credential `(url, key)` over `s`.
pub open spec fn saved(s: StoreModel, url: Seq<char>, key: Seq<char>) -> StoreModel {
    StoreModel { endpoint: Some(url), secret: Ok(key) }
}

impl Config {
    /// Reconstruct the credential from the store. No config file means
    /// nothing was saved; a config file whose vault entry cannot be read, or
    /// whose parts are empty, is an error.
    pub fn load(store: &CredentialStore) -> (r: Result<Option<Config>, ByteStashyError>)
        ensures
            match loaded(store@) {
                None => r matches Err(ByteStashyError::Credential { .. }),
                Some(None) => r matches Ok(None),
                Some(Some(c)) => r matches Ok(Some(cfg)) && cfg@ == c,
            },
    {
        match &store.config_endpoint {
            None => Ok(None),
            Some(url) => match &store.vault {
                Err(why) => {
                    let mut m = String::from_str("error loading the api key from the vault: ");
                    m.append(why.as_str());
                    Err(ByteStashyError::Credential { message: m })
                },
                Ok(key) => {
                    if url.unicode_len() == 0 {
                        Err(
                            ByteStashyError::Credential {
                                message: String::from_str("the config file holds no api url"),
                            },
                        )
                    } else if key.unicode_len() == 0 {
                        Err(
                            ByteStashyError::Credential {
                                message: String::from_str("the vault holds an empty api key"),
                            },
                        )
                    } else {
                        Ok(Some(Config { api_url: url.clone(), api_key: key.clone() }))
                    }
                },
            },
        }
    }

    /// Save the credential: the key goes to the vault, the URL to the config
    /// file.
    pub fn save(&self, store: &mut CredentialStore)
        ensures
            final(store)@ == saved(old(store)@, self.api_url@, self.api_key@),
    {
        store.vault = Ok(self.api_key.clone());
        store.config_endpoint = Some(self.api_url.clone());
    }
}

/// Saving a usable credential and then loading the store gives back an equal
/// credential, whatever the store held before.
pub proof fn lemma_save_then_load(s: StoreModel, cfg: Config)
    requires
        cfg.usable(),
    ensures
        loaded(saved(s, cfg.api_url@, cfg.api_key@)) == Some(Some(cfg@)),
{
}

/// Loading a store with no config file gives "nothing saved", not an error,
/// whatever the vault holds.
pub proof fn lemma_load_without_config(s: StoreModel)
    requires
        s.endpoint is None,
    ensures
        loaded(s) == Some(None::<(Seq<char>, Seq<char>)>),
{
}

} // verus!
