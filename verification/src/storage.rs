//! Where credentials are kept: the session file in native mode, the
//! browser (through the environment) in web mode.
use vstd::prelude::*;
use crate::config::AppMode;
use crate::session::SessionStore;

verus! {

/// Credentials kept in the session file of a session store.
pub struct FileStorageAdapter {
    pub session_store: SessionStore,
}

/// Credentials kept by the browser hosting the web terminal; the session
/// token reaches the process through the environment.
pub struct BrowserStorageAdapter {}

/// The credential storage of the running mode.
pub enum StorageAdapter {
    File(FileStorageAdapter),
    Browser(BrowserStorageAdapter),
}

/// Chooses the credential storage for a mode.
pub struct StorageAdapterFactory;

/// No session store could be set up (no home directory).
#[derive(Debug, Clone, Copy, PartialEq, Eq, Structural)]
pub struct NoSessionStore;

impl FileStorageAdapter {
    /// Storage in the session file of `session_store`.
    pub fn new(session_store: SessionStore) -> (r: Self)
        ensures
            r.session_store == session_store,
    {
        FileStorageAdapter { session_store }
    }
}

impl BrowserStorageAdapter {
    pub fn new() -> (r: Self) {
        BrowserStorageAdapter {}
    }

    /// The stored credentials: the session token handed over in the
    /// environment, if any.
    pub fn load_credentials(&self, env_token: Option<String>) -> (r: Option<String>)
        ensures
            r == env_token,
    {
        env_token
    }

    /// Storing credentials: the browser keeps them itself, so nothing is
    /// written here and the call succeeds.
    pub fn store_credentials(&self, credentials: &str) -> (r: Result<(), String>)
        ensures
            r == Ok::<(), String>(()),
    {
        Ok(())
    }

    /// Clearing credentials: the browser clears them itself, so nothing is
    /// removed here and the call succeeds.
    pub fn clear_credentials(&self) -> (r: Result<(), String>)
        ensures
            r == Ok::<(), String>(()),
    {
        Ok(())
    }
}

impl StorageAdapterFactory {
    /// File storage in native mode (which needs the session store of this
    /// machine), browser storage in web mode.
    pub fn create_adapter(mode: &AppMode, session_store: Option<SessionStore>) -> (r: Result<StorageAdapter, NoSessionStore>)
        ensures
            *mode == AppMode::Web ==> r matches Ok(StorageAdapter::Browser(_)),
            *mode == AppMode::Native ==> match session_store {
                Some(s) => r matches Ok(StorageAdapter::File(f)) && f.session_store == s,
                None => r == Err::<StorageAdapter, NoSessionStore>(NoSessionStore),
            },
    {
        match mode {
            AppMode::Native => match session_store {
                Some(s) => Ok(StorageAdapter::File(FileStorageAdapter::new(s))),
                None => Err(NoSessionStore),
            },
            AppMode::Web => Ok(StorageAdapter::Browser(BrowserStorageAdapter::new())),
        }
    }
}

} // verus!
