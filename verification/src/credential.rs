//! The store of the credentials of this device.
//!
//! Reading and writing the file is the caller's part; the store says
//! whether what was read will do and what is to be kept.

use vstd::prelude::*;
use crate::config::AppConfig;
use crate::device::DeviceCredentials;

verus! {

/// Credentials as they were found, and where they are kept.
#[derive(Debug)]
pub struct CredentialStore {
    credentials_path: String,
    credentials: Option<DeviceCredentials>,
}

impl CredentialStore {
    /// Where the credentials are kept.
    pub closed spec fn path(&self) -> Seq<char> {
        self.credentials_path@
    }

    /// The credentials that were found.
    pub closed spec fn stored(&self) -> Option<DeviceCredentials> {
        self.credentials
    }

    /// The credentials that a session can start with: those that were
    /// found, where they are complete.
    pub open spec fn usable(&self) -> Option<DeviceCredentials> {
        match self.stored() {
            Some(creds) => if creds.is_complete_spec() {
                Some(creds)
            } else {
                None
            },
            None => None,
        }
    }

    /// A store for the file at `credentials_path`, with what was read from
    /// it; `None` where there is no such file or it could not be read.
    pub fn new(_config: &AppConfig, credentials_path: String, found: Option<DeviceCredentials>) -> (store:
        CredentialStore)
        ensures
            store.path() == credentials_path@,
            store.stored() == found,
    {
        CredentialStore { credentials_path, credentials: found }
    }

    /// Where the credentials are kept.
    pub fn credentials_path(&self) -> (path: &str)
        ensures
            path@ == self.path(),
    {
        self.credentials_path.as_str()
    }

    /// The credentials to use without a new registration, if there are any.
    pub fn cached(&self) -> (found: Option<&DeviceCredentials>)
        ensures
            match found {
                Some(creds) => self.usable() == Some(*creds),
                None => self.usable() is None,
            },
    {
        match &self.credentials {
            Some(creds) => if creds.is_complete() {
                Some(creds)
            } else {
                None
            },
            None => None,
        }
    }

    /// Whether the device has to be registered before a session can start.
    pub fn needs_registration(&self) -> (needed: bool)
        ensures
            needed == self.usable() is None,
    {
        self.cached().is_none()
    }

    /// Keeps `creds` as the credentials of the device.
    pub fn remember(&mut self, creds: DeviceCredentials)
        ensures
            final(self).stored() == Some(creds),
            final(self).path() == old(self).path(),
    {
        self.credentials = Some(creds);
    }
}

} // verus!
