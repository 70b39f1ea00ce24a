//! The directory: where an ACME server's endpoints come from.

use vstd::prelude::*;
use crate::api::ApiDirectory;
use crate::error::Error;
use crate::nonce::NoncePool;

verus! {

/// Enumeration of known ACME API directories.
pub enum DirectoryUrl<'a> {
    /// The main Let's Encrypt directory. Not appropriate for testing and dev.
    LetsEncrypt,
    /// The staging Let's Encrypt directory, for testing and dev.
    LetsEncryptStaging,
    /// An arbitrary directory URL to connect to.
    Other(&'a str),
}

impl<'a> DirectoryUrl<'a> {
    /// The URL to GET the endpoint map from.
    pub fn to_url(&self) -> (r: &str)
        ensures
            match self {
                DirectoryUrl::LetsEncrypt => r@ == "https://acme-v02.api.letsencrypt.org/directory"@,
                DirectoryUrl::LetsEncryptStaging => r@
                    == "https://acme-staging-v02.api.letsencrypt.org/directory"@,
                DirectoryUrl::Other(s) => r@ == s@,
            },
    {
        match self {
            DirectoryUrl::LetsEncrypt => "https://acme-v02.api.letsencrypt.org/directory",
            DirectoryUrl::LetsEncryptStaging => "https://acme-staging-v02.api.letsencrypt.org/directory",
            DirectoryUrl::Other(s) => s,
        }
    }
}

/// Entry point for accessing an ACME API: the validated endpoint map.
pub struct Directory {
    pub api_directory: ApiDirectory,
}

impl Directory {
    /// Assemble the directory from the fields of the decoded endpoint map.
    /// The three required endpoints must all be present; a directory missing
    /// one is rejected as a configuration error.
    pub fn from_parts(
        new_nonce: Option<String>,
        new_account: Option<String>,
        new_order: Option<String>,
        revoke_cert: Option<String>,
        key_change: Option<String>,
    ) -> (r: Result<Directory, Error>)
        ensures
            r is Ok <==> new_nonce is Some && new_account is Some && new_order is Some,
            r matches Ok(d) ==> ({
                &&& Some(d.api_directory.new_nonce) == new_nonce
                &&& Some(d.api_directory.new_account) == new_account
                &&& Some(d.api_directory.new_order) == new_order
                &&& d.api_directory.revoke_cert == revoke_cert
                &&& d.api_directory.key_change == key_change
            }),
            r matches Err(e) ==> e is Config,
    {
        match (new_nonce, new_account, new_order) {
            (Some(nn), Some(na), Some(no)) => Ok(
                Directory {
                    api_directory: ApiDirectory {
                        new_nonce: nn,
                        new_account: na,
                        new_order: no,
                        revoke_cert,
                        key_change,
                    },
                },
            ),
            _ => Err(
                Error::Config(
                    <String as vstd::string::StringExecFns>::from_str(
                        "directory is missing a required endpoint",
                    ),
                ),
            ),
        }
    }

    /// A fresh, empty nonce pool keyed on this directory's `newNonce` URL.
    pub fn new_nonce_pool(&self) -> (r: NoncePool)
        ensures
            r.wf(),
            r.nonces().len() == 0,
            r.url@ == self.api_directory.new_nonce@,
    {
        NoncePool::new(self.api_directory.new_nonce.clone())
    }

    /// Access the underlying JSON object.
    pub fn api_directory(&self) -> (r: &ApiDirectory)
        ensures
            r == &self.api_directory,
    {
        &self.api_directory
    }
}

} // verus!
