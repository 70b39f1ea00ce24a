//! The account: a signed identity bound to a directory.

use vstd::prelude::*;
use crate::api::{ApiAccount, ApiDirectory};
use crate::trans::Transport;

verus! {

/// A registered account: its signing transport (key and KID), the server's
/// account object, and the directory it was registered against.
pub struct Account {
    pub transport: Transport,
    pub api_account: ApiAccount,
    pub api_directory: ApiDirectory,
}

impl Account {
    pub fn new(transport: Transport, api_account: ApiAccount, api_directory: ApiDirectory) -> (r:
        Account)
        ensures
            r.transport == transport,
            r.api_account == api_account,
            r.api_directory == api_directory,
    {
        Account { transport, api_account, api_directory }
    }

    /// The account key's JWK thumbprint, as key authorizations need it.
    pub fn thumbprint(&self) -> (r: String)
        ensures
            r@ == crate::key::thumbprint_spec(self.transport.key.public),
    {
        self.transport.key.thumbprint()
    }
}

} // verus!
