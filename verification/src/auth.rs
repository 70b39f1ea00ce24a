//! Authorizations and challenges: the `dns-01` proof and the validation
//! progression.

use vstd::prelude::*;
use crate::api::{ApiAuth, ApiChallenge};
use crate::b64::{b64_chars, b64url};
use crate::error::Error;
use crate::key::{sha256_of, sha256_str};
use crate::text::{push_char, push_str, str_eq};

verus! {

/// One authorization resource: the server's object and its URL.
pub struct Auth {
    pub api_auth: ApiAuth,
    pub url: String,
}

/// The key authorization of a challenge: `token || "." || thumbprint`.
pub open spec fn key_authorization_spec(token: Seq<char>, thumbprint: Seq<char>) -> Seq<char> {
    token + seq!['.'] + thumbprint
}

/// The TXT record content a `dns-01` challenge asks for: unpadded URL-safe
/// base64 of the SHA-256 of the key authorization.
pub open spec fn dns_proof_spec(token: Seq<char>, thumbprint: Seq<char>) -> Seq<char> {
    b64_chars(sha256_of(key_authorization_spec(token, thumbprint)))
}

impl Auth {
    pub fn new(api_auth: ApiAuth, url: String) -> (r: Auth)
        ensures
            r.api_auth == api_auth,
            r.url == url,
    {
        Auth { api_auth, url }
    }

    /// The first `dns-01` challenge of this authorization, if the server
    /// offered one.
    pub fn dns_challenge(&self) -> (r: Option<Challenge>)
        ensures
            r matches Some(c) ==> exists|i: int|
                0 <= i < self.api_auth.challenges@.len() && (#[trigger] self.api_auth.challenges@[i]).ctype@
                    == "dns-01"@ && c.api_challenge.ctype@ == self.api_auth.challenges@[i].ctype@
                    && c.api_challenge.url@ == self.api_auth.challenges@[i].url@
                    && c.api_challenge.token@ == self.api_auth.challenges@[i].token@
                    && c.api_challenge.status@ == self.api_auth.challenges@[i].status@,
            r is None ==> forall|i: int|
                0 <= i < self.api_auth.challenges@.len() ==> (
                #[trigger] self.api_auth.challenges@[i]).ctype@ != "dns-01"@,
    {
        let n = self.api_auth.challenges.len();
        let mut i: usize = 0;
        while i < n
            invariant
                n == self.api_auth.challenges@.len(),
                0 <= i <= n,
                forall|j: int|
                    0 <= j < i ==> (#[trigger] self.api_auth.challenges@[j]).ctype@ != "dns-01"@,
            decreases n - i,
        {
            let ch = &self.api_auth.challenges[i];
            if str_eq(ch.ctype.as_str(), "dns-01") {
                let err = match &ch.error {
                    Some(p) => Some(p.duplicate()),
                    None => None,
                };
                return Some(
                    Challenge {
                        api_challenge: ApiChallenge {
                            ctype: ch.ctype.clone(),
                            url: ch.url.clone(),
                            token: ch.token.clone(),
                            status: ch.status.clone(),
                            error: err,
                        },
                    },
                );
            }
            i = i + 1;
        }
        None
    }

    /// Access the underlying JSON object.
    pub fn api_auth(&self) -> (r: &ApiAuth)
        ensures
            r == &self.api_auth,
    {
        &self.api_auth
    }
}

/// One challenge of an authorization.
pub struct Challenge {
    pub api_challenge: ApiChallenge,
}

impl Challenge {
    /// The challenge URL, POSTed with `{}` to ask for validation.
    pub fn url(&self) -> (r: &String)
        ensures
            r == &self.api_challenge.url,
    {
        &self.api_challenge.url
    }

    /// The challenge token.
    pub fn token(&self) -> (r: &String)
        ensures
            r == &self.api_challenge.token,
    {
        &self.api_challenge.token
    }

    /// The key authorization for this challenge under the account key's
    /// thumbprint.
    pub fn key_authorization(&self, thumbprint: &str) -> (r: String)
        ensures
            r@ == key_authorization_spec(self.api_challenge.token@, thumbprint@),
    {
        let mut out = String::new();
        push_str(&mut out, self.api_challenge.token.as_str());
        push_char(&mut out, '.');
        push_str(&mut out, thumbprint);
        proof {
            assert(out@ =~= key_authorization_spec(self.api_challenge.token@, thumbprint@));
        }
        out
    }

    /// The TXT record content to publish at `_acme-challenge.<domain>` for
    /// this `dns-01` challenge.
    pub fn dns_proof(&self, thumbprint: &str) -> (r: String)
        ensures
            r@ == dns_proof_spec(self.api_challenge.token@, thumbprint@),
    {
        let ka = self.key_authorization(thumbprint);
        let digest = sha256_str(ka.as_str());
        b64url(digest.as_slice())
    }
}

impl Auth {
    /// The verdict once polling is over: `valid` passes; anything else fails
    /// with the first challenge error the server attached, or a bare
    /// protocol error where it attached none.
    pub fn confirm(&self) -> (r: Result<(), Error>)
        ensures
            self.api_auth.status@ == "valid"@ <==> r is Ok,
            r matches Err(e) ==> e is Protocol,
    {
        if str_eq(self.api_auth.status.as_str(), "valid") {
            return Ok(());
        }
        let n = self.api_auth.challenges.len();
        let mut i: usize = 0;
        while i < n
            invariant
                n == self.api_auth.challenges@.len(),
                0 <= i <= n,
                self.api_auth.status@ != "valid"@,
            decreases n - i,
        {
            if let Some(p) = &self.api_auth.challenges[i].error {
                return Err(Error::Protocol(p.duplicate()));
            }
            i = i + 1;
        }
        Err(
            Error::protocol(
                <String as vstd::string::StringExecFns>::from_str(
                    "authorization did not reach the valid status",
                ),
            ),
        )
    }
}

/// Whether challenge polling is over: the authorization left `pending`.
pub fn auth_poll_done(status: &str) -> (r: bool)
    ensures
        r == (status@ != "pending"@),
{
    !str_eq(status, "pending")
}

/// After polling, accept the authorization's final status: `valid` passes,
/// anything else fails with a protocol error.
pub fn confirm_auth(status: &str) -> (r: Result<(), Error>)
    ensures
        status@ == "valid"@ ==> r is Ok,
        status@ != "valid"@ ==> (r matches Err(e) && e is Protocol),
{
    if str_eq(status, "valid") {
        Ok(())
    } else {
        Err(
            Error::protocol(
                <String as vstd::string::StringExecFns>::from_str(
                    "authorization did not reach the valid status",
                ),
            ),
        )
    }
}

} // verus!
