//! The signing transport: it turns (url, payload, nonce) into the exact JWS
//! envelope to POST, tracks the account's KID, and classifies responses,
//! recovering from `badNonce` rejections.

use vstd::prelude::*;
use vstd::utf8::encode_utf8;
use crate::api::{ApiProblem, ApiSubproblem};
use crate::b64::{b64_chars, b64url, b64url_of_str};
use crate::error::Error;
use crate::jws::{
    build_envelope, build_protected_jwk, build_protected_kid, build_signing_input, envelope_spec,
    payload_b64_spec, protected_jwk_spec, protected_kid_spec, signing_input_spec,
};
use crate::key::{alg_spec, jwk_json_spec, rs256_of, AccountKey, KeyPublic};
use crate::text::{all_digits, dec_of, ends_with_spec, lower_seq, parse_u64, str_ends_with, str_eq_ignore_ascii_case};

verus! {

/// How many times a request is re-signed with a fresh nonce after a
/// `badNonce` rejection before giving up.
pub const BAD_NONCE_RETRIES: usize = 3;

/// One fully signed request, ready to POST as `application/jose+json`.
pub struct SignedRequest {
    pub url: String,
    pub protected: String,
    pub protected_b64: String,
    pub payload_b64: String,
    pub signature_b64: String,
    pub body: String,
}

/// The signing middleware for one account key.
pub struct Transport {
    pub key: AccountKey,
    /// The account URL the server assigned; `None` until the first
    /// successful `newAccount`.
    pub kid: Option<String>,
}

impl Transport {
    pub open spec fn wf(&self) -> bool {
        self.key.wf()
    }

    /// The protected header this transport produces for a nonce and URL:
    /// KID form once the account URL is known, JWK form before.
    pub open spec fn protected_spec(&self, nonce: Seq<char>, url: Seq<char>) -> Seq<char> {
        match self.kid {
            Some(k) => protected_kid_spec(alg_spec(self.key.public), k@, nonce, url),
            None => protected_jwk_spec(
                alg_spec(self.key.public),
                jwk_json_spec(self.key.public),
                nonce,
                url,
            ),
        }
    }

    /// A transport in JWK mode, as used for `newAccount`.
    pub fn new(key: AccountKey) -> (r: Transport)
        ensures
            r.key == key,
            r.kid is None,
    {
        Transport { key, kid: None }
    }

    /// Record the account URL; every request signed from now on uses the
    /// KID form. Nothing ever unsets it.
    pub fn set_key_id(&mut self, kid: String)
        ensures
            final(self).kid == Some(kid),
            final(self).key == old(self).key,
    {
        self.kid = Some(kid);
    }

    /// Whether the account URL is known.
    pub fn is_kid_mode(&self) -> (r: bool)
        ensures
            r == (self.kid is Some),
    {
        match &self.kid {
            Some(_) => true,
            None => false,
        }
    }

    /// Sign one request: build the protected header for this nonce and URL,
    /// encode the parts, sign the signing input, and render the envelope.
    pub fn sign_request(&self, url: &str, payload: &str, nonce: &str) -> (r: Result<
        SignedRequest,
        Error,
    >)
        requires
            self.wf(),
        ensures
            r matches Ok(sr) ==> ({
                &&& sr.url@ == url@
                &&& sr.protected@ == self.protected_spec(nonce@, url@)
                &&& sr.protected_b64@ == b64_chars(encode_utf8(sr.protected@))
                &&& sr.payload_b64@ == payload_b64_spec(payload@)
                &&& sr.body@ == envelope_spec(sr.protected_b64@, sr.payload_b64@, sr.signature_b64@)
                &&& match self.key.public {
                    KeyPublic::Ec256 { .. } => exists|sig: Seq<u8>|
                        sig.len() == 64 && sr.signature_b64@ == b64_chars(sig),
                    KeyPublic::Ec384 { .. } => exists|sig: Seq<u8>|
                        sig.len() == 96 && sr.signature_b64@ == b64_chars(sig),
                    KeyPublic::Rsa { .. } => self.key.keyed_to_pem() ==> sr.signature_b64@
                        == b64_chars(
                        rs256_of(
                            self.key.pem@,
                            signing_input_spec(sr.protected_b64@, sr.payload_b64@),
                        ),
                    ),
                }
            }),
            r matches Err(e) ==> e is Crypto,
    {
        let protected = match &self.kid {
            Some(k) => build_protected_kid(self.key.alg(), k.as_str(), nonce, url),
            None => {
                let jwk = self.key.jwk_json();
                build_protected_jwk(self.key.alg(), jwk.as_str(), nonce, url)
            },
        };
        let protected_b64 = b64url_of_str(protected.as_str());
        let payload_b64 = if payload.is_empty() {
            String::new()
        } else {
            b64url_of_str(payload)
        };
        let signing_input = build_signing_input(protected_b64.as_str(), payload_b64.as_str());
        let sig = match self.key.sign(signing_input.as_str()) {
            Ok(s) => s,
            Err(e) => {
                return Err(e);
            },
        };
        let signature_b64 = b64url(sig.as_slice());
        let body = build_envelope(
            protected_b64.as_str(),
            payload_b64.as_str(),
            signature_b64.as_str(),
        );
        let mut u = String::new();
        crate::text::push_str(&mut u, url);
        proof {
            match self.key.public {
                KeyPublic::Ec256 { .. } => {
                    assert(sig@.len() == 64 && signature_b64@ == b64_chars(sig@));
                },
                KeyPublic::Ec384 { .. } => {
                    assert(sig@.len() == 96 && signature_b64@ == b64_chars(sig@));
                },
                KeyPublic::Rsa { .. } => {},
            }
        }
        Ok(SignedRequest { url: u, protected, protected_b64, payload_b64, signature_b64, body })
    }
}

/// Law: a transport whose account URL is set signs with the KID form of the
/// protected header — and that form never coincides with any JWK-form
/// header, whatever JWK, nonce or URL the latter would carry.
pub proof fn lemma_kid_mode_signs_with_kid(
    t: Transport,
    k: String,
    nonce: Seq<char>,
    url: Seq<char>,
    jwk: Seq<char>,
    nonce2: Seq<char>,
    url2: Seq<char>,
)
    requires
        t.kid == Some(k),
    ensures
        t.protected_spec(nonce, url) == protected_kid_spec(alg_spec(t.key.public), k@, nonce, url),
        t.protected_spec(nonce, url) != protected_jwk_spec(
            alg_spec(t.key.public),
            jwk,
            nonce2,
            url2,
        ),
{
    let alg = alg_spec(t.key.public);
    reveal_strlit("{\"alg\":\"");
    reveal_strlit("\",\"kid\":");
    reveal_strlit("\",\"jwk\":");
    reveal_strlit("ES256");
    reveal_strlit("ES384");
    reveal_strlit("RS256");
    assert(alg.len() == 5) by {
        match t.key.public {
            KeyPublic::Ec256 { .. } => assert(alg == "ES256"@),
            KeyPublic::Ec384 { .. } => assert(alg == "ES384"@),
            KeyPublic::Rsa { .. } => assert(alg == "RS256"@),
        }
    }
    let a = protected_kid_spec(alg, k@, nonce, url);
    let b = protected_jwk_spec(alg, jwk, nonce2, url2);
    assert("{\"alg\":\""@.len() == 8);
    assert("\",\"kid\":"@.len() == 8);
    assert("\",\"jwk\":"@.len() == 8);
    assert(a[16] == "\",\"kid\":"@[3]);
    assert(b[16] == "\",\"jwk\":"@[3]);
    assert(a[16] == 'k' && b[16] == 'j');
    assert(a != b);
}

/// What the transport decides to do with a response.
pub enum Disposition {
    /// Status below 400: the caller may read the body and headers.
    Proceed,
    /// A `badNonce` rejection with retries left: sign again with a fresh
    /// nonce and resend.
    RetryBadNonce,
    /// A definitive failure, carried as the library's error.
    Fail(Error),
}

/// Whether a problem document reports a stale nonce: its `type` ends in
/// `:badNonce`.
pub open spec fn problem_is_bad_nonce(p: ApiProblem) -> bool {
    match p.ptype {
        Some(t) => ends_with_spec(t@, ":badNonce"@),
        None => false,
    }
}

/// The view of a problem document's two text fields.
pub open spec fn problem_sig(p: ApiProblem) -> (Option<Seq<char>>, Option<Seq<char>>) {
    (
        match p.ptype {
            Some(t) => Some(t@),
            None => None,
        },
        match p.detail {
            Some(d) => Some(d@),
            None => None,
        },
    )
}

fn clone_opt_string(s: &Option<String>) -> (r: Option<String>)
    ensures
        r is Some <==> s is Some,
        r matches Some(v) ==> s matches Some(w) && v@ == w@,
{
    match s {
        Some(v) => Some(v.clone()),
        None => None,
    }
}

impl ApiProblem {
    /// A field-for-field copy.
    pub fn duplicate(&self) -> (r: ApiProblem)
        ensures
            problem_sig(r) == problem_sig(*self),
            r.subproblems@.len() == self.subproblems@.len(),
            problem_is_bad_nonce(r) == problem_is_bad_nonce(*self),
    {
        let mut subs: Vec<ApiSubproblem> = Vec::new();
        let mut i: usize = 0;
        while i < self.subproblems.len()
            invariant
                0 <= i <= self.subproblems@.len(),
                subs@.len() == i,
            decreases self.subproblems@.len() - i,
        {
            let s = &self.subproblems[i];
            subs.push(
                ApiSubproblem {
                    ptype: clone_opt_string(&s.ptype),
                    detail: clone_opt_string(&s.detail),
                    identifier: clone_opt_string(&s.identifier),
                },
            );
            i = i + 1;
        }
        ApiProblem {
            ptype: clone_opt_string(&self.ptype),
            detail: clone_opt_string(&self.detail),
            subproblems: subs,
        }
    }

    /// Whether this problem reports a stale nonce.
    pub fn is_bad_nonce(&self) -> (r: bool)
        ensures
            r == problem_is_bad_nonce(*self),
    {
        match &self.ptype {
            Some(t) => str_ends_with(t.as_str(), ":badNonce"),
            None => false,
        }
    }
}

/// Decide what a response means. `attempt` counts the `badNonce` retries
/// already spent on this request.
pub fn classify_response(status: u16, problem: Option<&ApiProblem>, attempt: usize) -> (r:
    Disposition)
    ensures
        status < 400 ==> r is Proceed,
        status >= 400 ==> match problem {
            Some(p) => if problem_is_bad_nonce(*p) && attempt < BAD_NONCE_RETRIES {
                r is RetryBadNonce
            } else {
                r matches Disposition::Fail(e) && e matches Error::Protocol(q) && problem_sig(q)
                    == problem_sig(*p)
            },
            None => r matches Disposition::Fail(e) && e is Protocol,
        },
{
    if status < 400 {
        return Disposition::Proceed;
    }
    match problem {
        Some(p) => {
            if p.is_bad_nonce() && attempt < BAD_NONCE_RETRIES {
                Disposition::RetryBadNonce
            } else {
                Disposition::Fail(Error::Protocol(p.duplicate()))
            }
        },
        None => {
            Disposition::Fail(
                Error::protocol(
                    <String as vstd::string::StringExecFns>::from_str("request failed without a problem document"),
                ),
            )
        },
    }
}

/// Find a response header by ASCII-case-insensitive name and hand back a
/// copy of its value.
pub fn find_header(headers: &Vec<(String, String)>, name: &str) -> (r: Option<String>)
    ensures
        r matches Some(v) ==> exists|i: int|
            0 <= i < headers@.len() && lower_seq(#[trigger] headers@[i].0@) == lower_seq(name@)
                && v@ == headers@[i].1@,
        r is None ==> forall|i: int|
            0 <= i < headers@.len() ==> lower_seq(#[trigger] headers@[i].0@) != lower_seq(name@),
{
    let n = headers.len();
    let mut i: usize = 0;
    while i < n
        invariant
            n == headers@.len(),
            0 <= i <= n,
            forall|j: int| 0 <= j < i ==> lower_seq(#[trigger] headers@[j].0@) != lower_seq(name@),
        decreases n - i,
    {
        if str_eq_ignore_ascii_case(headers[i].0.as_str(), name) {
            return Some(headers[i].1.clone());
        }
        i = i + 1;
    }
    None
}

/// The `Location` header, which carries the account or order URL; required
/// where the protocol promises it.
pub fn location_header(headers: &Vec<(String, String)>) -> (r: Result<String, Error>)
    ensures
        r matches Ok(v) ==> exists|i: int|
            0 <= i < headers@.len() && lower_seq(#[trigger] headers@[i].0@) == lower_seq(
                "location"@,
            ) && v@ == headers@[i].1@,
        r is Err ==> forall|i: int|
            0 <= i < headers@.len() ==> lower_seq(#[trigger] headers@[i].0@) != lower_seq(
                "location"@,
            ),
        r matches Err(e) ==> e is Protocol,
{
    match find_header(headers, "location") {
        Some(v) => Ok(v),
        None => Err(
            Error::protocol(
                <String as vstd::string::StringExecFns>::from_str("expected Location header was missing"),
            ),
        ),
    }
}

/// The `Replay-Nonce` header of a response, destined for the pool.
pub fn replay_nonce_header(headers: &Vec<(String, String)>) -> (r: Option<String>)
    ensures
        r matches Some(v) ==> exists|i: int|
            0 <= i < headers@.len() && lower_seq(#[trigger] headers@[i].0@) == lower_seq(
                "replay-nonce"@,
            ) && v@ == headers@[i].1@,
        r is None ==> forall|i: int|
            0 <= i < headers@.len() ==> lower_seq(#[trigger] headers@[i].0@) != lower_seq(
                "replay-nonce"@,
            ),
{
    find_header(headers, "replay-nonce")
}

/// The server's `Retry-After` header as whole seconds, where one is present
/// and carries a plain decimal count. An HTTP-date form, or no header,
/// yields None and the caller's own interval stands.
pub fn retry_after_header(headers: &Vec<(String, String)>) -> (r: Option<u64>)
    ensures
        r matches Some(v) ==> exists|i: int|
            0 <= i < headers@.len() && lower_seq(#[trigger] headers@[i].0@) == lower_seq(
                "retry-after"@,
            ) && all_digits(headers@[i].1@) && v == dec_of(headers@[i].1@),
        r is None ==> (forall|i: int|
            0 <= i < headers@.len() ==> lower_seq(#[trigger] headers@[i].0@) != lower_seq(
                "retry-after"@,
            )) || exists|i: int|
            0 <= i < headers@.len() && lower_seq(#[trigger] headers@[i].0@) == lower_seq(
                "retry-after"@,
            ) && (!all_digits(headers@[i].1@) || dec_of(headers@[i].1@) > u64::MAX),
{
    match find_header(headers, "retry-after") {
        Some(v) => parse_u64(v.as_str()),
        None => None,
    }
}

} // verus!

