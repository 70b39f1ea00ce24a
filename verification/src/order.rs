//! The order life cycle, as one-way façades over the server's order object:
//! `NewOrder` (authorizations outstanding) → `CsrOrder` (ready to finalize)
//! → `CertOrder` (issued, ready to download).

use vstd::prelude::*;
use crate::api::ApiOrder;
use crate::error::Error;
use crate::key::{create_csr, not_after_of};
use crate::api::finalize_payload;
use crate::api::finalize_payload_spec;
use crate::text::str_eq;

verus! {

/// An order resource: the server's object and the URL it lives at.
pub struct Order {
    pub api_order: ApiOrder,
    pub url: String,
}

impl Order {
    pub fn new(api_order: ApiOrder, url: String) -> (r: Order)
        ensures
            r.api_order == api_order,
            r.url == url,
    {
        Order { api_order, url }
    }
}

/// A freshly created order whose authorizations may still be pending.
pub struct NewOrder {
    pub order: Order,
}

impl NewOrder {
    /// Whether the cached order has passed the authorization stage.
    pub open spec fn validated_spec(&self) -> bool {
        self.order.api_order.status@ == "ready"@ || self.order.api_order.status@ == "valid"@
    }

    /// Tell if the domains in this order have been authorized: the cached
    /// status is `ready` or `valid`. Makes no call; `refresh` first.
    pub fn is_validated(&self) -> (r: bool)
        ensures
            r == self.validated_spec(),
    {
        let ready = str_eq(self.order.api_order.status.as_str(), "ready");
        let valid = str_eq(self.order.api_order.status.as_str(), "valid");
        ready || valid
    }

    /// If the order is validated, consume this façade and progress to a
    /// `CsrOrder` over the very same order; otherwise hand it back
    /// unchanged. The chain is one-way: nothing turns a `CsrOrder` back.
    pub fn confirm_validations(self) -> (r: Result<CsrOrder, NewOrder>)
        ensures
            self.validated_spec() ==> (r matches Ok(c) && c.order == self.order),
            !self.validated_spec() ==> (r matches Err(n) && n == self),
    {
        if self.is_validated() {
            Ok(CsrOrder { order: self.order })
        } else {
            Err(self)
        }
    }

    /// Replace the cached order with the result of a POST-as-GET refresh the
    /// caller performed against the order URL.
    pub fn refresh(&mut self, refreshed: ApiOrder)
        ensures
            final(self).order.api_order == refreshed,
            final(self).order.url == old(self).order.url,
    {
        self.order.api_order = refreshed;
    }

    /// The authorization URLs to POST-as-GET, one per domain.
    pub fn authorization_urls(&self) -> (r: &Vec<String>)
        ensures
            r == &self.order.api_order.authorizations,
    {
        &self.order.api_order.authorizations
    }

    /// Access the underlying JSON object.
    pub fn api_order(&self) -> (r: &ApiOrder)
        ensures
            r == &self.order.api_order,
    {
        &self.order.api_order
    }
}

/// An order that is ready for CSR submission.
pub struct CsrOrder {
    pub order: Order,
}

impl CsrOrder {
    /// The order's finalize URL, where the CSR payload is POSTed.
    pub fn finalize_url(&self) -> (r: &String)
        ensures
            r == &self.order.api_order.finalize,
    {
        &self.order.api_order.finalize
    }

    /// Build the finalize payload: a CSR over the order's domains, signed by
    /// the supplied private key, as `{"csr": <base64url DER>}`.
    pub fn finalize_csr_payload(&self, private_key_pem: &str) -> (r: Result<String, Error>)
        ensures
            r matches Ok(p) ==> exists|der: Seq<u8>| p@ == finalize_payload_spec(der),
            r matches Err(e) ==> e is Crypto,
    {
        let domains = self.order.api_order.domains();
        match create_csr(private_key_pem, &domains) {
            Ok(der) => {
                let p = finalize_payload(&der);
                proof {
                    assert(p@ == finalize_payload_spec(der@));
                }
                Ok(p)
            },
            Err(e) => Err(e),
        }
    }

    /// After polling until the order left `processing`, accept the final
    /// order: `valid` yields the `CertOrder`, anything else is a protocol
    /// failure.
    pub fn confirm_finalize(self, refreshed: ApiOrder, private_key_pem: String) -> (r: Result<
        CertOrder,
        Error,
    >)
        ensures
            refreshed.status@ == "valid"@ ==> (r matches Ok(c) && c.order.api_order == refreshed
                && c.order.url == self.order.url && c.private_key_pem == private_key_pem),
            refreshed.status@ != "valid"@ ==> (r matches Err(e) && e is Protocol),
    {
        if str_eq(refreshed.status.as_str(), "valid") {
            Ok(
                CertOrder {
                    private_key_pem,
                    order: Order { api_order: refreshed, url: self.order.url },
                },
            )
        } else {
            Err(
                Error::protocol(
                    <String as vstd::string::StringExecFns>::from_str(
                        "order did not reach the valid status after finalize",
                    ),
                ),
            )
        }
    }

    /// Access the underlying JSON object.
    pub fn api_order(&self) -> (r: &ApiOrder)
        ensures
            r == &self.order.api_order,
    {
        &self.order.api_order
    }
}

/// An issued order: holds the private key and the order whose `certificate`
/// URL serves the chain.
pub struct CertOrder {
    pub private_key_pem: String,
    pub order: Order,
}

impl CertOrder {
    /// The URL the certificate chain is served from; its absence on a valid
    /// order is a protocol failure.
    pub fn certificate_url(&self) -> (r: Result<&String, Error>)
        ensures
            self.order.api_order.certificate matches Some(u) ==> (r matches Ok(v) && v@ == u@),
            self.order.api_order.certificate is None ==> (r matches Err(e) && e is Protocol),
    {
        match &self.order.api_order.certificate {
            Some(u) => Ok(u),
            None => Err(
                Error::protocol(
                    <String as vstd::string::StringExecFns>::from_str(
                        "valid order carries no certificate url",
                    ),
                ),
            ),
        }
    }

    /// Package the downloaded PEM chain with the private key.
    pub fn download_cert(self, cert_body: String) -> (r: Certificate)
        ensures
            r.private_key == self.private_key_pem,
            r.certificate == cert_body,
    {
        Certificate::new(self.private_key_pem, cert_body)
    }

    /// Access the underlying JSON object.
    pub fn api_order(&self) -> (r: &ApiOrder)
        ensures
            r == &self.order.api_order,
    {
        &self.order.api_order
    }
}

/// An issued certificate chain with its private key, both PEM.
pub struct Certificate {
    pub private_key: String,
    pub certificate: String,
}

impl Certificate {
    pub fn new(private_key: String, certificate: String) -> (r: Certificate)
        ensures
            r.private_key == private_key,
            r.certificate == certificate,
    {
        Certificate { private_key, certificate }
    }

    /// The private key PEM.
    pub fn private_key(&self) -> (r: &str)
        ensures
            r@ == self.private_key@,
    {
        self.private_key.as_str()
    }

    /// The certificate chain PEM.
    pub fn certificate(&self) -> (r: &str)
        ensures
            r@ == self.certificate@,
    {
        self.certificate.as_str()
    }

    /// The expiry of the certificate: its notAfter instant as seconds since
    /// the Unix epoch, or a crypto error where the PEM does not parse as a
    /// certificate.
    pub fn expiry_unix(&self) -> (r: Result<i64, Error>)
        ensures
            r matches Ok(t) ==> ({
                let (d, s) = not_after_of(self.certificate@);
                t == d * 86400 + s
            }),
            r matches Err(e) ==> e is Crypto,
    {
        match crate::key::cert_not_after_raw(self.certificate.as_str()) {
            Ok((d, s)) => Ok((d as i64) * 86400 + (s as i64)),
            Err(_) => Err(Error::Crypto(
                <String as vstd::string::StringExecFns>::from_str(
                    "certificate PEM did not parse",
                ),
            )),
        }
    }
}

/// Whether finalize polling is over: the order has left `processing`.
pub fn order_poll_done(status: &str) -> (r: bool)
    ensures
        r == (status@ != "processing"@),
{
    !str_eq(status, "processing")
}

/// The delay before the next poll: the caller's interval, or the server's
/// `Retry-After` seconds where that asks for longer.
pub fn poll_delay_ms(caller_ms: u64, retry_after_s: Option<u64>) -> (r: u64)
    ensures
        match retry_after_s {
            None => r == caller_ms,
            Some(s) => ({
                let server_ms = if s * 1000 > u64::MAX { u64::MAX as int } else { s * 1000 };
                r == if server_ms > caller_ms { server_ms } else { caller_ms as int }
            }),
        },
{
    match retry_after_s {
        None => caller_ms,
        Some(s) => {
            let server_ms = if s > u64::MAX / 1000 {
                u64::MAX
            } else {
                s * 1000
            };
            if server_ms > caller_ms {
                server_ms
            } else {
                caller_ms
            }
        },
    }
}

} // verus!
