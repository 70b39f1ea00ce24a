//! Plain models of the ACME wire objects.
//!
//! The caller decodes the server's JSON into these shapes; the library reads
//! them and builds the request payloads that go back out.

use vstd::prelude::*;
use crate::b64::b64_chars;
use crate::json::{json_str, json_str_list, push_json_str, push_json_str_list};
use crate::text::{push_str, str_eq};

verus! {

/// An RFC 7807 problem document as returned by an ACME server.
#[derive(Debug)]
pub struct ApiProblem {
    pub ptype: Option<String>,
    pub detail: Option<String>,
    pub subproblems: Vec<ApiSubproblem>,
}

/// One entry of a problem document's `subproblems` array.
#[derive(Debug)]
pub struct ApiSubproblem {
    pub ptype: Option<String>,
    pub detail: Option<String>,
    pub identifier: Option<String>,
}

/// The endpoint map served at the directory URL.
pub struct ApiDirectory {
    pub new_nonce: String,
    pub new_account: String,
    pub new_order: String,
    pub revoke_cert: Option<String>,
    pub key_change: Option<String>,
}

/// The server's account object.
pub struct ApiAccount {
    pub status: Option<String>,
    pub contact: Vec<String>,
}

/// A `{"type":"dns","value":...}` identifier of an order.
pub struct ApiIdentifier {
    pub itype: String,
    pub value: String,
}

/// The server's order object.
pub struct ApiOrder {
    pub status: String,
    pub identifiers: Vec<ApiIdentifier>,
    pub authorizations: Vec<String>,
    pub finalize: String,
    pub certificate: Option<String>,
    pub error: Option<ApiProblem>,
}

/// The server's authorization object.
pub struct ApiAuth {
    pub identifier: ApiIdentifier,
    pub status: String,
    pub challenges: Vec<ApiChallenge>,
    pub wildcard: bool,
}

/// One challenge of an authorization.
pub struct ApiChallenge {
    pub ctype: String,
    pub url: String,
    pub token: String,
    pub status: String,
    pub error: Option<ApiProblem>,
}

impl ApiOrder {
    /// The DNS names of the order's identifiers.
    pub open spec fn domains_spec(&self) -> Seq<Seq<char>> {
        self.identifiers@.map_values(|id: ApiIdentifier| id.value@)
    }

    /// Collect the DNS names of the order, in order.
    pub fn domains(&self) -> (r: Vec<String>)
        ensures
            r.deep_view() == self.domains_spec(),
    {
        let n = self.identifiers.len();
        let mut out: Vec<String> = Vec::new();
        let mut i: usize = 0;
        while i < n
            invariant
                n == self.identifiers@.len(),
                0 <= i <= n,
                out@.len() == i,
                forall|j: int| 0 <= j < i ==> out@[j]@ == self.identifiers@[j].value@,
            decreases n - i,
        {
            out.push(self.identifiers[i].value.clone());
            i = i + 1;
        }
        proof {
            assert(out.deep_view() =~= self.domains_spec());
        }
        out
    }

    pub fn is_status_pending(&self) -> (r: bool)
        ensures
            r == (self.status@ == "pending"@),
    {
        str_eq(self.status.as_str(), "pending")
    }

    pub fn is_status_ready(&self) -> (r: bool)
        ensures
            r == (self.status@ == "ready"@),
    {
        str_eq(self.status.as_str(), "ready")
    }

    pub fn is_status_processing(&self) -> (r: bool)
        ensures
            r == (self.status@ == "processing"@),
    {
        str_eq(self.status.as_str(), "processing")
    }

    pub fn is_status_valid(&self) -> (r: bool)
        ensures
            r == (self.status@ == "valid"@),
    {
        str_eq(self.status.as_str(), "valid")
    }

    pub fn is_status_invalid(&self) -> (r: bool)
        ensures
            r == (self.status@ == "invalid"@),
    {
        str_eq(self.status.as_str(), "invalid")
    }
}

/// The `newAccount` payload: the contact list and the terms agreement.
pub open spec fn account_payload_spec(contacts: Seq<Seq<char>>) -> Seq<char> {
    "{\"contact\":["@ + json_str_list(contacts) + "],\"termsOfServiceAgreed\":true}"@
}

/// Render the `newAccount` payload.
pub fn account_payload(contacts: &Vec<String>) -> (r: String)
    ensures
        r@ == account_payload_spec(contacts.deep_view()),
{
    let mut out = String::new();
    push_str(&mut out, "{\"contact\":[");
    push_json_str_list(&mut out, contacts);
    push_str(&mut out, "],\"termsOfServiceAgreed\":true}");
    proof {
        assert(out@ =~= account_payload_spec(contacts.deep_view()));
    }
    out
}

/// One `{"type":"dns","value":...}` member of an order request.
pub open spec fn identifier_obj_spec(domain: Seq<char>) -> Seq<char> {
    "{\"type\":\"dns\",\"value\":"@ + json_str(domain) + "}"@
}

/// The comma-separated identifier objects of an order request.
pub open spec fn identifier_list_spec(domains: Seq<Seq<char>>) -> Seq<char>
    decreases domains.len(),
{
    if domains.len() == 0 {
        Seq::empty()
    } else if domains.len() == 1 {
        identifier_obj_spec(domains[0])
    } else {
        identifier_obj_spec(domains[0]) + seq![','] + identifier_list_spec(domains.skip(1))
    }
}

/// The `newOrder` payload over the given DNS names.
pub open spec fn order_payload_spec(domains: Seq<Seq<char>>) -> Seq<char> {
    "{\"identifiers\":["@ + identifier_list_spec(domains) + "]}"@
}

proof fn lemma_identifier_list_snoc(domains: Seq<Seq<char>>, x: Seq<char>)
    ensures
        identifier_list_spec(domains.push(x)) == if domains.len() == 0 {
            identifier_obj_spec(x)
        } else {
            identifier_list_spec(domains) + seq![','] + identifier_obj_spec(x)
        },
    decreases domains.len(),
{
    let p = domains.push(x);
    if domains.len() == 0 {
        assert(p.len() == 1 && p[0] == x);
    } else if domains.len() == 1 {
        assert(p.len() == 2 && p[0] == domains[0]);
        assert(p.skip(1) =~= seq![x]);
        assert(identifier_list_spec(seq![x]) == identifier_obj_spec(x));
    } else {
        assert(p[0] == domains[0]);
        assert(p.skip(1) =~= domains.skip(1).push(x));
        lemma_identifier_list_snoc(domains.skip(1), x);
        assert(identifier_list_spec(p) == identifier_obj_spec(p[0]) + seq![',']
            + identifier_list_spec(domains.skip(1).push(x)));
        assert(identifier_obj_spec(domains[0]) + seq![','] + (identifier_list_spec(domains.skip(1))
            + seq![','] + identifier_obj_spec(x)) =~= (identifier_obj_spec(domains[0]) + seq![',']
            + identifier_list_spec(domains.skip(1))) + seq![','] + identifier_obj_spec(x));
    }
}

/// Render the `newOrder` payload for the given DNS names.
pub fn order_payload(domains: &Vec<String>) -> (r: String)
    ensures
        r@ == order_payload_spec(domains.deep_view()),
{
    let mut out = String::new();
    push_str(&mut out, "{\"identifiers\":[");
    let n = domains.len();
    let mut i: usize = 0;
    proof {
        assert(domains.deep_view().len() == n);
        assert(domains.deep_view().take(0) =~= Seq::<Seq<char>>::empty());
    }
    while i < n
        invariant
            n == domains@.len(),
            domains.deep_view().len() == n,
            0 <= i <= n,
            out@ == "{\"identifiers\":["@ + identifier_list_spec(domains.deep_view().take(i as int)),
        decreases n - i,
    {
        if i > 0 {
            crate::text::push_char(&mut out, ',');
        }
        push_str(&mut out, "{\"type\":\"dns\",\"value\":");
        push_json_str(&mut out, domains[i].as_str());
        push_str(&mut out, "}");
        proof {
            let all = domains.deep_view();
            assert(all[i as int] == domains@[i as int]@);
            assert(all.take(i + 1) =~= all.take(i as int).push(all[i as int]));
            lemma_identifier_list_snoc(all.take(i as int), all[i as int]);
            assert(out@ =~= "{\"identifiers\":["@ + identifier_list_spec(all.take(i + 1)));
        }
        i = i + 1;
    }
    push_str(&mut out, "]}");
    proof {
        assert(domains.deep_view().take(n as int) =~= domains.deep_view());
        assert(out@ =~= order_payload_spec(domains.deep_view()));
    }
    out
}

/// The finalize payload: the CSR's DER in unpadded URL-safe base64.
pub open spec fn finalize_payload_spec(csr_der: Seq<u8>) -> Seq<char> {
    "{\"csr\":"@ + json_str(b64_chars(csr_der)) + "}"@
}

/// Render the finalize payload for a DER-encoded CSR.
pub fn finalize_payload(csr_der: &Vec<u8>) -> (r: String)
    ensures
        r@ == finalize_payload_spec(csr_der@),
{
    let mut out = String::new();
    push_str(&mut out, "{\"csr\":");
    let enc = crate::b64::b64url(csr_der.as_slice());
    push_json_str(&mut out, enc.as_str());
    push_str(&mut out, "}");
    proof {
        assert(out@ =~= finalize_payload_spec(csr_der@));
    }
    out
}

/// The challenge-ready payload: the empty JSON object, not the empty string.
pub fn challenge_ready_payload() -> (r: String)
    ensures
        r@ == "{}"@,
{
    <String as vstd::string::StringExecFns>::from_str("{}")
}

} // verus!
