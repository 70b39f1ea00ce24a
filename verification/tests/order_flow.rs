//! Scenario tests: the full order flow driven against canned server
//! responses, the way a scripted test server would answer.

use acme_micro::acc::Account;
use acme_micro::api::{
    self, ApiAccount, ApiAuth, ApiChallenge, ApiDirectory, ApiIdentifier, ApiOrder,
};
use acme_micro::auth::{auth_poll_done, confirm_auth, Auth};
use acme_micro::b64::b64url;
use acme_micro::dir::{Directory, DirectoryUrl};
use acme_micro::key::{create_p256_key, AccountKey};
use acme_micro::order::{order_poll_done, poll_delay_ms, Certificate, CsrOrder, NewOrder, Order};
use acme_micro::trans::{
    classify_response, location_header, replay_nonce_header, retry_after_header, Disposition,
    Transport,
};
use acme_micro::Error;

const DIR_JSON: &str = r#"{
  "newNonce": "https://server/new-nonce",
  "newAccount": "https://server/new-acct",
  "newOrder": "https://server/new-order",
  "revokeCert": "https://server/revoke"
}"#;

const ORDER_JSON: &str = r#"{
  "status": "<STATUS>",
  "identifiers": [{"type": "dns", "value": "acmetest.example.com"}],
  "authorizations": ["https://server/auth/1"],
  "finalize": "https://server/order/1/finalize",
  "certificate": "https://server/order/1/cert"
}"#;

const AUTH_JSON: &str = r#"{
  "identifier": {"type": "dns", "value": "acmetest.example.com"},
  "status": "pending",
  "challenges": [
    {"type": "http-01", "url": "https://server/chall/h", "token": "tok-h", "status": "pending"},
    {"type": "dns-01", "url": "https://server/chall/d", "token": "tok", "status": "pending"}
  ]
}"#;

fn opt_str(v: &serde_json::Value, field: &str) -> Option<String> {
    v.get(field).and_then(|x| x.as_str()).map(String::from)
}

fn parse_directory(body: &str) -> Result<Directory, Error> {
    let v: serde_json::Value = serde_json::from_str(body).unwrap();
    Directory::from_parts(
        opt_str(&v, "newNonce"),
        opt_str(&v, "newAccount"),
        opt_str(&v, "newOrder"),
        opt_str(&v, "revokeCert"),
        opt_str(&v, "keyChange"),
    )
}

fn parse_order(body: &str, status: &str) -> ApiOrder {
    let body = body.replace("<STATUS>", status);
    let v: serde_json::Value = serde_json::from_str(&body).unwrap();
    let identifiers = v
        .get("identifiers")
        .and_then(|x| x.as_array())
        .map(|a| {
            a.iter()
                .map(|i| ApiIdentifier {
                    itype: opt_str(i, "type").unwrap(),
                    value: opt_str(i, "value").unwrap(),
                })
                .collect()
        })
        .unwrap_or_default();
    let authorizations = v
        .get("authorizations")
        .and_then(|x| x.as_array())
        .map(|a| a.iter().map(|u| u.as_str().unwrap().to_string()).collect())
        .unwrap_or_default();
    ApiOrder {
        status: opt_str(&v, "status").unwrap(),
        identifiers,
        authorizations,
        finalize: opt_str(&v, "finalize").unwrap(),
        certificate: opt_str(&v, "certificate"),
        error: None,
    }
}

fn parse_auth(body: &str) -> ApiAuth {
    let v: serde_json::Value = serde_json::from_str(body).unwrap();
    let challenges = v
        .get("challenges")
        .and_then(|x| x.as_array())
        .map(|a| {
            a.iter()
                .map(|c| ApiChallenge {
                    ctype: opt_str(c, "type").unwrap(),
                    url: opt_str(c, "url").unwrap(),
                    token: opt_str(c, "token").unwrap(),
                    status: opt_str(c, "status").unwrap(),
                    error: None,
                })
                .collect()
        })
        .unwrap_or_default();
    let id = v.get("identifier").unwrap();
    ApiAuth {
        identifier: ApiIdentifier {
            itype: opt_str(id, "type").unwrap(),
            value: opt_str(id, "value").unwrap(),
        },
        status: opt_str(&v, "status").unwrap(),
        challenges,
        wildcard: v.get("wildcard").and_then(|w| w.as_bool()).unwrap_or(false),
    }
}

/// Register an account against a canned `newAccount` exchange and hand back
/// the account, as the driver around the library would.
fn register_account(dir: &Directory, contacts: Vec<String>) -> Account {
    let key = AccountKey::generate().unwrap();
    let mut transport = Transport::new(key);
    let payload = api::account_payload(&contacts);
    let sr = transport
        .sign_request(&dir.api_directory().new_account, &payload, "nonce-0")
        .unwrap();
    assert!(sr.body.contains("\"protected\""));
    // canned server answer: 201 Created with the account URL
    let headers = vec![
        ("Location".to_string(), "https://server/acct/1".to_string()),
        ("Replay-Nonce".to_string(), "nonce-1".to_string()),
    ];
    match classify_response(201, None, 0) {
        Disposition::Proceed => {}
        _ => panic!("newAccount should proceed"),
    }
    let kid = location_header(&headers).unwrap();
    transport.set_key_id(kid);
    Account::new(
        transport,
        ApiAccount { status: Some("valid".to_string()), contact: contacts },
        dir.api_directory().clone_api(),
    )
}

trait CloneApi {
    fn clone_api(&self) -> ApiDirectory;
}

impl CloneApi for ApiDirectory {
    fn clone_api(&self) -> ApiDirectory {
        ApiDirectory {
            new_nonce: self.new_nonce.clone(),
            new_account: self.new_account.clone(),
            new_order: self.new_order.clone(),
            revoke_cert: self.revoke_cert.clone(),
            key_change: self.key_change.clone(),
        }
    }
}

#[test]
fn test_create_directory() {
    let url = DirectoryUrl::Other("https://server/directory");
    assert_eq!(url.to_url(), "https://server/directory");
    let dir = parse_directory(DIR_JSON).unwrap();
    assert_eq!(dir.api_directory().new_nonce, "https://server/new-nonce");
    assert_eq!(dir.api_directory().new_account, "https://server/new-acct");
    assert_eq!(dir.api_directory().new_order, "https://server/new-order");
    // a nonce pool keyed on newNonce; empty, so the next fetch would HEAD
    let mut pool = dir.new_nonce_pool();
    assert_eq!(pool.url, "https://server/new-nonce");
    assert_eq!(pool.fetch(), None);
}

#[test]
fn directory_missing_endpoint_is_config_error() {
    let v: serde_json::Value = serde_json::from_str(DIR_JSON).unwrap();
    let r = Directory::from_parts(
        opt_str(&v, "newNonce"),
        None,
        opt_str(&v, "newOrder"),
        None,
        None,
    );
    assert!(matches!(r, Err(Error::Config(_))));
}

#[test]
fn test_create_acount() {
    let dir = parse_directory(DIR_JSON).unwrap();
    let acc = register_account(&dir, vec!["mailto:foo@bar.com".to_string()]);
    assert!(acc.transport.is_kid_mode());
    assert_eq!(acc.transport.kid.as_deref(), Some("https://server/acct/1"));
    // every request from now on carries the kid, not the jwk
    let sr = acc
        .transport
        .sign_request("https://server/new-order", "{}", "nonce-1")
        .unwrap();
    assert!(sr.protected.contains("\"kid\":\"https://server/acct/1\""));
    assert!(!sr.protected.contains("\"jwk\""));
}

#[test]
fn account_upsert_returns_same_kid() {
    // newAccount with an existing key: the server answers 200 with the same
    // account URL, and the client ends up with the same kid both times
    let dir = parse_directory(DIR_JSON).unwrap();
    let pem = create_p256_key().unwrap();
    let mut kids: Vec<String> = Vec::new();
    for status in [201u16, 200u16] {
        let key = AccountKey::from_pem(&pem).unwrap();
        let mut transport = Transport::new(key);
        let payload = api::account_payload(&vec!["mailto:foo@bar.com".to_string()]);
        let _sr = transport
            .sign_request(&dir.api_directory().new_account, &payload, "n")
            .unwrap();
        assert!(matches!(classify_response(status, None, 0), Disposition::Proceed));
        let headers = vec![("Location".to_string(), "https://server/acct/7".to_string())];
        let kid = location_header(&headers).unwrap();
        transport.set_key_id(kid.clone());
        kids.push(kid);
    }
    assert_eq!(kids[0], kids[1]);
}

#[test]
fn test_create_order() {
    let dir = parse_directory(DIR_JSON).unwrap();
    let acc = register_account(&dir, vec!["mailto:foo@bar.com".to_string()]);
    let payload = api::order_payload(&vec!["acmetest.example.com".to_string()]);
    assert_eq!(
        payload,
        r#"{"identifiers":[{"type":"dns","value":"acmetest.example.com"}]}"#
    );
    let _sr = acc
        .transport
        .sign_request(&dir.api_directory().new_order, &payload, "nonce-2")
        .unwrap();
    // canned answer: Location of the order plus a pending order body
    let headers = vec![("Location".to_string(), "https://server/order/1".to_string())];
    let order_url = location_header(&headers).unwrap();
    let api_order = parse_order(ORDER_JSON, "pending");
    let ord = NewOrder { order: Order::new(api_order, order_url) };
    assert!(!ord.is_validated());
    assert_eq!(ord.authorization_urls(), &vec!["https://server/auth/1".to_string()]);
    assert_eq!(ord.api_order().finalize, "https://server/order/1/finalize");
    assert!(ord.confirm_validations().is_err());
}

#[test]
fn test_get_authorizations() {
    let api_order = parse_order(ORDER_JSON, "pending");
    let ord = NewOrder { order: Order::new(api_order, "https://server/order/1".to_string()) };
    let urls = ord.authorization_urls().clone();
    assert_eq!(urls.len(), 1);
    // POST-as-GET each auth URL; the canned body has one dns-01 challenge
    let auth = Auth::new(parse_auth(AUTH_JSON), urls[0].clone());
    let chall = auth.dns_challenge().expect("a dns-01 challenge");
    assert_eq!(chall.token().as_str(), "tok");
    assert_eq!(chall.url().as_str(), "https://server/chall/d");
    // given thumbprint TB, the proof is base64url(sha256("tok.TB"))
    assert_eq!(chall.key_authorization("TB"), "tok.TB");
    assert_eq!(
        chall.dns_proof("TB"),
        "DwF1mFRol79Xcq8bvVGUZ8rO9t7Tvw9iZMKQTbJ30gw"
    );
    let digest = openssl::sha::sha256(b"tok.TB");
    assert_eq!(chall.dns_proof("TB"), b64url(&digest));
    // with a real account key the proof follows the same formula
    let dir = parse_directory(DIR_JSON).unwrap();
    let acc = register_account(&dir, vec!["mailto:foo@bar.com".to_string()]);
    let thumb = acc.thumbprint();
    let ka = format!("tok.{}", thumb);
    let expected = b64url(&openssl::sha::sha256(ka.as_bytes()));
    assert_eq!(chall.dns_proof(&thumb), expected);
    // validation: POST {} to the challenge URL, poll the auth until settled
    assert_eq!(api::challenge_ready_payload(), "{}");
    assert!(!auth_poll_done("pending"));
    assert!(auth_poll_done("valid"));
    assert!(confirm_auth("valid").is_ok());
    assert!(matches!(confirm_auth("invalid"), Err(Error::Protocol(_))));
}

#[test]
fn order_refresh_and_confirm() {
    let mut ord = NewOrder {
        order: Order::new(parse_order(ORDER_JSON, "pending"), "https://server/order/1".to_string()),
    };
    assert!(ord.api_order().is_status_pending());
    // a pending order does not progress; the façade comes back unchanged
    ord = match ord.confirm_validations() {
        Ok(_) => panic!("pending order must not progress"),
        Err(n) => n,
    };
    ord.refresh(parse_order(ORDER_JSON, "ready"));
    assert!(ord.is_validated());
    assert!(ord.api_order().is_status_ready());
    assert!(!ord.api_order().is_status_processing());
    assert!(!ord.api_order().is_status_valid());
    assert!(!ord.api_order().is_status_invalid());
    let csr_order = match ord.confirm_validations() {
        Ok(c) => c,
        Err(_) => panic!("ready order progresses"),
    };
    assert_eq!(csr_order.api_order().status, "ready");
    assert_eq!(csr_order.finalize_url().as_str(), "https://server/order/1/finalize");
}

#[test]
fn test_finalize() {
    let api_order = parse_order(ORDER_JSON, "ready");
    // shortcut auth, as the rig allows
    let ord = CsrOrder { order: Order::new(api_order, "https://server/order/1".to_string()) };
    let pem = create_p256_key().unwrap();
    let payload = ord.finalize_csr_payload(&pem).unwrap();
    assert!(payload.starts_with("{\"csr\":\""));
    assert!(payload.ends_with("\"}"));
    let v: serde_json::Value = serde_json::from_str(&payload).unwrap();
    assert!(!v.get("csr").unwrap().as_str().unwrap().is_empty());
    // polling: processing keeps going, valid stops
    assert!(!order_poll_done("processing"));
    assert!(order_poll_done("valid"));
    assert_eq!(poll_delay_ms(5000, None), 5000);
    assert_eq!(poll_delay_ms(5000, Some(2)), 5000);
    assert_eq!(poll_delay_ms(1000, Some(7)), 7000);
    let cert_order = ord
        .confirm_finalize(parse_order(ORDER_JSON, "valid"), pem)
        .unwrap();
    assert_eq!(cert_order.api_order().status, "valid");
}

#[test]
fn finalize_invalid_order_fails() {
    let ord = CsrOrder {
        order: Order::new(parse_order(ORDER_JSON, "ready"), "https://server/order/1".to_string()),
    };
    let pem = create_p256_key().unwrap();
    let r = ord.confirm_finalize(parse_order(ORDER_JSON, "invalid"), pem);
    assert!(matches!(r, Err(Error::Protocol(_))));
}

#[test]
fn test_download_and_save_cert() {
    let ord = CsrOrder {
        order: Order::new(parse_order(ORDER_JSON, "ready"), "https://server/order/1".to_string()),
    };
    let pem = create_p256_key().unwrap();
    let cert_order = ord
        .confirm_finalize(parse_order(ORDER_JSON, "valid"), pem)
        .unwrap();
    let url = cert_order.certificate_url().unwrap().clone();
    assert_eq!(url, "https://server/order/1/cert");
    // POST-as-GET the certificate URL; the canned body is the chain
    let cert = cert_order.download_cert("CERT HERE".to_string());
    assert_eq!("CERT HERE", cert.certificate());
    assert!(!cert.private_key().is_empty());
}

#[test]
fn download_without_certificate_url_fails() {
    let mut api_order = parse_order(ORDER_JSON, "ready");
    api_order.certificate = None;
    let ord = CsrOrder { order: Order::new(api_order, "https://server/order/1".to_string()) };
    let pem = create_p256_key().unwrap();
    let cert_order = ord
        .confirm_finalize(parse_order(ORDER_JSON, "valid"), pem)
        .unwrap();
    let mut cert_order = cert_order;
    cert_order.order.api_order.certificate = None;
    assert!(matches!(cert_order.certificate_url(), Err(Error::Protocol(_))));
}

#[test]
fn bad_nonce_retry_succeeds() {
    // first POST bounces with badNonce and a fresh Replay-Nonce; the
    // transport re-signs with the new nonce and the retry goes through
    let dir = parse_directory(DIR_JSON).unwrap();
    let acc = register_account(&dir, vec!["mailto:foo@bar.com".to_string()]);
    let mut pool = dir.new_nonce_pool();
    pool.deposit("nonce-a".to_string());

    let payload = api::order_payload(&vec!["acmetest.example.com".to_string()]);
    let mut attempt = 0usize;
    let mut used: Vec<String> = Vec::new();
    let responses = [(400u16, true), (201u16, false)];
    let mut step = 0usize;
    loop {
        let nonce = pool.fetch().unwrap_or_else(|| {
            // dry pool: the driver would HEAD newNonce; canned answer below
            let headers = vec![("Replay-Nonce".to_string(), format!("head-{}", step))];
            replay_nonce_header(&headers).unwrap()
        });
        used.push(nonce.clone());
        let _sr = acc
            .transport
            .sign_request(&dir.api_directory().new_order, &payload, &nonce)
            .unwrap();
        let (status, is_bad_nonce) = responses[step];
        step += 1;
        // every response's Replay-Nonce goes back into the pool
        let headers = vec![("Replay-Nonce".to_string(), format!("fresh-{}", step))];
        if let Some(n) = replay_nonce_header(&headers) {
            pool.deposit(n);
        }
        let problem = if is_bad_nonce {
            Some(acme_micro::api::ApiProblem {
                ptype: Some("urn:ietf:params:acme:error:badNonce".to_string()),
                detail: None,
                subproblems: Vec::new(),
            })
        } else {
            None
        };
        match classify_response(status, problem.as_ref(), attempt) {
            Disposition::Proceed => break,
            Disposition::RetryBadNonce => {
                attempt += 1;
                continue;
            }
            Disposition::Fail(e) => { let _ = e; panic!("unexpected failure") },
        }
    }
    assert_eq!(attempt, 1);
    // the two attempts used distinct nonces
    assert_eq!(used.len(), 2);
    assert_ne!(used[0], used[1]);
}

#[test]
fn retry_after_header_parses_seconds() {
    let headers = vec![("Retry-After".to_string(), "7".to_string())];
    assert_eq!(retry_after_header(&headers), Some(7));
    let date_form = vec![(
        "Retry-After".to_string(),
        "Fri, 31 Dec 1999 23:59:59 GMT".to_string(),
    )];
    assert_eq!(retry_after_header(&date_form), None);
    assert_eq!(retry_after_header(&vec![]), None);
    let too_big = vec![("retry-after".to_string(), "99999999999999999999999".to_string())];
    assert_eq!(retry_after_header(&too_big), None);
}

#[test]
fn certificate_expiry_is_extracted() {
    let group = openssl::ec::EcGroup::from_curve_name(openssl::nid::Nid::X9_62_PRIME256V1).unwrap();
    let ec = openssl::ec::EcKey::generate(&group).unwrap();
    let pk = openssl::pkey::PKey::from_ec_key(ec).unwrap();
    let mut b = openssl::x509::X509Builder::new().unwrap();
    b.set_pubkey(&pk).unwrap();
    let not_before = openssl::asn1::Asn1Time::from_unix(1431600000).unwrap();
    b.set_not_before(&not_before).unwrap();
    // May 15 11:11:11 2015 GMT
    let not_after = openssl::asn1::Asn1Time::from_unix(1431688271).unwrap();
    b.set_not_after(&not_after).unwrap();
    b.sign(&pk, openssl::hash::MessageDigest::sha256()).unwrap();
    let cert_pem = String::from_utf8(b.build().to_pem().unwrap()).unwrap();
    let key_pem = String::from_utf8(pk.private_key_to_pem_pkcs8().unwrap()).unwrap();
    let cert = Certificate::new(key_pem, cert_pem);
    assert_eq!(cert.expiry_unix().unwrap(), 1431688271);
    // a body that is no certificate gives the crypto error, not a panic
    let opaque = Certificate::new("key".to_string(), "CERT HERE".to_string());
    assert!(matches!(opaque.expiry_unix(), Err(Error::Crypto(_))));
}

#[test]
fn pem_round_trip_thumbprint_matches_recorded() {
    // PEM -> AccountKey -> JWK -> thumbprint equals what the server recorded
    // for the same key at registration time
    let pem = create_p256_key().unwrap();
    let recorded = AccountKey::from_pem(&pem).unwrap().thumbprint();
    let reloaded = AccountKey::from_pem(&pem).unwrap();
    assert_eq!(reloaded.thumbprint(), recorded);
}
