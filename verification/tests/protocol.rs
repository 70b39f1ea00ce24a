//! Unit-level tests of the wire building blocks: base64url, JSON payloads,
//! the JWS envelope, the nonce pool, and response classification.

use acme_micro::api;
use acme_micro::b64::b64url;
use acme_micro::api::{ApiProblem, ApiSubproblem};
use acme_micro::key::{create_p256_key, AccountKey};
use acme_micro::nonce::NoncePool;
use acme_micro::trans::{classify_response, find_header, location_header, Disposition, Transport};
use acme_micro::Error;

fn b64url_decode(s: &str) -> Vec<u8> {
    let alphabet = "ABCDEFGHIJKLMNOPQRSTUVWXYZabcdefghijklmnopqrstuvwxyz0123456789-_";
    let mut bits: Vec<u8> = Vec::new();
    for c in s.chars() {
        let v = alphabet.find(c).expect("not a base64url digit") as u8;
        for k in (0..6).rev() {
            bits.push((v >> k) & 1);
        }
    }
    let mut out = Vec::new();
    for chunk in bits.chunks(8) {
        if chunk.len() == 8 {
            let mut b = 0u8;
            for bit in chunk {
                b = (b << 1) | bit;
            }
            out.push(b);
        }
    }
    out
}

#[test]
fn b64url_known_vectors() {
    assert_eq!(b64url(b""), "");
    assert_eq!(b64url(b"f"), "Zg");
    assert_eq!(b64url(b"fo"), "Zm8");
    assert_eq!(b64url(b"foo"), "Zm9v");
    assert_eq!(b64url(b"hello"), "aGVsbG8");
    assert_eq!(b64url(&[1u8, 2, 3]), "AQID");
    // bytes whose six-bit groups land on the URL-safe tail of the alphabet
    assert_eq!(b64url(&[0xfb, 0xef, 0xbe]), "----");
    assert_eq!(b64url(&[0xff, 0xff, 0xff]), "____");
}

#[test]
fn b64url_round_trip() {
    let data: Vec<u8> = (0u8..=255).collect();
    assert_eq!(b64url_decode(&b64url(&data)), data);
}

#[test]
fn account_payload_is_wire_exact() {
    let contacts = vec!["mailto:foo@bar.com".to_string()];
    assert_eq!(
        api::account_payload(&contacts),
        r#"{"contact":["mailto:foo@bar.com"],"termsOfServiceAgreed":true}"#
    );
    let two = vec!["mailto:a@b.c".to_string(), "mailto:d@e.f".to_string()];
    assert_eq!(
        api::account_payload(&two),
        r#"{"contact":["mailto:a@b.c","mailto:d@e.f"],"termsOfServiceAgreed":true}"#
    );
    let none: Vec<String> = vec![];
    assert_eq!(
        api::account_payload(&none),
        r#"{"contact":[],"termsOfServiceAgreed":true}"#
    );
}

#[test]
fn json_escaping_in_payloads() {
    let weird = vec!["a\"b\\c\nd".to_string()];
    assert_eq!(
        api::account_payload(&weird),
        "{\"contact\":[\"a\\\"b\\\\c\\u000ad\"],\"termsOfServiceAgreed\":true}"
    );
    // what we emit must still be valid JSON that decodes to the input
    let v: serde_json::Value = serde_json::from_str(&api::account_payload(&weird)).unwrap();
    assert_eq!(
        v.get("contact").unwrap().get(0).unwrap().as_str().unwrap(),
        "a\"b\\c\nd"
    );
}

#[test]
fn order_payload_is_wire_exact() {
    let one = vec!["acmetest.example.com".to_string()];
    assert_eq!(
        api::order_payload(&one),
        r#"{"identifiers":[{"type":"dns","value":"acmetest.example.com"}]}"#
    );
    let two = vec!["a.example.com".to_string(), "b.example.com".to_string()];
    assert_eq!(
        api::order_payload(&two),
        r#"{"identifiers":[{"type":"dns","value":"a.example.com"},{"type":"dns","value":"b.example.com"}]}"#
    );
}

#[test]
fn finalize_payload_is_wire_exact() {
    assert_eq!(api::finalize_payload(&vec![1u8, 2, 3]), r#"{"csr":"AQID"}"#);
}

#[test]
fn challenge_payload_is_empty_object() {
    assert_eq!(api::challenge_ready_payload(), "{}");
}

#[test]
fn nonce_pool_dispenses_each_nonce_once() {
    let mut pool = NoncePool::new("https://server/new-nonce".to_string());
    assert_eq!(pool.fetch(), None);
    pool.deposit("n1".to_string());
    pool.deposit("n2".to_string());
    // a duplicate deposit is dropped: the nonce can only come out once
    pool.deposit("n1".to_string());
    assert_eq!(pool.fetch(), Some("n1".to_string()));
    assert_eq!(pool.fetch(), Some("n2".to_string()));
    assert_eq!(pool.fetch(), None);
}

#[test]
fn nonce_pool_caps_and_drops_oldest() {
    let mut pool = NoncePool::new("https://server/new-nonce".to_string());
    for i in 0..12 {
        pool.deposit(format!("n{}", i));
    }
    // cap is 10: the two oldest are gone
    assert_eq!(pool.fetch(), Some("n2".to_string()));
}

#[test]
fn classify_bad_nonce_retries_then_fails() {
    let bad = ApiProblem {
        ptype: Some("urn:ietf:params:acme:error:badNonce".to_string()),
        detail: Some("stale nonce".to_string()),
        subproblems: Vec::<ApiSubproblem>::new(),
    };
    assert!(matches!(
        classify_response(400, Some(&bad), 0),
        Disposition::RetryBadNonce
    ));
    assert!(matches!(
        classify_response(400, Some(&bad), 2),
        Disposition::RetryBadNonce
    ));
    match classify_response(400, Some(&bad), 3) {
        Disposition::Fail(Error::Protocol(p)) => {
            assert_eq!(p.ptype.as_deref(), Some("urn:ietf:params:acme:error:badNonce"));
        }
        _ => panic!("expected a protocol failure once retries are spent"),
    }
}

#[test]
fn classify_other_problems_and_success() {
    assert!(matches!(classify_response(200, None, 0), Disposition::Proceed));
    assert!(matches!(classify_response(201, None, 0), Disposition::Proceed));
    let other = ApiProblem {
        ptype: Some("urn:ietf:params:acme:error:malformed".to_string()),
        detail: Some("bad request".to_string()),
        subproblems: Vec::<ApiSubproblem>::new(),
    };
    match classify_response(400, Some(&other), 0) {
        Disposition::Fail(Error::Protocol(p)) => {
            assert_eq!(p.ptype.as_deref(), Some("urn:ietf:params:acme:error:malformed"));
            assert_eq!(p.detail.as_deref(), Some("bad request"));
        }
        _ => panic!("expected a protocol failure"),
    }
    match classify_response(500, None, 0) {
        Disposition::Fail(Error::Protocol(_)) => {}
        _ => panic!("expected a protocol failure without a problem document"),
    }
}

#[test]
fn header_lookup_is_case_insensitive() {
    let headers = vec![
        ("Content-Type".to_string(), "application/json".to_string()),
        ("Location".to_string(), "https://server/acct/1".to_string()),
        ("Replay-Nonce".to_string(), "abc".to_string()),
    ];
    assert_eq!(find_header(&headers, "location"), Some("https://server/acct/1".to_string()));
    assert_eq!(find_header(&headers, "REPLAY-NONCE"), Some("abc".to_string()));
    assert_eq!(find_header(&headers, "retry-after"), None);
    assert_eq!(location_header(&headers).unwrap(), "https://server/acct/1");
    let empty: Vec<(String, String)> = vec![];
    assert!(matches!(location_header(&empty), Err(Error::Protocol(_))));
}

#[test]
fn ecdsa_signature_is_fixed_width() {
    let pem = create_p256_key().unwrap();
    let key = AccountKey::from_pem(&pem).unwrap();
    let sig = key.sign("some signing input").unwrap();
    assert_eq!(sig.len(), 64);
}

#[test]
fn thumbprint_is_stable_across_reparsing() {
    let pem = create_p256_key().unwrap();
    let k1 = AccountKey::from_pem(&pem).unwrap();
    let k2 = AccountKey::from_pem(&pem).unwrap();
    assert_eq!(k1.thumbprint(), k2.thumbprint());
    assert!(!k1.thumbprint().is_empty());
    // the thumbprint really is base64url(sha256(canonical jwk))
    let jwk = k1.jwk_json();
    let digest = openssl::sha::sha256(jwk.as_bytes());
    assert_eq!(k1.thumbprint(), b64url(&digest));
}

#[test]
fn jwk_json_is_canonical() {
    let pem = create_p256_key().unwrap();
    let key = AccountKey::from_pem(&pem).unwrap();
    let jwk = key.jwk_json();
    assert!(jwk.starts_with("{\"crv\":\"P-256\",\"kty\":\"EC\",\"x\":\""));
    let v: serde_json::Value = serde_json::from_str(&jwk).unwrap();
    let x = v.get("x").unwrap().as_str().unwrap();
    let y = v.get("y").unwrap().as_str().unwrap();
    // P-256 coordinates are 32 bytes, so 43 unpadded base64url digits
    assert_eq!(x.len(), 43);
    assert_eq!(y.len(), 43);
    assert_eq!(b64url_decode(x).len(), 32);
    assert_eq!(b64url_decode(y).len(), 32);
}

#[test]
fn p384_key_signature_width() {
    let group = openssl::ec::EcGroup::from_curve_name(openssl::nid::Nid::SECP384R1).unwrap();
    let ec = openssl::ec::EcKey::generate(&group).unwrap();
    let pk = openssl::pkey::PKey::from_ec_key(ec).unwrap();
    let pem = String::from_utf8(pk.private_key_to_pem_pkcs8().unwrap()).unwrap();
    let key = AccountKey::from_pem(&pem).unwrap();
    assert_eq!(key.alg(), "ES384");
    assert!(key.jwk_json().starts_with("{\"crv\":\"P-384\","));
    let sig = key.sign("input").unwrap();
    assert_eq!(sig.len(), 96);
}

#[test]
fn rsa_key_signs_deterministically() {
    let rsa = openssl::rsa::Rsa::generate(2048).unwrap();
    let pk = openssl::pkey::PKey::from_rsa(rsa).unwrap();
    let pem = String::from_utf8(pk.private_key_to_pem_pkcs8().unwrap()).unwrap();
    let key = AccountKey::from_pem(&pem).unwrap();
    assert_eq!(key.alg(), "RS256");
    assert!(key.jwk_json().starts_with("{\"e\":\""));
    let s1 = key.sign("input").unwrap();
    let s2 = key.sign("input").unwrap();
    assert_eq!(s1, s2);
    assert_eq!(s1.len(), 256);
}

#[test]
fn post_as_get_payload_is_empty_string() {
    let pem = create_p256_key().unwrap();
    let key = AccountKey::from_pem(&pem).unwrap();
    let transport = Transport::new(key);
    let sr = transport
        .sign_request("https://server/order/1", "", "nonce123")
        .unwrap();
    assert_eq!(sr.payload_b64, "");
    assert!(sr.body.contains("\"payload\":\"\""));
    assert!(!sr.body.contains("e30"));
    let v: serde_json::Value = serde_json::from_str(&sr.body).unwrap();
    assert_eq!(v.get("payload").unwrap().as_str().unwrap(), "");
}

#[test]
fn signed_request_envelope_shape() {
    let pem = create_p256_key().unwrap();
    let key = AccountKey::from_pem(&pem).unwrap();
    let mut transport = Transport::new(key);

    // JWK mode: the protected header carries the full key, no kid
    let sr = transport
        .sign_request("https://server/new-acct", "{\"a\":1}", "nonce-a")
        .unwrap();
    let protected = String::from_utf8(b64url_decode(&sr.protected_b64)).unwrap();
    assert_eq!(protected, sr.protected);
    assert!(protected.starts_with("{\"alg\":\"ES256\",\"jwk\":{"));
    assert!(protected.contains("\"nonce\":\"nonce-a\""));
    assert!(protected.contains("\"url\":\"https://server/new-acct\""));
    assert!(!protected.contains("\"kid\""));
    // signature: 64 bytes, so 86 unpadded digits
    assert_eq!(sr.signature_b64.len(), 86);
    assert_eq!(b64url_decode(&sr.signature_b64).len(), 64);
    let v: serde_json::Value = serde_json::from_str(&sr.body).unwrap();
    assert_eq!(v.get("protected").unwrap().as_str().unwrap(), sr.protected_b64);
    assert_eq!(v.get("payload").unwrap().as_str().unwrap(), sr.payload_b64);
    assert_eq!(v.get("signature").unwrap().as_str().unwrap(), sr.signature_b64);

    // KID mode: kid replaces jwk, permanently
    transport.set_key_id("https://server/acct/1".to_string());
    assert!(transport.is_kid_mode());
    let sr2 = transport
        .sign_request("https://server/order", "", "nonce-b")
        .unwrap();
    let protected2 = String::from_utf8(b64url_decode(&sr2.protected_b64)).unwrap();
    assert!(protected2.starts_with("{\"alg\":\"ES256\",\"kid\":\"https://server/acct/1\""));
    assert!(!protected2.contains("\"jwk\""));
}

#[test]
fn signature_verifies_under_openssl() {
    // the ES256 signature in the envelope must verify against the key over
    // exactly `protected_b64 || "." || payload_b64`
    let pem = create_p256_key().unwrap();
    let key = AccountKey::from_pem(&pem).unwrap();
    let transport = Transport::new(key);
    let sr = transport
        .sign_request("https://server/x", "{\"hi\":true}", "n0")
        .unwrap();
    let signing_input = format!("{}.{}", sr.protected_b64, sr.payload_b64);
    let digest = openssl::sha::sha256(signing_input.as_bytes());
    let raw = b64url_decode(&sr.signature_b64);
    let r = openssl::bn::BigNum::from_slice(&raw[..32]).unwrap();
    let s = openssl::bn::BigNum::from_slice(&raw[32..]).unwrap();
    let sig = openssl::ecdsa::EcdsaSig::from_private_components(r, s).unwrap();
    let pk = openssl::pkey::PKey::private_key_from_pem(pem.as_bytes()).unwrap();
    let ec = pk.ec_key().unwrap();
    assert!(sig.verify(&digest, &ec).unwrap());
}
