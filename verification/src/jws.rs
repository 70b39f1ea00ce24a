//! The flattened JWS envelope: protected headers, signing input, envelope.

use vstd::prelude::*;
use vstd::utf8::encode_utf8;
use crate::b64::b64_chars;
use crate::json::{json_str, push_json_str};
use crate::text::{push_char, push_str};

verus! {

/// The protected header in JWK form, used only before an account URL is
/// known: `alg`, the full public JWK, `nonce` and `url`.
pub open spec fn protected_jwk_spec(
    alg: Seq<char>,
    jwk: Seq<char>,
    nonce: Seq<char>,
    url: Seq<char>,
) -> Seq<char> {
    "{\"alg\":\""@ + alg + "\",\"jwk\":"@ + jwk + ",\"nonce\":"@ + json_str(nonce) + ",\"url\":"@
        + json_str(url) + "}"@
}

/// The protected header in KID form, used once the account URL is known:
/// `alg`, `kid`, `nonce` and `url` — and no `jwk`.
pub open spec fn protected_kid_spec(
    alg: Seq<char>,
    kid: Seq<char>,
    nonce: Seq<char>,
    url: Seq<char>,
) -> Seq<char> {
    "{\"alg\":\""@ + alg + "\",\"kid\":"@ + json_str(kid) + ",\"nonce\":"@ + json_str(nonce)
        + ",\"url\":"@ + json_str(url) + "}"@
}

/// How a payload appears in the envelope: the empty payload of a POST-as-GET
/// stays the literal empty string; anything else is base64url of its UTF-8.
pub open spec fn payload_b64_spec(payload: Seq<char>) -> Seq<char> {
    if payload.len() == 0 {
        Seq::empty()
    } else {
        b64_chars(encode_utf8(payload))
    }
}

/// The JWS signing input: the two encoded parts joined by a dot.
pub open spec fn signing_input_spec(protected_b64: Seq<char>, payload_b64: Seq<char>) -> Seq<char> {
    protected_b64 + seq!['.'] + payload_b64
}

/// The flattened JWS JSON envelope.
pub open spec fn envelope_spec(
    protected_b64: Seq<char>,
    payload_b64: Seq<char>,
    signature_b64: Seq<char>,
) -> Seq<char> {
    "{\"protected\":"@ + json_str(protected_b64) + ",\"payload\":"@ + json_str(payload_b64)
        + ",\"signature\":"@ + json_str(signature_b64) + "}"@
}

/// Render the JWK-form protected header.
pub fn build_protected_jwk(alg: &str, jwk: &str, nonce: &str, url: &str) -> (r: String)
    ensures
        r@ == protected_jwk_spec(alg@, jwk@, nonce@, url@),
{
    let mut out = String::new();
    push_str(&mut out, "{\"alg\":\"");
    push_str(&mut out, alg);
    push_str(&mut out, "\",\"jwk\":");
    push_str(&mut out, jwk);
    push_str(&mut out, ",\"nonce\":");
    push_json_str(&mut out, nonce);
    push_str(&mut out, ",\"url\":");
    push_json_str(&mut out, url);
    push_str(&mut out, "}");
    proof {
        assert(out@ =~= protected_jwk_spec(alg@, jwk@, nonce@, url@));
    }
    out
}

/// Render the KID-form protected header.
pub fn build_protected_kid(alg: &str, kid: &str, nonce: &str, url: &str) -> (r: String)
    ensures
        r@ == protected_kid_spec(alg@, kid@, nonce@, url@),
{
    let mut out = String::new();
    push_str(&mut out, "{\"alg\":\"");
    push_str(&mut out, alg);
    push_str(&mut out, "\",\"kid\":");
    push_json_str(&mut out, kid);
    push_str(&mut out, ",\"nonce\":");
    push_json_str(&mut out, nonce);
    push_str(&mut out, ",\"url\":");
    push_json_str(&mut out, url);
    push_str(&mut out, "}");
    proof {
        assert(out@ =~= protected_kid_spec(alg@, kid@, nonce@, url@));
    }
    out
}

/// Join the two encoded parts into the signing input.
pub fn build_signing_input(protected_b64: &str, payload_b64: &str) -> (r: String)
    ensures
        r@ == signing_input_spec(protected_b64@, payload_b64@),
{
    let mut out = String::new();
    push_str(&mut out, protected_b64);
    push_char(&mut out, '.');
    push_str(&mut out, payload_b64);
    proof {
        assert(out@ =~= signing_input_spec(protected_b64@, payload_b64@));
    }
    out
}

/// Render the flattened JWS envelope.
pub fn build_envelope(protected_b64: &str, payload_b64: &str, signature_b64: &str) -> (r: String)
    ensures
        r@ == envelope_spec(protected_b64@, payload_b64@, signature_b64@),
{
    let mut out = String::new();
    push_str(&mut out, "{\"protected\":");
    push_json_str(&mut out, protected_b64);
    push_str(&mut out, ",\"payload\":");
    push_json_str(&mut out, payload_b64);
    push_str(&mut out, ",\"signature\":");
    push_json_str(&mut out, signature_b64);
    push_str(&mut out, "}");
    proof {
        assert(out@ =~= envelope_spec(protected_b64@, payload_b64@, signature_b64@));
    }
    out
}

/// Law: the empty POST-as-GET payload encodes as the empty string itself,
/// not as the encoding of an empty JSON object — `"{}"` would encode as
/// `"e30"`, which the empty payload never equals.
pub proof fn lemma_post_as_get_payload()
    ensures
        payload_b64_spec(""@) == Seq::<char>::empty(),
        payload_b64_spec("{}"@) == "e30"@,
{
    reveal_strlit("");
    reveal_strlit("{}");
    reveal_strlit("e30");
    assert(""@.len() == 0);
    let pl = "{}"@;
    assert(pl.len() == 2 && pl[0] == '{' && pl[1] == '}');
    assert(vstd::utf8::is_ascii_chars(pl));
    vstd::utf8::is_ascii_chars_encode_utf8(pl);
    let bs = encode_utf8(pl);
    assert(bs.len() == 2);
    assert(bs[0] == '{' as u8 && bs[1] == '}' as u8);
    assert(bs[0] == 123u8 && bs[1] == 125u8);
    assert(b64_chars(bs) == crate::b64::b64_tail2(123u8, 125u8));
    assert((123u8 >> 2) == 30u8 && (((123u8 & 0x03) << 4) | (125u8 >> 4)) == 55u8 && ((125u8 & 0x0f)
        << 2) == 52u8) by (bit_vector);
    assert(payload_b64_spec(pl) =~= "e30"@);
}

} // verus!
