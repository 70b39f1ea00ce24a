//! Account keys: generation, PEM parsing, JWK projection, thumbprint, signing.
//!
//! The cryptographic primitives come from the openssl crate behind trusted
//! wrappers; everything built on top of their results is verified.

use vstd::prelude::*;
use vstd::string::StringExecFns;
use openssl::bn::{BigNum, BigNumContext};
use openssl::ec::{EcGroup, EcKey};
use openssl::ecdsa::EcdsaSig;
use openssl::hash::MessageDigest;
use openssl::nid::Nid;
use openssl::pkey::PKey;
use openssl::sign::Signer;
use openssl::stack::Stack;
use openssl::x509::extension::SubjectAlternativeName;
use openssl::x509::X509ReqBuilder;
use crate::b64::{b64_chars, b64url};
use crate::error::Error;
use crate::json::{json_str, push_json_str};
use crate::text::push_str;

verus! {

/// The SHA-256 digest of the UTF-8 bytes of a string: a fixed function of its
/// input, left unstated and only named.
pub uninterp spec fn sha256_of(s: Seq<char>) -> Seq<u8>;

/// The SHA-384 digest of the UTF-8 bytes of a string.
pub uninterp spec fn sha384_of(s: Seq<char>) -> Seq<u8>;

/// The RSASSA-PKCS1-v1_5 SHA-256 signature over `msg` by an RSA key PEM:
/// deterministic, so a function of the two inputs. Spoken of only where the
/// PEM parses as an RSA key (`rsa_public_of` is Some).
pub uninterp spec fn rs256_of(key_pem: Seq<char>, msg: Seq<char>) -> Seq<u8>;

/// What parsing a private key PEM yields for the curve: the coordinate byte
/// length — Some(32) for P-256, Some(48) for P-384 — or None where the key
/// is not EC of a supported curve. A fixed function of the PEM text.
pub uninterp spec fn ec_coord_len_of(pem: Seq<char>) -> Option<i32>;

/// The public point an EC key PEM parses to: affine x and y, each padded to
/// the curve's byte length. A fixed function of the PEM text.
pub uninterp spec fn ec_point_of(pem: Seq<char>) -> (Seq<u8>, Seq<u8>);

/// The RSA public components a key PEM parses to — modulus and exponent in
/// minimal big-endian — or None where the key is not RSA. A fixed function
/// of the PEM text.
pub uninterp spec fn rsa_public_of(pem: Seq<char>) -> Option<(Seq<u8>, Seq<u8>)>;

/// The notAfter instant of a certificate PEM, as whole days and leftover
/// seconds from the Unix epoch. A fixed function of the PEM text.
pub uninterp spec fn not_after_of(cert_pem: Seq<char>) -> (i32, i32);

#[verifier::external_type_specification]
#[verifier::external_body]
pub struct ExErrorStack(openssl::error::ErrorStack);

/// Relies on openssl::sha::sha256: the 32-byte SHA-256 digest of the input,
/// a function of the input alone.
#[verifier::external_body]
pub(crate) fn sha256_str(s: &str) -> (r: Vec<u8>)
    ensures
        r@ == sha256_of(s@),
        r@.len() == 32,
{
    openssl::sha::sha256(s.as_bytes()).to_vec()
}

/// Relies on openssl::sha::sha384: the 48-byte SHA-384 digest of the input,
/// a function of the input alone.
#[verifier::external_body]
fn sha384_str(s: &str) -> (r: Vec<u8>)
    ensures
        r@ == sha384_of(s@),
        r@.len() == 48,
{
    openssl::sha::sha384(s.as_bytes()).to_vec()
}

/// The public projection of an account key, as plain big-endian byte strings.
pub enum KeyPublic {
    /// ECDSA P-256: affine coordinates, 32 bytes each.
    Ec256 { x: Vec<u8>, y: Vec<u8> },
    /// ECDSA P-384: affine coordinates, 48 bytes each.
    Ec384 { x: Vec<u8>, y: Vec<u8> },
    /// RSA: modulus and public exponent, minimal big-endian.
    Rsa { n: Vec<u8>, e: Vec<u8> },
}

/// Coordinates have exactly the curve's byte length.
pub open spec fn key_public_wf(p: KeyPublic) -> bool {
    match p {
        KeyPublic::Ec256 { x, y } => x@.len() == 32 && y@.len() == 32,
        KeyPublic::Ec384 { x, y } => x@.len() == 48 && y@.len() == 48,
        KeyPublic::Rsa { n, e } => true,
    }
}

/// Relies on openssl: PKey::private_key_from_pem and EcKey::group/curve_name.
/// Hands back the curve's coordinate byte length — 32 for P-256, 48 for
/// P-384 — or None for a key that is not EC of those curves; the parse is a
/// fixed function of the PEM text, named `ec_coord_len_of`.
#[verifier::external_body]
fn ec_coord_len_from_pem(pem: &str) -> (r: Result<Option<i32>, openssl::error::ErrorStack>)
    ensures
        r matches Ok(o) ==> o == ec_coord_len_of(pem@),
        r matches Ok(Some(l)) ==> l == 32 || l == 48,
{
    let pk = PKey::private_key_from_pem(pem.as_bytes())?;
    let ec = match pk.ec_key() { Ok(e) => e, Err(_) => return Ok(None) };
    match ec.group().curve_name() {
        Some(Nid::X9_62_PRIME256V1) => Ok(Some(32)),
        Some(Nid::SECP384R1) => Ok(Some(48)),
        _ => Ok(None),
    }
}

/// Relies on openssl: EcPoint::affine_coordinates and
/// BigNumRef::to_vec_padded, which pads each coordinate to exactly the
/// requested length (and errors if it does not fit). Asked at the curve's
/// own length, the result is the fixed point `ec_point_of` of the PEM.
#[verifier::external_body]
fn ec_coords_from_pem(pem: &str, len: i32) -> (r: Result<(Vec<u8>, Vec<u8>), openssl::error::ErrorStack>)
    requires
        len > 0,
    ensures
        r matches Ok(p) ==> p.0@.len() == len && p.1@.len() == len,
        r matches Ok(p) ==> (ec_coord_len_of(pem@) == Some(len) ==> (p.0@, p.1@) == ec_point_of(
            pem@,
        )),
{
    let pk = PKey::private_key_from_pem(pem.as_bytes())?;
    let ec = pk.ec_key()?;
    let (mut x, mut y) = (BigNum::new()?, BigNum::new()?);
    let mut ctx = BigNumContext::new()?;
    ec.public_key().affine_coordinates(ec.group(), &mut x, &mut y, &mut ctx)?;
    Ok((x.to_vec_padded(len)?, y.to_vec_padded(len)?))
}

/// Relies on openssl: PKey::private_key_from_pem and Rsa::n/e with
/// BigNumRef::to_vec (minimal big-endian). Returns None for a non-RSA key;
/// the parse is a fixed function of the PEM text, named `rsa_public_of`.
#[verifier::external_body]
fn rsa_public_from_pem(pem: &str) -> (r: Result<Option<KeyPublic>, openssl::error::ErrorStack>)
    ensures
        r matches Ok(Some(p)) ==> (p matches KeyPublic::Rsa { n, e } && Some((n@, e@))
            == rsa_public_of(pem@)),
        r matches Ok(None) ==> rsa_public_of(pem@) is None,
{
    let pk = PKey::private_key_from_pem(pem.as_bytes())?;
    match pk.rsa() {
        Ok(rsa) => Ok(Some(KeyPublic::Rsa { n: rsa.n().to_vec(), e: rsa.e().to_vec() })),
        Err(_) => Ok(None),
    }
}

/// Relies on openssl: EcGroup::from_curve_name(P-256), EcKey::generate,
/// PKey::from_ec_key and private_key_to_pem_pkcs8. The key is fresh and
/// random, so its bytes are unstated; but every PEM written here is a
/// PKCS#8 P-256 key, which the parse reads back as such.
#[verifier::external_body]
fn gen_p256_pem() -> (r: Result<String, openssl::error::ErrorStack>)
    ensures
        r matches Ok(pem) ==> ec_coord_len_of(pem@) == Some(32i32),
{
    let group = EcGroup::from_curve_name(Nid::X9_62_PRIME256V1)?;
    let ec = EcKey::generate(&group)?;
    let pk = PKey::from_ec_key(ec)?;
    let pem = pk.private_key_to_pem_pkcs8()?;
    Ok(String::from_utf8_lossy(&pem).into_owned())
}

/// Relies on openssl: EcdsaSig::sign over a precomputed digest, then
/// BigNumRef::to_vec on r and s (minimal big-endian, no fixed width).
/// ECDSA draws a random secret per signature, so nothing is stated of the
/// two byte strings.
#[verifier::external_body]
fn ecdsa_sign_raw(pem: &str, digest: &Vec<u8>) -> (r: Result<(Vec<u8>, Vec<u8>), openssl::error::ErrorStack>)
    requires
        digest@.len() < 0x8000_0000,
{
    let pk = PKey::private_key_from_pem(pem.as_bytes())?;
    let ec = pk.ec_key()?;
    let sig = EcdsaSig::sign(digest.as_slice(), &ec)?;
    Ok((sig.r().to_vec(), sig.s().to_vec()))
}

/// Relies on openssl: Signer with MessageDigest::sha256. The Signer is
/// EVP-based and accepts any private key, so determinism is claimed only
/// where the PEM parses as RSA: there the default padding is PKCS#1 v1.5
/// and the signature is the fixed function `rs256_of` of key and message.
#[verifier::external_body]
fn rsa_sign_sha256(pem: &str, msg: &str) -> (r: Result<Vec<u8>, openssl::error::ErrorStack>)
    ensures
        r matches Ok(v) ==> (rsa_public_of(pem@) is Some ==> v@ == rs256_of(pem@, msg@)),
{
    let pk = PKey::private_key_from_pem(pem.as_bytes())?;
    let mut signer = Signer::new(MessageDigest::sha256(), &pk)?;
    signer.update(msg.as_bytes())?;
    signer.sign_to_vec()
}

/// Relies on openssl: X509ReqBuilder with a SubjectAlternativeName extension
/// listing every domain, signed with SHA-256 by the supplied key, DER-encoded.
/// The signature inside is not deterministic for EC keys, so the bytes are
/// left unstated.
#[verifier::external_body]
fn csr_der(pem: &str, domains: &Vec<String>) -> (r: Result<Vec<u8>, openssl::error::ErrorStack>)
{
    let pk = PKey::private_key_from_pem(pem.as_bytes())?;
    let mut req = X509ReqBuilder::new()?;
    req.set_pubkey(&pk)?;
    let mut san = SubjectAlternativeName::new();
    for d in domains.iter() {
        san.dns(d);
    }
    let ext = san.build(&req.x509v3_context(None))?;
    let mut stack = Stack::new()?;
    stack.push(ext)?;
    req.add_extensions(&stack)?;
    req.sign(&pk, MessageDigest::sha256())?;
    req.build().to_der()
}

/// Relies on openssl: X509::from_pem, X509::not_after, and
/// Asn1TimeRef::diff against Asn1Time::from_unix(0): the days and seconds
/// from the epoch to the certificate's notAfter, a fixed function of the
/// PEM, named `not_after_of`.
#[verifier::external_body]
pub(crate) fn cert_not_after_raw(cert_pem: &str) -> (r: Result<(i32, i32), openssl::error::ErrorStack>)
    ensures
        r matches Ok(p) ==> p == not_after_of(cert_pem@),
{
    let x = openssl::x509::X509::from_pem(cert_pem.as_bytes())?;
    let epoch = openssl::asn1::Asn1Time::from_unix(0)?;
    let d = epoch.diff(x.not_after())?;
    Ok((d.days, d.secs))
}

fn crypto_error(what: &str) -> (r: Error)
    ensures
        r is Crypto,
{
    Error::Crypto(String::from_str(what))
}

/// The JWS `alg` parameter for a key.
pub open spec fn alg_spec(p: KeyPublic) -> Seq<char> {
    match p {
        KeyPublic::Ec256 { .. } => "ES256"@,
        KeyPublic::Ec384 { .. } => "ES384"@,
        KeyPublic::Rsa { .. } => "RS256"@,
    }
}

/// The canonical JWK JSON of a public key: members in lexicographic order,
/// coordinates in unpadded URL-safe base64 (RFC 7638 form).
pub open spec fn jwk_json_spec(p: KeyPublic) -> Seq<char> {
    match p {
        KeyPublic::Ec256 { x, y } => "{\"crv\":\"P-256\",\"kty\":\"EC\",\"x\":"@ + json_str(
            b64_chars(x@),
        ) + ",\"y\":"@ + json_str(b64_chars(y@)) + "}"@,
        KeyPublic::Ec384 { x, y } => "{\"crv\":\"P-384\",\"kty\":\"EC\",\"x\":"@ + json_str(
            b64_chars(x@),
        ) + ",\"y\":"@ + json_str(b64_chars(y@)) + "}"@,
        KeyPublic::Rsa { n, e } => "{\"e\":"@ + json_str(b64_chars(e@)) + ",\"kty\":\"RSA\",\"n\":"@
            + json_str(b64_chars(n@)) + "}"@,
    }
}

/// The JWK thumbprint: unpadded URL-safe base64 of the SHA-256 of the
/// canonical JWK JSON.
pub open spec fn thumbprint_spec(p: KeyPublic) -> Seq<char> {
    b64_chars(sha256_of(jwk_json_spec(p)))
}

/// Whether two public projections carry the same key material, byte for
/// byte.
pub open spec fn same_public(p1: KeyPublic, p2: KeyPublic) -> bool {
    match (p1, p2) {
        (KeyPublic::Ec256 { x: x1, y: y1 }, KeyPublic::Ec256 { x: x2, y: y2 }) => x1@ == x2@ && y1@
            == y2@,
        (KeyPublic::Ec384 { x: x1, y: y1 }, KeyPublic::Ec384 { x: x2, y: y2 }) => x1@ == x2@ && y1@
            == y2@,
        (KeyPublic::Rsa { n: n1, e: e1 }, KeyPublic::Rsa { n: n2, e: e2 }) => n1@ == n2@ && e1@
            == e2@,
        _ => false,
    }
}

/// Law: the thumbprint is a function of the public key material alone, so
/// regenerating it from a persisted key yields the value recorded before.
pub proof fn lemma_thumbprint_stable(p1: KeyPublic, p2: KeyPublic)
    requires
        same_public(p1, p2),
    ensures
        thumbprint_spec(p1) == thumbprint_spec(p2),
{
    assert(jwk_json_spec(p1) == jwk_json_spec(p2));
}

/// Law: parsing a key PEM is a function of its text alone, so two account
/// keys carrying the same PEM carry the same public material — and with it
/// the same JWK and the same thumbprint. A thumbprint regenerated from a
/// persisted PEM therefore equals the one recorded when the key was first
/// parsed.
pub proof fn lemma_key_parse_deterministic(k1: AccountKey, k2: AccountKey)
    requires
        k1.keyed_to_pem(),
        k2.keyed_to_pem(),
        k1.pem@ == k2.pem@,
    ensures
        same_public(k1.public, k2.public),
        thumbprint_spec(k1.public) == thumbprint_spec(k2.public),
{
    lemma_thumbprint_stable(k1.public, k2.public);
}

/// An ACME account key: the private key PEM and its public projection.
pub struct AccountKey {
    pub pem: String,
    pub public: KeyPublic,
}

impl AccountKey {
    /// Coordinates sized to the curve.
    pub open spec fn wf(&self) -> bool {
        key_public_wf(self.public)
    }

    /// The public projection is exactly what the held PEM parses to. Every
    /// key built by `from_pem` or `generate` satisfies this, and through it
    /// the parse results — and everything derived from them, thumbprint
    /// included — are functions of the PEM text alone.
    pub open spec fn keyed_to_pem(&self) -> bool {
        match self.public {
            KeyPublic::Ec256 { x, y } => ec_coord_len_of(self.pem@) == Some(32i32) && (x@, y@)
                == ec_point_of(self.pem@),
            KeyPublic::Ec384 { x, y } => ec_coord_len_of(self.pem@) == Some(48i32) && (x@, y@)
                == ec_point_of(self.pem@),
            KeyPublic::Rsa { n, e } => ec_coord_len_of(self.pem@) is None && Some((n@, e@))
                == rsa_public_of(self.pem@),
        }
    }

    /// Parse a private key PEM (EC P-256/P-384 or RSA).
    pub fn from_pem(pem: &str) -> (r: Result<AccountKey, Error>)
        ensures
            r matches Ok(k) ==> k.wf() && k.keyed_to_pem() && k.pem@ == pem@,
            r matches Err(e) ==> e is Crypto,
    {
        match ec_coord_len_from_pem(pem) {
            Ok(Some(len)) => match ec_coords_from_pem(pem, len) {
                Ok((x, y)) => {
                    let public = if len == 32 {
                        KeyPublic::Ec256 { x, y }
                    } else {
                        KeyPublic::Ec384 { x, y }
                    };
                    Ok(AccountKey { pem: String::from_str(pem), public })
                },
                Err(_) => Err(crypto_error("EC public key extraction failed")),
            },
            Ok(None) => match rsa_public_from_pem(pem) {
                Ok(Some(p)) => Ok(AccountKey { pem: String::from_str(pem), public: p }),
                _ => Err(crypto_error("unsupported or unreadable account key")),
            },
            Err(_) => Err(crypto_error("account key PEM did not parse")),
        }
    }

    /// Generate a fresh ECDSA P-256 account key, the default kind.
    pub fn generate() -> (r: Result<AccountKey, Error>)
        ensures
            r matches Ok(k) ==> k.wf() && k.keyed_to_pem() && k.public is Ec256,
            r matches Err(e) ==> e is Crypto,
    {
        match gen_p256_pem() {
            Ok(pem) => AccountKey::from_pem(pem.as_str()),
            Err(_) => Err(crypto_error("key generation failed")),
        }
    }

    /// The JWS `alg` value for this key.
    pub fn alg(&self) -> (r: &'static str)
        ensures
            r@ == alg_spec(self.public),
    {
        match &self.public {
            KeyPublic::Ec256 { .. } => "ES256",
            KeyPublic::Ec384 { .. } => "ES384",
            KeyPublic::Rsa { .. } => "RS256",
        }
    }

    /// The canonical JWK JSON of the public key.
    pub fn jwk_json(&self) -> (r: String)
        ensures
            r@ == jwk_json_spec(self.public),
    {
        let mut out = String::new();
        match &self.public {
            KeyPublic::Ec256 { x, y } => {
                push_str(&mut out, "{\"crv\":\"P-256\",\"kty\":\"EC\",\"x\":");
                let bx = b64url(x.as_slice());
                push_json_str(&mut out, bx.as_str());
                push_str(&mut out, ",\"y\":");
                let by = b64url(y.as_slice());
                push_json_str(&mut out, by.as_str());
                push_str(&mut out, "}");
            },
            KeyPublic::Ec384 { x, y } => {
                push_str(&mut out, "{\"crv\":\"P-384\",\"kty\":\"EC\",\"x\":");
                let bx = b64url(x.as_slice());
                push_json_str(&mut out, bx.as_str());
                push_str(&mut out, ",\"y\":");
                let by = b64url(y.as_slice());
                push_json_str(&mut out, by.as_str());
                push_str(&mut out, "}");
            },
            KeyPublic::Rsa { n, e } => {
                push_str(&mut out, "{\"e\":");
                let be = b64url(e.as_slice());
                push_json_str(&mut out, be.as_str());
                push_str(&mut out, ",\"kty\":\"RSA\",\"n\":");
                let bn = b64url(n.as_slice());
                push_json_str(&mut out, bn.as_str());
                push_str(&mut out, "}");
            },
        }
        proof {
            assert(out@ =~= jwk_json_spec(self.public));
        }
        out
    }

    /// The JWK thumbprint of the public key, ready for key authorizations.
    pub fn thumbprint(&self) -> (r: String)
        ensures
            r@ == thumbprint_spec(self.public),
    {
        let jwk = self.jwk_json();
        let digest = sha256_str(jwk.as_str());
        b64url(digest.as_slice())
    }

    /// Sign a JWS signing input. ECDSA signatures come out as the fixed-width
    /// R || S concatenation, twice the curve's byte length; RSA uses
    /// PKCS#1 v1.5 with SHA-256.
    pub fn sign(&self, msg: &str) -> (r: Result<Vec<u8>, Error>)
        ensures
            r matches Ok(sig) ==> match self.public {
                KeyPublic::Ec256 { .. } => sig@.len() == 64,
                KeyPublic::Ec384 { .. } => sig@.len() == 96,
                KeyPublic::Rsa { .. } => self.keyed_to_pem() ==> sig@ == rs256_of(
                    self.pem@,
                    msg@,
                ),
            },
            r matches Err(e) ==> e is Crypto,
    {
        match &self.public {
            KeyPublic::Ec256 { .. } => {
                let digest = sha256_str(msg);
                match ecdsa_sign_raw(self.pem.as_str(), &digest) {
                    Ok((rr, ss)) => ec_sig_fixed(&rr, &ss, 32),
                    Err(_) => Err(crypto_error("ECDSA signing failed")),
                }
            },
            KeyPublic::Ec384 { .. } => {
                let digest = sha384_str(msg);
                match ecdsa_sign_raw(self.pem.as_str(), &digest) {
                    Ok((rr, ss)) => ec_sig_fixed(&rr, &ss, 48),
                    Err(_) => Err(crypto_error("ECDSA signing failed")),
                }
            },
            KeyPublic::Rsa { .. } => {
                match rsa_sign_sha256(self.pem.as_str(), msg) {
                    Ok(v) => Ok(v),
                    Err(_) => Err(crypto_error("RSA signing failed")),
                }
            },
        }
    }
}

/// Zero-pad a big-endian value on the left to exactly `l` bytes.
fn pad_left(v: &Vec<u8>, l: usize) -> (r: Vec<u8>)
    requires
        v@.len() <= l,
    ensures
        r@.len() == l,
        r@ == Seq::new((l - v@.len()) as nat, |i: int| 0u8) + v@,
{
    let pad = l - v.len();
    let mut out: Vec<u8> = Vec::new();
    let mut i: usize = 0;
    while i < pad
        invariant
            0 <= i <= pad,
            out@ =~= Seq::new(i as nat, |j: int| 0u8),
        decreases pad - i,
    {
        out.push(0);
        proof {
            assert(out@ =~= Seq::new((i + 1) as nat, |j: int| 0u8));
        }
        i = i + 1;
    }
    let mut k: usize = 0;
    while k < v.len()
        invariant
            0 <= k <= v@.len(),
            v@.len() + pad == l,
            out@ =~= Seq::new(pad as nat, |j: int| 0u8) + v@.take(k as int),
        decreases v@.len() - k,
    {
        out.push(v[k]);
        proof {
            assert(v@.take(k + 1) =~= v@.take(k as int).push(v@[k as int]));
            assert(out@ =~= Seq::new(pad as nat, |j: int| 0u8) + v@.take(k + 1));
        }
        k = k + 1;
    }
    proof {
        assert(v@.take(v@.len() as int) =~= v@);
    }
    out
}

/// Assemble the fixed-width R || S form of an ECDSA signature for curve byte
/// length `l`: each component zero-padded on the left to exactly `l` bytes,
/// not DER. The raw components must already fit.
pub fn ec_sig_fixed(rr: &Vec<u8>, ss: &Vec<u8>, l: usize) -> (r: Result<Vec<u8>, Error>)
    requires
        l <= 64,
    ensures
        r matches Ok(sig) ==> sig@.len() == 2 * l && sig@ == Seq::new(
            (l - rr@.len()) as nat,
            |i: int| 0u8,
        ) + rr@ + Seq::new((l - ss@.len()) as nat, |i: int| 0u8) + ss@,
        r matches Err(e) ==> e is Crypto,
        r is Ok <==> rr@.len() <= l && ss@.len() <= l,
{
    if rr.len() <= l && ss.len() <= l {
        let mut out = pad_left(rr, l);
        let tail = pad_left(ss, l);
        let mut k: usize = 0;
        let m = tail.len();
        while k < m
            invariant
                0 <= k <= m,
                m == tail@.len(),
                tail@.len() == l <= 64,
                out@ == Seq::new((l - rr@.len()) as nat, |i: int| 0u8) + rr@ + tail@.take(k as int),
            decreases m - k,
        {
            let b = tail[k];
            out.push(b);
            proof {
                assert(tail@.take(k + 1) =~= tail@.take(k as int).push(tail@[k as int]));
                assert(out@ =~= Seq::new((l - rr@.len()) as nat, |i: int| 0u8) + rr@ + tail@.take(
                    k + 1,
                ));
            }
            k = k + 1;
        }
        proof {
            assert(tail@.take(m as int) =~= tail@);
            assert(out@ =~= Seq::new((l - rr@.len()) as nat, |i: int| 0u8) + rr@ + (Seq::new(
                (l - ss@.len()) as nat,
                |i: int| 0u8,
            ) + ss@));
            assert(out@ =~= Seq::new((l - rr@.len()) as nat, |i: int| 0u8) + rr@ + Seq::new(
                (l - ss@.len()) as nat,
                |i: int| 0u8,
            ) + ss@);
        }
        Ok(out)
    } else {
        Err(crypto_error("ECDSA signature component too wide"))
    }
}

/// Generate a fresh P-256 private key and hand back its PEM, which parses
/// back as a P-256 key.
pub fn create_p256_key() -> (r: Result<String, Error>)
    ensures
        r matches Ok(pem) ==> ec_coord_len_of(pem@) == Some(32i32),
        r matches Err(e) ==> e is Crypto,
{
    match gen_p256_pem() {
        Ok(pem) => Ok(pem),
        Err(_) => Err(crypto_error("key generation failed")),
    }
}

/// Build a CSR over the given domains (SAN extension carries them all) and
/// hand back its DER bytes.
pub fn create_csr(key_pem: &str, domains: &Vec<String>) -> (r: Result<Vec<u8>, Error>)
    ensures
        r matches Err(e) ==> e is Crypto,
{
    match csr_der(key_pem, domains) {
        Ok(der) => Ok(der),
        Err(_) => Err(crypto_error("CSR construction failed")),
    }
}

} // verus!
