//! Account key pairs and the HTTP signature headers of outgoing activities.

use vstd::prelude::*;
use vstd::utf8::encode_utf8;
use base64::Engine;
use rsa::pkcs8::{DecodePrivateKey, EncodePrivateKey, EncodePublicKey, LineEnding};
use rsa::signature::{SignatureEncoding, Signer};
use crate::error::ServiceError;

verus! {

/// The RSA key pair of an account, both halves PEM-encoded.
#[derive(Clone, Debug)]
pub struct KeyPair {
    pub user_name: String,
    pub private_key: String,
    pub public_key: String,
}

/// Size in bits of the RSA keys generated for new accounts.
pub const BITS: usize = 2048;

/// The deployment name under which key generation is skipped.
pub const TEST_ENV: &'static str = "test";

/// The bit length of the modulus of the RSA private key whose PKCS#8 PEM text
/// is `private_key_pem`; `None` when that text does not decode to a key.
pub uninterp spec fn pkcs8_pem_modulus_bits(private_key_pem: Seq<char>) -> Option<nat>;

/// Generates a key with `rsa::RsaPrivateKey::new` (exponent 65537, random
/// numbers from `rand::thread_rng()`) and encodes it with
/// `rsa::pkcs8::EncodePrivateKey::to_pkcs8_pem` (LF line endings). The key is
/// random, so its text is not named; what the source shows is claimed: key
/// generation retries until the modulus has exactly `bits` bits
/// (`algorithms/generate.rs`), so the text returned decodes to a key of that
/// size. For 64 bits and more, generation has no error path (it retries
/// until two distinct primes give a modulus of that size and an invertible
/// exponent, `algorithms/generate.rs`), the key it builds passes the checks
/// of `RsaPrivateKey::validate` by construction, and encoding a two-prime key
/// fails only on lengths no machine holds, so the call succeeds. An error
/// comes back as its message. (`thread_rng` panics only when the operating
/// system's random source fails.)
#[verifier::external_body]
fn new_rsa_private_key_pem(bits: usize) -> (r: Result<String, String>)
    ensures
        r matches Ok(pem) ==> pkcs8_pem_modulus_bits(pem@) == Some(bits as nat),
        bits >= 64 ==> r is Ok,
{
    let key = match rsa::RsaPrivateKey::new(&mut rand::thread_rng(), bits) {
        Ok(key) => key,
        Err(e) => return Err(e.to_string()),
    };
    match key.to_pkcs8_pem(LineEnding::LF) {
        Ok(pem) => Ok((*pem).clone()),
        Err(e) => Err(e.to_string()),
    }
}

/// The SPKI PEM text (LF line endings) of the public half of the RSA private
/// key whose PKCS#8 PEM text is `private_key_pem`; `None` when that text does
/// not decode to a key or the public key cannot be encoded.
pub uninterp spec fn public_key_pem_of(private_key_pem: Seq<char>) -> Option<Seq<char>>;

/// Decodes the key with `rsa::pkcs8::DecodePrivateKey::from_pkcs8_pem`, takes
/// its public half with `rsa::RsaPublicKey::from` and encodes that with
/// `rsa::pkcs8::EncodePublicKey::to_public_key_pem` (LF line endings). Each step
/// is a function of its input, so the result is named [`public_key_pem_of`].
/// A text that decodes to a key always yields its public text: encoding the
/// modulus and exponent of a decoded key has no error path but for lengths no
/// machine holds. An error comes back as its message, which is not described.
#[verifier::external_body]
fn public_key_pem_from_private_pem(private_key_pem: &str) -> (r: Result<String, String>)
    ensures
        r is Ok <==> public_key_pem_of(private_key_pem@) is Some,
        pkcs8_pem_modulus_bits(private_key_pem@) is Some ==> r is Ok,
        r matches Ok(pem) ==> public_key_pem_of(private_key_pem@) == Some(pem@),
{
    let key = match rsa::RsaPrivateKey::from_pkcs8_pem(private_key_pem) {
        Ok(key) => key,
        Err(e) => return Err(e.to_string()),
    };
    match rsa::RsaPublicKey::from(&key).to_public_key_pem(LineEnding::LF) {
        Ok(pem) => Ok(pem),
        Err(e) => Err(e.to_string()),
    }
}

/// The lower-case hexadecimal SHA-256 digest of `data`.
pub uninterp spec fn sha256_hex(data: Seq<u8>) -> Seq<char>;

/// Calls `sha256::digest` on the bytes; its result is named [`sha256_hex`].
#[verifier::external_body]
fn sha256_hex_digest(data: &[u8]) -> (r: String)
    ensures
        r@ == sha256_hex(data@),
{
    sha256::digest(data)
}

/// Standard base64 (with padding) of `data`.
pub uninterp spec fn base64_standard(data: Seq<u8>) -> Seq<char>;

/// Calls `base64::engine::general_purpose::STANDARD.encode`; its result is
/// named [`base64_standard`]. (The length overflow it checks for cannot arise
/// for a slice, which never exceeds `isize::MAX` bytes.)
#[verifier::external_body]
fn base64_encode(data: &[u8]) -> (r: String)
    ensures
        r@ == base64_standard(data@),
{
    base64::engine::general_purpose::STANDARD.encode(data)
}

/// The PKCS#1 v1.5 RSA-SHA256 signature of `message` under the private key
/// whose PKCS#8 PEM text is `private_key_pem`; `None` when that text does not
/// decode to a key or the key cannot sign.
pub uninterp spec fn pkcs1v15_sha256_signature(private_key_pem: Seq<char>, message: Seq<u8>) -> Option<Seq<u8>>;

/// Decodes the key with `rsa::pkcs8::DecodePrivateKey::from_pkcs8_pem` and signs
/// with `rsa::signature::Signer::try_sign` of `rsa::pkcs1v15::SigningKey<Sha256>`,
/// which signs without a random generator, so the signature is a function of
/// the key text and the message: it is named [`pkcs1v15_sha256_signature`].
/// An error comes back as its message, which is not described.
#[verifier::external_body]
fn sign_pkcs1v15_sha256(private_key_pem: &str, message: &[u8]) -> (r: Result<Vec<u8>, String>)
    ensures
        r is Ok <==> pkcs1v15_sha256_signature(private_key_pem@, message@) is Some,
        r matches Ok(sig) ==> pkcs1v15_sha256_signature(private_key_pem@, message@) == Some(
            sig@,
        ),
{
    let key = match rsa::RsaPrivateKey::from_pkcs8_pem(private_key_pem) {
        Ok(key) => key,
        Err(e) => return Err(e.to_string()),
    };
    match rsa::pkcs1v15::SigningKey::<rsa::sha2::Sha256>::new(key).try_sign(message) {
        Ok(sig) => Ok(sig.to_vec()),
        Err(e) => Err(e.to_string()),
    }
}

/// The current local time in RFC 2822 form, from `chrono::Local::now().to_rfc2822()`.
/// It depends on the clock: nothing is claimed of it. (`to_rfc2822` panics only
/// for years before 0 or after 9999, which the clock does not give.)
#[verifier::external_body]
fn now_rfc2822() -> (r: String) {
    chrono::Local::now().to_rfc2822()
}

/// The host and path of a URL.
pub struct UrlParts {
    pub host: Option<String>,
    pub path: String,
}

/// The host (if the URL has one) and the path of `url` as `reqwest::Url`
/// parses it; `None` when it does not parse.
pub uninterp spec fn url_host_and_path(url: Seq<char>) -> Option<(Option<Seq<char>>, Seq<char>)>;

/// The text of an optional string.
pub open spec fn option_view(s: Option<String>) -> Option<Seq<char>> {
    match s {
        Some(t) => Some(t@),
        None => None,
    }
}

/// Calls `reqwest::Url::parse` and hands out `host_str` and `path` of the
/// result; its result is named [`url_host_and_path`].
#[verifier::external_body]
fn parse_url(url: &str) -> (r: Option<UrlParts>)
    ensures
        match r {
            Some(p) => url_host_and_path(url@) == Some((option_view(p.host), p.path@)),
            None => url_host_and_path(url@) is None,
        },
{
    match reqwest::Url::parse(url) {
        Ok(u) => Some(UrlParts { host: u.host_str().map(|h| h.to_string()), path: u.path().to_string() }),
        Err(_) => None,
    }
}

/// Generates the PEM-encoded (private, public) key pair of a new account.
/// Under the test deployment (`env` is `"test"`) no key is generated and both
/// texts are empty; otherwise a fresh random RSA key with a [`BITS`]-bit
/// modulus is made and its PKCS#8 text is returned with the SPKI text of its
/// public half. The key library has no failure for this size, so the call
/// always succeeds.
pub fn generate_key_pair(env: Option<&str>) -> (r: Result<(String, String), ServiceError>)
    ensures
        (env matches Some(e) && e@ == TEST_ENV@) ==> (r matches Ok((private_key, public_key))
            && private_key@ == Seq::<char>::empty() && public_key@ == Seq::<char>::empty()),
        !(env matches Some(e) && e@ == TEST_ENV@) ==> (r matches Ok((private_key, public_key))
            ==> pkcs8_pem_modulus_bits(private_key@) == Some(BITS as nat)
            && public_key_pem_of(private_key@) == Some(public_key@)),
        r matches Err(e) ==> e is KeyError,
        r is Ok,
{
    if let Some(e) = env {
        let e = String::from_str(e);
        if e == String::from_str(TEST_ENV) {
            return Ok((String::new(), String::new()));
        }
    }
    let private_key_pem = match new_rsa_private_key_pem(BITS) {
        Ok(pem) => pem,
        Err(m) => return Err(ServiceError::KeyError(m)),
    };
    let public_key_pem = match public_key_pem_from_private_pem(private_key_pem.as_str()) {
        Ok(pem) => pem,
        Err(m) => return Err(ServiceError::KeyError(m)),
    };
    Ok((private_key_pem, public_key_pem))
}

/// The `Digest` value of a payload: standard base64 of the text of its
/// hexadecimal SHA-256 digest.
pub open spec fn payload_digest(payload: Seq<char>) -> Seq<char> {
    base64_standard(encode_utf8(sha256_hex(encode_utf8(payload))))
}

/// The text that is signed: the request target, host, date and digest lines.
pub open spec fn signing_string(
    path: Seq<char>,
    host: Seq<char>,
    date: Seq<char>,
    digest: Seq<char>,
) -> Seq<char> {
    "(request-target): post "@ + path + "\n"@ + "host: "@ + host + "\n"@ + "date: "@ + date + "\n"@
        + "digest: SHA-256="@ + digest
}

/// The value of the `Signature` header for a base64 signature.
pub open spec fn signature_header_value(signature: Seq<char>) -> Seq<char> {
    "keyId=\"https://ikanago.dev/users/test\""@ + ","@ + "algorithm=\"rsa-sha256\""@ + ","@
        + "headers=\"(request-target) host date digest\""@ + ","@ + "signature=\""@ + signature
        + "\""@
}

/// The five headers of a signed post, by lower-case name.
pub open spec fn signed_headers(
    host: Seq<char>,
    date: Seq<char>,
    digest: Seq<char>,
    signature: Seq<char>,
) -> Seq<(Seq<char>, Seq<char>)> {
    seq![
        ("host"@, host),
        ("date"@, date),
        ("content-type"@, "application/activity+json"@),
        ("digest"@, "SHA-256="@ + digest),
        ("signature"@, signature_header_value(signature)),
    ]
}

/// What signing `payload` for `url` with `private_key` at `date` yields: the
/// signed headers when the URL has a host and the key signs, `KeyError` when
/// the key does not, and `InvalidActivityPubRequest("Invalid URL: <url>")` when
/// the URL does not parse or has no host.
pub open spec fn is_signed_headers_result(
    payload: Seq<char>,
    url: Seq<char>,
    private_key: Seq<char>,
    date: Seq<char>,
    r: Result<Vec<(String, String)>, ServiceError>,
) -> bool {
    match url_host_and_path(url) {
        Some((Some(host), path)) => {
            let digest = payload_digest(payload);
            match pkcs1v15_sha256_signature(
                private_key,
                encode_utf8(signing_string(path, host, date, digest)),
            ) {
                Some(sig) => r matches Ok(h) && h.deep_view() == signed_headers(
                    host,
                    date,
                    digest,
                    base64_standard(sig),
                ),
                None => r matches Err(e) && e is KeyError,
            }
        },
        _ => r matches Err(e) && e matches ServiceError::InvalidActivityPubRequest(m) && m@
            == "Invalid URL: "@ + url,
    }
}

/// The signed text is the request target followed by `name: value` lines for
/// the `host`, `date` and `digest` headers exactly as they are sent, so a
/// receiver that rebuilds it from the sent headers checks what was signed.
pub proof fn lemma_signed_lines_are_sent_headers(
    path: Seq<char>,
    host: Seq<char>,
    date: Seq<char>,
    digest: Seq<char>,
    signature: Seq<char>,
)
    ensures
        ({
            let h = signed_headers(host, date, digest, signature);
            signing_string(path, host, date, digest) == "(request-target): post "@ + path + "\n"@
                + h[0].0 + ": "@ + h[0].1 + "\n"@ + h[1].0 + ": "@ + h[1].1 + "\n"@ + h[3].0
                + ": "@ + h[3].1
        }),
{
    reveal_strlit("host: ");
    reveal_strlit("host");
    reveal_strlit(": ");
    reveal_strlit("date: ");
    reveal_strlit("date");
    reveal_strlit("digest: SHA-256=");
    reveal_strlit("digest");
    reveal_strlit("SHA-256=");
    let h = signed_headers(host, date, digest, signature);
    assert("host: "@ =~= "host"@ + ": "@);
    assert("date: "@ =~= "date"@ + ": "@);
    assert("digest: SHA-256="@ =~= "digest"@ + ": "@ + "SHA-256="@);
    assert(signing_string(path, host, date, digest) =~= "(request-target): post "@ + path + "\n"@
        + h[0].0 + ": "@ + h[0].1 + "\n"@ + h[1].0 + ": "@ + h[1].1 + "\n"@ + h[3].0 + ": "@
        + h[3].1);
}

/// Builds the signing string of [`signing_string`].
pub fn build_signing_string(path: &str, host: &str, date: &str, digest: &str) -> (s: String)
    ensures
        s@ == signing_string(path@, host@, date@, digest@),
{
    let mut s = String::from_str("(request-target): post ");
    s.append(path);
    s.append("\n");
    s.append("host: ");
    s.append(host);
    s.append("\n");
    s.append("date: ");
    s.append(date);
    s.append("\n");
    s.append("digest: SHA-256=");
    s.append(digest);
    s
}

/// Builds the headers of [`signed_headers`].
pub fn build_signed_headers(host: &str, date: &str, digest: &str, signature: &str) -> (h: Vec<
    (String, String),
>)
    ensures
        h.deep_view() == signed_headers(host@, date@, digest@, signature@),
{
    let mut sig = String::from_str("keyId=\"https://ikanago.dev/users/test\"");
    sig.append(",");
    sig.append("algorithm=\"rsa-sha256\"");
    sig.append(",");
    sig.append("headers=\"(request-target) host date digest\"");
    sig.append(",");
    sig.append("signature=\"");
    sig.append(signature);
    sig.append("\"");
    let mut h: Vec<(String, String)> = Vec::new();
    h.push((String::from_str("host"), String::from_str(host)));
    h.push((String::from_str("date"), String::from_str(date)));
    h.push((String::from_str("content-type"), String::from_str("application/activity+json")));
    h.push((String::from_str("digest"), String::from_str("SHA-256=").concat(digest)));
    h.push((String::from_str("signature"), sig));
    assert(h.deep_view() =~= signed_headers(host@, date@, digest@, signature@));
    h
}

/// The headers that sign a post of `payload` to `url` with the PEM private key
/// `private_key`, dated `date` (see [`is_signed_headers_result`]). A URL
/// without a host, and a key that does not decode or cannot sign, are
/// reported as errors rather than stopping the program.
pub fn sign_headers_at(payload: &str, url: &str, private_key: &str, date: &str) -> (r: Result<
    Vec<(String, String)>,
    ServiceError,
>)
    ensures
        is_signed_headers_result(payload@, url@, private_key@, date@, r),
{
    let parts = parse_url(url);
    let (host, path) = match parts {
        Some(UrlParts { host: Some(host), path }) => (host, path),
        _ => {
            return Err(
                ServiceError::InvalidActivityPubRequest(
                    String::from_str("Invalid URL: ").concat(url),
                ),
            );
        },
    };
    let hex = sha256_hex_digest(payload.as_bytes());
    let digest = base64_encode(hex.as_str().as_bytes());
    let signed = build_signing_string(path.as_str(), host.as_str(), date, digest.as_str());
    let sig = match sign_pkcs1v15_sha256(private_key, signed.as_str().as_bytes()) {
        Ok(sig) => sig,
        Err(m) => return Err(ServiceError::KeyError(m)),
    };
    let sig_b64 = base64_encode(sig.as_slice());
    Ok(build_signed_headers(host.as_str(), date, digest.as_str(), sig_b64.as_str()))
}

/// The headers that sign a post of `payload` to `url` with the PEM private key
/// `private_key`, dated with the current local time.
pub fn sign_headers(payload: &str, url: &str, private_key: &str) -> (r: Result<
    Vec<(String, String)>,
    ServiceError,
>)
    ensures
        exists|date: Seq<char>| is_signed_headers_result(payload@, url@, private_key@, date, r),
{
    let now = now_rfc2822();
    let r = sign_headers_at(payload, url, private_key, now.as_str());
    assert(is_signed_headers_result(payload@, url@, private_key@, now@, r));
    r
}

} // verus!
