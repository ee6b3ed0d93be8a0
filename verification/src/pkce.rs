//! Proof Key for Code Exchange, and the address at which a user authorizes
//! the client.
//!
//! The verifier is 64 random letters and digits. The challenge is the SHA-256
//! digest of the verifier, written in the URL-safe base64 alphabet without
//! padding. Random numbers, the digest, base64 and percent-encoding come from
//! outside crates through trusted functions; the rest is verified.

use vstd::prelude::*;
use vstd::string::StringExecFns;
use vstd::utf8::encode_utf8;
use base64::Engine;
use rand::Rng;
use sha2::Digest;
use crate::oauth::{OAuthConfig, OAuthConfigView, OAuthManager};

verus! {

/// The number of characters of a verifier.
pub const VERIFIER_LEN: usize = 64;

/// Whether a byte is an ASCII letter or digit.
pub open spec fn is_alphanumeric(b: u8) -> bool {
    ||| 0x30 <= b <= 0x39
    ||| 0x41 <= b <= 0x5a
    ||| 0x61 <= b <= 0x7a
}

/// Whether a text can be a verifier: 64 characters, each an ASCII letter or
/// digit.
pub open spec fn is_verifier(s: Seq<char>) -> bool {
    &&& s.len() == VERIFIER_LEN
    &&& forall|i: int| 0 <= i < s.len() ==> (#[trigger] s[i]) as u32 <= 0x7f && is_alphanumeric(
        s[i] as u8,
    )
}

/// The SHA-256 digest of a sequence of bytes.
pub uninterp spec fn sha256_digest(data: Seq<u8>) -> Seq<u8>;

/// A sequence of bytes in the URL-safe base64 alphabet, without padding.
pub uninterp spec fn base64url_unpadded(data: Seq<u8>) -> Seq<char>;

/// The challenge that belongs to a verifier.
pub open spec fn challenge_of(verifier: Seq<char>) -> Seq<char> {
    base64url_unpadded(sha256_digest(encode_utf8(verifier)))
}

/// Whether a byte stands for itself in a percent-encoded text.
pub open spec fn is_unreserved(b: u8) -> bool {
    ||| is_alphanumeric(b)
    ||| b == 0x2d
    ||| b == 0x2e
    ||| b == 0x5f
    ||| b == 0x7e
}

/// The upper-case hexadecimal digit of a value below 16.
pub open spec fn hex_digit(d: int) -> char {
    if d < 10 {
        (0x30 + d) as u8 as char
    } else {
        (0x41 - 10 + d) as u8 as char
    }
}

/// One byte, percent-encoded.
pub open spec fn encoded_byte(b: u8) -> Seq<char> {
    if is_unreserved(b) {
        seq![b as char]
    } else {
        seq!['%', hex_digit(b as int / 16), hex_digit(b as int % 16)]
    }
}

/// A sequence of bytes, percent-encoded: every byte but letters, digits and
/// `-`, `.`, `_`, `~` becomes `%` and its two hexadecimal digits.
pub open spec fn percent_encoded(bytes: Seq<u8>) -> Seq<char>
    decreases bytes.len(),
{
    if bytes.len() == 0 {
        Seq::empty()
    } else {
        percent_encoded(bytes.drop_last()) + encoded_byte(bytes.last())
    }
}

/// A text, percent-encoded byte by byte in its UTF-8 form.
pub open spec fn url_encoded(text: Seq<char>) -> Seq<char> {
    percent_encoded(encode_utf8(text))
}

/// `Rng::sample` of `rand::distributions::Alphanumeric` on the generator that
/// `rand::thread_rng` gives. Trusted: the sample is an ASCII letter or digit.
/// Nothing else is claimed of it.
#[verifier::external_body]
fn random_alphanumeric() -> (b: u8)
    ensures
        is_alphanumeric(b),
{
    rand::thread_rng().sample(rand::distributions::Alphanumeric)
}

/// `Sha256::digest`. Trusted: the result is the SHA-256 digest of the data,
/// which has 32 bytes.
#[verifier::external_body]
fn sha256(data: &[u8]) -> (r: Vec<u8>)
    ensures
        r@ == sha256_digest(data@),
        r@.len() == 32,
{
    sha2::Sha256::digest(data).to_vec()
}

/// `Engine::encode` of `URL_SAFE_NO_PAD`. Trusted: the result is the data in
/// the URL-safe base64 alphabet without padding. The length is bounded so
/// that the length of the result can be computed.
#[verifier::external_body]
fn base64url(data: &[u8]) -> (r: String)
    requires
        data@.len() <= usize::MAX / 2,
    ensures
        r@ == base64url_unpadded(data@),
{
    base64::engine::general_purpose::URL_SAFE_NO_PAD.encode(data)
}

/// `urlencoding::encode`. Trusted: the result is the UTF-8 form of the text
/// with every byte percent-encoded but letters, digits and `-`, `.`, `_`, `~`;
/// the hexadecimal digits are upper case.
#[verifier::external_body]
fn url_encode(text: &str) -> (r: String)
    ensures
        r@ == url_encoded(text@),
{
    urlencoding::encode(text).into_owned()
}

/// A fresh verifier.
pub fn random_verifier() -> (v: String)
    ensures
        is_verifier(v@),
{
    let mut v = String::new();
    let mut i: usize = 0;
    while i < VERIFIER_LEN
        invariant
            i <= VERIFIER_LEN,
            v@.len() == i,
            forall|j: int| 0 <= j < v@.len() ==> (#[trigger] v@[j]) as u32 <= 0x7f
                && is_alphanumeric(v@[j] as u8),
        decreases VERIFIER_LEN - i,
    {
        let b = random_alphanumeric();
        let c = b as char;
        assert(c as u32 == b as u32);
        assert(c as u8 == b);
        v.push(c);
        i = i + 1;
    }
    v
}

/// The challenge that belongs to a verifier.
pub fn pkce_challenge(verifier: &str) -> (c: String)
    ensures
        c@ == challenge_of(verifier@),
{
    let digest = sha256(verifier.as_bytes());
    base64url(digest.as_slice())
}

/// A fresh verifier and the challenge that belongs to it.
pub fn generate_pkce() -> (r: (String, String))
    ensures
        is_verifier(r.0@),
        r.1@ == challenge_of(r.0@),
{
    let verifier = random_verifier();
    let challenge = pkce_challenge(verifier.as_str());
    (verifier, challenge)
}

/// The address at which a user authorizes a client, for a given challenge.
pub open spec fn auth_url_of(config: OAuthConfigView, challenge: Seq<char>) -> Seq<char> {
    "https://accounts.google.com/o/oauth2/v2/auth?client_id="@ + url_encoded(config.client_id)
        + "&redirect_uri="@ + url_encoded(config.redirect_uri) + "&response_type=code&scope="@
        + url_encoded(config.scope) + "&code_challenge="@ + url_encoded(challenge)
        + "&code_challenge_method=S256&access_type=offline&prompt=consent"@
}

/// The address at which a user authorizes the client, for a given challenge.
pub fn auth_url(config: &OAuthConfig, challenge: &str) -> (url: String)
    ensures
        url@ == auth_url_of(config@, challenge@),
{
    let mut url = String::from_str("https://accounts.google.com/o/oauth2/v2/auth?client_id=");
    url.append(url_encode(config.client_id.as_str()).as_str());
    url.append("&redirect_uri=");
    url.append(url_encode(config.redirect_uri.as_str()).as_str());
    url.append("&response_type=code&scope=");
    url.append(url_encode(config.scope.as_str()).as_str());
    url.append("&code_challenge=");
    url.append(url_encode(challenge).as_str());
    url.append("&code_challenge_method=S256&access_type=offline&prompt=consent");
    url
}

/// The address at which a user authorizes the client, and the fresh verifier
/// whose challenge the address carries.
pub fn generate_auth_url(config: &OAuthConfig) -> (r: (String, String))
    ensures
        is_verifier(r.1@),
        r.0@ == auth_url_of(config@, challenge_of(r.1@)),
{
    let (verifier, challenge) = generate_pkce();
    let url = auth_url(config, challenge.as_str());
    (url, verifier)
}

impl OAuthManager {
    /// The address at which a user authorizes the client of this manager, and
    /// the fresh verifier whose challenge the address carries.
    pub fn generate_auth_url(&self) -> (r: (String, String))
        ensures
            is_verifier(r.1@),
            r.0@ == auth_url_of(self@.config, challenge_of(r.1@)),
    {
        let config = self.config();
        generate_auth_url(&config)
    }
}

} // verus!
