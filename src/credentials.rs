use vstd::prelude::*;
use vstd::utf8::encode_utf8;

use argon2::password_hash::SaltString;
use argon2::{Argon2, PasswordHash, PasswordHasher, PasswordVerifier};
use base64::Engine;
use rand::RngCore;
use sha2::Digest;

use crate::codec::{hex_lower, is_hex_lower_char, lemma_hex_lower, is_url_safe_char, lemma_url_safe_no_pad, url_safe_len, url_safe_no_pad};
use crate::validation::{byte_len, is_white_space, trim_end_chars, trim_start_chars, trimmed};

verus! {

/// Number of random bytes behind each opaque token.
pub const TOKEN_BYTES: usize = 32;

/// Number of characters of an opaque token: 32 bytes in unpadded base64.
pub const TOKEN_CHARS: usize = 43;

/// Number of characters of a generated temporary password.
pub const TEMP_PASSWORD_CHARS: usize = 20;

/// Whether `password` verifies against the self-describing Argon2 hash string `phc`.
pub uninterp spec fn password_matches(password: Seq<char>, phc: Seq<char>) -> bool;

/// The SHA-256 digest of `data`.
pub uninterp spec fn sha256_of(data: Seq<u8>) -> Seq<u8>;

/// Number of characters of a token digest: 32 bytes in hexadecimal.
pub const DIGEST_CHARS: usize = 64;

/// The lookup key stored for a bearer secret: SHA-256 over its UTF-8 bytes, in lowercase hex.
pub open spec fn token_digest(token: Seq<char>) -> Seq<char> {
    hex_lower(sha256_of(encode_utf8(token)))
}

/// What every opaque token is: 32 bytes in URL-safe base64 without padding.
pub open spec fn is_opaque_token(t: Seq<char>) -> bool {
    exists|b: Seq<u8>| b.len() == TOKEN_BYTES && t == url_safe_no_pad(b)
}

/// Every character of `s` is in the URL-safe base64 alphabet.
pub open spec fn all_url_safe(s: Seq<char>) -> bool {
    forall|i: int| 0 <= i < s.len() ==> is_url_safe_char(#[trigger] s[i])
}

/// Relies on argon2's `PasswordHash::new` and `Argon2::verify_password`: the
/// string is parsed, a malformed one fails (among them any string that does
/// not start with `$`), and the password is checked with
/// the algorithm, parameters and salt that the string names.
#[verifier::external_body]
pub fn verify_password(password: &str, stored_hash: &str) -> (r: bool)
    ensures
        r == password_matches(password@, stored_hash@),
        stored_hash@.len() == 0 || stored_hash@[0] != '$' ==> !r,
{
    match PasswordHash::new(stored_hash) {
        Ok(parsed) => Argon2::default().verify_password(password.as_bytes(), &parsed).is_ok(),
        Err(_) => false,
    }
}

/// The longest password, in bytes, that Argon2 accepts.
pub const MAX_PASSWORD_BYTES: u64 = 0xFFFF_FFFF;

/// Relies on argon2's `Argon2::hash_password` (Argon2id, default cost) with a
/// fresh salt from `SaltString::generate`: the encoded hash it returns verifies
/// against the same password, and with a generated salt the only refusal is a
/// password longer than `MAX_PWD_LEN` (0xFFFF_FFFF bytes).
#[verifier::external_body]
pub fn hash_password(password: &str) -> (r: Result<String, String>)
    ensures
        r is Ok ==> password_matches(password@, r->Ok_0@),
        byte_len(password@) <= MAX_PASSWORD_BYTES ==> r is Ok,
{
    let salt = SaltString::generate(&mut rand::rngs::OsRng);
    match Argon2::default().hash_password(password.as_bytes(), &salt) {
        Ok(phc) => Ok(phc.to_string()),
        Err(e) => Err(format!("argon2 hash error: {e}")),
    }
}

/// Relies on rand's `OsRng` (`RngCore::fill_bytes`): 32 bytes from the
/// operating system's CSPRNG, which panics only if that source fails.
#[verifier::external_body]
fn random_token_bytes() -> (r: Vec<u8>)
    ensures
        r@.len() == TOKEN_BYTES,
{
    let mut bytes = vec![0u8; TOKEN_BYTES];
    rand::rngs::OsRng.fill_bytes(&mut bytes);
    bytes
}

/// Relies on base64's `URL_SAFE_NO_PAD` engine (`Engine::encode`).
#[verifier::external_body]
fn encode_url_safe_no_pad(data: &[u8]) -> (r: String)
    ensures
        r@ == url_safe_no_pad(data@),
{
    base64::engine::general_purpose::URL_SAFE_NO_PAD.encode(data)
}

/// Relies on sha2's `Sha256::digest`: a 32-byte digest.
#[verifier::external_body]
fn sha256(data: &[u8]) -> (r: Vec<u8>)
    ensures
        r@ == sha256_of(data@),
        r@.len() == 32,
{
    sha2::Sha256::digest(data).to_vec()
}

/// Relies on `hex::encode`: two lowercase digits per byte, high nibble first.
#[verifier::external_body]
fn hex_encode(data: &[u8]) -> (r: String)
    ensures
        r@ == hex_lower(data@),
{
    hex::encode(data)
}

/// A fresh opaque bearer secret: 32 random bytes, URL-safe base64 without padding.
pub fn generate_access_token() -> (r: String)
    ensures
        is_opaque_token(r@),
        r@.len() == TOKEN_CHARS,
        all_url_safe(r@),
{
    let bytes = random_token_bytes();
    let token = encode_url_safe_no_pad(bytes.as_slice());
    proof {
        lemma_url_safe_no_pad(bytes@);
        assert(url_safe_len(32) == 43);
    }
    token
}

/// The digest under which a bearer secret is stored and looked up.
pub fn hash_access_token(token: &str) -> (r: String)
    ensures
        r@ == token_digest(token@),
        r@.len() == DIGEST_CHARS,
        forall|i: int| 0 <= i < r@.len() ==> is_hex_lower_char(#[trigger] r@[i]),
{
    let digest = sha256(token.as_bytes());
    let r = hex_encode(digest.as_slice());
    proof {
        lemma_hex_lower(digest@);
    }
    r
}

/// A temporary password: the first twenty characters of a fresh opaque token.
pub fn generate_temp_password() -> (r: String)
    ensures
        r@.len() == TEMP_PASSWORD_CHARS,
        all_url_safe(r@),
        exists|t: Seq<char>| is_opaque_token(t) && r@ == t.subrange(0, TEMP_PASSWORD_CHARS as int),
{
    let token = generate_access_token();
    let prefix = token.as_str().substring_char(0, TEMP_PASSWORD_CHARS);
    String::from_str(prefix)
}

/// Text in the URL-safe alphabet has no white space to trim, and one byte per character.
pub proof fn lemma_url_safe_text(s: Seq<char>)
    requires
        all_url_safe(s),
    ensures
        trimmed(s) == s,
        byte_len(s) == s.len(),
{
    if s.len() > 0 {
        assert(is_url_safe_char(s[0]) && !is_white_space(s[0]));
        assert(is_url_safe_char(s.last()) && !is_white_space(s.last()));
    }
    assert(trim_start_chars(s) == s);
    assert(trim_end_chars(s) == s);
    assert(vstd::utf8::is_ascii_chars(s)) by {
        assert forall|i: int| 0 <= i < s.len() implies '\0' <= #[trigger] s[i] <= '\u{7f}' by {
            assert(is_url_safe_char(s[i]));
        }
    }
    vstd::utf8::is_ascii_chars_encode_utf8(s);
}

} // verus!
