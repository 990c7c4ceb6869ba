//! Trusted boundary to the cryptography provider.
//!
//! Every function here wraps exactly one call into the `openssl` crate and
//! states, as a believed contract, only what that crate's source and
//! documentation show.  Results that are deterministic functions of the
//! arguments but far too large to write down (the derived key, the AEAD
//! ciphertext and tag, the base64 transform) are given opaque names as
//! bodiless spec functions; the rest of the library reasons purely in terms
//! of those names.

use vstd::prelude::*;

verus! {

/// The provider's error type, carried through opaquely.
#[verifier::external_type_specification]
#[verifier::external_body]
pub struct ExErrorStack(openssl::error::ErrorStack);

/// The key that PBKDF2-HMAC-SHA512 derives from a secret and a salt with the
/// given iteration count and output length.  Deterministic in its arguments.
pub uninterp spec fn kdf_bytes(secret: Seq<u8>, salt: Seq<u8>, iterations: int, key_len: int) -> Seq<u8>;

/// The AES-256-GCM ciphertext for a key, a nonce and a plaintext (no
/// associated data).  Deterministic in its arguments.
pub uninterp spec fn aead_ct(key: Seq<u8>, iv: Seq<u8>, plain: Seq<u8>) -> Seq<u8>;

/// The AES-256-GCM authentication tag for a key, a nonce and a plaintext (no
/// associated data).  Deterministic in its arguments.
pub uninterp spec fn aead_tag(key: Seq<u8>, iv: Seq<u8>, plain: Seq<u8>) -> Seq<u8>;

/// What authenticated AES-256-GCM decryption yields for a key, a nonce, a
/// ciphertext and a tag: the recovered plaintext when the tag verifies,
/// `None` when it does not.  Deterministic in its arguments.
pub uninterp spec fn aead_open(key: Seq<u8>, iv: Seq<u8>, ct: Seq<u8>, tag: Seq<u8>) -> Option<Seq<u8>>;

/// The base64 encoding of a byte sequence.  Deterministic in its argument.
pub uninterp spec fn b64_of(bytes: Seq<u8>) -> Seq<char>;

/// What base64 decoding yields for a character sequence: the decoded bytes,
/// or `None` when the text is not well-formed base64.  Deterministic in its
/// argument.
pub uninterp spec fn b64_decoded(text: Seq<char>) -> Option<Seq<u8>>;

/// Relies on openssl::rand::rand_bytes: fills a buffer with cryptographically
/// strong random bytes.  Nothing can be promised about the values; the length
/// bound keeps clear of the provider's internal size assertion.
#[verifier::external_body]
pub(crate) fn random_bytes(n: usize) -> (r: Result<Vec<u8>, openssl::error::ErrorStack>)
    requires
        n <= 0x7fff_0000,
    ensures
        r matches Ok(buf) ==> buf@.len() == n,
{
    let mut buf = vec![0u8; n];
    match openssl::rand::rand_bytes(&mut buf) {
        Ok(()) => Ok(buf),
        Err(e) => Err(e),
    }
}

/// Relies on openssl::pkcs5::pbkdf2_hmac with SHA-512: derives `key_len`
/// bytes from a secret and a salt, deterministically in all four arguments.
/// The length bounds keep clear of the provider's conversions to C integers,
/// which panic on overflow.
#[verifier::external_body]
pub(crate) fn pbkdf2_sha512(
    secret: &[u8],
    salt: &[u8],
    iterations: usize,
    key_len: usize,
) -> (r: Result<Vec<u8>, openssl::error::ErrorStack>)
    requires
        secret@.len() <= 0x7fff_0000,
        salt@.len() <= 0x7fff_0000,
        iterations <= 0x7fff_0000,
        key_len <= 0x7fff_0000,
    ensures
        r matches Ok(key) ==> key@ == kdf_bytes(secret@, salt@, iterations as int, key_len as int)
            && key@.len() == key_len,
{
    let mut key = vec![0u8; key_len];
    let digest = openssl::hash::MessageDigest::sha512();
    match openssl::pkcs5::pbkdf2_hmac(secret, salt, iterations, digest, &mut key) {
        Ok(()) => Ok(key),
        Err(e) => Err(e),
    }
}

/// Relies on openssl::symm::encrypt_aead with AES-256-GCM and no associated
/// data: returns the ciphertext (as long as the plaintext) and fills a
/// 16-byte tag, deterministically in key, nonce and plaintext; decrypting
/// the pair with the same key and nonce recovers the plaintext.
#[verifier::external_body]
pub(crate) fn aead_seal(
    key: &[u8],
    iv: &[u8],
    plain: &[u8],
) -> (r: Result<(Vec<u8>, Vec<u8>), openssl::error::ErrorStack>)
    requires
        key@.len() == 32,
        iv@.len() == 16,
        plain@.len() <= 0x7fff_0000,
    ensures
        r matches Ok(sealed) ==> {
            &&& sealed.0@ == aead_ct(key@, iv@, plain@)
            &&& sealed.1@ == aead_tag(key@, iv@, plain@)
            &&& sealed.0@.len() == plain@.len()
            &&& sealed.1@.len() == 16
            &&& aead_open(key@, iv@, sealed.0@, sealed.1@) == Some(plain@)
        },
{
    let cipher = openssl::symm::Cipher::aes_256_gcm();
    let mut tag = vec![0u8; 16];
    match openssl::symm::encrypt_aead(cipher, key, Some(iv), &[], plain, &mut tag) {
        Ok(ct) => Ok((ct, tag)),
        Err(e) => Err(e),
    }
}

/// Relies on openssl::symm::decrypt_aead with AES-256-GCM and no associated
/// data: succeeds exactly when the tag authenticates the ciphertext under
/// the key and nonce, and then returns the recovered plaintext.
#[verifier::external_body]
pub(crate) fn aead_unseal(
    key: &[u8],
    iv: &[u8],
    ct: &[u8],
    tag: &[u8],
) -> (r: Result<Vec<u8>, openssl::error::ErrorStack>)
    requires
        key@.len() == 32,
        iv@.len() == 16,
        tag@.len() == 16,
        ct@.len() <= 0x7fff_0000,
    ensures
        r is Ok <==> aead_open(key@, iv@, ct@, tag@) is Some,
        r matches Ok(plain) ==> aead_open(key@, iv@, ct@, tag@) == Some(plain@),
{
    let cipher = openssl::symm::Cipher::aes_256_gcm();
    openssl::symm::decrypt_aead(cipher, key, Some(iv), &[], ct, tag)
}

/// Relies on openssl::base64::encode_block: base64-encodes a byte slice,
/// deterministically, into ASCII text of exactly four characters for every
/// started group of three bytes; decoding the result recovers the input.
/// The length bound keeps clear of the provider's size assertion, which
/// panics.
#[verifier::external_body]
pub(crate) fn base64_encode(bytes: &[u8]) -> (r: String)
    requires
        bytes@.len() <= 0x5fff_0000,
    ensures
        r@ == b64_of(bytes@),
        b64_decoded(r@) == Some(bytes@),
        r@.len() == 4 * ((bytes@.len() + 2) / 3),
        vstd::utf8::encode_utf8(r@).len() == r@.len(),
{
    openssl::base64::encode_block(bytes)
}

/// Relies on openssl::base64::decode_block: decodes base64 text,
/// deterministically, failing exactly on text it does not accept.  The
/// length bound (on the text's UTF-8 width) keeps clear of the provider's
/// size assertion, which panics.
#[verifier::external_body]
pub(crate) fn base64_decode(text: &str) -> (r: Result<Vec<u8>, openssl::error::ErrorStack>)
    requires
        vstd::utf8::encode_utf8(text@).len() <= 0x7fff_0000,
    ensures
        r is Ok <==> b64_decoded(text@) is Some,
        r matches Ok(bytes) ==> b64_decoded(text@) == Some(bytes@),
{
    openssl::base64::decode_block(text)
}

/// Relies on std's String::from_utf8_lossy: on bytes that are valid UTF-8 it
/// returns exactly the characters they encode (stated through vstd's own
/// UTF-8 model); on other bytes it substitutes replacement characters.
#[verifier::external_body]
pub(crate) fn utf8_lossy_string(bytes: &Vec<u8>) -> (r: String)
    ensures
        vstd::utf8::valid_utf8(bytes@) ==> r@ == vstd::utf8::decode_utf8(bytes@),
{
    String::from_utf8_lossy(bytes).into_owned()
}

} // verus!
