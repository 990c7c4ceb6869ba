//! Field-level envelope encryption.
//!
//! A sensitive value is stored as a single base64 blob laid out as
//! `salt(64) || iv(16) || tag(16) || ciphertext`.  The key is derived from a
//! configured secret and the fresh random salt by a slow, iterated KDF
//! (PBKDF2-HMAC-SHA512, 10000 rounds), and the value is sealed with an
//! authenticated cipher (AES-256-GCM), so a blob can only be opened by
//! someone holding the same secret, and any tampering is detected.
//!
//! Whether encryption is available is decided once, when the configuration
//! is read: `EncryptionMode::Enabled` carries the secret,
//! `EncryptionMode::Disabled` is an explicit opt-in under which stored
//! fields pass through as plain text.

use vstd::prelude::*;

use crate::crypto::aead_open;
use crate::crypto::aead_seal;
use crate::crypto::aead_unseal;
use crate::crypto::b64_decoded;
use crate::crypto::base64_decode;
use crate::crypto::base64_encode;
use crate::crypto::kdf_bytes;
use crate::crypto::pbkdf2_sha512;
use crate::crypto::random_bytes;
use crate::crypto::utf8_lossy_string;
use crate::errors::Error;
use vstd::slice::slice_subrange;
use vstd::string::StringExecFns;
use vstd::string::StringSliceAdditionalSpecFns;
use vstd::utf8::decode_utf8;
use vstd::utf8::encode_utf8;
use vstd::utf8::valid_utf8;

verus! {

/// Width of the random salt at the head of a blob.
pub const SALT_LEN: usize = 64;

/// Width of the random initialization vector.
pub const IV_LEN: usize = 16;

/// Width of the authentication tag.
pub const TAG_LEN: usize = 16;

/// Width of the fixed header `salt || iv || tag`; a shorter blob cannot be
/// authentic.
pub const HEADER_LEN: usize = SALT_LEN + IV_LEN + TAG_LEN;

/// Rounds of the key-derivation function.
pub const KDF_ITERATIONS: usize = 10000;

/// Width of the derived cipher key (256 bits).
pub const KEY_LEN: usize = 32;

/// Largest plaintext, in bytes, a single sealing call accepts.
pub const MAX_PLAIN_LEN: usize = 0x3fff_0000;

/// Largest blob, in UTF-8 bytes, a single opening call accepts.
pub const MAX_BLOB_LEN: usize = 0x7fff_0000;

/// Largest decoded blob, in bytes, the provider takes in one call.
pub const MAX_SEALED_LEN: usize = 0x7fff_0000;

/// Whether field encryption is configured, fixed once at startup.  The
/// secret is the KDF input; absence of a secret is an explicit, opted-in
/// plain-text mode, never a silent fallback.
pub enum EncryptionMode {
    Enabled(Vec<u8>),
    Disabled,
}

impl EncryptionMode {
    /// Valid configurations keep the secret below the provider's size limit.
    pub open spec fn wf(&self) -> bool {
        self matches EncryptionMode::Enabled(secret) ==> secret@.len() <= 0x7fff_0000
    }
}

/// What opening a blob under `secret` yields: the plaintext bytes when the
/// blob base64-decodes, carries the full fixed header, fits the provider's
/// single-call limit, and its tag authenticates under the key re-derived
/// from the embedded salt; `None` otherwise.
pub open spec fn plain_of(secret: Seq<u8>, blob: Seq<char>) -> Option<Seq<u8>> {
    match b64_decoded(blob) {
        Option::Some(bytes) => {
            if HEADER_LEN <= bytes.len() <= MAX_SEALED_LEN {
                let salt = bytes.subrange(0, SALT_LEN as int);
                let iv = bytes.subrange(SALT_LEN as int, (SALT_LEN + IV_LEN) as int);
                let tag = bytes.subrange((SALT_LEN + IV_LEN) as int, HEADER_LEN as int);
                let ct = bytes.subrange(HEADER_LEN as int, bytes.len() as int);
                aead_open(
                    kdf_bytes(secret, salt, KDF_ITERATIONS as int, KEY_LEN as int),
                    iv,
                    ct,
                    tag,
                )
            } else {
                Option::None
            }
        },
        Option::None => Option::None,
    }
}

/// Round trip: a blob that opens under `secret` to the encoding of `data`
/// decrypts to exactly `data` — the decoded plaintext is valid UTF-8 and
/// reads back as the original characters.
pub proof fn lemma_cipher_round_trip(secret: Seq<u8>, data: Seq<char>, blob: Seq<char>)
    requires
        plain_of(secret, blob) == Some(encode_utf8(data)),
    ensures
        plain_of(secret, blob) matches Some(pt) && valid_utf8(pt) && decode_utf8(pt) == data,
{
    vstd::utf8::encode_utf8_valid_utf8(data);
    vstd::utf8::encode_utf8_decode_utf8(data);
}

/// When a stored field text stands for a plain value under the configured
/// mode: with encryption enabled it is a blob that opens to exactly that
/// value's encoding; with encryption disabled it is the value itself.
pub open spec fn protects(mode: EncryptionMode, stored: Seq<char>, value: Seq<char>) -> bool {
    match mode {
        EncryptionMode::Enabled(secret) => plain_of(secret@, stored) == Some(encode_utf8(value)),
        EncryptionMode::Disabled => stored == value,
    }
}

/// Appends `src` to `dst`.
fn append_bytes(dst: &mut Vec<u8>, src: &[u8])
    requires
        old(dst)@.len() + src@.len() <= usize::MAX,
    ensures
        final(dst)@ == old(dst)@ + src@,
{
    let mut i: usize = 0;
    while i < src.len()
        invariant
            i <= src@.len(),
            dst@.len() == old(dst)@.len() + i,
            old(dst)@.len() + src@.len() <= usize::MAX,
            dst@ == old(dst)@ + src@.subrange(0, i as int),
        decreases src@.len() - i,
    {
        let b = *vstd::slice::slice_index_get(src, i);
        dst.push(b);
        i = i + 1;
        proof {
            assert(dst@ == old(dst)@ + src@.subrange(0, i as int));
        }
    }
    proof {
        assert(src@.subrange(0, src@.len() as int) == src@);
    }
}

/// Encrypts one sensitive value under the configured secret, drawing a
/// fresh 64-byte salt and a fresh 16-byte iv, and returns the base64 blob
/// `salt || iv || tag || ciphertext`.  Fails with `ConfigurationMissing`
/// when no secret is configured, with `ValidationFailure` when the value
/// exceeds the provider's single-call limit, and with `CryptoFault` when
/// the provider itself reports a fault.  On success the blob is pinned
/// down: opening it under the same secret yields exactly the value.
pub fn encrypt_data(mode: &EncryptionMode, data: &str) -> (r: Result<String, Error>)
    requires
        mode.wf(),
    ensures
        mode is Disabled <==> r == Err::<String, Error>(Error::ConfigurationMissing),
        r matches Ok(blob) ==> mode matches EncryptionMode::Enabled(secret)
            && plain_of(secret@, blob@) == Some(encode_utf8(data@))
            && valid_utf8(encode_utf8(data@))
            && decode_utf8(encode_utf8(data@)) == data@
            && encode_utf8(blob@).len() <= MAX_BLOB_LEN
            && (b64_decoded(blob@) matches Some(sealed) && sealed.len() == HEADER_LEN
                + encode_utf8(data@).len()),
        r is Err ==> r == Err::<String, Error>(Error::ConfigurationMissing)
            || r == Err::<String, Error>(Error::ValidationFailure)
            || r == Err::<String, Error>(Error::CryptoFault),
        r == Err::<String, Error>(Error::ValidationFailure) <==> mode is Enabled && encode_utf8(
            data@,
        ).len() > MAX_PLAIN_LEN,
        mode is Enabled && encode_utf8(data@).len() <= MAX_PLAIN_LEN ==> r is Ok || r == Err::<
            String,
            Error,
        >(Error::CryptoFault),
{
    let secret = match mode {
        EncryptionMode::Enabled(secret) => secret,
        EncryptionMode::Disabled => {
            return Err(Error::ConfigurationMissing);
        },
    };
    let plain = data.as_bytes();
    if plain.len() > MAX_PLAIN_LEN {
        return Err(Error::ValidationFailure);
    }
    let salt = match random_bytes(SALT_LEN) {
        Ok(salt) => salt,
        Err(_) => {
            return Err(Error::CryptoFault);
        },
    };
    let iv = match random_bytes(IV_LEN) {
        Ok(iv) => iv,
        Err(_) => {
            return Err(Error::CryptoFault);
        },
    };
    let key = match pbkdf2_sha512(secret.as_slice(), salt.as_slice(), KDF_ITERATIONS, KEY_LEN) {
        Ok(key) => key,
        Err(_) => {
            return Err(Error::CryptoFault);
        },
    };
    let sealed = match aead_seal(key.as_slice(), iv.as_slice(), plain) {
        Ok(sealed) => sealed,
        Err(_) => {
            return Err(Error::CryptoFault);
        },
    };
    let (ct, tag) = sealed;
    let mut blob_bytes: Vec<u8> = Vec::new();
    append_bytes(&mut blob_bytes, salt.as_slice());
    append_bytes(&mut blob_bytes, iv.as_slice());
    append_bytes(&mut blob_bytes, tag.as_slice());
    append_bytes(&mut blob_bytes, ct.as_slice());
    let blob = base64_encode(blob_bytes.as_slice());
    proof {
        let all = blob_bytes@;
        assert(all.subrange(0, SALT_LEN as int) =~= salt@);
        assert(all.subrange(SALT_LEN as int, (SALT_LEN + IV_LEN) as int) =~= iv@);
        assert(all.subrange((SALT_LEN + IV_LEN) as int, HEADER_LEN as int) =~= tag@);
        assert(all.subrange(HEADER_LEN as int, all.len() as int) =~= ct@);
        lemma_cipher_round_trip(secret@, data@, blob@);
        vstd::arithmetic::div_mod::lemma_div_is_ordered(
            all.len() as int + 2,
            HEADER_LEN as int + MAX_PLAIN_LEN as int + 2,
            3,
        );
    }
    Ok(blob)
}

/// Decrypts a blob produced by `encrypt_data` under the same secret.  Fails
/// with `AuthenticationFailure` exactly when the blob is rejected: it is
/// not base64, is shorter than the fixed header (or beyond the provider's
/// single-call limit), or its tag does not verify under the re-derived key
/// — a tampered blob or a wrong secret.  A provider fault surfaces as
/// `CryptoFault`.  When no secret is configured the blob passes through
/// unchanged; that stored plain text then reads back as it was written.
pub fn decrypt_data(mode: &EncryptionMode, blob: &str) -> (r: Result<String, Error>)
    requires
        mode.wf(),
    ensures
        mode is Disabled ==> (r matches Ok(s) && s@ == blob@),
        mode matches EncryptionMode::Enabled(secret) ==> {
            &&& encode_utf8(blob@).len() > MAX_BLOB_LEN
                ==> r == Err::<String, Error>(Error::AuthenticationFailure)
            &&& r == Err::<String, Error>(Error::AuthenticationFailure)
                ==> encode_utf8(blob@).len() > MAX_BLOB_LEN || plain_of(secret@, blob@) is None
            &&& r matches Ok(s) ==> encode_utf8(blob@).len() <= MAX_BLOB_LEN
                && (plain_of(secret@, blob@) matches Some(pt)
                    && (valid_utf8(pt) ==> s@ == decode_utf8(pt)))
            &&& r is Err ==> r == Err::<String, Error>(Error::AuthenticationFailure)
                || r == Err::<String, Error>(Error::CryptoFault)
            // a blob refused before it reaches the provider — not base64,
            // or decoded outside the framed size — is pinned to the
            // authentication error
            &&& encode_utf8(blob@).len() <= MAX_BLOB_LEN && (b64_decoded(blob@) is None || (
            b64_decoded(blob@) matches Some(sealed) && !(HEADER_LEN <= sealed.len()
                <= MAX_SEALED_LEN))) ==> r == Err::<String, Error>(Error::AuthenticationFailure)
            // success is owed on every blob that opens, short of a provider fault
            &&& encode_utf8(blob@).len() <= MAX_BLOB_LEN && plain_of(secret@, blob@) is Some
                ==> r is Ok || r == Err::<String, Error>(Error::CryptoFault)
        },
{
    let secret = match mode {
        EncryptionMode::Enabled(secret) => secret,
        EncryptionMode::Disabled => {
            return Ok(String::from_str(blob));
        },
    };
    let blob_utf8 = blob.as_bytes();
    if blob_utf8.len() > MAX_BLOB_LEN {
        return Err(Error::AuthenticationFailure);
    }
    proof {
        assert(blob_utf8@ == encode_utf8(blob@));
    }
    let bytes = match base64_decode(blob) {
        Ok(bytes) => bytes,
        Err(_) => {
            return Err(Error::AuthenticationFailure);
        },
    };
    if bytes.len() < HEADER_LEN || bytes.len() > MAX_SEALED_LEN {
        return Err(Error::AuthenticationFailure);
    }
    let salt = slice_subrange(bytes.as_slice(), 0, SALT_LEN);
    let iv = slice_subrange(bytes.as_slice(), SALT_LEN, SALT_LEN + IV_LEN);
    let tag = slice_subrange(bytes.as_slice(), SALT_LEN + IV_LEN, HEADER_LEN);
    let ct = slice_subrange(bytes.as_slice(), HEADER_LEN, bytes.len());
    let key = match pbkdf2_sha512(secret.as_slice(), salt, KDF_ITERATIONS, KEY_LEN) {
        Ok(key) => key,
        Err(_) => {
            return Err(Error::CryptoFault);
        },
    };
    let plain = match aead_unseal(key.as_slice(), iv, ct, tag) {
        Ok(plain) => plain,
        Err(_) => {
            return Err(Error::AuthenticationFailure);
        },
    };
    Ok(utf8_lossy_string(&plain))
}

/// Protects one sensitive field before it reaches a store: encrypts it when
/// a secret is configured, passes it through under the explicit plain-text
/// opt-in.  On success the stored text provably stands for the value.
pub fn protect_field(mode: &EncryptionMode, value: &str) -> (r: Result<String, Error>)
    requires
        mode.wf(),
    ensures
        r matches Ok(s) ==> protects(*mode, s@, value@),
        r is Err ==> mode is Enabled && (r == Err::<String, Error>(Error::ValidationFailure)
            || r == Err::<String, Error>(Error::CryptoFault)),
        mode is Disabled ==> r is Ok,
        r == Err::<String, Error>(Error::ValidationFailure) <==> mode is Enabled && encode_utf8(
            value@,
        ).len() > MAX_PLAIN_LEN,
        mode is Enabled && encode_utf8(value@).len() <= MAX_PLAIN_LEN ==> r is Ok || r == Err::<
            String,
            Error,
        >(Error::CryptoFault),
{
    match mode {
        EncryptionMode::Enabled(_) => encrypt_data(mode, value),
        EncryptionMode::Disabled => Ok(String::from_str(value)),
    }
}

/// Recovers a protected field at the point of an authorized read: decrypts
/// it when a secret is configured, passes it through under the plain-text
/// opt-in.  Whenever the stored text stands for a value, the exact value
/// comes back.
pub fn recover_field(mode: &EncryptionMode, stored: &str) -> (r: Result<String, Error>)
    requires
        mode.wf(),
    ensures
        mode is Disabled ==> (r matches Ok(s) && s@ == stored@),
        mode matches EncryptionMode::Enabled(secret) ==> forall|value: Seq<char>|
            plain_of(secret@, stored@) == Some(#[trigger] encode_utf8(value)) && r is Ok
                ==> (r->Ok_0)@ == value,
        mode matches EncryptionMode::Enabled(secret) ==> (r is Ok ==> plain_of(
            secret@,
            stored@,
        ) is Some),
        r is Err ==> r == Err::<String, Error>(Error::AuthenticationFailure)
            || r == Err::<String, Error>(Error::CryptoFault),
        mode matches EncryptionMode::Enabled(secret) ==> (encode_utf8(stored@).len()
            <= MAX_BLOB_LEN && plain_of(secret@, stored@) is Some ==> r is Ok || r == Err::<
            String,
            Error,
        >(Error::CryptoFault)),
{
    match mode {
        EncryptionMode::Enabled(_) => {
            let r = decrypt_data(mode, stored);
            proof {
                if let EncryptionMode::Enabled(secret) = mode {
                    assert forall|value: Seq<char>|
                        plain_of(secret@, stored@) == Some(#[trigger] encode_utf8(value)) && r
                            is Ok implies (r->Ok_0)@ == value by {
                        lemma_cipher_round_trip(secret@, value, stored@);
                    }
                }
            }
            r
        },
        EncryptionMode::Disabled => Ok(String::from_str(stored)),
    }
}

} // verus!
