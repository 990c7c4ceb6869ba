use car_api::encrypt::{decrypt_data, encrypt_data, EncryptionMode};
use car_api::errors::Error;

fn enabled() -> EncryptionMode {
    EncryptionMode::Enabled(b"a test secret for the cipher".to_vec())
}

#[test]
fn round_trip_recovers_plaintext() {
    let mode = enabled();
    let plain = "my super password";
    let blob = encrypt_data(&mode, plain).expect("encryption should succeed");
    let back = decrypt_data(&mode, blob.as_str()).expect("decryption should succeed");
    assert_eq!(back, plain);
}

#[test]
fn round_trip_empty_string() {
    let mode = enabled();
    let blob = encrypt_data(&mode, "").expect("encryption should succeed");
    let back = decrypt_data(&mode, blob.as_str()).expect("decryption should succeed");
    assert_eq!(back, "");
}

#[test]
fn round_trip_non_ascii() {
    let mode = enabled();
    let plain = "pässwörd \u{1F511}";
    let blob = encrypt_data(&mode, plain).expect("encryption should succeed");
    let back = decrypt_data(&mode, blob.as_str()).expect("decryption should succeed");
    assert_eq!(back, plain);
}

#[test]
fn encrypt_twice_differs() {
    let mode = enabled();
    let a = encrypt_data(&mode, "same input").expect("encryption should succeed");
    let b = encrypt_data(&mode, "same input").expect("encryption should succeed");
    assert_ne!(a, b);
}

#[test]
fn tamper_any_byte_of_tag_or_ciphertext_fails() {
    let mode = enabled();
    let blob = encrypt_data(&mode, "pw").expect("encryption should succeed");
    let bytes = openssl::base64::decode_block(&blob).expect("blob should be base64");
    // tag starts at 80, ciphertext at 96
    for i in 80..bytes.len() {
        let mut tampered = bytes.clone();
        tampered[i] ^= 0x01;
        let tampered_blob = openssl::base64::encode_block(&tampered);
        let r = decrypt_data(&mode, tampered_blob.as_str());
        assert_eq!(r, Err(Error::AuthenticationFailure), "flipped byte {}", i);
    }
}

#[test]
fn tampered_salt_fails() {
    let mode = enabled();
    let blob = encrypt_data(&mode, "pw").expect("encryption should succeed");
    let mut bytes = openssl::base64::decode_block(&blob).expect("blob should be base64");
    bytes[0] ^= 0xff;
    let tampered_blob = openssl::base64::encode_block(&bytes);
    let r = decrypt_data(&mode, tampered_blob.as_str());
    assert_eq!(r, Err(Error::AuthenticationFailure));
}

#[test]
fn wrong_secret_fails() {
    let blob = encrypt_data(&enabled(), "pw").expect("encryption should succeed");
    let other = EncryptionMode::Enabled(b"another secret entirely".to_vec());
    let r = decrypt_data(&other, blob.as_str());
    assert_eq!(r, Err(Error::AuthenticationFailure));
}

#[test]
fn short_blob_fails() {
    let mode = enabled();
    let short = openssl::base64::encode_block(&[1u8; 95]);
    assert_eq!(
        decrypt_data(&mode, short.as_str()),
        Err(Error::AuthenticationFailure)
    );
}

#[test]
fn non_base64_blob_fails() {
    let mode = enabled();
    assert_eq!(
        decrypt_data(&mode, "!!!this is not base64!!!"),
        Err(Error::AuthenticationFailure)
    );
}

#[test]
fn encrypt_without_secret_is_refused() {
    let r = encrypt_data(&EncryptionMode::Disabled, "pw");
    assert_eq!(r, Err(Error::ConfigurationMissing));
}

#[test]
fn decrypt_without_secret_passes_through() {
    let r = decrypt_data(&EncryptionMode::Disabled, "stored as plain text");
    assert_eq!(r, Ok("stored as plain text".to_string()));
}

#[test]
fn blob_layout_is_salt_iv_tag_ciphertext() {
    let mode = enabled();
    let plain = "abcde";
    let blob = encrypt_data(&mode, plain).expect("encryption should succeed");
    let bytes = openssl::base64::decode_block(&blob).expect("blob should be base64");
    // fixed header of 64 + 16 + 16 bytes, then one ciphertext byte per
    // plaintext byte (AES-GCM keeps the length)
    assert_eq!(bytes.len(), 96 + plain.len());
}
