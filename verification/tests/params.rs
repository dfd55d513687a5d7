//! Compression and encryption parameters and their native encodings.

use zip4j::{AesKeyStrength, CompressionLevel, CompressionMethod, EncryptionMethod,
    ZipParameters};

#[test]
fn new_parameters_are_the_documented_defaults() {
    let p = ZipParameters::new();
    assert_eq!(p.compression_level, CompressionLevel::Normal);
    assert_eq!(p.compression_method, CompressionMethod::Deflate);
    assert_eq!(p.encryption_method, EncryptionMethod::NoEncryption);
    assert_eq!(p.aes_key_strength, AesKeyStrength::Aes256);
    assert!(p.password.is_none());

    let d = ZipParameters::default();
    assert_eq!(d.compression_level, CompressionLevel::Normal);
    assert!(d.password.is_none());
}

#[test]
fn builders_set_one_field_and_keep_the_rest() {
    let p = ZipParameters::new()
        .with_compression_level(CompressionLevel::Maximum)
        .with_compression_method(CompressionMethod::Store)
        .with_encryption_method(EncryptionMethod::Standard)
        .with_aes_key_strength(AesKeyStrength::Aes192);
    assert_eq!(p.compression_level, CompressionLevel::Maximum);
    assert_eq!(p.compression_method, CompressionMethod::Store);
    assert_eq!(p.encryption_method, EncryptionMethod::Standard);
    assert_eq!(p.aes_key_strength, AesKeyStrength::Aes192);
    assert!(p.password.is_none());

    let p = p.with_password("secret".to_string());
    assert_eq!(p.password.as_deref(), Some("secret"));
    assert_eq!(p.compression_level, CompressionLevel::Maximum);
}

#[test]
fn encryption_shortcuts_set_method_strength_and_password() {
    let p = ZipParameters::new().with_aes256_encryption("a".to_string());
    assert_eq!(p.encryption_method, EncryptionMethod::Aes256);
    assert_eq!(p.aes_key_strength, AesKeyStrength::Aes256);
    assert_eq!(p.password.as_deref(), Some("a"));

    let p = ZipParameters::new().with_aes128_encryption("b".to_string());
    assert_eq!(p.encryption_method, EncryptionMethod::Aes128);
    assert_eq!(p.aes_key_strength, AesKeyStrength::Aes128);
    assert_eq!(p.password.as_deref(), Some("b"));

    let p = ZipParameters::new().with_standard_encryption("c".to_string());
    assert_eq!(p.encryption_method, EncryptionMethod::Standard);
    assert_eq!(p.aes_key_strength, AesKeyStrength::Aes256);
    assert_eq!(p.password.as_deref(), Some("c"));
}

#[test]
fn native_encodings_match_the_abi_constants() {
    assert_eq!(CompressionLevel::NoCompression.code(), 0);
    assert_eq!(CompressionLevel::Fastest.code(), 1);
    assert_eq!(CompressionLevel::Normal.code(), 6);
    assert_eq!(CompressionLevel::Maximum.code(), 9);

    assert_eq!(CompressionMethod::Store.code(), 0);
    assert_eq!(CompressionMethod::Deflate.code(), 8);
    assert_eq!(CompressionMethod::from_code(0), CompressionMethod::Store);
    assert_eq!(CompressionMethod::from_code(8), CompressionMethod::Deflate);
    assert_eq!(CompressionMethod::from_code(77), CompressionMethod::Deflate);

    assert_eq!(EncryptionMethod::NoEncryption.code(), 0);
    assert_eq!(EncryptionMethod::Standard.code(), 1);
    assert_eq!(EncryptionMethod::Aes128.code(), 2);
    assert_eq!(EncryptionMethod::Aes256.code(), 3);
    assert_eq!(EncryptionMethod::from_code(1), EncryptionMethod::Standard);
    assert_eq!(EncryptionMethod::from_code(2), EncryptionMethod::Aes128);
    assert_eq!(EncryptionMethod::from_code(3), EncryptionMethod::Aes256);
    assert_eq!(EncryptionMethod::from_code(0), EncryptionMethod::NoEncryption);
    assert_eq!(EncryptionMethod::from_code(-4), EncryptionMethod::NoEncryption);

    assert_eq!(AesKeyStrength::Aes128.code(), 1);
    assert_eq!(AesKeyStrength::Aes192.code(), 2);
    assert_eq!(AesKeyStrength::Aes256.code(), 3);
}

#[test]
fn encoded_returns_the_four_settings_in_abi_order() {
    let p = ZipParameters::new()
        .with_compression_level(CompressionLevel::Fastest)
        .with_compression_method(CompressionMethod::Store)
        .with_aes256_encryption("pw".to_string());
    assert_eq!(p.encoded(), (1, 0, 3, 3));
    assert!(p.has_password());
    assert!(!ZipParameters::new().has_password());
}
