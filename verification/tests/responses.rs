//! Interpretation of native responses: status codes, flags, counts,
//! values, methods, comments, and the normalized cases.

use zip4j::archive::{comment_from_response, compression_method_from_response, data_length_arg,
    encryption_method_from_response, entry_count_from_response, flag_from_response,
    set_comment_precheck, status_to_result, u32_from_response, u64_from_response,
    validity_from_response};
use zip4j::{CompressionMethod, EncryptionMethod, ZipError};

#[test]
fn statuses_translate_or_succeed() {
    assert!(status_to_result(0).is_ok());
    assert!(status_to_result(5).is_ok());
    assert!(matches!(status_to_result(-2), Err(ZipError::FileNotFound)));
    assert!(matches!(status_to_result(-13), Err(ZipError::DiskFull)));
}

#[test]
fn flags_read_any_nonzero_as_true() {
    assert_eq!(flag_from_response(0, 1).unwrap(), true);
    assert_eq!(flag_from_response(0, 7).unwrap(), true);
    assert_eq!(flag_from_response(0, 0).unwrap(), false);
    assert!(matches!(flag_from_response(-1, 1), Err(ZipError::InvalidHandle)));
}

#[test]
fn validity_normalizes_the_invalid_parameter_code() {
    // An archive that does not exist yet is merely not valid.
    assert_eq!(validity_from_response(-5, 0).unwrap(), false);
    assert_eq!(validity_from_response(0, 1).unwrap(), true);
    assert!(matches!(validity_from_response(-2, 0), Err(ZipError::FileNotFound)));
}

#[test]
fn entry_count_normalizes_errors_to_zero() {
    assert_eq!(entry_count_from_response(0, 4), 4);
    assert_eq!(entry_count_from_response(-3, 4), 0);
    assert_eq!(entry_count_from_response(0, -1), 0);
    assert_eq!(entry_count_from_response(0, 0), 0);
}

#[test]
fn values_come_through_or_translate() {
    assert_eq!(u64_from_response(0, 1234).unwrap(), 1234);
    assert!(matches!(u64_from_response(-7, 0), Err(ZipError::EntryNotFound)));
    assert_eq!(u32_from_response(0, 0xDEAD_BEEF).unwrap(), 0xDEAD_BEEF_u32);
    assert_eq!(u32_from_response(0, 0x1_0000_0001).unwrap(), 1);
    assert!(matches!(u32_from_response(-1, 0), Err(ZipError::InvalidHandle)));
}

#[test]
fn methods_decode_with_their_fallbacks() {
    assert_eq!(
        compression_method_from_response(0, 0).unwrap(),
        CompressionMethod::Store
    );
    assert_eq!(
        compression_method_from_response(0, 99).unwrap(),
        CompressionMethod::Deflate
    );
    assert!(matches!(
        compression_method_from_response(-7, 0),
        Err(ZipError::EntryNotFound)
    ));
    assert_eq!(
        encryption_method_from_response(0, 3).unwrap(),
        EncryptionMethod::Aes256
    );
    assert_eq!(
        encryption_method_from_response(0, 99).unwrap(),
        EncryptionMethod::NoEncryption
    );
}

#[test]
fn comments_normalize_invalid_archives_and_failures_to_empty() {
    let buffer = b"note\0rest";
    assert_eq!(comment_from_response(false, 0, buffer, 4).unwrap(), "");
    assert_eq!(comment_from_response(true, -3, buffer, 4).unwrap(), "");
    assert_eq!(comment_from_response(true, 0, buffer, 4).unwrap(), "note");
    assert_eq!(comment_from_response(true, 0, buffer, 9).unwrap(), "note");
}

#[test]
fn set_comment_needs_a_valid_archive() {
    assert!(set_comment_precheck(true).is_ok());
    match set_comment_precheck(false) {
        Err(ZipError::InvalidParameter(m)) => {
            assert_eq!(
                m,
                "Cannot set comment on an empty or invalid ZIP file. Add entries first."
            );
        }
        other => panic!("wrong result: {:?}", other),
    }
}

#[test]
fn data_length_fits_the_abi_or_is_rejected() {
    assert_eq!(data_length_arg(0).unwrap(), 0);
    assert_eq!(data_length_arg(4096).unwrap(), 4096);
    assert_eq!(data_length_arg(i32::MAX as usize).unwrap(), i32::MAX);
    match data_length_arg(i32::MAX as usize + 1) {
        Err(ZipError::InvalidParameter(m)) => {
            assert_eq!(m, "data length exceeds the native interface limit");
        }
        other => panic!("wrong result: {:?}", other),
    }
}
