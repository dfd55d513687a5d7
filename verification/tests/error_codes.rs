//! Status-code translation and error message rendering.

use zip4j::ZipError;

#[test]
fn declared_codes_map_to_their_variants() {
    assert!(matches!(ZipError::from_code(-1), ZipError::InvalidHandle));
    assert!(matches!(ZipError::from_code(-2), ZipError::FileNotFound));
    assert!(matches!(ZipError::from_code(-6), ZipError::OutOfMemory));
    assert!(matches!(ZipError::from_code(-7), ZipError::EntryNotFound));
    assert!(matches!(ZipError::from_code(-8), ZipError::BufferTooSmall));
    assert!(matches!(ZipError::from_code(-9), ZipError::OperationCancelled));
    assert!(matches!(ZipError::from_code(-10), ZipError::UnsupportedOperation));
    assert!(matches!(ZipError::from_code(-11), ZipError::NullPointer));
    assert!(matches!(ZipError::from_code(-12), ZipError::PermissionDenied));
    assert!(matches!(ZipError::from_code(-13), ZipError::DiskFull));
}

#[test]
fn message_carrying_codes_keep_their_text() {
    match ZipError::from_code(-3) {
        ZipError::ZipException(m) => assert_eq!(m, "Zip operation failed"),
        other => panic!("wrong variant: {:?}", other),
    }
    match ZipError::from_code(-4) {
        ZipError::IoError(m) => assert_eq!(m, "I/O operation failed"),
        other => panic!("wrong variant: {:?}", other),
    }
    match ZipError::from_code(-5) {
        ZipError::InvalidParameter(m) => assert_eq!(m, "Invalid parameter provided"),
        other => panic!("wrong variant: {:?}", other),
    }
}

#[test]
fn undeclared_codes_collapse_to_unknown_with_the_code() {
    match ZipError::from_code(-99) {
        ZipError::Unknown(m) => assert_eq!(m, "Error code: -99"),
        other => panic!("wrong variant: {:?}", other),
    }
    match ZipError::from_code(0) {
        ZipError::Unknown(m) => assert_eq!(m, "Error code: 0"),
        other => panic!("wrong variant: {:?}", other),
    }
    match ZipError::from_code(12345) {
        ZipError::Unknown(m) => assert_eq!(m, "Error code: 12345"),
        other => panic!("wrong variant: {:?}", other),
    }
    match ZipError::from_code(i32::MIN) {
        ZipError::Unknown(m) => assert_eq!(m, "Error code: -2147483648"),
        other => panic!("wrong variant: {:?}", other),
    }
}

#[test]
fn messages_render_every_variant() {
    assert_eq!(ZipError::InvalidHandle.message(), "Invalid handle");
    assert_eq!(ZipError::FileNotFound.message(), "File not found");
    assert_eq!(
        ZipError::ZipException("boom".to_string()).message(),
        "Zip error: boom"
    );
    assert_eq!(ZipError::IoError("disk".to_string()).message(), "I/O error: disk");
    assert_eq!(
        ZipError::InvalidParameter("bad".to_string()).message(),
        "Invalid parameter: bad"
    );
    assert_eq!(ZipError::OutOfMemory.message(), "Out of memory");
    assert_eq!(ZipError::EntryNotFound.message(), "Entry not found in archive");
    assert_eq!(ZipError::BufferTooSmall.message(), "Buffer too small");
    assert_eq!(ZipError::OperationCancelled.message(), "Operation was cancelled");
    assert_eq!(ZipError::UnsupportedOperation.message(), "Unsupported operation");
    assert_eq!(ZipError::NullPointer.message(), "Null pointer error");
    assert_eq!(ZipError::PermissionDenied.message(), "Permission denied");
    assert_eq!(ZipError::DiskFull.message(), "Disk full");
    assert_eq!(ZipError::Unknown("x".to_string()).message(), "Unknown error: x");
    assert_eq!(
        ZipError::StringConversion("y".to_string()).message(),
        "String conversion error: y"
    );
}
