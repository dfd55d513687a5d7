//! The closed error type of the wrapper, and the total translation of
//! native status codes into it.

use vstd::prelude::*;
use vstd::string::*;
use crate::codes;
use crate::decimal::{dec_int, i32_to_dec_string};

verus! {

/// Errors that can occur during zip operations.
///
/// Every negative status code of the native ABI maps to exactly one of
/// these variants; codes outside the declared range collapse to `Unknown`,
/// carrying the raw code in their message.
#[derive(Debug)]
pub enum ZipError {
    /// Invalid handle provided
    InvalidHandle,
    /// File not found
    FileNotFound,
    /// Zip-specific error
    ZipException(String),
    /// I/O error
    IoError(String),
    /// Invalid parameter
    InvalidParameter(String),
    /// Out of memory
    OutOfMemory,
    /// Entry not found in archive
    EntryNotFound,
    /// Buffer too small for operation
    BufferTooSmall,
    /// Operation was cancelled
    OperationCancelled,
    /// Unsupported operation
    UnsupportedOperation,
    /// Null pointer error
    NullPointer,
    /// Permission denied
    PermissionDenied,
    /// Disk full
    DiskFull,
    /// Unknown error
    Unknown(String),
    /// String conversion error
    StringConversion(String),
}

/// The exact `ZipError` value that translating the native status `code`
/// must produce: one fixed variant per declared code, and `Unknown` with
/// the code spelled out in decimal for anything else.
pub open spec fn matches_code(e: ZipError, code: int) -> bool {
    if code == codes::ERROR_INVALID_HANDLE {
        e is InvalidHandle
    } else if code == codes::ERROR_FILE_NOT_FOUND {
        e is FileNotFound
    } else if code == codes::ERROR_ZIP_EXCEPTION {
        e matches ZipError::ZipException(m) && m@ == "Zip operation failed"@
    } else if code == codes::ERROR_IO_EXCEPTION {
        e matches ZipError::IoError(m) && m@ == "I/O operation failed"@
    } else if code == codes::ERROR_INVALID_PARAMETER {
        e matches ZipError::InvalidParameter(m) && m@ == "Invalid parameter provided"@
    } else if code == codes::ERROR_OUT_OF_MEMORY {
        e is OutOfMemory
    } else if code == codes::ERROR_ENTRY_NOT_FOUND {
        e is EntryNotFound
    } else if code == codes::ERROR_BUFFER_TOO_SMALL {
        e is BufferTooSmall
    } else if code == codes::ERROR_OPERATION_CANCELLED {
        e is OperationCancelled
    } else if code == codes::ERROR_UNSUPPORTED_OPERATION {
        e is UnsupportedOperation
    } else if code == codes::ERROR_NULL_POINTER {
        e is NullPointer
    } else if code == codes::ERROR_PERMISSION_DENIED {
        e is PermissionDenied
    } else if code == codes::ERROR_DISK_FULL {
        e is DiskFull
    } else {
        e matches ZipError::Unknown(m) && m@ == "Error code: "@ + dec_int(code)
    }
}

impl ZipError {
    /// Convert an error code from the native library to a `ZipError`.
    ///
    /// Every code in the declared range gets its own variant; any other
    /// code becomes `Unknown` with the code spelled out in decimal.
    pub fn from_code(code: i32) -> (r: ZipError)
        ensures
            matches_code(r, code as int),
    {
        if code == codes::ERROR_INVALID_HANDLE {
            ZipError::InvalidHandle
        } else if code == codes::ERROR_FILE_NOT_FOUND {
            ZipError::FileNotFound
        } else if code == codes::ERROR_ZIP_EXCEPTION {
            ZipError::ZipException(String::from_str("Zip operation failed"))
        } else if code == codes::ERROR_IO_EXCEPTION {
            ZipError::IoError(String::from_str("I/O operation failed"))
        } else if code == codes::ERROR_INVALID_PARAMETER {
            ZipError::InvalidParameter(String::from_str("Invalid parameter provided"))
        } else if code == codes::ERROR_OUT_OF_MEMORY {
            ZipError::OutOfMemory
        } else if code == codes::ERROR_ENTRY_NOT_FOUND {
            ZipError::EntryNotFound
        } else if code == codes::ERROR_BUFFER_TOO_SMALL {
            ZipError::BufferTooSmall
        } else if code == codes::ERROR_OPERATION_CANCELLED {
            ZipError::OperationCancelled
        } else if code == codes::ERROR_UNSUPPORTED_OPERATION {
            ZipError::UnsupportedOperation
        } else if code == codes::ERROR_NULL_POINTER {
            ZipError::NullPointer
        } else if code == codes::ERROR_PERMISSION_DENIED {
            ZipError::PermissionDenied
        } else if code == codes::ERROR_DISK_FULL {
            ZipError::DiskFull
        } else {
            let mut m = String::from_str("Error code: ");
            let digits = i32_to_dec_string(code);
            m.append(digits.as_str());
            ZipError::Unknown(m)
        }
    }

    /// The human-readable description of the error.
    pub open spec fn spec_message(&self) -> Seq<char> {
        match self {
            ZipError::InvalidHandle => "Invalid handle"@,
            ZipError::FileNotFound => "File not found"@,
            ZipError::ZipException(m) => "Zip error: "@ + m@,
            ZipError::IoError(m) => "I/O error: "@ + m@,
            ZipError::InvalidParameter(m) => "Invalid parameter: "@ + m@,
            ZipError::OutOfMemory => "Out of memory"@,
            ZipError::EntryNotFound => "Entry not found in archive"@,
            ZipError::BufferTooSmall => "Buffer too small"@,
            ZipError::OperationCancelled => "Operation was cancelled"@,
            ZipError::UnsupportedOperation => "Unsupported operation"@,
            ZipError::NullPointer => "Null pointer error"@,
            ZipError::PermissionDenied => "Permission denied"@,
            ZipError::DiskFull => "Disk full"@,
            ZipError::Unknown(m) => "Unknown error: "@ + m@,
            ZipError::StringConversion(m) => "String conversion error: "@ + m@,
        }
    }

    /// Render the error as a human-readable message.
    pub fn message(&self) -> (r: String)
        ensures
            r@ == self.spec_message(),
    {
        match self {
            ZipError::InvalidHandle => String::from_str("Invalid handle"),
            ZipError::FileNotFound => String::from_str("File not found"),
            ZipError::ZipException(m) => {
                let mut s = String::from_str("Zip error: ");
                s.append(m.as_str());
                s
            },
            ZipError::IoError(m) => {
                let mut s = String::from_str("I/O error: ");
                s.append(m.as_str());
                s
            },
            ZipError::InvalidParameter(m) => {
                let mut s = String::from_str("Invalid parameter: ");
                s.append(m.as_str());
                s
            },
            ZipError::OutOfMemory => String::from_str("Out of memory"),
            ZipError::EntryNotFound => String::from_str("Entry not found in archive"),
            ZipError::BufferTooSmall => String::from_str("Buffer too small"),
            ZipError::OperationCancelled => String::from_str("Operation was cancelled"),
            ZipError::UnsupportedOperation => String::from_str("Unsupported operation"),
            ZipError::NullPointer => String::from_str("Null pointer error"),
            ZipError::PermissionDenied => String::from_str("Permission denied"),
            ZipError::DiskFull => String::from_str("Disk full"),
            ZipError::Unknown(m) => {
                let mut s = String::from_str("Unknown error: ");
                s.append(m.as_str());
                s
            },
            ZipError::StringConversion(m) => {
                let mut s = String::from_str("String conversion error: ");
                s.append(m.as_str());
                s
            },
        }
    }
}

} // verus!
