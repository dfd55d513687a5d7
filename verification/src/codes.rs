//! Constants of the native library's C ABI: status codes returned by every
//! exported function, and the integer encodings of compression and
//! encryption settings that the add/extract entry points take.

use vstd::prelude::*;

verus! {

// Status codes.  Zero is success; every failure is a negative code.
pub const SUCCESS: i32 = 0;
pub const ERROR_INVALID_HANDLE: i32 = -1;
pub const ERROR_FILE_NOT_FOUND: i32 = -2;
pub const ERROR_ZIP_EXCEPTION: i32 = -3;
pub const ERROR_IO_EXCEPTION: i32 = -4;
pub const ERROR_INVALID_PARAMETER: i32 = -5;
pub const ERROR_OUT_OF_MEMORY: i32 = -6;
pub const ERROR_ENTRY_NOT_FOUND: i32 = -7;
pub const ERROR_BUFFER_TOO_SMALL: i32 = -8;
pub const ERROR_OPERATION_CANCELLED: i32 = -9;
pub const ERROR_UNSUPPORTED_OPERATION: i32 = -10;
pub const ERROR_NULL_POINTER: i32 = -11;
pub const ERROR_PERMISSION_DENIED: i32 = -12;
pub const ERROR_DISK_FULL: i32 = -13;

// Compression methods.
pub const COMPRESSION_STORE: i32 = 0;
pub const COMPRESSION_DEFLATE: i32 = 8;

// Compression levels.
pub const COMPRESSION_LEVEL_NONE: i32 = 0;
pub const COMPRESSION_LEVEL_FASTEST: i32 = 1;
pub const COMPRESSION_LEVEL_NORMAL: i32 = 6;
pub const COMPRESSION_LEVEL_MAXIMUM: i32 = 9;

// Encryption methods.
pub const ENCRYPTION_NONE: i32 = 0;
pub const ENCRYPTION_STANDARD: i32 = 1;
pub const ENCRYPTION_AES_128: i32 = 2;
pub const ENCRYPTION_AES_256: i32 = 3;

// AES key strengths.
pub const AES_KEY_STRENGTH_128: i32 = 1;
pub const AES_KEY_STRENGTH_192: i32 = 2;
pub const AES_KEY_STRENGTH_256: i32 = 3;

} // verus!
