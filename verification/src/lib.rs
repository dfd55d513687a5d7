//! Verified wrapper logic for a natively compiled ZIP library.
//!
//! The ZIP format work itself (compression, encryption, archive layout) is
//! done by a prebuilt native library reached over a C ABI.  This crate holds
//! everything on the host side of that boundary that can be stated and
//! proved: translation of native status codes into a closed error type,
//! encoding of compression and encryption parameters, the idempotent
//! initialization state machine for the native runtime, handle lifecycle
//! bookkeeping, string-buffer marshaling, and the resize-and-retry protocol
//! for in-memory extraction.  A thin unverified shell performs the actual
//! foreign calls and feeds their raw results to the functions here.

pub mod archive;
pub mod codes;
pub mod cursor;
pub mod decimal;
pub mod error;
pub mod extract;
pub mod handle;
pub mod loader;
pub mod marshal;
pub mod platform;
pub mod runtime;
pub mod types;

pub use cursor::ZipEntryIterator;
pub use error::ZipError;
pub use handle::NativeHandle;
pub use runtime::{cleanup, init, RuntimeState};
pub use types::{AesKeyStrength, CompressionLevel, CompressionMethod, EncryptionMethod,
    ZipParameters};
