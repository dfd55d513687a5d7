//! Compression and encryption settings, and their integer encodings on
//! the native ABI.

use vstd::prelude::*;
use crate::codes;

verus! {

/// Compression levels for zip entries.
#[derive(Debug, Clone, Copy, PartialEq, Eq, Structural)]
pub enum CompressionLevel {
    /// No compression
    NoCompression,
    /// Fastest compression (lowest compression ratio)
    Fastest,
    /// Normal compression (balanced speed and ratio)
    Normal,
    /// Maximum compression (highest compression ratio, slowest)
    Maximum,
}

impl CompressionLevel {
    /// The integer encoding of the level on the native ABI.
    pub open spec fn spec_code(self) -> i32 {
        match self {
            CompressionLevel::NoCompression => codes::COMPRESSION_LEVEL_NONE,
            CompressionLevel::Fastest => codes::COMPRESSION_LEVEL_FASTEST,
            CompressionLevel::Normal => codes::COMPRESSION_LEVEL_NORMAL,
            CompressionLevel::Maximum => codes::COMPRESSION_LEVEL_MAXIMUM,
        }
    }

    /// Encode the level for a native call.
    pub fn code(self) -> (r: i32)
        ensures
            r == self.spec_code(),
    {
        match self {
            CompressionLevel::NoCompression => codes::COMPRESSION_LEVEL_NONE,
            CompressionLevel::Fastest => codes::COMPRESSION_LEVEL_FASTEST,
            CompressionLevel::Normal => codes::COMPRESSION_LEVEL_NORMAL,
            CompressionLevel::Maximum => codes::COMPRESSION_LEVEL_MAXIMUM,
        }
    }
}

/// Compression methods for zip entries.
#[derive(Debug, Clone, Copy, PartialEq, Eq, Structural)]
pub enum CompressionMethod {
    /// Store without compression
    Store,
    /// Deflate compression (standard)
    Deflate,
}

impl CompressionMethod {
    /// The integer encoding of the method on the native ABI.
    pub open spec fn spec_code(self) -> i32 {
        match self {
            CompressionMethod::Store => codes::COMPRESSION_STORE,
            CompressionMethod::Deflate => codes::COMPRESSION_DEFLATE,
        }
    }

    /// The method a native value decodes to; unknown values fall back to
    /// `Deflate`.
    pub open spec fn spec_from_code(code: i32) -> CompressionMethod {
        if code == codes::COMPRESSION_STORE {
            CompressionMethod::Store
        } else {
            CompressionMethod::Deflate
        }
    }

    /// Encode the method for a native call.
    pub fn code(self) -> (r: i32)
        ensures
            r == self.spec_code(),
    {
        match self {
            CompressionMethod::Store => codes::COMPRESSION_STORE,
            CompressionMethod::Deflate => codes::COMPRESSION_DEFLATE,
        }
    }

    /// Decode a method value returned by the native library.
    pub fn from_code(code: i32) -> (r: CompressionMethod)
        ensures
            r == Self::spec_from_code(code),
    {
        if code == codes::COMPRESSION_STORE {
            CompressionMethod::Store
        } else {
            CompressionMethod::Deflate
        }
    }
}

/// Encryption methods for zip entries.
#[derive(Debug, Clone, Copy, PartialEq, Eq, Structural)]
pub enum EncryptionMethod {
    /// No encryption
    NoEncryption,
    /// Standard ZIP encryption
    Standard,
    /// AES 128-bit encryption
    Aes128,
    /// AES 256-bit encryption
    Aes256,
}

impl EncryptionMethod {
    /// The integer encoding of the method on the native ABI.
    pub open spec fn spec_code(self) -> i32 {
        match self {
            EncryptionMethod::NoEncryption => codes::ENCRYPTION_NONE,
            EncryptionMethod::Standard => codes::ENCRYPTION_STANDARD,
            EncryptionMethod::Aes128 => codes::ENCRYPTION_AES_128,
            EncryptionMethod::Aes256 => codes::ENCRYPTION_AES_256,
        }
    }

    /// The method a native value decodes to; unknown values fall back to
    /// `NoEncryption`.
    pub open spec fn spec_from_code(code: i32) -> EncryptionMethod {
        if code == codes::ENCRYPTION_STANDARD {
            EncryptionMethod::Standard
        } else if code == codes::ENCRYPTION_AES_128 {
            EncryptionMethod::Aes128
        } else if code == codes::ENCRYPTION_AES_256 {
            EncryptionMethod::Aes256
        } else {
            EncryptionMethod::NoEncryption
        }
    }

    /// Encode the method for a native call.
    pub fn code(self) -> (r: i32)
        ensures
            r == self.spec_code(),
    {
        match self {
            EncryptionMethod::NoEncryption => codes::ENCRYPTION_NONE,
            EncryptionMethod::Standard => codes::ENCRYPTION_STANDARD,
            EncryptionMethod::Aes128 => codes::ENCRYPTION_AES_128,
            EncryptionMethod::Aes256 => codes::ENCRYPTION_AES_256,
        }
    }

    /// Decode a method value returned by the native library.
    pub fn from_code(code: i32) -> (r: EncryptionMethod)
        ensures
            r == Self::spec_from_code(code),
    {
        if code == codes::ENCRYPTION_STANDARD {
            EncryptionMethod::Standard
        } else if code == codes::ENCRYPTION_AES_128 {
            EncryptionMethod::Aes128
        } else if code == codes::ENCRYPTION_AES_256 {
            EncryptionMethod::Aes256
        } else {
            EncryptionMethod::NoEncryption
        }
    }
}

/// AES key strength for AES encryption.
#[derive(Debug, Clone, Copy, PartialEq, Eq, Structural)]
pub enum AesKeyStrength {
    /// 128-bit key
    Aes128,
    /// 192-bit key
    Aes192,
    /// 256-bit key
    Aes256,
}

impl AesKeyStrength {
    /// The integer encoding of the strength on the native ABI.
    pub open spec fn spec_code(self) -> i32 {
        match self {
            AesKeyStrength::Aes128 => codes::AES_KEY_STRENGTH_128,
            AesKeyStrength::Aes192 => codes::AES_KEY_STRENGTH_192,
            AesKeyStrength::Aes256 => codes::AES_KEY_STRENGTH_256,
        }
    }

    /// Encode the strength for a native call.
    pub fn code(self) -> (r: i32)
        ensures
            r == self.spec_code(),
    {
        match self {
            AesKeyStrength::Aes128 => codes::AES_KEY_STRENGTH_128,
            AesKeyStrength::Aes192 => codes::AES_KEY_STRENGTH_192,
            AesKeyStrength::Aes256 => codes::AES_KEY_STRENGTH_256,
        }
    }
}

/// Parameters for adding files to a zip archive.
#[derive(Debug, Clone)]
pub struct ZipParameters {
    /// Compression level
    pub compression_level: CompressionLevel,
    /// Compression method
    pub compression_method: CompressionMethod,
    /// Encryption method
    pub encryption_method: EncryptionMethod,
    /// AES key strength (only used with AES encryption)
    pub aes_key_strength: AesKeyStrength,
    /// Password for encryption (if any)
    pub password: Option<String>,
}

impl Default for ZipParameters {
    /// Normal deflate compression, no encryption, no password.
    fn default() -> (r: Self)
        ensures
            r.compression_level == CompressionLevel::Normal,
            r.compression_method == CompressionMethod::Deflate,
            r.encryption_method == EncryptionMethod::NoEncryption,
            r.aes_key_strength == AesKeyStrength::Aes256,
            r.password is None,
    {
        ZipParameters {
            compression_level: CompressionLevel::Normal,
            compression_method: CompressionMethod::Deflate,
            encryption_method: EncryptionMethod::NoEncryption,
            aes_key_strength: AesKeyStrength::Aes256,
            password: None,
        }
    }
}

impl ZipParameters {
    /// Create new default parameters.
    pub fn new() -> (r: Self)
        ensures
            r.compression_level == CompressionLevel::Normal,
            r.compression_method == CompressionMethod::Deflate,
            r.encryption_method == EncryptionMethod::NoEncryption,
            r.aes_key_strength == AesKeyStrength::Aes256,
            r.password is None,
    {
        ZipParameters {
            compression_level: CompressionLevel::Normal,
            compression_method: CompressionMethod::Deflate,
            encryption_method: EncryptionMethod::NoEncryption,
            aes_key_strength: AesKeyStrength::Aes256,
            password: None,
        }
    }

    /// Set compression level.
    pub fn with_compression_level(self, level: CompressionLevel) -> (r: Self)
        ensures
            r == (ZipParameters { compression_level: level, ..self }),
    {
        ZipParameters { compression_level: level, ..self }
    }

    /// Set compression method.
    pub fn with_compression_method(self, method: CompressionMethod) -> (r: Self)
        ensures
            r == (ZipParameters { compression_method: method, ..self }),
    {
        ZipParameters { compression_method: method, ..self }
    }

    /// Set encryption method.
    pub fn with_encryption_method(self, method: EncryptionMethod) -> (r: Self)
        ensures
            r == (ZipParameters { encryption_method: method, ..self }),
    {
        ZipParameters { encryption_method: method, ..self }
    }

    /// Set AES key strength.
    pub fn with_aes_key_strength(self, strength: AesKeyStrength) -> (r: Self)
        ensures
            r == (ZipParameters { aes_key_strength: strength, ..self }),
    {
        ZipParameters { aes_key_strength: strength, ..self }
    }

    /// Set password for encryption.
    pub fn with_password(self, password: String) -> (r: Self)
        ensures
            r == (ZipParameters { password: Some(password), ..self }),
    {
        ZipParameters { password: Some(password), ..self }
    }

    /// Enable AES 256-bit encryption with password.
    pub fn with_aes256_encryption(self, password: String) -> (r: Self)
        ensures
            r == (ZipParameters {
                encryption_method: EncryptionMethod::Aes256,
                aes_key_strength: AesKeyStrength::Aes256,
                password: Some(password),
                ..self
            }),
    {
        ZipParameters {
            encryption_method: EncryptionMethod::Aes256,
            aes_key_strength: AesKeyStrength::Aes256,
            password: Some(password),
            ..self
        }
    }

    /// Enable AES 128-bit encryption with password.
    pub fn with_aes128_encryption(self, password: String) -> (r: Self)
        ensures
            r == (ZipParameters {
                encryption_method: EncryptionMethod::Aes128,
                aes_key_strength: AesKeyStrength::Aes128,
                password: Some(password),
                ..self
            }),
    {
        ZipParameters {
            encryption_method: EncryptionMethod::Aes128,
            aes_key_strength: AesKeyStrength::Aes128,
            password: Some(password),
            ..self
        }
    }

    /// Enable standard ZIP encryption with password.
    pub fn with_standard_encryption(self, password: String) -> (r: Self)
        ensures
            r == (ZipParameters {
                encryption_method: EncryptionMethod::Standard,
                password: Some(password),
                ..self
            }),
    {
        ZipParameters {
            encryption_method: EncryptionMethod::Standard,
            password: Some(password),
            ..self
        }
    }

    /// The four integer settings of a native add call, in the order the
    /// ABI takes them: compression level, compression method, encryption
    /// method, AES key strength.
    pub fn encoded(&self) -> (r: (i32, i32, i32, i32))
        ensures
            r.0 == self.compression_level.spec_code(),
            r.1 == self.compression_method.spec_code(),
            r.2 == self.encryption_method.spec_code(),
            r.3 == self.aes_key_strength.spec_code(),
    {
        (
            self.compression_level.code(),
            self.compression_method.code(),
            self.encryption_method.code(),
            self.aes_key_strength.code(),
        )
    }

    /// Whether a password accompanies the native call.
    pub fn has_password(&self) -> (r: bool)
        ensures
            r == (self.password is Some),
    {
        self.password.is_some()
    }
}

} // verus!
