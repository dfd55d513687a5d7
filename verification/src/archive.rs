//! Interpretation of native responses for archive and entry operations.
//!
//! Every native call returns a status code, and most fill one output
//! value.  The functions here hold the wrapper's whole policy on those
//! responses: which codes are errors, which are deliberately normalized
//! to a default, and how output values are read.  The unverified shell
//! does nothing with a response but hand it to one of these functions.

use vstd::prelude::*;
use vstd::string::*;
use vstd::utf8::{decode_utf8, valid_utf8};
use crate::codes;
use crate::error::{matches_code, ZipError};
use crate::marshal::{read_string_from_buffer_u8, spec_c_bytes};
use crate::types::{CompressionMethod, EncryptionMethod};

verus! {

/// Interpret the status of a native call with no output value: a
/// negative code is translated, anything else is success.
pub fn status_to_result(code: i32) -> (r: Result<(), ZipError>)
    ensures
        code >= 0 ==> r is Ok,
        code < 0 ==> (r matches Err(e) && matches_code(e, code as int)),
{
    if code < 0 {
        Err(ZipError::from_code(code))
    } else {
        Ok(())
    }
}

/// Interpret a native query that fills a boolean flag: a negative code
/// is translated, otherwise any nonzero flag value means true.
pub fn flag_from_response(code: i32, flag: i32) -> (r: Result<bool, ZipError>)
    ensures
        code >= 0 ==> (r matches Ok(b) && b == (flag != 0)),
        code < 0 ==> (r matches Err(e) && matches_code(e, code as int)),
{
    if code < 0 {
        Err(ZipError::from_code(code))
    } else {
        Ok(flag != 0)
    }
}

/// Interpret the validity query.  An invalid-parameter code is not an
/// error here: an archive that does not exist yet is simply not valid,
/// so that code falls through to the flag like success does.
pub fn validity_from_response(code: i32, flag: i32) -> (r: Result<bool, ZipError>)
    ensures
        (code >= 0 || code == codes::ERROR_INVALID_PARAMETER) ==> (r matches Ok(b) && b == (flag
            != 0)),
        (code < 0 && code != codes::ERROR_INVALID_PARAMETER) ==> (r matches Err(e)
            && matches_code(e, code as int)),
{
    if code < 0 && code != codes::ERROR_INVALID_PARAMETER {
        Err(ZipError::from_code(code))
    } else {
        Ok(flag != 0)
    }
}

/// Interpret the entry-count query.  An error or a negative count is
/// deliberately normalized to zero: an empty or invalid archive counts
/// no entries rather than failing.
pub fn entry_count_from_response(code: i32, count: i64) -> (r: u64)
    ensures
        (code < 0 || count < 0) ==> r == 0,
        (code >= 0 && count >= 0) ==> r == count,
{
    if code < 0 || count < 0 {
        0
    } else {
        count as u64
    }
}

/// Interpret a native query that fills a 64-bit value (sizes): a
/// negative code is translated, otherwise the value's bits are taken
/// unsigned.
pub fn u64_from_response(code: i32, value: i64) -> (r: Result<u64, ZipError>)
    ensures
        code >= 0 ==> (r matches Ok(v) && v == value as u64),
        code < 0 ==> (r matches Err(e) && matches_code(e, code as int)),
{
    if code < 0 {
        Err(ZipError::from_code(code))
    } else {
        Ok(#[verifier::truncate] (value as u64))
    }
}

/// Interpret a native query that fills a 32-bit value (CRC, DOS time):
/// a negative code is translated, otherwise the value's low 32 bits are
/// taken unsigned.
pub fn u32_from_response(code: i32, value: i64) -> (r: Result<u32, ZipError>)
    ensures
        code >= 0 ==> (r matches Ok(v) && v == value as u32),
        code < 0 ==> (r matches Err(e) && matches_code(e, code as int)),
{
    if code < 0 {
        Err(ZipError::from_code(code))
    } else {
        Ok(#[verifier::truncate] (value as u32))
    }
}

/// Interpret the compression-method query of an entry.
pub fn compression_method_from_response(code: i32, method: i32) -> (r: Result<
    CompressionMethod,
    ZipError,
>)
    ensures
        code >= 0 ==> (r matches Ok(m) && m == CompressionMethod::spec_from_code(method)),
        code < 0 ==> (r matches Err(e) && matches_code(e, code as int)),
{
    if code < 0 {
        Err(ZipError::from_code(code))
    } else {
        Ok(CompressionMethod::from_code(method))
    }
}

/// Interpret the encryption-method query of an entry.
pub fn encryption_method_from_response(code: i32, method: i32) -> (r: Result<
    EncryptionMethod,
    ZipError,
>)
    ensures
        code >= 0 ==> (r matches Ok(m) && m == EncryptionMethod::spec_from_code(method)),
        code < 0 ==> (r matches Err(e) && matches_code(e, code as int)),
{
    if code < 0 {
        Err(ZipError::from_code(code))
    } else {
        Ok(EncryptionMethod::from_code(method))
    }
}

/// Interpret the comment query.  The comment of an archive that is not
/// valid, and a failing query, are both normalized to the empty string
/// rather than an error.
pub fn comment_from_response(valid: bool, code: i32, buffer: &[u8], comment_length: i32) -> (r:
    Result<String, ZipError>)
    requires
        comment_length > 0 ==> comment_length <= buffer@.len(),
    ensures
        (!valid || code < 0) ==> (r matches Ok(s) && s@ == Seq::<char>::empty()),
        (valid && code >= 0) ==> {
            &&& (r is Ok <==> valid_utf8(spec_c_bytes(buffer@, comment_length as int)))
            &&& (r matches Ok(s) ==> s@ == decode_utf8(spec_c_bytes(buffer@, comment_length as int)))
            &&& (r matches Err(e) ==> e is StringConversion)
        },
{
    if !valid || code < 0 {
        Ok(String::new())
    } else {
        read_string_from_buffer_u8(buffer, comment_length)
    }
}

/// Check that an archive may take a comment: only a valid archive can.
pub fn set_comment_precheck(valid: bool) -> (r: Result<(), ZipError>)
    ensures
        valid ==> r is Ok,
        !valid ==> (r matches Err(e) && (e matches ZipError::InvalidParameter(m)
            && m@ == "Cannot set comment on an empty or invalid ZIP file. Add entries first."@)),
{
    if valid {
        Ok(())
    } else {
        Err(
            ZipError::InvalidParameter(
                String::from_str(
                    "Cannot set comment on an empty or invalid ZIP file. Add entries first.",
                ),
            ),
        )
    }
}

/// The length argument of a native add-data call.  The ABI takes a
/// 32-bit length; data beyond that limit is rejected rather than
/// silently truncated.
pub fn data_length_arg(len: usize) -> (r: Result<i32, ZipError>)
    ensures
        len <= i32::MAX ==> (r matches Ok(n) && n == len),
        len > i32::MAX ==> (r matches Err(e) && (e matches ZipError::InvalidParameter(m)
            && m@ == "data length exceeds the native interface limit"@)),
{
    if len <= 0x7fff_ffff {
        Ok(len as i32)
    } else {
        Err(
            ZipError::InvalidParameter(
                String::from_str("data length exceeds the native interface limit"),
            ),
        )
    }
}

} // verus!
