//! Marshaling between native C buffers and host strings.
//!
//! Native calls fill byte buffers with NUL-terminated text and report a
//! length; this module turns such a response into a `String`, and checks
//! strings that travel the other way for interior NUL bytes.

use vstd::prelude::*;
use vstd::string::*;
use vstd::utf8::{decode_utf8, valid_utf8};
use crate::error::ZipError;

verus! {

/// Check if a return code indicates success.
pub fn is_success(code: i32) -> (r: bool)
    ensures
        r == (code == 0),
{
    code == 0
}

/// Check if a return code indicates an error.
pub fn is_error(code: i32) -> (r: bool)
    ensures
        r == (code < 0),
{
    code < 0
}

/// The index of the first NUL byte, or the length if there is none.
pub open spec fn first_nul(s: Seq<u8>) -> int
    decreases s.len(),
{
    if s.len() == 0 {
        0
    } else if s[0] == 0 {
        0
    } else {
        1 + first_nul(s.drop_first())
    }
}

/// The bytes before the first NUL.
pub open spec fn c_prefix(s: Seq<u8>) -> Seq<u8> {
    s.take(first_nul(s))
}

/// `first_nul` points at the first NUL byte: everything before it is
/// nonzero, and it lands on a NUL unless there is none.
pub proof fn lemma_first_nul_bounds(s: Seq<u8>)
    ensures
        0 <= first_nul(s) <= s.len(),
        forall|j: int| 0 <= j < first_nul(s) ==> s[j] != 0,
        first_nul(s) < s.len() ==> s[first_nul(s)] == 0,
    decreases s.len(),
{
    if s.len() == 0 {
    } else if s[0] == 0 {
    } else {
        lemma_first_nul_bounds(s.drop_first());
        assert forall|j: int| 0 <= j < first_nul(s) implies s[j] != 0 by {
            if j > 0 {
                assert(s.drop_first()[j - 1] == s[j]);
            }
        }
        if first_nul(s) < s.len() {
            assert(s.drop_first()[first_nul(s) - 1] == s[first_nul(s)]);
        }
    }
}

/// The text bytes of a native string response: the first `length` bytes
/// of the buffer, cut at the first NUL; a nonpositive length means no
/// text at all.
pub open spec fn spec_c_bytes(buffer: Seq<u8>, length: int) -> Seq<u8> {
    if length <= 0 {
        Seq::empty()
    } else {
        c_prefix(buffer.take(length))
    }
}

/// Copy the bytes before the first NUL among the first `len` bytes.
fn nul_truncated(buffer: &[u8], len: usize) -> (v: Vec<u8>)
    requires
        len <= buffer@.len(),
    ensures
        v@ == c_prefix(buffer@.take(len as int)),
{
    let ghost s = buffer@.take(len as int);
    let mut v: Vec<u8> = Vec::new();
    let mut i: usize = 0;
    while i < len && buffer[i] != 0
        invariant
            i <= len,
            len <= buffer@.len(),
            v@ =~= buffer@.subrange(0, i as int),
            forall|j: int| 0 <= j < i ==> buffer@[j] != 0,
        decreases len - i,
    {
        v.push(buffer[i]);
        i += 1;
    }
    proof {
        lemma_first_nul_bounds(s);
        let k = first_nul(s);
        assert(forall|j: int| 0 <= j < len ==> s[j] == buffer@[j]);
        if k < i {
            assert(s[k] == 0);
            assert(false);
        }
        if k > i {
            assert(i < len);
            assert(buffer@[i as int] == 0);
            assert(s[i as int] != 0);
            assert(false);
        }
        assert(v@ =~= s.take(k));
    }
    v
}

/// Relies on `String::from_utf8`: it returns the decoded string exactly
/// when the bytes are a valid UTF-8 encoding.
#[verifier::external_body]
fn utf8_to_string(bytes: Vec<u8>) -> (r: Option<String>)
    ensures
        r is Some <==> valid_utf8(bytes@),
        r matches Some(s) ==> s@ == decode_utf8(bytes@),
{
    match String::from_utf8(bytes) {
        Ok(s) => Some(s),
        Err(_) => None,
    }
}

/// Read a string from a byte buffer with length, as a native string
/// response is laid out: the reported length bounds the text, a NUL ends
/// it early, and a nonpositive length yields the empty string.  Bytes
/// that are not valid UTF-8 are a conversion error.
pub fn read_string_from_buffer_u8(buffer: &[u8], length: i32) -> (r: Result<String, ZipError>)
    requires
        length > 0 ==> length <= buffer@.len(),
    ensures
        r is Ok <==> valid_utf8(spec_c_bytes(buffer@, length as int)),
        r matches Ok(s) ==> s@ == decode_utf8(spec_c_bytes(buffer@, length as int)),
        r matches Err(e) ==> (e matches ZipError::StringConversion(m)
            && m@ == "invalid UTF-8 in native string buffer"@),
{
    if length <= 0 {
        assert(valid_utf8(Seq::<u8>::empty()));
        assert(decode_utf8(Seq::<u8>::empty()) =~= Seq::<char>::empty());
        return Ok(String::new());
    }
    let bytes = nul_truncated(buffer, length as usize);
    match utf8_to_string(bytes) {
        Some(s) => Ok(s),
        None => Err(
            ZipError::StringConversion(
                String::from_str("invalid UTF-8 in native string buffer"),
            ),
        ),
    }
}

/// The unsigned byte with the same bit pattern as `b`.
pub open spec fn byte_of_i8(b: i8) -> u8 {
    if b >= 0 {
        b as u8
    } else {
        (b + 256) as u8
    }
}

fn byte_of_i8_exec(b: i8) -> (r: u8)
    ensures
        r == byte_of_i8(b),
{
    if b >= 0 {
        b as u8
    } else {
        ((b as i32) + 256) as u8
    }
}

/// Read a string from a signed-char buffer with length, as the native
/// ABI declares its text buffers on platforms where C `char` is signed.
pub fn read_string_from_buffer(buffer: &[i8], length: i32) -> (r: Result<String, ZipError>)
    requires
        length > 0 ==> length <= buffer@.len(),
    ensures
        ({
            let bytes = spec_c_bytes(buffer@.map_values(|b: i8| byte_of_i8(b)), length as int);
            &&& (r is Ok <==> valid_utf8(bytes))
            &&& (r matches Ok(s) ==> s@ == decode_utf8(bytes))
        }),
        r matches Err(e) ==> (e matches ZipError::StringConversion(m)
            && m@ == "invalid UTF-8 in native string buffer"@),
{
    if length <= 0 {
        assert(valid_utf8(Seq::<u8>::empty()));
        assert(decode_utf8(Seq::<u8>::empty()) =~= Seq::<char>::empty());
        return Ok(String::new());
    }
    let len = length as usize;
    let mut unsigned: Vec<u8> = Vec::new();
    let mut i: usize = 0;
    while i < len
        invariant
            i <= len,
            len <= buffer@.len(),
            unsigned@ =~= buffer@.subrange(0, i as int).map_values(|b: i8| byte_of_i8(b)),
        decreases len - i,
    {
        unsigned.push(byte_of_i8_exec(buffer[i]));
        proof {
            assert(unsigned@ =~= buffer@.subrange(0, i + 1).map_values(|b: i8| byte_of_i8(b)));
        }
        i += 1;
    }
    proof {
        let mapped = buffer@.map_values(|b: i8| byte_of_i8(b));
        assert(unsigned@ =~= mapped.take(length as int));
        assert(unsigned@.take(length as int) =~= mapped.take(length as int));
        assert(spec_c_bytes(unsigned@, length as int) == spec_c_bytes(mapped, length as int));
    }
    read_string_from_buffer_u8(unsigned.as_slice(), length)
}

/// Interpret the response of the native last-error query.  A failing
/// query is itself not an error: a fixed fallback text stands in for the
/// unavailable message.
pub fn error_message_from_response(code: i32, buffer: &[u8], error_length: i32) -> (r: Result<
    String,
    ZipError,
>)
    requires
        error_length > 0 ==> error_length <= buffer@.len(),
    ensures
        code < 0 ==> (r matches Ok(s) && s@ == "Failed to get error message"@),
        code >= 0 ==> {
            &&& (r is Ok <==> valid_utf8(spec_c_bytes(buffer@, error_length as int)))
            &&& (r matches Ok(s) ==> s@ == decode_utf8(spec_c_bytes(buffer@, error_length as int)))
            &&& (r matches Err(e) ==> (e matches ZipError::StringConversion(m)
                && m@ == "invalid UTF-8 in native string buffer"@))
        },
{
    if code < 0 {
        Ok(String::from_str("Failed to get error message"))
    } else {
        read_string_from_buffer_u8(buffer, error_length)
    }
}

/// Check that a string can cross the C boundary: report a conversion
/// error exactly when its UTF-8 bytes contain an interior NUL.
pub fn c_string_check(s: &str) -> (r: Result<(), ZipError>)
    ensures
        r is Ok <==> !s.spec_bytes().contains(0u8),
        r matches Err(e) ==> (e matches ZipError::StringConversion(m)
            && m@ == "string contains a nul byte"@),
{
    let bytes = s.as_bytes();
    let n = bytes.len();
    let mut i: usize = 0;
    while i < n
        invariant
            i <= n,
            n == bytes@.len(),
            bytes@ == s.spec_bytes(),
            forall|j: int| 0 <= j < i ==> bytes@[j] != 0,
        decreases n - i,
    {
        if bytes[i] == 0 {
            assert(s.spec_bytes().contains(0u8));
            return Err(
                ZipError::StringConversion(String::from_str("string contains a nul byte")),
            );
        }
        i += 1;
    }
    proof {
        if s.spec_bytes().contains(0u8) {
            let j = choose|j: int| 0 <= j < s.spec_bytes().len() && s.spec_bytes()[j] == 0;
            assert(bytes@[j] != 0);
        }
    }
    Ok(())
}

} // verus!
