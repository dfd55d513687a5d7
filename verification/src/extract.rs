//! The resize-and-retry protocol for in-memory extraction.
//!
//! Extracting an entry to memory starts with a buffer sized from the
//! entry's reported size (or a default when that is unknown).  If the
//! native library answers that the buffer was too small, it also reports
//! the required length; the one retry runs with a buffer of exactly that
//! length.  On success the buffer is cut to the number of bytes the
//! library wrote.

use vstd::prelude::*;
use crate::codes;
use crate::error::{matches_code, ZipError};

verus! {

/// What the first extraction attempt led to.
#[derive(Debug)]
pub enum ExtractOutcome {
    /// The data, cut to the reported length.
    Complete(Vec<u8>),
    /// The buffer was too small: retry with this capacity, which is
    /// exactly the length the native library reported as required.
    Retry(usize),
    /// The attempt failed with this error.
    Failed(ZipError),
}

/// The bytes an extraction response carries: the first `data_length`
/// bytes of the buffer, all of it if the report exceeds it, none on a
/// negative report.
pub open spec fn spec_extracted(buffer: Seq<u8>, data_length: int) -> Seq<u8> {
    if data_length < 0 {
        Seq::empty()
    } else if data_length > buffer.len() {
        buffer
    } else {
        buffer.take(data_length)
    }
}

/// The capacity of the first extraction buffer: the entry's reported
/// size, or a default of 1024 when the size is unknown (zero).
pub fn initial_extract_capacity(entry_size: u64) -> (r: usize)
    requires
        entry_size <= usize::MAX,
    ensures
        entry_size == 0 ==> r == 1024,
        entry_size != 0 ==> r == entry_size,
{
    if entry_size == 0 {
        1024
    } else {
        entry_size as usize
    }
}

fn cut_to_reported(buffer: Vec<u8>, data_length: i32) -> (v: Vec<u8>)
    ensures
        v@ == spec_extracted(buffer@, data_length as int),
{
    let mut v = buffer;
    if data_length < 0 {
        v.truncate(0);
        assert(v@ =~= Seq::<u8>::empty());
    } else {
        let ghost before = v@;
        v.truncate(data_length as usize);
        proof {
            if data_length <= before.len() {
                assert(v@ =~= before.take(data_length as int));
            }
        }
    }
    v
}

/// Interpret the first extraction attempt.  A buffer-too-small answer
/// with a sensible required length asks for the one retry at exactly
/// that length; any other negative code fails; success yields the
/// buffer cut to the reported length.
pub fn extract_attempt_outcome(buffer: Vec<u8>, code: i32, data_length: i32) -> (r: ExtractOutcome)
    ensures
        (code == codes::ERROR_BUFFER_TOO_SMALL && data_length >= 0) ==> (r matches
            ExtractOutcome::Retry(n) && n == data_length),
        (code == codes::ERROR_BUFFER_TOO_SMALL && data_length < 0) ==> (r matches
            ExtractOutcome::Failed(e) && matches_code(e, code as int)),
        (code < 0 && code != codes::ERROR_BUFFER_TOO_SMALL) ==> (r matches
            ExtractOutcome::Failed(e) && matches_code(e, code as int)),
        code >= 0 ==> (r matches ExtractOutcome::Complete(v)
            && v@ == spec_extracted(buffer@, data_length as int)),
{
    if code == codes::ERROR_BUFFER_TOO_SMALL {
        if data_length >= 0 {
            ExtractOutcome::Retry(data_length as usize)
        } else {
            ExtractOutcome::Failed(ZipError::from_code(code))
        }
    } else if code < 0 {
        ExtractOutcome::Failed(ZipError::from_code(code))
    } else {
        ExtractOutcome::Complete(cut_to_reported(buffer, data_length))
    }
}

/// Interpret the retry after a buffer-too-small answer.  There is no
/// second retry: any negative code — a too-small answer included — is
/// now an error.
pub fn extract_retry_outcome(buffer: Vec<u8>, code: i32, data_length: i32) -> (r: Result<
    Vec<u8>,
    ZipError,
>)
    ensures
        code >= 0 ==> (r matches Ok(v) && v@ == spec_extracted(buffer@, data_length as int)),
        code < 0 ==> (r matches Err(e) && matches_code(e, code as int)),
{
    if code < 0 {
        Err(ZipError::from_code(code))
    } else {
        Ok(cut_to_reported(buffer, data_length))
    }
}

/// Law: extraction hands data through byte-identical.  When the native
/// library writes the bytes of an entry into the front of the buffer
/// and reports their count — as it does for data that was added from
/// memory — the wrapper returns exactly those bytes, neither cut nor
/// padded.  This is the wrapper's half of the add-then-extract round
/// trip; the native library owes the other half.
pub proof fn lemma_extract_round_trip(buffer: Seq<u8>, data: Seq<u8>)
    requires
        data.len() <= buffer.len(),
        buffer.take(data.len() as int) == data,
    ensures
        spec_extracted(buffer, data.len() as int) == data,
{
}

} // verus!
