//! Ownership of native handles.
//!
//! The native library hands out opaque integer handles for archives and
//! entries and expects each to be released exactly once.  A
//! [`NativeHandle`] pairs the raw value with its lifecycle state: it is
//! open from acquisition until [`NativeHandle::release`], whose contract
//! makes a second release impossible, and a ghost counter carries the
//! proof that no handle value can ever record more than one release.

use vstd::prelude::*;
use crate::error::{matches_code, ZipError};

verus! {

/// A native handle together with its lifecycle state.
pub struct NativeHandle {
    raw: i64,
    open: bool,
    releases: Ghost<nat>,
}

impl NativeHandle {
    /// A handle is open until its one release.
    #[verifier::type_invariant]
    pub closed spec fn lifecycle_inv(self) -> bool {
        (self.open <==> self.releases@ == 0) && self.releases@ <= 1
    }

    /// The raw handle value of the native library.
    pub closed spec fn spec_raw(self) -> i64 {
        self.raw
    }

    /// Whether the handle has not been released yet.
    pub closed spec fn is_open(self) -> bool {
        self.open
    }

    /// How often the handle has been released.
    pub closed spec fn release_count(self) -> nat {
        self.releases@
    }

    /// Take ownership of a handle the native library returned.
    pub fn acquire(raw: i64) -> (h: NativeHandle)
        ensures
            h.spec_raw() == raw,
            h.is_open(),
            h.release_count() == 0,
    {
        NativeHandle { raw, open: true, releases: Ghost(0) }
    }

    /// The raw value, for handing to a native call.
    pub fn raw(&self) -> (r: i64)
        ensures
            r == self.spec_raw(),
    {
        self.raw
    }

    /// Whether the handle is still open.
    pub fn open(&self) -> (r: bool)
        ensures
            r == self.is_open(),
    {
        self.open
    }

    /// Give the handle up, returning the raw value for the one native
    /// release call.  The contract demands an open handle, so no handle
    /// is ever released twice.
    pub fn release(&mut self) -> (raw: i64)
        requires
            old(self).is_open(),
        ensures
            raw == old(self).spec_raw(),
            final(self).spec_raw() == old(self).spec_raw(),
            !final(self).is_open(),
            final(self).release_count() == old(self).release_count() + 1,
    {
        proof {
            use_type_invariant(&*self);
        }
        let raw = self.raw;
        *self = NativeHandle { raw, open: false, releases: Ghost(1) };
        raw
    }
}

/// Law: every handle is released at most once.  The premise is the type
/// invariant, which every reachable `NativeHandle` value carries: it ties
/// the open flag to the release count and caps that count at one.
pub proof fn lemma_release_at_most_once(h: NativeHandle)
    requires
        h.lifecycle_inv(),
    ensures
        h.release_count() <= 1,
        h.is_open() ==> h.release_count() == 0,
{
}

/// Take ownership of the archive handle a native open call returned, or
/// translate its failure code.
pub fn archive_from_response(code: i32, handle: i64) -> (r: Result<NativeHandle, ZipError>)
    ensures
        code >= 0 ==> (r matches Ok(h) && h.spec_raw() == handle && h.is_open()
            && h.release_count() == 0),
        code < 0 ==> (r matches Err(e) && matches_code(e, code as int)),
{
    if code < 0 {
        Err(ZipError::from_code(code))
    } else {
        Ok(NativeHandle::acquire(handle))
    }
}

/// Take ownership of the entry handle a native lookup returned, or
/// translate its failure.  A zero entry handle under a success code is
/// rejected as `InvalidHandle`.
pub fn entry_from_response(code: i32, handle: i64) -> (r: Result<NativeHandle, ZipError>)
    ensures
        code >= 0 && handle != 0 ==> (r matches Ok(h) && h.spec_raw() == handle && h.is_open()
            && h.release_count() == 0),
        code >= 0 && handle == 0 ==> (r matches Err(e) && e is InvalidHandle),
        code < 0 ==> (r matches Err(e) && matches_code(e, code as int)),
{
    if code < 0 {
        Err(ZipError::from_code(code))
    } else if handle == 0 {
        Err(ZipError::InvalidHandle)
    } else {
        Ok(NativeHandle::acquire(handle))
    }
}

} // verus!
