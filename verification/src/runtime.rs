//! The lifecycle of the native runtime: one isolate and one thread handle
//! per process, created by at most one initialization attempt and torn
//! down at most once.
//!
//! The native calls themselves (creating the isolate, initializing and
//! cleaning up the zip engine, tearing the isolate down) happen outside
//! this crate.  Here the whole decision logic is verified: each step takes
//! the current [`RuntimeState`] and the raw results of a native call, and
//! returns the next state together with what the caller must do or report.

use vstd::prelude::*;
use vstd::string::*;
use crate::decimal::{dec_int, i32_to_dec_string};
use crate::error::{matches_code, ZipError};

verus! {

/// The process-wide state of the native runtime: whether an
/// initialization attempt has already run, and the isolate thread handle
/// (zero while no isolate exists).
#[derive(Debug, Clone, Copy)]
pub struct RuntimeState {
    /// Whether an initialization attempt has completed (successfully or
    /// not).  A later initialization request never runs a second attempt.
    pub attempted: bool,
    /// The native isolate thread handle; zero means none.
    pub thread: i64,
}

/// What an initialization request must do.
#[derive(Debug)]
pub enum InitAction {
    /// An attempt has already run: report success at once, create nothing.
    Done,
    /// No attempt has run yet: create the isolate.
    CreateIsolate,
}

/// What to do after the isolate-creation call returned.
#[derive(Debug)]
pub enum InitStep {
    /// The isolate exists: run the zip engine's own initialization.
    RunZipInit,
    /// Isolate creation failed: report this error.
    Failed(ZipError),
}

/// What a teardown request must do.
#[derive(Debug)]
pub enum CleanupAction {
    /// No isolate exists: report success at once, call nothing.
    NothingToDo,
    /// Run the zip engine cleanup, then tear the isolate down.
    RunTeardown,
}

/// The action an initialization request takes in the given state.
pub open spec fn spec_init_action(state: RuntimeState) -> InitAction {
    if state.attempted {
        InitAction::Done
    } else {
        InitAction::CreateIsolate
    }
}

/// The state after the isolate-creation call returned `code`.
pub open spec fn spec_after_create(state: RuntimeState, code: i32, thread: i64) -> RuntimeState {
    if code != 0 {
        RuntimeState { attempted: true, thread: state.thread }
    } else {
        RuntimeState { attempted: false, thread: thread }
    }
}

/// The state after the zip engine's initialization call returned.
pub open spec fn spec_after_zip_init(state: RuntimeState) -> RuntimeState {
    RuntimeState { attempted: true, thread: state.thread }
}

/// The action a teardown request takes in the given state.
pub open spec fn spec_cleanup_action(state: RuntimeState) -> CleanupAction {
    if state.thread == 0 {
        CleanupAction::NothingToDo
    } else {
        CleanupAction::RunTeardown
    }
}

impl RuntimeState {
    /// Whether the native runtime is ready for calls.
    pub open spec fn spec_initialized(self) -> bool {
        self.thread != 0
    }

    /// The state of a process in which no initialization has run.
    pub fn new() -> (r: RuntimeState)
        ensures
            !r.attempted,
            r.thread == 0,
            !r.spec_initialized(),
    {
        RuntimeState { attempted: false, thread: 0 }
    }
}

/// Initialize the native runtime: decide whether an isolate must be
/// created.  Initialization is idempotent: once an attempt has run, every
/// further request completes at once with success and creates nothing.
pub fn init(state: &RuntimeState) -> (a: InitAction)
    ensures
        a == spec_init_action(*state),
{
    if state.attempted {
        InitAction::Done
    } else {
        InitAction::CreateIsolate
    }
}

/// Record the result of the isolate-creation call.  On failure the
/// attempt is over and is reported as an unknown error carrying the
/// creation code; on success the thread handle is stored and the zip
/// engine's own initialization still has to run.
pub fn init_isolate_created(state: &mut RuntimeState, code: i32, thread: i64) -> (step: InitStep)
    requires
        !old(state).attempted,
    ensures
        *final(state) == spec_after_create(*old(state), code, thread),
        code != 0 ==> (step matches InitStep::Failed(e) && (e matches ZipError::Unknown(m)
            && m@ == "Failed to create GraalVM isolate: "@ + dec_int(code as int))),
        code == 0 ==> step is RunZipInit,
{
    if code != 0 {
        state.attempted = true;
        let mut m = String::from_str("Failed to create GraalVM isolate: ");
        let digits = i32_to_dec_string(code);
        m.append(digits.as_str());
        InitStep::Failed(ZipError::Unknown(m))
    } else {
        state.thread = thread;
        InitStep::RunZipInit
    }
}

/// Record the result of the zip engine's initialization call, ending the
/// one initialization attempt.  A nonzero code is reported through the
/// status-code translation; the isolate stays as it is either way.
pub fn init_zip_ready(state: &mut RuntimeState, code: i32) -> (r: Result<(), ZipError>)
    requires
        !old(state).attempted,
    ensures
        *final(state) == spec_after_zip_init(*old(state)),
        code == 0 ==> r is Ok,
        code != 0 ==> (r matches Err(e) && matches_code(e, code as int)),
{
    state.attempted = true;
    if code != 0 {
        Err(ZipError::from_code(code))
    } else {
        Ok(())
    }
}

/// Tear the native runtime down: decide whether anything must run.
/// With no isolate present the request succeeds at once.
pub fn cleanup(state: &RuntimeState) -> (a: CleanupAction)
    ensures
        a == spec_cleanup_action(*state),
{
    if state.thread == 0 {
        CleanupAction::NothingToDo
    } else {
        CleanupAction::RunTeardown
    }
}

/// Record the results of the teardown calls.  A failure of the zip
/// engine's own cleanup (`cleanup_code`) is deliberately not an error:
/// teardown continues, and the caller may report it as a warning.  A
/// failed isolate teardown leaves the state as it was and is reported; on
/// success the thread handle is cleared.  The attempt flag never resets:
/// a torn-down runtime is not initialized again.
pub fn cleanup_finished(state: &mut RuntimeState, cleanup_code: i32, teardown_code: i32) -> (r:
    Result<(), ZipError>)
    requires
        old(state).thread != 0,
    ensures
        final(state).attempted == old(state).attempted,
        teardown_code != 0 ==> (final(state).thread == old(state).thread && (r matches Err(e)
            && (e matches ZipError::Unknown(m)
            && m@ == "Failed to tear down GraalVM isolate: "@ + dec_int(teardown_code as int)))),
        teardown_code == 0 ==> (final(state).thread == 0 && r is Ok),
{
    let _ = cleanup_code;
    if teardown_code != 0 {
        let mut m = String::from_str("Failed to tear down GraalVM isolate: ");
        let digits = i32_to_dec_string(teardown_code);
        m.append(digits.as_str());
        Err(ZipError::Unknown(m))
    } else {
        state.thread = 0;
        Ok(())
    }
}

/// Check if the library is initialized.
pub fn is_initialized(state: &RuntimeState) -> (r: bool)
    ensures
        r == state.spec_initialized(),
{
    state.thread != 0
}

/// Ensure the library is initialized, returning an error if not.
pub fn ensure_initialized(state: &RuntimeState) -> (r: Result<(), ZipError>)
    ensures
        r is Ok <==> state.spec_initialized(),
        !state.spec_initialized() ==> (r matches Err(e) && (e matches ZipError::Unknown(m)
            && m@ == "Library not initialized. Call init() first."@)),
{
    if state.thread != 0 {
        Ok(())
    } else {
        Err(ZipError::Unknown(String::from_str("Library not initialized. Call init() first.")))
    }
}

/// Law: initialization is idempotent.  Once an attempt has run, an
/// initialization request completes at once and never asks for another
/// isolate to be created.
pub proof fn lemma_init_idempotent(state: RuntimeState)
    requires
        state.attempted,
    ensures
        spec_init_action(state) is Done,
{
}

/// Law: initialization runs at most once.  Starting from a state with no
/// attempt, whichever way the attempt ends — isolate creation fails, or
/// the zip engine's initialization runs — every later initialization
/// request finds the attempt recorded and creates nothing.
pub proof fn lemma_init_runs_at_most_once(s0: RuntimeState, code: i32, thread: i64)
    requires
        !s0.attempted,
    ensures
        code != 0 ==> spec_init_action(spec_after_create(s0, code, thread)) is Done,
        code == 0 ==> spec_init_action(spec_after_zip_init(spec_after_create(s0, code, thread)))
            is Done,
{
}

} // verus!
