use vstd::prelude::*;

use crate::error::FmodError;
use crate::error::STATUS_OK;
use crate::error::error_of_code;
use crate::error::is_known_code;

verus! {

/// Studio flag word for a plain initialization of the engine root.
pub const STUDIO_INIT_NORMAL: u32 = 0;

/// Studio flag word that also opens the live-authoring (live update)
/// connection.
pub const STUDIO_INIT_LIVEUPDATE: u32 = 1;

/// Core flag word the engine root is always initialized with.
pub const INIT_NORMAL: u32 = 0;

/// Flag word for a blocking bank load: the call returns once the bank is
/// fully loaded or loading has failed.
pub const LOAD_BANK_NORMAL: u32 = 0;

/// Flag word for a non-blocking bank load: the call returns at once with a
/// handle in the loading state, and population completes across later
/// `update` calls or an explicit flush.
pub const LOAD_BANK_NONBLOCKING: u32 = 1;

/// The root of the handle graph: a plain value wrapping the native address
/// of the engine context. The context itself goes through three lifecycle
/// stages - uninitialized, initialized, released - and no operation is valid
/// outside the initialized stage; the owner that creates the context also
/// releases it, exactly once, when its scope ends.
#[derive(Debug, PartialEq, Eq, Structural, Hash)]
pub struct System {
    raw: usize,
}

impl System {
    /// The wrapped native address.
    pub closed spec fn addr(&self) -> usize {
        self.raw
    }

    /// Wraps the native address of a created and initialized engine context.
    pub fn from_raw(raw: usize) -> (s: System)
        ensures
            s.addr() == raw,
    {
        System { raw }
    }

    /// The raw native address: the explicit escape hatch for handing the
    /// handle back across the native boundary.
    pub fn as_ptr(&self) -> (r: usize)
        ensures
            r == self.addr(),
    {
        self.raw
    }

    /// The studio flag word `new` initializes the engine root with: normal
    /// flags, plus the live-authoring connection when it is enabled.
    pub fn studio_init_flags(liveupdate: bool) -> (f: u32)
        ensures
            f == (if liveupdate {
                STUDIO_INIT_LIVEUPDATE
            } else {
                STUDIO_INIT_NORMAL
            }),
    {
        if liveupdate {
            STUDIO_INIT_LIVEUPDATE
        } else {
            STUDIO_INIT_NORMAL
        }
    }

    /// The flag word selecting blocking or non-blocking semantics for a bank
    /// load from file or memory.
    pub fn load_bank_flags(nonblocking: bool) -> (f: u32)
        ensures
            f == (if nonblocking {
                LOAD_BANK_NONBLOCKING
            } else {
                LOAD_BANK_NORMAL
            }),
    {
        if nonblocking {
            LOAD_BANK_NONBLOCKING
        } else {
            LOAD_BANK_NORMAL
        }
    }
}

/// How the two-step bring-up of the engine root ends.
#[derive(Clone, Copy, Debug, PartialEq, Eq, Structural, Hash)]
pub enum SystemSetup {
    /// Both steps succeeded: the context may be handed out.
    Ready,
    /// Context creation failed; nothing was allocated, only the error is
    /// surfaced.
    FailedCreate(FmodError),
    /// Creation succeeded but initialization failed: the created context
    /// must be released before the error is surfaced, so that no
    /// half-initialized handle ever escapes.
    FailedInitialize(FmodError),
}

/// Decides how the engine root's two-step bring-up ends, from the status
/// code of context creation and - only when creation succeeded - the status
/// code of initialization. The two steps succeed or fail atomically from the
/// caller's view: `FailedInitialize` instructs the caller to release the
/// created context before surfacing the error.
pub fn initialization_outcome(create_status: u32, init_status: Option<u32>) -> (r: SystemSetup)
    requires
        is_known_code(create_status),
        (create_status == STATUS_OK) == (init_status is Some),
        init_status is Some ==> is_known_code(init_status->0),
    ensures
        create_status != STATUS_OK ==> r == SystemSetup::FailedCreate(
            error_of_code(create_status),
        ),
        create_status == STATUS_OK && init_status->0 != STATUS_OK ==> r
            == SystemSetup::FailedInitialize(error_of_code(init_status->0)),
        create_status == STATUS_OK && init_status->0 == STATUS_OK ==> r == SystemSetup::Ready,
{
    match FmodError::from_result(create_status) {
        Err(e) => SystemSetup::FailedCreate(e),
        Ok(()) => match init_status {
            Some(code) => match FmodError::from_result(code) {
                Err(e) => SystemSetup::FailedInitialize(e),
                Ok(()) => SystemSetup::Ready,
            },
            None => vstd::pervasive::unreached(),
        },
    }
}

} // verus!
