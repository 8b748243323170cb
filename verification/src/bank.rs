use vstd::prelude::*;

use crate::error::FmodError;
use crate::error::STATUS_OK;
use crate::error::error_of_code;
use crate::error::is_known_code;

verus! {

/// Enumerated progress of a bank's content metadata, or of its sample data
/// once streaming has been requested.
#[derive(Clone, Copy, Debug, PartialEq, Eq, Structural, Hash, PartialOrd, Ord)]
pub enum LoadingState {
    Unloading,
    Unloaded,
    Loading,
    Loaded,
    Error,
}

/// Largest value of the native loading-state enumeration; every defined
/// state value lies in `0..=LAST_LOADING_STATE`.
pub const LAST_LOADING_STATE: u32 = 4;

/// Holds of the loading-state values the native layer may report. Anything
/// outside this set is a binary-compatibility violation, fatal by design.
pub open spec fn is_known_loading_state(v: u32) -> bool {
    v <= LAST_LOADING_STATE
}

/// The loading state a native enumeration value stands for.
pub open spec fn loading_state_of(v: u32) -> LoadingState
    recommends
        is_known_loading_state(v),
{
    if v == 0 {
        LoadingState::Unloading
    } else if v == 1 {
        LoadingState::Unloaded
    } else if v == 2 {
        LoadingState::Loading
    } else if v == 3 {
        LoadingState::Loaded
    } else {
        LoadingState::Error
    }
}

impl LoadingState {
    /// Translates a native loading-state enumeration value. An unrecognized
    /// value must never be reported; callers rule it out at the boundary,
    /// treating it as a contract violation rather than an error kind.
    pub fn from_native(v: u32) -> (s: LoadingState)
        requires
            is_known_loading_state(v),
        ensures
            s == loading_state_of(v),
    {
        match v {
            0u32 => LoadingState::Unloading,
            1u32 => LoadingState::Unloaded,
            2u32 => LoadingState::Loading,
            3u32 => LoadingState::Loaded,
            4u32 => LoadingState::Error,
            _ => vstd::pervasive::unreached(),
        }
    }

    /// What a loading-state query returns, given the status code of the
    /// native call and the state value it reported: the decoded state when
    /// the call succeeded, the matching error kind otherwise. This is the
    /// whole decision of `get_loading_state` and `get_sample_loading_state`;
    /// only the native call itself stands outside it.
    pub fn decode_query(status: u32, state: u32) -> (r: Result<LoadingState, FmodError>)
        requires
            is_known_code(status),
            status == STATUS_OK ==> is_known_loading_state(state),
        ensures
            status == STATUS_OK ==> r == Ok::<LoadingState, FmodError>(loading_state_of(state)),
            status != STATUS_OK ==> r == Err::<LoadingState, FmodError>(error_of_code(status)),
    {
        match FmodError::from_result(status) {
            Err(e) => Err(e),
            Ok(()) => Ok(LoadingState::from_native(state)),
        }
    }
}

/// A handle to loaded content: a plain value wrapping the native address of
/// a bank owned by the engine root's loaded-bank table. Copying a handle
/// aliases the same underlying resource; it duplicates nothing. Once the
/// bank is unloaded, every operation through any alias fails with an
/// invalid-handle-class error from the native layer.
#[derive(Clone, Copy, Debug, PartialEq, Eq, Structural, Hash)]
pub struct Bank {
    raw: usize,
}

impl Bank {
    /// The wrapped native address.
    pub closed spec fn addr(&self) -> usize {
        self.raw
    }

    /// Wraps a native bank address handed out by the engine.
    pub fn from_raw(raw: usize) -> (b: Bank)
        ensures
            b.addr() == raw,
    {
        Bank { raw }
    }

    /// The raw native address: the explicit escape hatch for handing the
    /// handle back across the native boundary.
    pub fn as_ptr(&self) -> (r: usize)
        ensures
            r == self.addr(),
    {
        self.raw
    }
}

} // verus!
