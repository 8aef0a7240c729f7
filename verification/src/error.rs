//! The failures that the hooking core reports.

use vstd::prelude::*;
use vstd::string::StringExecFns;

verus! {

/// Why a hook or unhook attempt failed.
#[derive(Debug, Clone, PartialEq, Eq)]
pub enum HookError {
    /// The target address was the reserved null value.
    NullTarget,
    /// The replacement address was the reserved null value.
    NullReplacement,
    /// The protection bypass could not be carried out. The bypass of this
    /// crate is best effort and never ends an attempt; the kind is kept for
    /// hosts that treat a failed bypass as fatal.
    BypassFailed,
    /// The patching primitive rejected the request; the text is its own
    /// diagnostic and is not interpreted.
    PrimitiveFailed(String),
    /// The patching primitive reported success but handed back no trampoline.
    TrampolineNull,
}

/// What can go wrong with a patching primitive that is loaded at run time.
#[derive(Debug, Clone, Copy, PartialEq, Eq)]
pub enum DobbyError {
    /// The primitive's library could not be loaded.
    FailedToLoadDobby,
    /// The path of the primitive's library could not be found out.
    FailedToGetDobbyPath,
    /// The library lacks a function that is needed.
    FailedToGetFunction,
    /// The primitive did not install the hook.
    FailedToHookFunction,
    /// The primitive did not remove the hook.
    FailedToUnhookFunction,
}

impl DobbyError {
    /// The text that describes the failure.
    pub open spec fn text(self) -> Seq<char> {
        match self {
            DobbyError::FailedToLoadDobby => "Failed to load Dobby!"@,
            DobbyError::FailedToGetDobbyPath => "Failed to get Dobby path!"@,
            DobbyError::FailedToGetFunction => "Failed to get Function!"@,
            DobbyError::FailedToHookFunction => "Failed to hook Function!"@,
            DobbyError::FailedToUnhookFunction => "Failed to unhook Function!"@,
        }
    }

    /// The text that describes the failure, as a string.
    pub fn message(&self) -> (message: String)
        ensures
            message@ == self.text(),
    {
        match self {
            DobbyError::FailedToLoadDobby => String::from_str("Failed to load Dobby!"),
            DobbyError::FailedToGetDobbyPath => String::from_str("Failed to get Dobby path!"),
            DobbyError::FailedToGetFunction => String::from_str("Failed to get Function!"),
            DobbyError::FailedToHookFunction => String::from_str("Failed to hook Function!"),
            DobbyError::FailedToUnhookFunction => String::from_str("Failed to unhook Function!"),
        }
    }
}

} // verus!
