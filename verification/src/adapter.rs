//! The adapter over the patching primitive.
//!
//! The primitive itself is a black box that the host calls: given a target and
//! a replacement it installs a redirection and hands back a trampoline, given a
//! target it removes the redirection again. Its failures are untyped. The
//! functions here turn what the primitive answered into the typed result that
//! the caller of the hooking core receives. They classify and pass on; they
//! cannot undo what the primitive has half done.

use crate::error::HookError;
use dobby_rs::DobbyHookError;
use vstd::prelude::*;

verus! {

/// The failure type of the primitive, carried through as it comes.
#[verifier::external_type_specification]
#[verifier::external_body]
pub struct ExDobbyHookError(DobbyHookError);

/// The words in which the primitive describes a failure. It has a single kind
/// of failure and a single text for it.
pub open spec fn primitive_diagnostic() -> Seq<char> {
    "hook error"@
}

/// `DobbyHookError::to_string`, the primitive's own description of its
/// failure. The type has one variant, and its `Display` writes the fixed text
/// of [`primitive_diagnostic`] for it; that this is what comes back is taken
/// on trust.
#[verifier::external_body]
fn describe(error: &DobbyHookError) -> (text: String)
    ensures
        text@ == primitive_diagnostic(),
{
    error.to_string()
}

/// Puts a failure of the primitive into words, and leaves a success as it is.
///
/// This is how an answer of the primitive becomes the plain answer that an
/// [`Event`](crate::lifecycle::Event) carries.
pub fn normalize<T>(answer: Result<T, DobbyHookError>) -> (res: Result<T, String>)
    ensures
        answer matches Ok(value) ==> res == Ok::<T, String>(value),
        answer is Err ==> (res matches Err(reason) && reason@ == primitive_diagnostic()),
{
    match answer {
        Ok(value) => Ok(value),
        Err(error) => Err(describe(&error)),
    }
}

/// The typed result of an install, given the primitive's answer: the
/// trampoline address on success, the primitive's own diagnostic on failure.
pub open spec fn install_result(answer: Result<usize, String>) -> Result<usize, HookError> {
    match answer {
        Err(reason) => Err(HookError::PrimitiveFailed(reason)),
        Ok(trampoline) => if trampoline == 0 {
            Err(HookError::TrampolineNull)
        } else {
            Ok(trampoline)
        },
    }
}

/// The typed result of a remove, given the primitive's answer.
pub open spec fn remove_result(answer: Result<(), String>) -> Result<(), HookError> {
    match answer {
        Err(reason) => Err(HookError::PrimitiveFailed(reason)),
        Ok(_) => Ok(()),
    }
}

/// Classifies the primitive's answer to an install.
///
/// A failure of the primitive becomes `PrimitiveFailed` with the primitive's
/// diagnostic unchanged. A null trampoline becomes `TrampolineNull` although
/// the primitive reported success. Any other trampoline is passed on.
pub fn install(answer: Result<usize, String>) -> (res: Result<usize, HookError>)
    ensures
        res == install_result(answer),
        res is Ok <==> (answer matches Ok(trampoline) && trampoline != 0),
        res matches Ok(trampoline) ==> answer == Ok::<usize, String>(trampoline),
        answer == Ok::<usize, String>(0) ==> res == Err::<usize, HookError>(
            HookError::TrampolineNull,
        ),
        answer matches Err(reason) ==> res == Err::<usize, HookError>(
            HookError::PrimitiveFailed(reason),
        ),
{
    match answer {
        Err(reason) => Err(HookError::PrimitiveFailed(reason)),
        Ok(trampoline) => {
            if trampoline == 0 {
                Err(HookError::TrampolineNull)
            } else {
                Ok(trampoline)
            }
        },
    }
}

/// Classifies the primitive's answer to a remove.
///
/// A failure of the primitive becomes `PrimitiveFailed` with the primitive's
/// diagnostic unchanged; success stays success.
pub fn remove(answer: Result<(), String>) -> (res: Result<(), HookError>)
    ensures
        res == remove_result(answer),
        res is Ok <==> answer is Ok,
        answer matches Err(reason) ==> res == Err::<(), HookError>(
            HookError::PrimitiveFailed(reason),
        ),
{
    match answer {
        Err(reason) => Err(HookError::PrimitiveFailed(reason)),
        Ok(_) => Ok(()),
    }
}

} // verus!
