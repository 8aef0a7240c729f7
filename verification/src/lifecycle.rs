//! The hook lifecycle: `hook` and `unhook`.
//!
//! Neither operation touches the process itself. Each is a small machine that
//! tells its host what to do next and is told what came of it:
//!
//! 1. the addresses are checked, and a null address ends the operation at
//!    once, before anything is asked of the host;
//! 2. the host is asked to run the protection bypass;
//! 3. the host is asked to call the patching primitive, and its answer,
//!    classified by the adapter, is the result of the operation.
//!
//! The host performs the [`Action`] of a [`HookStep::Perform`] or
//! [`UnhookStep::Perform`], then calls `resume` on the state that came with it,
//! handing over the [`Event`] that reports the action. It goes on until the
//! step is `Done`. An event that does not report the awaited action changes
//! nothing: the same action is asked for again.

use crate::adapter::{install, install_result, remove, remove_result};
use crate::error::HookError;
use vstd::prelude::*;

verus! {

/// A request to redirect `target` to `replacement`.
#[derive(Debug, Clone, Copy, PartialEq, Eq)]
pub struct HookRequest {
    pub target: usize,
    pub replacement: usize,
}

impl HookRequest {
    /// A request is valid when neither address is null.
    pub open spec fn valid(self) -> bool {
        self.target != 0 && self.replacement != 0
    }

    /// Checks the two addresses, the target first.
    pub fn new(target: usize, replacement: usize) -> (res: Result<HookRequest, HookError>)
        ensures
            target == 0 ==> res == Err::<HookRequest, HookError>(HookError::NullTarget),
            target != 0 && replacement == 0 ==> res == Err::<HookRequest, HookError>(
                HookError::NullReplacement,
            ),
            target != 0 && replacement != 0 ==> res == Ok::<HookRequest, HookError>(
                (HookRequest { target, replacement }),
            ),
            res matches Ok(request) ==> request.valid(),
    {
        if target == 0 {
            Err(HookError::NullTarget)
        } else if replacement == 0 {
            Err(HookError::NullReplacement)
        } else {
            Ok(HookRequest { target, replacement })
        }
    }
}

/// What the host is asked to do.
#[derive(Debug, Clone, Copy, PartialEq, Eq)]
pub enum Action {
    /// Run the protection bypass.
    EnsureUnprotected,
    /// Call the primitive's install with the two addresses of the request.
    Install(HookRequest),
    /// Call the primitive's remove with this target.
    Remove(usize),
}

/// What the host reports back.
#[derive(Debug, PartialEq, Eq)]
pub enum Event {
    /// The protection bypass has run. It reports no failure.
    Unprotected,
    /// The primitive's answer to an install: the trampoline, or its diagnostic.
    Installed(Result<usize, String>),
    /// The primitive's answer to a remove.
    Removed(Result<(), String>),
}

/// Whether `event` reports the outcome of `action`.
pub open spec fn reports(event: Event, action: Action) -> bool {
    match action {
        Action::EnsureUnprotected => event is Unprotected,
        Action::Install(_) => event is Installed,
        Action::Remove(_) => event is Removed,
    }
}

/// Where a hook installation stands while it waits for its host.
#[derive(Debug, Clone, Copy, PartialEq, Eq)]
pub enum HookState {
    /// The bypass has been asked for.
    Bypassing(HookRequest),
    /// The primitive's install has been asked for.
    Installing(HookRequest),
}

/// One step of a hook installation.
#[derive(Debug, PartialEq, Eq)]
pub enum HookStep {
    /// The host performs the action and resumes the state with its report.
    Perform(Action, HookState),
    /// The installation is over: the trampoline, or why there is none.
    Done(Result<usize, HookError>),
}

/// Where a hook removal stands while it waits for its host.
#[derive(Debug, Clone, Copy, PartialEq, Eq)]
pub enum UnhookState {
    /// The bypass has been asked for; the target is kept for the remove.
    Bypassing(usize),
    /// The primitive's remove has been asked for.
    Removing(usize),
}

/// One step of a hook removal.
#[derive(Debug, PartialEq, Eq)]
pub enum UnhookStep {
    /// The host performs the action and resumes the state with its report.
    Perform(Action, UnhookState),
    /// The removal is over.
    Done(Result<(), HookError>),
}

/// The first step of installing a hook.
pub open spec fn hook_begin(target: usize, replacement: usize) -> HookStep {
    if target == 0 {
        HookStep::Done(Err(HookError::NullTarget))
    } else if replacement == 0 {
        HookStep::Done(Err(HookError::NullReplacement))
    } else {
        HookStep::Perform(
            Action::EnsureUnprotected,
            HookState::Bypassing(HookRequest { target, replacement }),
        )
    }
}

/// The first step of removing a hook.
pub open spec fn unhook_begin(target: usize) -> UnhookStep {
    if target == 0 {
        UnhookStep::Done(Err(HookError::NullTarget))
    } else {
        UnhookStep::Perform(Action::EnsureUnprotected, UnhookState::Bypassing(target))
    }
}

impl HookState {
    /// The action that this state waits for.
    pub open spec fn awaited(self) -> Action {
        match self {
            HookState::Bypassing(_) => Action::EnsureUnprotected,
            HookState::Installing(request) => Action::Install(request),
        }
    }

    /// The step that follows this state on `event`.
    pub open spec fn next(self, event: Event) -> HookStep {
        match (self, event) {
            (HookState::Bypassing(request), Event::Unprotected) => HookStep::Perform(
                Action::Install(request),
                HookState::Installing(request),
            ),
            (HookState::Installing(_), Event::Installed(answer)) => HookStep::Done(
                install_result(answer),
            ),
            _ => HookStep::Perform(self.awaited(), self),
        }
    }

    /// Takes the host's report and says how the installation goes on.
    ///
    /// After the bypass the primitive's install is asked for, with the
    /// addresses of the request. The primitive's answer ends the installation
    /// with the result that the adapter gives it. Any other event leaves the
    /// state as it is and asks for the awaited action again.
    pub fn resume(self, event: Event) -> (step: HookStep)
        ensures
            step == self.next(event),
            !reports(event, self.awaited()) ==> step == HookStep::Perform(self.awaited(), self),
            self matches HookState::Bypassing(request) ==> (event is Unprotected ==> step
                == HookStep::Perform(Action::Install(request), HookState::Installing(request))),
            event matches Event::Installed(answer) ==> (self is Installing ==> step
                == HookStep::Done(install_result(answer))),
    {
        match self {
            HookState::Bypassing(request) => match event {
                Event::Unprotected => HookStep::Perform(
                    Action::Install(request),
                    HookState::Installing(request),
                ),
                _ => HookStep::Perform(Action::EnsureUnprotected, self),
            },
            HookState::Installing(request) => match event {
                Event::Installed(answer) => HookStep::Done(install(answer)),
                _ => HookStep::Perform(Action::Install(request), self),
            },
        }
    }
}

impl UnhookState {
    /// The action that this state waits for.
    pub open spec fn awaited(self) -> Action {
        match self {
            UnhookState::Bypassing(_) => Action::EnsureUnprotected,
            UnhookState::Removing(target) => Action::Remove(target),
        }
    }

    /// The step that follows this state on `event`.
    pub open spec fn next(self, event: Event) -> UnhookStep {
        match (self, event) {
            (UnhookState::Bypassing(target), Event::Unprotected) => UnhookStep::Perform(
                Action::Remove(target),
                UnhookState::Removing(target),
            ),
            (UnhookState::Removing(_), Event::Removed(answer)) => UnhookStep::Done(
                remove_result(answer),
            ),
            _ => UnhookStep::Perform(self.awaited(), self),
        }
    }

    /// Takes the host's report and says how the removal goes on.
    ///
    /// After the bypass the primitive's remove is asked for, with the target.
    /// The primitive's answer ends the removal with the result that the
    /// adapter gives it. Any other event leaves the state as it is and asks
    /// for the awaited action again.
    pub fn resume(self, event: Event) -> (step: UnhookStep)
        ensures
            step == self.next(event),
            !reports(event, self.awaited()) ==> step == UnhookStep::Perform(
                self.awaited(),
                self,
            ),
            self matches UnhookState::Bypassing(target) ==> (event is Unprotected ==> step
                == UnhookStep::Perform(Action::Remove(target), UnhookState::Removing(target))),
            event matches Event::Removed(answer) ==> (self is Removing ==> step
                == UnhookStep::Done(remove_result(answer))),
    {
        match self {
            UnhookState::Bypassing(target) => match event {
                Event::Unprotected => UnhookStep::Perform(
                    Action::Remove(target),
                    UnhookState::Removing(target),
                ),
                _ => UnhookStep::Perform(Action::EnsureUnprotected, self),
            },
            UnhookState::Removing(target) => match event {
                Event::Removed(answer) => UnhookStep::Done(remove(answer)),
                _ => UnhookStep::Perform(Action::Remove(target), self),
            },
        }
    }
}

/// Begins to redirect calls of `target` to `replacement`.
///
/// A null target ends the operation with `NullTarget`, a null replacement with
/// `NullReplacement`, the target being looked at first. In both cases the step
/// is `Done`: nothing is asked of the host, no memory is written and the
/// primitive is not called. Otherwise the host is asked to run the bypass.
pub fn hook(target: usize, replacement: usize) -> (step: HookStep)
    ensures
        step == hook_begin(target, replacement),
        target == 0 ==> step == HookStep::Done(Err(HookError::NullTarget)),
        target != 0 && replacement == 0 ==> step == HookStep::Done(
            Err(HookError::NullReplacement),
        ),
        target != 0 && replacement != 0 ==> step == HookStep::Perform(
            Action::EnsureUnprotected,
            HookState::Bypassing((HookRequest { target, replacement })),
        ),
{
    match HookRequest::new(target, replacement) {
        Err(error) => HookStep::Done(Err(error)),
        Ok(request) => HookStep::Perform(Action::EnsureUnprotected, HookState::Bypassing(request)),
    }
}

/// Begins to take the hook off `target`.
///
/// A null target ends the operation with `NullTarget`: nothing is asked of the
/// host and the primitive is not called. Otherwise the host is asked to run
/// the bypass.
pub fn unhook(target: usize) -> (step: UnhookStep)
    ensures
        step == unhook_begin(target),
        target == 0 ==> step == UnhookStep::Done(Err(HookError::NullTarget)),
        target != 0 ==> step == UnhookStep::Perform(
            Action::EnsureUnprotected,
            UnhookState::Bypassing(target),
        ),
{
    if target == 0 {
        UnhookStep::Done(Err(HookError::NullTarget))
    } else {
        UnhookStep::Perform(Action::EnsureUnprotected, UnhookState::Bypassing(target))
    }
}

} // verus!
