//! Whole runs of `hook` and `unhook`, against a host that does as it is told.
//!
//! Nothing here is executable. A faithful host performs each action that it is
//! asked for and reports it with the matching event. The functions below
//! follow the lifecycle machines against such a host, and the lemmas say what
//! every run asks of the host, what it leaves behind in the process, and what
//! it comes to.

use crate::adapter::{install_result, remove_result};
use crate::bypass::{is_unprotected, neutralized};
use crate::error::HookError;
use crate::lifecycle::{
    hook_begin, unhook_begin, Action, Event, HookRequest, HookStep, UnhookStep,
};
use vstd::prelude::*;

verus! {

/// What the primitive of a host answers to an install and to a remove.
pub struct Answers {
    pub install: Result<usize, String>,
    pub remove: Result<(), String>,
}

/// The part of a process that hooking touches.
pub struct Process {
    /// The entry window of the protection-change primitive.
    pub entry: Seq<u8>,
    /// The targets on which the primitive has been asked to install a hook
    /// and has not since been asked to remove it.
    pub hooked: Set<usize>,
}

/// The event by which a faithful host reports `action`.
pub open spec fn report(action: Action, answers: Answers) -> Event {
    match action {
        Action::EnsureUnprotected => Event::Unprotected,
        Action::Install(_) => Event::Installed(answers.install),
        Action::Remove(_) => Event::Removed(answers.remove),
    }
}

/// The process after a faithful host has performed `action` in it: the
/// bypass neutralizes the entry window, an install adds its target to the
/// hooked ones, a remove takes its target out.
pub open spec fn perform(process: Process, action: Action) -> Process {
    match action {
        Action::EnsureUnprotected => Process { entry: neutralized(process.entry), ..process },
        Action::Install(request) => Process {
            hooked: process.hooked.insert(request.target),
            ..process
        },
        Action::Remove(target) => Process { hooked: process.hooked.remove(target), ..process },
    }
}

/// The process after a faithful host has performed `actions` in it, in order.
pub open spec fn perform_all(process: Process, actions: Seq<Action>) -> Process
    decreases actions.len(),
{
    if actions.len() == 0 {
        process
    } else {
        perform(perform_all(process, actions.drop_last()), actions.last())
    }
}

/// The actions that a faithful host performs from `step` on, in order, if it
/// performs at most `limit` of them.
pub open spec fn hook_actions(step: HookStep, answers: Answers, limit: nat) -> Seq<Action>
    decreases limit,
{
    match step {
        HookStep::Done(_) => Seq::empty(),
        HookStep::Perform(action, state) => if limit == 0 {
            Seq::empty()
        } else {
            seq![action] + hook_actions(
                state.next(report(action, answers)),
                answers,
                (limit - 1) as nat,
            )
        },
    }
}

/// The result that a faithful host receives from `step` on, if the
/// installation ends within `limit` actions.
pub open spec fn hook_result(step: HookStep, answers: Answers, limit: nat) -> Option<
    Result<usize, HookError>,
>
    decreases limit,
{
    match step {
        HookStep::Done(result) => Some(result),
        HookStep::Perform(action, state) => if limit == 0 {
            None
        } else {
            hook_result(state.next(report(action, answers)), answers, (limit - 1) as nat)
        },
    }
}

/// The actions that a faithful host performs from `step` on, in order, if it
/// performs at most `limit` of them.
pub open spec fn unhook_actions(step: UnhookStep, answers: Answers, limit: nat) -> Seq<Action>
    decreases limit,
{
    match step {
        UnhookStep::Done(_) => Seq::empty(),
        UnhookStep::Perform(action, state) => if limit == 0 {
            Seq::empty()
        } else {
            seq![action] + unhook_actions(
                state.next(report(action, answers)),
                answers,
                (limit - 1) as nat,
            )
        },
    }
}

/// The result that a faithful host receives from `step` on, if the removal
/// ends within `limit` actions.
pub open spec fn unhook_result(step: UnhookStep, answers: Answers, limit: nat) -> Option<
    Result<(), HookError>,
>
    decreases limit,
{
    match step {
        UnhookStep::Done(result) => Some(result),
        UnhookStep::Perform(action, state) => if limit == 0 {
            None
        } else {
            unhook_result(state.next(report(action, answers)), answers, (limit - 1) as nat)
        },
    }
}

/// What installing a hook comes to, said directly: a null address is
/// refused, the target first; otherwise the primitive's answer decides.
pub open spec fn hook_outcome(target: usize, replacement: usize, answer: Result<usize, String>)
    -> Result<usize, HookError> {
    if target == 0 {
        Err(HookError::NullTarget)
    } else if replacement == 0 {
        Err(HookError::NullReplacement)
    } else {
        install_result(answer)
    }
}

/// What removing a hook comes to, said directly.
pub open spec fn unhook_outcome(target: usize, answer: Result<(), String>) -> Result<
    (),
    HookError,
> {
    if target == 0 {
        Err(HookError::NullTarget)
    } else {
        remove_result(answer)
    }
}

/// Installing a hook takes at most two actions, whatever the primitive
/// answers. With a null address nothing at all is asked of the host.
/// Otherwise the bypass runs first, then the primitive's install is called
/// once, with the two addresses as they were given. The result is the one that
/// [`hook_outcome`] states.
pub proof fn lemma_hook_run(target: usize, replacement: usize, answers: Answers)
    ensures
        hook_result(hook_begin(target, replacement), answers, 2) == Some(
            hook_outcome(target, replacement, answers.install),
        ),
        target == 0 || replacement == 0 ==> hook_actions(
            hook_begin(target, replacement),
            answers,
            2,
        ) == Seq::<Action>::empty(),
        target != 0 && replacement != 0 ==> hook_actions(
            hook_begin(target, replacement),
            answers,
            2,
        ) == seq![Action::EnsureUnprotected, Action::Install((HookRequest { target, replacement }))],
{
    reveal_with_fuel(hook_result, 3);
    reveal_with_fuel(hook_actions, 3);
    if target != 0 && replacement != 0 {
        let request = HookRequest { target, replacement };
        assert(hook_actions(hook_begin(target, replacement), answers, 2) =~= seq![
            Action::EnsureUnprotected,
            Action::Install(request),
        ]);
    }
}

/// Removing a hook takes at most two actions, whatever the primitive answers.
/// With a null target nothing at all is asked of the host. Otherwise the
/// bypass runs first, then the primitive's remove is called once, with the
/// target as it was given. The result is the one that [`unhook_outcome`]
/// states.
pub proof fn lemma_unhook_run(target: usize, answers: Answers)
    ensures
        unhook_result(unhook_begin(target), answers, 2) == Some(
            unhook_outcome(target, answers.remove),
        ),
        target == 0 ==> unhook_actions(unhook_begin(target), answers, 2) == Seq::<
            Action,
        >::empty(),
        target != 0 ==> unhook_actions(unhook_begin(target), answers, 2)
            == seq![Action::EnsureUnprotected, Action::Remove(target)],
{
    reveal_with_fuel(unhook_result, 3);
    reveal_with_fuel(unhook_actions, 3);
    if target != 0 {
        assert(unhook_actions(unhook_begin(target), answers, 2) =~= seq![
            Action::EnsureUnprotected,
            Action::Remove(target),
        ]);
    }
}

/// What installing a hook leaves behind in the process. With a null address
/// the process is as it was: no memory is written and the primitive holds
/// what it held. Otherwise the entry window has been neutralized and the
/// target has been added to the hooked ones.
pub proof fn lemma_hook_effect(
    process: Process,
    target: usize,
    replacement: usize,
    answers: Answers,
)
    ensures
        target == 0 || replacement == 0 ==> perform_all(
            process,
            hook_actions(hook_begin(target, replacement), answers, 2),
        ) == process,
        target != 0 && replacement != 0 ==> perform_all(
            process,
            hook_actions(hook_begin(target, replacement), answers, 2),
        ) == (Process {
            entry: neutralized(process.entry),
            hooked: process.hooked.insert(target),
        }),
{
    lemma_hook_run(target, replacement, answers);
    reveal_with_fuel(perform_all, 3);
    let actions = hook_actions(hook_begin(target, replacement), answers, 2);
    if target != 0 && replacement != 0 {
        assert(actions.drop_last() =~= seq![Action::EnsureUnprotected]);
        assert(actions.drop_last().drop_last() =~= Seq::<Action>::empty());
    }
}

/// What removing a hook leaves behind in the process. With a null target the
/// process is as it was. Otherwise the entry window has been neutralized and
/// the target has been taken out of the hooked ones.
pub proof fn lemma_unhook_effect(process: Process, target: usize, answers: Answers)
    ensures
        target == 0 ==> perform_all(
            process,
            unhook_actions(unhook_begin(target), answers, 2),
        ) == process,
        target != 0 ==> perform_all(process, unhook_actions(unhook_begin(target), answers, 2))
            == (Process {
            entry: neutralized(process.entry),
            hooked: process.hooked.remove(target),
        }),
{
    lemma_unhook_run(target, answers);
    reveal_with_fuel(perform_all, 3);
    let actions = unhook_actions(unhook_begin(target), answers, 2);
    if target != 0 {
        assert(actions.drop_last() =~= seq![Action::EnsureUnprotected]);
        assert(actions.drop_last().drop_last() =~= Seq::<Action>::empty());
    }
}

/// Installing a hook on a target and then removing the hook from the same
/// target leaves a primitive that held nothing hooked with nothing hooked,
/// whatever the addresses are and whatever the primitive answers.
pub proof fn lemma_hook_then_unhook_leaves_nothing_hooked(
    process: Process,
    target: usize,
    replacement: usize,
    answers: Answers,
)
    requires
        process.hooked == Set::<usize>::empty(),
    ensures
        perform_all(
            perform_all(process, hook_actions(hook_begin(target, replacement), answers, 2)),
            unhook_actions(unhook_begin(target), answers, 2),
        ).hooked == Set::<usize>::empty(),
{
    let hooked = perform_all(
        process,
        hook_actions(hook_begin(target, replacement), answers, 2),
    );
    lemma_hook_effect(process, target, replacement, answers);
    lemma_unhook_effect(hooked, target, answers);
    let unhooked = perform_all(hooked, unhook_actions(unhook_begin(target), answers, 2));
    assert(unhooked.hooked =~= Set::<usize>::empty());
}

/// Once a hook or an unhook has been attempted on a target that is not null,
/// nothing intercepts the protection-change primitive any more.
pub proof fn lemma_attempt_leaves_entry_unprotected(
    process: Process,
    target: usize,
    replacement: usize,
    answers: Answers,
)
    requires
        target != 0,
    ensures
        replacement != 0 ==> is_unprotected(
            perform_all(
                process,
                hook_actions(hook_begin(target, replacement), answers, 2),
            ).entry,
        ),
        is_unprotected(
            perform_all(process, unhook_actions(unhook_begin(target), answers, 2)).entry,
        ),
{
    lemma_hook_effect(process, target, replacement, answers);
    lemma_unhook_effect(process, target, answers);
}

/// The bypass never ends an attempt: no run of `hook` or of `unhook` ends
/// with `BypassFailed`.
pub proof fn lemma_bypass_never_fails_an_attempt(
    target: usize,
    replacement: usize,
    answers: Answers,
)
    ensures
        hook_result(hook_begin(target, replacement), answers, 2) != Some(
            Err::<usize, HookError>(HookError::BypassFailed),
        ),
        unhook_result(unhook_begin(target), answers, 2) != Some(
            Err::<(), HookError>(HookError::BypassFailed),
        ),
{
    lemma_hook_run(target, replacement, answers);
    lemma_unhook_run(target, answers);
}

/// A primitive that hands back a null trampoline never yields a success: the
/// installation of a valid request ends with `TrampolineNull`.
pub proof fn lemma_null_trampoline_is_refused(
    target: usize,
    replacement: usize,
    answers: Answers,
)
    requires
        target != 0,
        replacement != 0,
        answers.install == Ok::<usize, String>(0),
    ensures
        hook_result(hook_begin(target, replacement), answers, 2) == Some(
            Err::<usize, HookError>(HookError::TrampolineNull),
        ),
{
    lemma_hook_run(target, replacement, answers);
}

/// A failure of the primitive's remove is passed on, with its diagnostic as
/// it came.
pub proof fn lemma_remove_failure_is_passed_on(target: usize, answers: Answers, reason: String)
    requires
        target != 0,
        answers.remove == Err::<(), String>(reason),
    ensures
        unhook_result(unhook_begin(target), answers, 2) == Some(
            Err::<(), HookError>(HookError::PrimitiveFailed(reason)),
        ),
{
    lemma_unhook_run(target, answers);
}

/// A successful installation hands back what the primitive answered, and that
/// is never null.
pub proof fn lemma_trampoline_is_the_primitives(
    target: usize,
    replacement: usize,
    answers: Answers,
    trampoline: usize,
)
    requires
        hook_result(hook_begin(target, replacement), answers, 2) == Some(
            Ok::<usize, HookError>(trampoline),
        ),
    ensures
        trampoline != 0,
        target != 0,
        replacement != 0,
        answers.install == Ok::<usize, String>(trampoline),
{
    lemma_hook_run(target, replacement, answers);
}

} // verus!
