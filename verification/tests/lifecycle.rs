use hookcore::error::HookError;
use hookcore::lifecycle::{
    hook, unhook, Action, Event, HookRequest, HookState, HookStep, UnhookState, UnhookStep,
};

/// A primitive that records what is asked of it and answers as it was set up.
struct FakePrimitive {
    trampoline: Result<usize, String>,
    removal: Result<(), String>,
    hooked: Vec<usize>,
    performed: Vec<Action>,
}

impl FakePrimitive {
    fn answering(trampoline: Result<usize, String>, removal: Result<(), String>) -> Self {
        FakePrimitive { trampoline, removal, hooked: Vec::new(), performed: Vec::new() }
    }

    fn perform(&mut self, action: Action) -> Event {
        self.performed.push(action);
        match action {
            Action::EnsureUnprotected => Event::Unprotected,
            Action::Install(request) => {
                assert_ne!(request.target, 0);
                assert_ne!(request.replacement, 0);
                if !self.hooked.contains(&request.target) {
                    self.hooked.push(request.target);
                }
                Event::Installed(self.trampoline.clone())
            }
            Action::Remove(target) => {
                assert_ne!(target, 0);
                self.hooked.retain(|hooked| *hooked != target);
                Event::Removed(self.removal.clone())
            }
        }
    }
}

fn run_hook(
    primitive: &mut FakePrimitive,
    target: usize,
    replacement: usize,
) -> Result<usize, HookError> {
    let mut step = hook(target, replacement);
    loop {
        match step {
            HookStep::Done(result) => return result,
            HookStep::Perform(action, state) => {
                let event = primitive.perform(action);
                step = state.resume(event);
            }
        }
    }
}

fn run_unhook(primitive: &mut FakePrimitive, target: usize) -> Result<(), HookError> {
    let mut step = unhook(target);
    loop {
        match step {
            UnhookStep::Done(result) => return result,
            UnhookStep::Perform(action, state) => {
                let event = primitive.perform(action);
                step = state.resume(event);
            }
        }
    }
}

#[test]
fn hook_returns_the_trampoline_of_the_primitive() {
    let mut primitive = FakePrimitive::answering(Ok(0x3000), Ok(()));
    assert_eq!(run_hook(&mut primitive, 0x1000, 0x2000), Ok(0x3000));
    assert_eq!(
        primitive.performed,
        vec![
            Action::EnsureUnprotected,
            Action::Install(HookRequest { target: 0x1000, replacement: 0x2000 }),
        ]
    );
}

#[test]
fn hook_with_null_target_never_reaches_the_primitive() {
    let mut primitive = FakePrimitive::answering(Ok(0x3000), Ok(()));
    assert_eq!(run_hook(&mut primitive, 0, 0x2000), Err(HookError::NullTarget));
    assert!(primitive.performed.is_empty());
    assert!(primitive.hooked.is_empty());
}

#[test]
fn hook_with_null_replacement_never_reaches_the_primitive() {
    let mut primitive = FakePrimitive::answering(Ok(0x3000), Ok(()));
    assert_eq!(run_hook(&mut primitive, 0x1000, 0), Err(HookError::NullReplacement));
    assert!(primitive.performed.is_empty());
}

#[test]
fn hook_with_both_null_reports_the_target() {
    let mut primitive = FakePrimitive::answering(Ok(0x3000), Ok(()));
    assert_eq!(run_hook(&mut primitive, 0, 0), Err(HookError::NullTarget));
    assert!(primitive.performed.is_empty());
}

#[test]
fn hook_first_step_is_done_for_null_addresses() {
    assert_eq!(hook(0, 0x2000), HookStep::Done(Err(HookError::NullTarget)));
    assert_eq!(hook(0x1000, 0), HookStep::Done(Err(HookError::NullReplacement)));
    assert_eq!(hook(0, 0), HookStep::Done(Err(HookError::NullTarget)));
}

#[test]
fn hook_first_step_asks_for_the_bypass() {
    assert_eq!(
        hook(0x1000, 0x2000),
        HookStep::Perform(
            Action::EnsureUnprotected,
            HookState::Bypassing(HookRequest { target: 0x1000, replacement: 0x2000 }),
        )
    );
    assert_eq!(
        hook(usize::MAX, 1),
        HookStep::Perform(
            Action::EnsureUnprotected,
            HookState::Bypassing(HookRequest { target: usize::MAX, replacement: 1 }),
        )
    );
}

#[test]
fn unhook_with_null_target_never_reaches_the_primitive() {
    let mut primitive = FakePrimitive::answering(Ok(0x3000), Ok(()));
    assert_eq!(run_unhook(&mut primitive, 0), Err(HookError::NullTarget));
    assert!(primitive.performed.is_empty());
    assert_eq!(unhook(0), UnhookStep::Done(Err(HookError::NullTarget)));
}

#[test]
fn unhook_passes_the_failure_of_the_primitive_on() {
    let mut primitive = FakePrimitive::answering(Ok(0x3000), Err("not hooked".to_string()));
    assert_eq!(
        run_unhook(&mut primitive, 0x1000),
        Err(HookError::PrimitiveFailed("not hooked".to_string()))
    );
    assert_eq!(primitive.performed, vec![Action::EnsureUnprotected, Action::Remove(0x1000)]);
}

#[test]
fn unhook_succeeds_when_the_primitive_does() {
    let mut primitive = FakePrimitive::answering(Ok(0x3000), Ok(()));
    assert_eq!(run_unhook(&mut primitive, 0x1000), Ok(()));
    assert_eq!(primitive.performed, vec![Action::EnsureUnprotected, Action::Remove(0x1000)]);
}

#[test]
fn hook_then_unhook_leaves_nothing_hooked() {
    let mut primitive = FakePrimitive::answering(Ok(0x3000), Ok(()));
    assert_eq!(run_hook(&mut primitive, 0x1000, 0x2000), Ok(0x3000));
    assert_eq!(primitive.hooked, vec![0x1000]);
    assert_eq!(run_unhook(&mut primitive, 0x1000), Ok(()));
    assert!(primitive.hooked.is_empty());
}

#[test]
fn unhook_of_another_target_leaves_the_hook_in_place() {
    let mut primitive = FakePrimitive::answering(Ok(0x3000), Ok(()));
    assert_eq!(run_hook(&mut primitive, 0x1000, 0x2000), Ok(0x3000));
    assert_eq!(run_unhook(&mut primitive, 0x1008), Ok(()));
    assert_eq!(primitive.hooked, vec![0x1000]);
}

#[test]
fn hook_refuses_a_null_trampoline() {
    let mut primitive = FakePrimitive::answering(Ok(0), Ok(()));
    assert_eq!(run_hook(&mut primitive, 0x1000, 0x2000), Err(HookError::TrampolineNull));
    assert_eq!(primitive.performed.len(), 2);
}

#[test]
fn hook_passes_the_failure_of_the_primitive_on() {
    let mut primitive = FakePrimitive::answering(Err("hook error".to_string()), Ok(()));
    assert_eq!(
        run_hook(&mut primitive, 0x1000, 0x2000),
        Err(HookError::PrimitiveFailed("hook error".to_string()))
    );
}

#[test]
fn hook_state_asks_for_the_install_after_the_bypass() {
    let request = HookRequest { target: 0x1000, replacement: 0x2000 };
    assert_eq!(
        HookState::Bypassing(request).resume(Event::Unprotected),
        HookStep::Perform(Action::Install(request), HookState::Installing(request))
    );
}

#[test]
fn hook_state_repeats_its_action_on_a_stray_event() {
    let request = HookRequest { target: 0x1000, replacement: 0x2000 };
    assert_eq!(
        HookState::Bypassing(request).resume(Event::Installed(Ok(0x3000))),
        HookStep::Perform(Action::EnsureUnprotected, HookState::Bypassing(request))
    );
    assert_eq!(
        HookState::Bypassing(request).resume(Event::Removed(Ok(()))),
        HookStep::Perform(Action::EnsureUnprotected, HookState::Bypassing(request))
    );
    assert_eq!(
        HookState::Installing(request).resume(Event::Unprotected),
        HookStep::Perform(Action::Install(request), HookState::Installing(request))
    );
    assert_eq!(
        HookState::Installing(request).resume(Event::Removed(Err("x".to_string()))),
        HookStep::Perform(Action::Install(request), HookState::Installing(request))
    );
}

#[test]
fn hook_state_ends_with_the_answer_of_the_primitive() {
    let request = HookRequest { target: 0x1000, replacement: 0x2000 };
    assert_eq!(
        HookState::Installing(request).resume(Event::Installed(Ok(0x3000))),
        HookStep::Done(Ok(0x3000))
    );
    assert_eq!(
        HookState::Installing(request).resume(Event::Installed(Ok(0))),
        HookStep::Done(Err(HookError::TrampolineNull))
    );
    assert_eq!(
        HookState::Installing(request).resume(Event::Installed(Err("busy".to_string()))),
        HookStep::Done(Err(HookError::PrimitiveFailed("busy".to_string())))
    );
}

#[test]
fn unhook_state_asks_for_the_remove_after_the_bypass() {
    assert_eq!(
        UnhookState::Bypassing(0x1000).resume(Event::Unprotected),
        UnhookStep::Perform(Action::Remove(0x1000), UnhookState::Removing(0x1000))
    );
}

#[test]
fn unhook_state_repeats_its_action_on_a_stray_event() {
    assert_eq!(
        UnhookState::Bypassing(0x1000).resume(Event::Removed(Ok(()))),
        UnhookStep::Perform(Action::EnsureUnprotected, UnhookState::Bypassing(0x1000))
    );
    assert_eq!(
        UnhookState::Removing(0x1000).resume(Event::Installed(Ok(0x3000))),
        UnhookStep::Perform(Action::Remove(0x1000), UnhookState::Removing(0x1000))
    );
    assert_eq!(
        UnhookState::Removing(0x1000).resume(Event::Unprotected),
        UnhookStep::Perform(Action::Remove(0x1000), UnhookState::Removing(0x1000))
    );
}

#[test]
fn unhook_state_ends_with_the_answer_of_the_primitive() {
    assert_eq!(UnhookState::Removing(0x1000).resume(Event::Removed(Ok(()))), UnhookStep::Done(Ok(())));
    assert_eq!(
        UnhookState::Removing(0x1000).resume(Event::Removed(Err("not hooked".to_string()))),
        UnhookStep::Done(Err(HookError::PrimitiveFailed("not hooked".to_string())))
    );
}

#[test]
fn hook_request_checks_the_target_first() {
    assert_eq!(HookRequest::new(0, 0), Err(HookError::NullTarget));
    assert_eq!(HookRequest::new(0, 7), Err(HookError::NullTarget));
    assert_eq!(HookRequest::new(7, 0), Err(HookError::NullReplacement));
    assert_eq!(HookRequest::new(7, 9), Ok(HookRequest { target: 7, replacement: 9 }));
}

#[test]
fn hook_may_redirect_a_target_to_itself() {
    let mut primitive = FakePrimitive::answering(Ok(0x3000), Ok(()));
    assert_eq!(run_hook(&mut primitive, 0x1000, 0x1000), Ok(0x3000));
}
