use dofus_multi_helper::windows::api::{key_first_byte, text_keys};
use dofus_multi_helper::windows::steps::{
    activate_step, click_step, focus_step, wait_step, ActivateState, ClickCall, ClickState, FocusError,
    FocusState, SysAnswer, Threads, WaitDecision, WindowCall,
};

/// Runs the focus procedure against scripted answers; returns the calls made
/// and the final result.
fn run_focus(threads: Threads, valid: bool, attach_ok: bool, minimized: bool, active: Result<(), String>, focus: Result<(), String>) -> (Vec<WindowCall>, Result<(), FocusError>) {
    let (mut state, mut call) = focus_step(FocusState::Start, SysAnswer::Begin);
    let mut calls = Vec::new();
    loop {
        let answer = match &call {
            WindowCall::Finish(_) => break,
            WindowCall::IsWindow => SysAnswer::Flag(valid),
            WindowCall::ReadThreads => SysAnswer::Threads(threads),
            WindowCall::Attach { .. } => SysAnswer::Flag(attach_ok),
            WindowCall::IsIconic => SysAnswer::Flag(minimized),
            WindowCall::SetActive => SysAnswer::Outcome(active.clone()),
            WindowCall::SetFocus => SysAnswer::Outcome(focus.clone()),
            _ => SysAnswer::Done,
        };
        calls.push(call);
        let next = focus_step(state, answer);
        state = next.0;
        call = next.1;
    }
    match call {
        WindowCall::Finish(r) => (calls, r),
        _ => unreachable!(),
    }
}

#[test]
fn focus_across_threads_attaches_and_detaches_both() {
    let t = Threads { target: 1, current: 2, foreground: 3 };
    let (calls, r) = run_focus(t, true, true, true, Ok(()), Ok(()));
    assert_eq!(r, Ok(()));
    assert_eq!(
        calls,
        vec![
            WindowCall::IsWindow,
            WindowCall::ReadThreads,
            WindowCall::Attach { from: 3, to: 1 },
            WindowCall::Attach { from: 2, to: 1 },
            WindowCall::IsIconic,
            WindowCall::Restore,
            WindowCall::Show,
            WindowCall::BringToTop,
            WindowCall::SetActive,
            WindowCall::SetFocus,
            WindowCall::Detach { from: 3, to: 1 },
            WindowCall::Detach { from: 2, to: 1 },
        ]
    );
}

#[test]
fn focus_on_the_same_thread_attaches_nothing() {
    let t = Threads { target: 5, current: 5, foreground: 5 };
    let (calls, r) = run_focus(t, true, true, false, Ok(()), Ok(()));
    assert_eq!(r, Ok(()));
    assert_eq!(
        calls,
        vec![
            WindowCall::IsWindow,
            WindowCall::ReadThreads,
            WindowCall::IsIconic,
            WindowCall::Show,
            WindowCall::BringToTop,
            WindowCall::SetActive,
            WindowCall::SetFocus,
        ]
    );
}

#[test]
fn focus_errors() {
    let t = Threads { target: 1, current: 2, foreground: 3 };
    let (_, r) = run_focus(t, false, true, false, Ok(()), Ok(()));
    assert_eq!(r.unwrap_err().message(), "Invalid window handle");
    let (calls, r) = run_focus(t, true, false, false, Ok(()), Ok(()));
    assert_eq!(r.unwrap_err().message(), "Failed to attach foreground thread");
    assert_eq!(calls.len(), 3);
    let only_current = Threads { target: 1, current: 2, foreground: 1 };
    let (_, r) = run_focus(only_current, true, false, false, Ok(()), Ok(()));
    assert_eq!(r.unwrap_err().message(), "Failed to attach current thread");
    let (calls, r) = run_focus(t, true, true, false, Err("access denied".to_string()), Ok(()));
    assert_eq!(r, Err(FocusError::System("access denied".to_string())));
    assert!(!calls.iter().any(|c| matches!(c, WindowCall::Detach { .. })));
    let (_, r) = run_focus(t, true, true, false, Ok(()), Err("no focus".to_string()));
    assert_eq!(r.unwrap_err().message(), "no focus");
}

#[test]
fn wrong_answer_repeats_the_call() {
    let (state, call) = focus_step(FocusState::CheckWindow, SysAnswer::Done);
    assert_eq!(state, FocusState::CheckWindow);
    assert_eq!(call, WindowCall::IsWindow);
}

fn run_activate(threads: Threads, valid: bool, in_front_at_start: bool, attach: (bool, bool), in_front_at_end: bool) -> (Vec<WindowCall>, Result<(), FocusError>) {
    let (mut state, mut call) = activate_step(ActivateState::Start, SysAnswer::Begin);
    let mut calls = Vec::new();
    let mut attaches = vec![attach.0, attach.1].into_iter();
    loop {
        let answer = match &call {
            WindowCall::Finish(_) => break,
            WindowCall::IsWindow => SysAnswer::Flag(valid),
            WindowCall::IsForeground => SysAnswer::Flag(in_front_at_start),
            WindowCall::ReadThreads => SysAnswer::Threads(threads),
            WindowCall::Attach { .. } => SysAnswer::Flag(attaches.next().unwrap()),
            WindowCall::IsIconic => SysAnswer::Flag(false),
            WindowCall::SetActive => SysAnswer::Outcome(Err("ignored".to_string())),
            WindowCall::WaitForeground => SysAnswer::Flag(in_front_at_end),
            _ => SysAnswer::Done,
        };
        calls.push(call);
        let next = activate_step(state, answer);
        state = next.0;
        call = next.1;
    }
    match call {
        WindowCall::Finish(r) => (calls, r),
        _ => unreachable!(),
    }
}

#[test]
fn activation_detaches_only_what_was_attached() {
    let t = Threads { target: 1, current: 2, foreground: 3 };
    let (calls, r) = run_activate(t, true, false, (false, true), true);
    assert_eq!(r, Ok(()));
    assert_eq!(
        calls,
        vec![
            WindowCall::IsWindow,
            WindowCall::IsForeground,
            WindowCall::ReadThreads,
            WindowCall::Attach { from: 3, to: 1 },
            WindowCall::Attach { from: 2, to: 1 },
            WindowCall::IsIconic,
            WindowCall::SetForeground,
            WindowCall::BringToTop,
            WindowCall::SetActive,
            WindowCall::Detach { from: 2, to: 1 },
            WindowCall::WaitForeground,
        ]
    );
}

#[test]
fn activation_shortcuts_and_timeout() {
    let t = Threads { target: 1, current: 2, foreground: 3 };
    let (calls, r) = run_activate(t, true, true, (true, true), true);
    assert_eq!(r, Ok(()));
    assert_eq!(calls, vec![WindowCall::IsWindow, WindowCall::IsForeground]);
    let (_, r) = run_activate(t, false, false, (true, true), true);
    assert_eq!(r, Err(FocusError::InvalidHandle));
    let (_, r) = run_activate(t, true, false, (true, true), false);
    assert_eq!(r.unwrap_err().message(), "Window did not become foreground");
}

fn run_click(activate: bool, answers: &[(ClickCall, SysAnswer)]) -> Vec<ClickCall> {
    let (mut state, mut call) = click_step(ClickState::Start { activate }, SysAnswer::Begin);
    let mut calls = Vec::new();
    loop {
        if call == ClickCall::Next {
            break;
        }
        let answer = answers
            .iter()
            .find(|(c, _)| std::mem::discriminant(c) == std::mem::discriminant(&call))
            .map(|(_, a)| match a {
                SysAnswer::Flag(b) => SysAnswer::Flag(*b),
                SysAnswer::Outcome(r) => SysAnswer::Outcome(r.clone()),
                _ => SysAnswer::Done,
            })
            .unwrap_or(SysAnswer::Done);
        calls.push(call);
        let next = click_step(state, answer);
        state = next.0;
        call = next.1;
    }
    calls
}

#[test]
fn click_steps_skip_and_report() {
    let ok = [
        (ClickCall::IsWindow, SysAnswer::Flag(true)),
        (ClickCall::IsIconic, SysAnswer::Flag(false)),
        (ClickCall::ToScreen, SysAnswer::Flag(true)),
        (ClickCall::Activate, SysAnswer::Outcome(Ok(()))),
        (ClickCall::Click, SysAnswer::Outcome(Ok(()))),
    ];
    assert_eq!(
        run_click(true, &ok),
        vec![ClickCall::IsWindow, ClickCall::IsIconic, ClickCall::ToScreen, ClickCall::Activate, ClickCall::Click, ClickCall::Pause]
    );
    assert_eq!(
        run_click(false, &ok),
        vec![ClickCall::IsWindow, ClickCall::IsIconic, ClickCall::ToScreen, ClickCall::Click, ClickCall::Pause]
    );
    let minimized = [(ClickCall::IsWindow, SysAnswer::Flag(true)), (ClickCall::IsIconic, SysAnswer::Flag(true))];
    assert_eq!(run_click(true, &minimized), vec![ClickCall::IsWindow, ClickCall::IsIconic]);
    let gone = [(ClickCall::IsWindow, SysAnswer::Flag(false))];
    assert_eq!(run_click(false, &gone), vec![ClickCall::IsWindow]);
    let no_focus = [
        (ClickCall::IsWindow, SysAnswer::Flag(true)),
        (ClickCall::IsIconic, SysAnswer::Flag(false)),
        (ClickCall::ToScreen, SysAnswer::Flag(true)),
        (ClickCall::Activate, SysAnswer::Outcome(Err("busy".to_string()))),
    ];
    assert_eq!(
        run_click(true, &no_focus),
        vec![ClickCall::IsWindow, ClickCall::IsIconic, ClickCall::ToScreen, ClickCall::Activate, ClickCall::ReportFocusError("busy".to_string())]
    );
    let click_fails = [
        (ClickCall::IsWindow, SysAnswer::Flag(true)),
        (ClickCall::IsIconic, SysAnswer::Flag(false)),
        (ClickCall::ToScreen, SysAnswer::Flag(true)),
        (ClickCall::Click, SysAnswer::Outcome(Err("Failed to send mouse click".to_string()))),
    ];
    assert_eq!(
        run_click(false, &click_fails),
        vec![
            ClickCall::IsWindow,
            ClickCall::IsIconic,
            ClickCall::ToScreen,
            ClickCall::Click,
            ClickCall::ReportClickError("Failed to send mouse click".to_string()),
            ClickCall::Pause,
        ]
    );
}

#[test]
fn waiting_for_the_foreground() {
    assert_eq!(wait_step(true, false), WaitDecision::Sleep);
    assert_eq!(wait_step(true, true), WaitDecision::Stop(true));
    assert_eq!(wait_step(false, false), WaitDecision::Stop(false));
    assert_eq!(wait_step(false, true), WaitDecision::Stop(true));
}

#[test]
fn empty_key_types_nothing() {
    assert_eq!(key_first_byte(""), None);
    assert_eq!(key_first_byte("a"), Some(b'a'));
    assert_eq!(key_first_byte("éa"), Some(0xc3));
}

#[test]
fn text_is_typed_one_character_at_a_time() {
    assert_eq!(text_keys("/invite Bo"), vec!["/", "i", "n", "v", "i", "t", "e", " ", "B", "o"]);
    assert_eq!(text_keys("é!"), vec!["é", "!"]);
    assert!(text_keys("").is_empty());
}
