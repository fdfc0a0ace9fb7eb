use vstd::prelude::*;

verus! {

/// The threads involved in moving the focus: the target window's thread, the
/// helper's own thread and the thread of the window now in the foreground.
#[derive(Clone, Copy, Debug, PartialEq, Eq)]
pub struct Threads {
    pub target: u32,
    pub current: u32,
    pub foreground: u32,
}

/// A system call that moving the focus to a window asks for, or the end of
/// the procedure with its result.
#[derive(Debug, PartialEq, Eq)]
pub enum WindowCall {
    /// Whether the handle names a window (answer: a flag).
    IsWindow,
    /// Whether the window already is the foreground window (answer: a flag).
    IsForeground,
    /// The three threads (answer: threads).
    ReadThreads,
    /// Attach the input of thread `from` to thread `to` (answer: a flag).
    Attach { from: u32, to: u32 },
    /// Detach the input of thread `from` from thread `to` (answer: done).
    Detach { from: u32, to: u32 },
    /// Whether the window is minimised (answer: a flag).
    IsIconic,
    /// Restore the minimised window (answer: done).
    Restore,
    /// Show the window (answer: done).
    Show,
    /// Make the window the foreground window (answer: done).
    SetForeground,
    /// Bring the window to the top (answer: done).
    BringToTop,
    /// Make the window active (answer: its outcome).
    SetActive,
    /// Give the window the keyboard focus (answer: its outcome).
    SetFocus,
    /// Wait until the window is in the foreground or the time is up
    /// (answer: a flag, whether it is in the foreground).
    WaitForeground,
    /// The procedure is over, with this result.
    Finish(Result<(), FocusError>),
}

/// Why moving the focus failed.
#[derive(Debug, PartialEq, Eq)]
pub enum FocusError {
    /// The handle names no window.
    InvalidHandle,
    /// The foreground thread's input could not be attached.
    AttachForeground,
    /// The helper thread's input could not be attached.
    AttachCurrent,
    /// The window did not come to the foreground in time.
    NotForeground,
    /// A system call failed with this message.
    System(String),
}

/// The message of a focus error.
pub open spec fn focus_error_text(e: FocusError) -> Seq<char> {
    match e {
        FocusError::InvalidHandle => "Invalid window handle"@,
        FocusError::AttachForeground => "Failed to attach foreground thread"@,
        FocusError::AttachCurrent => "Failed to attach current thread"@,
        FocusError::NotForeground => "Window did not become foreground"@,
        FocusError::System(m) => m@,
    }
}

impl FocusError {
    /// The message of this error.
    pub fn message(self) -> (m: String)
        ensures
            m@ == focus_error_text(self),
    {
        match self {
            FocusError::InvalidHandle => String::from_str("Invalid window handle"),
            FocusError::AttachForeground => String::from_str("Failed to attach foreground thread"),
            FocusError::AttachCurrent => String::from_str("Failed to attach current thread"),
            FocusError::NotForeground => String::from_str("Window did not become foreground"),
            FocusError::System(m) => m,
        }
    }
}

/// What the system answered to the last call.
#[derive(Debug, PartialEq, Eq)]
pub enum SysAnswer {
    /// No call was made yet.
    Begin,
    Done,
    Flag(bool),
    Threads(Threads),
    Outcome(Result<(), String>),
}

/// Where bringing a window forward (`focus_window`) stands: the call it
/// waits an answer for, and the threads once known.
#[derive(Debug, PartialEq, Eq)]
pub enum FocusState {
    Start,
    CheckWindow,
    ReadThreads,
    AttachForeground(Threads),
    AttachCurrent(Threads),
    CheckMinimized(Threads),
    Restore(Threads),
    Show(Threads),
    BringToTop(Threads),
    SetActive(Threads),
    SetFocus(Threads),
    DetachForeground(Threads),
    DetachCurrent(Threads),
    Finished(Result<(), FocusError>),
}

/// The call that a focus state waits an answer for.
pub open spec fn focus_request(s: FocusState) -> WindowCall {
    match s {
        FocusState::Start => WindowCall::IsWindow,
        FocusState::CheckWindow => WindowCall::IsWindow,
        FocusState::ReadThreads => WindowCall::ReadThreads,
        FocusState::AttachForeground(t) => WindowCall::Attach { from: t.foreground, to: t.target },
        FocusState::AttachCurrent(t) => WindowCall::Attach { from: t.current, to: t.target },
        FocusState::CheckMinimized(_) => WindowCall::IsIconic,
        FocusState::Restore(_) => WindowCall::Restore,
        FocusState::Show(_) => WindowCall::Show,
        FocusState::BringToTop(_) => WindowCall::BringToTop,
        FocusState::SetActive(_) => WindowCall::SetActive,
        FocusState::SetFocus(_) => WindowCall::SetFocus,
        FocusState::DetachForeground(t) => WindowCall::Detach { from: t.foreground, to: t.target },
        FocusState::DetachCurrent(t) => WindowCall::Detach { from: t.current, to: t.target },
        FocusState::Finished(r) => WindowCall::Finish(r),
    }
}

/// The state that asks `call`, paired with it.
pub open spec fn ask_focus(s: FocusState) -> (FocusState, WindowCall) {
    (s, focus_request(s))
}

/// After the attachment with the foreground thread: attach the helper's own
/// thread when it is not the target's, else look at the window.
pub open spec fn focus_after_foreground_attach(t: Threads) -> (FocusState, WindowCall) {
    if t.current != t.target {
        ask_focus(FocusState::AttachCurrent(t))
    } else {
        ask_focus(FocusState::CheckMinimized(t))
    }
}

/// Once the threads are known: attach the foreground thread when it is not
/// the target's.
pub open spec fn focus_after_threads(t: Threads) -> (FocusState, WindowCall) {
    if t.foreground != t.target {
        ask_focus(FocusState::AttachForeground(t))
    } else {
        focus_after_foreground_attach(t)
    }
}

/// After detaching the foreground thread: detach the helper's own thread if
/// it was attached, else finish successfully.
pub open spec fn focus_after_foreground_detach(t: Threads) -> (FocusState, WindowCall) {
    if t.current != t.target {
        ask_focus(FocusState::DetachCurrent(t))
    } else {
        ask_focus(FocusState::Finished(Ok(())))
    }
}

/// Once the window has the focus: undo the attachments, foreground thread first.
pub open spec fn focus_after_set_focus(t: Threads) -> (FocusState, WindowCall) {
    if t.foreground != t.target {
        ask_focus(FocusState::DetachForeground(t))
    } else {
        focus_after_foreground_detach(t)
    }
}

/// One step of bringing a window forward: from the state and the system's
/// answer to the last call, the next state and the next call.
///
/// An invalid handle ends with "Invalid window handle"; input is attached
/// only across different threads, and a failed attachment ends with its own
/// error; a minimised window is restored; the window is shown and raised;
/// a failure to activate or focus it ends with that failure; the threads that
/// were attached are detached, and the procedure ends successfully. An answer
/// of the wrong kind repeats the pending call.
pub open spec fn focus_next(s: FocusState, a: SysAnswer) -> (FocusState, WindowCall) {
    match (s, a) {
        (FocusState::Start, _) => ask_focus(FocusState::CheckWindow),
        (FocusState::CheckWindow, SysAnswer::Flag(valid)) => if valid {
            ask_focus(FocusState::ReadThreads)
        } else {
            ask_focus(FocusState::Finished(Err(FocusError::InvalidHandle)))
        },
        (FocusState::ReadThreads, SysAnswer::Threads(t)) => focus_after_threads(t),
        (FocusState::AttachForeground(t), SysAnswer::Flag(ok)) => if ok {
            focus_after_foreground_attach(t)
        } else {
            ask_focus(FocusState::Finished(Err(FocusError::AttachForeground)))
        },
        (FocusState::AttachCurrent(t), SysAnswer::Flag(ok)) => if ok {
            ask_focus(FocusState::CheckMinimized(t))
        } else {
            ask_focus(FocusState::Finished(Err(FocusError::AttachCurrent)))
        },
        (FocusState::CheckMinimized(t), SysAnswer::Flag(minimized)) => if minimized {
            ask_focus(FocusState::Restore(t))
        } else {
            ask_focus(FocusState::Show(t))
        },
        (FocusState::Restore(t), SysAnswer::Done) => ask_focus(FocusState::Show(t)),
        (FocusState::Show(t), SysAnswer::Done) => ask_focus(FocusState::BringToTop(t)),
        (FocusState::BringToTop(t), SysAnswer::Done) => ask_focus(FocusState::SetActive(t)),
        (FocusState::SetActive(t), SysAnswer::Outcome(r)) => match r {
            Ok(()) => ask_focus(FocusState::SetFocus(t)),
            Err(e) => ask_focus(FocusState::Finished(Err(FocusError::System(e)))),
        },
        (FocusState::SetFocus(t), SysAnswer::Outcome(r)) => match r {
            Ok(()) => focus_after_set_focus(t),
            Err(e) => ask_focus(FocusState::Finished(Err(FocusError::System(e)))),
        },
        (FocusState::DetachForeground(t), SysAnswer::Done) => focus_after_foreground_detach(t),
        (FocusState::DetachCurrent(_), SysAnswer::Done) => ask_focus(FocusState::Finished(Ok(()))),
        (s, _) => ask_focus(s),
    }
}

fn copy_focus_result(r: &Result<(), FocusError>) -> (c: Result<(), FocusError>)
    ensures
        c == *r,
{
    match r {
        Ok(u) => Ok(*u),
        Err(FocusError::InvalidHandle) => Err(FocusError::InvalidHandle),
        Err(FocusError::AttachForeground) => Err(FocusError::AttachForeground),
        Err(FocusError::AttachCurrent) => Err(FocusError::AttachCurrent),
        Err(FocusError::NotForeground) => Err(FocusError::NotForeground),
        Err(FocusError::System(m)) => Err(FocusError::System(m.clone())),
    }
}

fn ask_focus_exec(s: FocusState) -> (r: (FocusState, WindowCall))
    ensures
        r == ask_focus(s),
{
    let call = match &s {
        FocusState::Start => WindowCall::IsWindow,
        FocusState::CheckWindow => WindowCall::IsWindow,
        FocusState::ReadThreads => WindowCall::ReadThreads,
        FocusState::AttachForeground(t) => WindowCall::Attach { from: t.foreground, to: t.target },
        FocusState::AttachCurrent(t) => WindowCall::Attach { from: t.current, to: t.target },
        FocusState::CheckMinimized(_) => WindowCall::IsIconic,
        FocusState::Restore(_) => WindowCall::Restore,
        FocusState::Show(_) => WindowCall::Show,
        FocusState::BringToTop(_) => WindowCall::BringToTop,
        FocusState::SetActive(_) => WindowCall::SetActive,
        FocusState::SetFocus(_) => WindowCall::SetFocus,
        FocusState::DetachForeground(t) => WindowCall::Detach { from: t.foreground, to: t.target },
        FocusState::DetachCurrent(t) => WindowCall::Detach { from: t.current, to: t.target },
        FocusState::Finished(r) => WindowCall::Finish(copy_focus_result(r)),
    };
    (s, call)
}

/// One step of bringing a window forward (see `focus_next`): the driver
/// starts from `FocusState::Start` with `SysAnswer::Begin`, makes each call
/// asked and hands back its answer, until the call is `Finish`.
pub fn focus_step(state: FocusState, answer: SysAnswer) -> (r: (FocusState, WindowCall))
    ensures
        r == focus_next(state, answer),
{
    match (state, answer) {
        (FocusState::Start, _) => ask_focus_exec(FocusState::CheckWindow),
        (FocusState::CheckWindow, SysAnswer::Flag(valid)) => if valid {
            ask_focus_exec(FocusState::ReadThreads)
        } else {
            ask_focus_exec(FocusState::Finished(Err(FocusError::InvalidHandle)))
        },
        (FocusState::ReadThreads, SysAnswer::Threads(t)) => if t.foreground != t.target {
            ask_focus_exec(FocusState::AttachForeground(t))
        } else if t.current != t.target {
            ask_focus_exec(FocusState::AttachCurrent(t))
        } else {
            ask_focus_exec(FocusState::CheckMinimized(t))
        },
        (FocusState::AttachForeground(t), SysAnswer::Flag(ok)) => if !ok {
            ask_focus_exec(FocusState::Finished(Err(FocusError::AttachForeground)))
        } else if t.current != t.target {
            ask_focus_exec(FocusState::AttachCurrent(t))
        } else {
            ask_focus_exec(FocusState::CheckMinimized(t))
        },
        (FocusState::AttachCurrent(t), SysAnswer::Flag(ok)) => if ok {
            ask_focus_exec(FocusState::CheckMinimized(t))
        } else {
            ask_focus_exec(FocusState::Finished(Err(FocusError::AttachCurrent)))
        },
        (FocusState::CheckMinimized(t), SysAnswer::Flag(minimized)) => if minimized {
            ask_focus_exec(FocusState::Restore(t))
        } else {
            ask_focus_exec(FocusState::Show(t))
        },
        (FocusState::Restore(t), SysAnswer::Done) => ask_focus_exec(FocusState::Show(t)),
        (FocusState::Show(t), SysAnswer::Done) => ask_focus_exec(FocusState::BringToTop(t)),
        (FocusState::BringToTop(t), SysAnswer::Done) => ask_focus_exec(FocusState::SetActive(t)),
        (FocusState::SetActive(t), SysAnswer::Outcome(r)) => match r {
            Ok(()) => ask_focus_exec(FocusState::SetFocus(t)),
            Err(e) => ask_focus_exec(FocusState::Finished(Err(FocusError::System(e)))),
        },
        (FocusState::SetFocus(t), SysAnswer::Outcome(r)) => match r {
            Err(e) => ask_focus_exec(FocusState::Finished(Err(FocusError::System(e)))),
            Ok(()) => if t.foreground != t.target {
                ask_focus_exec(FocusState::DetachForeground(t))
            } else if t.current != t.target {
                ask_focus_exec(FocusState::DetachCurrent(t))
            } else {
                ask_focus_exec(FocusState::Finished(Ok(())))
            },
        },
        (FocusState::DetachForeground(t), SysAnswer::Done) => if t.current != t.target {
            ask_focus_exec(FocusState::DetachCurrent(t))
        } else {
            ask_focus_exec(FocusState::Finished(Ok(())))
        },
        (FocusState::DetachCurrent(_), SysAnswer::Done) => ask_focus_exec(FocusState::Finished(Ok(()))),
        (s, _) => ask_focus_exec(s),
    }
}

/// Where bringing a window forward for a click (`activate_for_click`) stands:
/// the call it waits an answer for, the threads once known, and which of the
/// two attachments succeeded (foreground thread, helper thread).
#[derive(Debug, PartialEq, Eq)]
pub enum ActivateState {
    Start,
    CheckWindow,
    CheckForeground,
    ReadThreads,
    AttachForeground(Threads),
    AttachCurrent(Threads, bool),
    CheckMinimized(Threads, bool, bool),
    Restore(Threads, bool, bool),
    SetForeground(Threads, bool, bool),
    BringToTop(Threads, bool, bool),
    SetActive(Threads, bool, bool),
    DetachForeground(Threads, bool),
    DetachCurrent(Threads),
    WaitForeground,
    Finished(Result<(), FocusError>),
}

/// The call that an activation state waits an answer for.
pub open spec fn activate_request(s: ActivateState) -> WindowCall {
    match s {
        ActivateState::Start => WindowCall::IsWindow,
        ActivateState::CheckWindow => WindowCall::IsWindow,
        ActivateState::CheckForeground => WindowCall::IsForeground,
        ActivateState::ReadThreads => WindowCall::ReadThreads,
        ActivateState::AttachForeground(t) => WindowCall::Attach { from: t.foreground, to: t.target },
        ActivateState::AttachCurrent(t, _) => WindowCall::Attach { from: t.current, to: t.target },
        ActivateState::CheckMinimized(..) => WindowCall::IsIconic,
        ActivateState::Restore(..) => WindowCall::Restore,
        ActivateState::SetForeground(..) => WindowCall::SetForeground,
        ActivateState::BringToTop(..) => WindowCall::BringToTop,
        ActivateState::SetActive(..) => WindowCall::SetActive,
        ActivateState::DetachForeground(t, _) => WindowCall::Detach { from: t.foreground, to: t.target },
        ActivateState::DetachCurrent(t) => WindowCall::Detach { from: t.current, to: t.target },
        ActivateState::WaitForeground => WindowCall::WaitForeground,
        ActivateState::Finished(r) => WindowCall::Finish(r),
    }
}

/// An activation state paired with the call it asks.
pub open spec fn ask_activate(s: ActivateState) -> (ActivateState, WindowCall) {
    (s, activate_request(s))
}

/// After the foreground thread (attached or not, `fg`): try to attach the
/// helper's own thread when it is not the target's.
pub open spec fn activate_after_foreground_attach(t: Threads, fg: bool) -> (ActivateState, WindowCall) {
    if t.current != t.target {
        ask_activate(ActivateState::AttachCurrent(t, fg))
    } else {
        ask_activate(ActivateState::CheckMinimized(t, fg, false))
    }
}

/// After the helper thread's detachment, if any: wait for the window.
pub open spec fn activate_after_foreground_detach(t: Threads, cur: bool) -> (ActivateState, WindowCall) {
    if cur {
        ask_activate(ActivateState::DetachCurrent(t))
    } else {
        ask_activate(ActivateState::WaitForeground)
    }
}

/// Once the window was raised: detach exactly what was attached.
pub open spec fn activate_after_raise(t: Threads, fg: bool, cur: bool) -> (ActivateState, WindowCall) {
    if fg {
        ask_activate(ActivateState::DetachForeground(t, cur))
    } else {
        activate_after_foreground_detach(t, cur)
    }
}

/// One step of bringing a window forward for a click: from the state and the
/// system's answer to the last call, the next state and the next call.
///
/// An invalid handle ends with "Invalid window handle", and a window already
/// in the foreground ends successfully at once. Input is attached only across
/// different threads, and a failed attachment is only remembered; a
/// minimised window is restored; the window is made foreground, raised and
/// activated, whatever these calls answer; each attachment that succeeded is
/// undone; then the window must come to the foreground in time, or the
/// procedure ends with "Window did not become foreground". An answer of the
/// wrong kind repeats the pending call.
pub open spec fn activate_next(s: ActivateState, a: SysAnswer) -> (ActivateState, WindowCall) {
    match (s, a) {
        (ActivateState::Start, _) => ask_activate(ActivateState::CheckWindow),
        (ActivateState::CheckWindow, SysAnswer::Flag(valid)) => if valid {
            ask_activate(ActivateState::CheckForeground)
        } else {
            ask_activate(ActivateState::Finished(Err(FocusError::InvalidHandle)))
        },
        (ActivateState::CheckForeground, SysAnswer::Flag(in_front)) => if in_front {
            ask_activate(ActivateState::Finished(Ok(())))
        } else {
            ask_activate(ActivateState::ReadThreads)
        },
        (ActivateState::ReadThreads, SysAnswer::Threads(t)) => if t.foreground != t.target {
            ask_activate(ActivateState::AttachForeground(t))
        } else {
            activate_after_foreground_attach(t, false)
        },
        (ActivateState::AttachForeground(t), SysAnswer::Flag(ok)) => activate_after_foreground_attach(t, ok),
        (ActivateState::AttachCurrent(t, fg), SysAnswer::Flag(ok)) => ask_activate(
            ActivateState::CheckMinimized(t, fg, ok),
        ),
        (ActivateState::CheckMinimized(t, fg, cur), SysAnswer::Flag(minimized)) => if minimized {
            ask_activate(ActivateState::Restore(t, fg, cur))
        } else {
            ask_activate(ActivateState::SetForeground(t, fg, cur))
        },
        (ActivateState::Restore(t, fg, cur), SysAnswer::Done) => ask_activate(ActivateState::SetForeground(t, fg, cur)),
        (ActivateState::SetForeground(t, fg, cur), SysAnswer::Done) => ask_activate(ActivateState::BringToTop(t, fg, cur)),
        (ActivateState::BringToTop(t, fg, cur), SysAnswer::Done) => ask_activate(ActivateState::SetActive(t, fg, cur)),
        (ActivateState::SetActive(t, fg, cur), SysAnswer::Outcome(_)) => activate_after_raise(t, fg, cur),
        (ActivateState::DetachForeground(t, cur), SysAnswer::Done) => activate_after_foreground_detach(t, cur),
        (ActivateState::DetachCurrent(_), SysAnswer::Done) => ask_activate(ActivateState::WaitForeground),
        (ActivateState::WaitForeground, SysAnswer::Flag(in_front)) => if in_front {
            ask_activate(ActivateState::Finished(Ok(())))
        } else {
            ask_activate(ActivateState::Finished(Err(FocusError::NotForeground)))
        },
        (s, _) => ask_activate(s),
    }
}

fn ask_activate_exec(s: ActivateState) -> (r: (ActivateState, WindowCall))
    ensures
        r == ask_activate(s),
{
    let call = match &s {
        ActivateState::Start => WindowCall::IsWindow,
        ActivateState::CheckWindow => WindowCall::IsWindow,
        ActivateState::CheckForeground => WindowCall::IsForeground,
        ActivateState::ReadThreads => WindowCall::ReadThreads,
        ActivateState::AttachForeground(t) => WindowCall::Attach { from: t.foreground, to: t.target },
        ActivateState::AttachCurrent(t, _) => WindowCall::Attach { from: t.current, to: t.target },
        ActivateState::CheckMinimized(..) => WindowCall::IsIconic,
        ActivateState::Restore(..) => WindowCall::Restore,
        ActivateState::SetForeground(..) => WindowCall::SetForeground,
        ActivateState::BringToTop(..) => WindowCall::BringToTop,
        ActivateState::SetActive(..) => WindowCall::SetActive,
        ActivateState::DetachForeground(t, _) => WindowCall::Detach { from: t.foreground, to: t.target },
        ActivateState::DetachCurrent(t) => WindowCall::Detach { from: t.current, to: t.target },
        ActivateState::WaitForeground => WindowCall::WaitForeground,
        ActivateState::Finished(r) => WindowCall::Finish(copy_focus_result(r)),
    };
    (s, call)
}

fn activate_after_foreground_attach_exec(t: Threads, fg: bool) -> (r: (ActivateState, WindowCall))
    ensures
        r == activate_after_foreground_attach(t, fg),
{
    if t.current != t.target {
        ask_activate_exec(ActivateState::AttachCurrent(t, fg))
    } else {
        ask_activate_exec(ActivateState::CheckMinimized(t, fg, false))
    }
}

fn activate_after_foreground_detach_exec(t: Threads, cur: bool) -> (r: (ActivateState, WindowCall))
    ensures
        r == activate_after_foreground_detach(t, cur),
{
    if cur {
        ask_activate_exec(ActivateState::DetachCurrent(t))
    } else {
        ask_activate_exec(ActivateState::WaitForeground)
    }
}

/// One step of bringing a window forward for a click (see `activate_next`):
/// the driver starts from `ActivateState::Start` with `SysAnswer::Begin`,
/// makes each call asked and hands back its answer, until the call is `Finish`.
pub fn activate_step(state: ActivateState, answer: SysAnswer) -> (r: (ActivateState, WindowCall))
    ensures
        r == activate_next(state, answer),
{
    match (state, answer) {
        (ActivateState::Start, _) => ask_activate_exec(ActivateState::CheckWindow),
        (ActivateState::CheckWindow, SysAnswer::Flag(valid)) => if valid {
            ask_activate_exec(ActivateState::CheckForeground)
        } else {
            ask_activate_exec(ActivateState::Finished(Err(FocusError::InvalidHandle)))
        },
        (ActivateState::CheckForeground, SysAnswer::Flag(in_front)) => if in_front {
            ask_activate_exec(ActivateState::Finished(Ok(())))
        } else {
            ask_activate_exec(ActivateState::ReadThreads)
        },
        (ActivateState::ReadThreads, SysAnswer::Threads(t)) => if t.foreground != t.target {
            ask_activate_exec(ActivateState::AttachForeground(t))
        } else {
            activate_after_foreground_attach_exec(t, false)
        },
        (ActivateState::AttachForeground(t), SysAnswer::Flag(ok)) => activate_after_foreground_attach_exec(t, ok),
        (ActivateState::AttachCurrent(t, fg), SysAnswer::Flag(ok)) => ask_activate_exec(
            ActivateState::CheckMinimized(t, fg, ok),
        ),
        (ActivateState::CheckMinimized(t, fg, cur), SysAnswer::Flag(minimized)) => if minimized {
            ask_activate_exec(ActivateState::Restore(t, fg, cur))
        } else {
            ask_activate_exec(ActivateState::SetForeground(t, fg, cur))
        },
        (ActivateState::Restore(t, fg, cur), SysAnswer::Done) => ask_activate_exec(ActivateState::SetForeground(t, fg, cur)),
        (ActivateState::SetForeground(t, fg, cur), SysAnswer::Done) => ask_activate_exec(ActivateState::BringToTop(t, fg, cur)),
        (ActivateState::BringToTop(t, fg, cur), SysAnswer::Done) => ask_activate_exec(ActivateState::SetActive(t, fg, cur)),
        (ActivateState::SetActive(t, fg, cur), SysAnswer::Outcome(_)) => if fg {
            ask_activate_exec(ActivateState::DetachForeground(t, cur))
        } else {
            activate_after_foreground_detach_exec(t, cur)
        },
        (ActivateState::DetachForeground(t, cur), SysAnswer::Done) => activate_after_foreground_detach_exec(t, cur),
        (ActivateState::DetachCurrent(_), SysAnswer::Done) => ask_activate_exec(ActivateState::WaitForeground),
        (ActivateState::WaitForeground, SysAnswer::Flag(in_front)) => if in_front {
            ask_activate_exec(ActivateState::Finished(Ok(())))
        } else {
            ask_activate_exec(ActivateState::Finished(Err(FocusError::NotForeground)))
        },
        (s, _) => ask_activate_exec(s),
    }
}

/// What waiting for a window to reach the foreground does next.
#[derive(Clone, Copy, Debug, PartialEq, Eq)]
pub enum WaitDecision {
    /// Sleep a moment and look again.
    Sleep,
    /// Stop: whether the window is in the foreground.
    Stop(bool),
}

/// One look while waiting for a window to reach the foreground: within the
/// time allowed, stop as soon as it is in front and otherwise sleep and look
/// again; once the time is up, stop with what this last look saw.
pub fn wait_step(within_time: bool, in_front: bool) -> (d: WaitDecision)
    ensures
        d == (if within_time && !in_front { WaitDecision::Sleep } else { WaitDecision::Stop(in_front) }),
{
    if within_time && !in_front {
        WaitDecision::Sleep
    } else {
        WaitDecision::Stop(in_front)
    }
}

/// A call that clicking one window of a click-all sequence asks for.
#[derive(Debug, PartialEq, Eq)]
pub enum ClickCall {
    /// Whether the handle names a window (answer: a flag).
    IsWindow,
    /// Whether the window is minimised (answer: a flag).
    IsIconic,
    /// Convert the clicked point to the window's screen coordinates (answer: a flag, success).
    ToScreen,
    /// Bring the window forward (answer: its outcome).
    Activate,
    /// Click at the converted point (answer: its outcome).
    Click,
    /// Report that the window could not be brought forward (answer: done).
    ReportFocusError(String),
    /// Report that the click could not be sent (answer: done).
    ReportClickError(String),
    /// Pause before the next window (answer: done).
    Pause,
    /// This window is done; go on with the next one.
    Next,
}

/// Where clicking one window stands; `activate` tells whether the window
/// must first be brought forward.
#[derive(Debug, PartialEq, Eq)]
pub enum ClickState {
    Start { activate: bool },
    CheckWindow { activate: bool },
    CheckMinimized { activate: bool },
    ToScreen { activate: bool },
    Activate,
    Click,
    ReportFocus(String),
    ReportClick(String),
    Pause,
    Done,
}

/// The call that a click state waits an answer for.
pub open spec fn click_request(s: ClickState) -> ClickCall {
    match s {
        ClickState::Start { .. } => ClickCall::IsWindow,
        ClickState::CheckWindow { .. } => ClickCall::IsWindow,
        ClickState::CheckMinimized { .. } => ClickCall::IsIconic,
        ClickState::ToScreen { .. } => ClickCall::ToScreen,
        ClickState::Activate => ClickCall::Activate,
        ClickState::Click => ClickCall::Click,
        ClickState::ReportFocus(e) => ClickCall::ReportFocusError(e),
        ClickState::ReportClick(e) => ClickCall::ReportClickError(e),
        ClickState::Pause => ClickCall::Pause,
        ClickState::Done => ClickCall::Next,
    }
}

/// A click state paired with the call it asks.
pub open spec fn ask_click(s: ClickState) -> (ClickState, ClickCall) {
    (s, click_request(s))
}

/// One step of clicking one window: from the state and the answer to the
/// last call, the next state and the next call.
///
/// A window that is not a window, is minimised, or whose point cannot be
/// converted is skipped; a window to bring forward that cannot be is
/// reported and skipped; otherwise it is clicked, a failed click is
/// reported, and the sequence pauses before the next window. An answer of
/// the wrong kind repeats the pending call.
pub open spec fn click_next(s: ClickState, a: SysAnswer) -> (ClickState, ClickCall) {
    match (s, a) {
        (ClickState::Start { activate }, _) => ask_click(ClickState::CheckWindow { activate }),
        (ClickState::CheckWindow { activate }, SysAnswer::Flag(valid)) => if valid {
            ask_click(ClickState::CheckMinimized { activate })
        } else {
            ask_click(ClickState::Done)
        },
        (ClickState::CheckMinimized { activate }, SysAnswer::Flag(minimized)) => if minimized {
            ask_click(ClickState::Done)
        } else {
            ask_click(ClickState::ToScreen { activate })
        },
        (ClickState::ToScreen { activate }, SysAnswer::Flag(ok)) => if !ok {
            ask_click(ClickState::Done)
        } else if activate {
            ask_click(ClickState::Activate)
        } else {
            ask_click(ClickState::Click)
        },
        (ClickState::Activate, SysAnswer::Outcome(r)) => match r {
            Ok(()) => ask_click(ClickState::Click),
            Err(e) => ask_click(ClickState::ReportFocus(e)),
        },
        (ClickState::ReportFocus(_), SysAnswer::Done) => ask_click(ClickState::Done),
        (ClickState::Click, SysAnswer::Outcome(r)) => match r {
            Ok(()) => ask_click(ClickState::Pause),
            Err(e) => ask_click(ClickState::ReportClick(e)),
        },
        (ClickState::ReportClick(_), SysAnswer::Done) => ask_click(ClickState::Pause),
        (ClickState::Pause, SysAnswer::Done) => ask_click(ClickState::Done),
        (s, _) => ask_click(s),
    }
}

fn ask_click_exec(s: ClickState) -> (r: (ClickState, ClickCall))
    ensures
        r == ask_click(s),
{
    let call = match &s {
        ClickState::Start { .. } => ClickCall::IsWindow,
        ClickState::CheckWindow { .. } => ClickCall::IsWindow,
        ClickState::CheckMinimized { .. } => ClickCall::IsIconic,
        ClickState::ToScreen { .. } => ClickCall::ToScreen,
        ClickState::Activate => ClickCall::Activate,
        ClickState::Click => ClickCall::Click,
        ClickState::ReportFocus(e) => ClickCall::ReportFocusError(e.clone()),
        ClickState::ReportClick(e) => ClickCall::ReportClickError(e.clone()),
        ClickState::Pause => ClickCall::Pause,
        ClickState::Done => ClickCall::Next,
    };
    (s, call)
}

/// One step of clicking one window (see `click_next`): the driver starts
/// from `ClickState::Start` with `SysAnswer::Begin`, makes each call asked
/// and hands back its answer, until the call is `Next`.
pub fn click_step(state: ClickState, answer: SysAnswer) -> (r: (ClickState, ClickCall))
    ensures
        r == click_next(state, answer),
{
    match (state, answer) {
        (ClickState::Start { activate }, _) => ask_click_exec(ClickState::CheckWindow { activate }),
        (ClickState::CheckWindow { activate }, SysAnswer::Flag(valid)) => if valid {
            ask_click_exec(ClickState::CheckMinimized { activate })
        } else {
            ask_click_exec(ClickState::Done)
        },
        (ClickState::CheckMinimized { activate }, SysAnswer::Flag(minimized)) => if minimized {
            ask_click_exec(ClickState::Done)
        } else {
            ask_click_exec(ClickState::ToScreen { activate })
        },
        (ClickState::ToScreen { activate }, SysAnswer::Flag(ok)) => if !ok {
            ask_click_exec(ClickState::Done)
        } else if activate {
            ask_click_exec(ClickState::Activate)
        } else {
            ask_click_exec(ClickState::Click)
        },
        (ClickState::Activate, SysAnswer::Outcome(r)) => match r {
            Ok(()) => ask_click_exec(ClickState::Click),
            Err(e) => ask_click_exec(ClickState::ReportFocus(e)),
        },
        (ClickState::ReportFocus(_), SysAnswer::Done) => ask_click_exec(ClickState::Done),
        (ClickState::Click, SysAnswer::Outcome(r)) => match r {
            Ok(()) => ask_click_exec(ClickState::Pause),
            Err(e) => ask_click_exec(ClickState::ReportClick(e)),
        },
        (ClickState::ReportClick(_), SysAnswer::Done) => ask_click_exec(ClickState::Pause),
        (ClickState::Pause, SysAnswer::Done) => ask_click_exec(ClickState::Done),
        (s, _) => ask_click_exec(s),
    }
}

/// What holds of every focus state reached from `Start`: a pending attach or
/// detach always joins two different threads.
pub open spec fn focus_state_ok(s: FocusState) -> bool {
    match s {
        FocusState::AttachForeground(t) => t.foreground != t.target,
        FocusState::AttachCurrent(t) => t.current != t.target,
        FocusState::DetachForeground(t) => t.foreground != t.target,
        FocusState::DetachCurrent(t) => t.current != t.target,
        _ => true,
    }
}

/// Bringing a window forward attaches and detaches input only across two
/// different threads: every step keeps this, whatever the system answers.
pub proof fn lemma_focus_joins_only_different_threads(s: FocusState, a: SysAnswer)
    requires
        focus_state_ok(s),
    ensures
        focus_state_ok(FocusState::Start),
        focus_state_ok(focus_next(s, a).0),
        focus_next(s, a).1 matches WindowCall::Attach { from, to } ==> from != to,
        focus_next(s, a).1 matches WindowCall::Detach { from, to } ==> from != to,
{
}

/// What holds of every activation state reached from `Start`: a pending
/// attach joins two different threads, and an attachment remembered as made
/// joins two different threads.
pub open spec fn activate_state_ok(s: ActivateState) -> bool {
    match s {
        ActivateState::AttachForeground(t) => t.foreground != t.target,
        ActivateState::AttachCurrent(t, fg) => t.current != t.target && (fg ==> t.foreground != t.target),
        ActivateState::CheckMinimized(t, fg, cur) => (fg ==> t.foreground != t.target) && (cur ==> t.current != t.target),
        ActivateState::Restore(t, fg, cur) => (fg ==> t.foreground != t.target) && (cur ==> t.current != t.target),
        ActivateState::SetForeground(t, fg, cur) => (fg ==> t.foreground != t.target) && (cur ==> t.current != t.target),
        ActivateState::BringToTop(t, fg, cur) => (fg ==> t.foreground != t.target) && (cur ==> t.current != t.target),
        ActivateState::SetActive(t, fg, cur) => (fg ==> t.foreground != t.target) && (cur ==> t.current != t.target),
        ActivateState::DetachForeground(t, cur) => t.foreground != t.target && (cur ==> t.current != t.target),
        ActivateState::DetachCurrent(t) => t.current != t.target,
        _ => true,
    }
}

/// The attachment flag that an activation state carries.
pub open spec fn remembered_attachments(s: ActivateState) -> Option<(bool, bool)> {
    match s {
        ActivateState::CheckMinimized(_, fg, cur) => Some((fg, cur)),
        ActivateState::Restore(_, fg, cur) => Some((fg, cur)),
        ActivateState::SetForeground(_, fg, cur) => Some((fg, cur)),
        ActivateState::BringToTop(_, fg, cur) => Some((fg, cur)),
        ActivateState::SetActive(_, fg, cur) => Some((fg, cur)),
        _ => None,
    }
}

/// An answer to an attachment is remembered as given: after the foreground
/// thread's attachment its answer is the foreground flag, and after the
/// helper thread's its answer is the helper flag.
pub open spec fn remembers_attach_answer(s: ActivateState, a: SysAnswer, next: ActivateState) -> bool {
    match (s, a) {
        (ActivateState::AttachForeground(_), SysAnswer::Flag(ok)) => match next {
            ActivateState::AttachCurrent(_, fg) => fg == ok,
            ActivateState::CheckMinimized(_, fg, cur) => fg == ok && !cur,
            _ => false,
        },
        (ActivateState::AttachCurrent(_, fg), SysAnswer::Flag(ok)) => remembered_attachments(next) == Some((fg, ok)),
        _ => true,
    }
}

/// Bringing a window forward for a click attaches and detaches input only
/// across two different threads, and remembers an attachment as made only
/// when the system answered that it succeeded: every step keeps this.
pub proof fn lemma_activate_joins_only_different_threads(s: ActivateState, a: SysAnswer)
    requires
        activate_state_ok(s),
    ensures
        activate_state_ok(ActivateState::Start),
        activate_state_ok(activate_next(s, a).0),
        activate_next(s, a).1 matches WindowCall::Attach { from, to } ==> from != to,
        activate_next(s, a).1 matches WindowCall::Detach { from, to } ==> from != to,
        remembers_attach_answer(s, a, activate_next(s, a).0),
{
}

/// The two steps after which a click may be asked: the point was converted
/// for a window that need not be brought forward, or it was brought forward.
pub open spec fn click_is_earned(s: ClickState, a: SysAnswer) -> bool {
    match (s, a) {
        (ClickState::ToScreen { activate }, SysAnswer::Flag(ok)) => !activate && ok,
        (ClickState::Activate, SysAnswer::Outcome(r)) => r is Ok,
        _ => false,
    }
}

/// The answers that make a window be skipped: not a window, minimised, or
/// the point not converted.
pub open spec fn skips_window(s: ClickState, a: SysAnswer) -> bool {
    match (s, a) {
        (ClickState::CheckWindow { .. }, SysAnswer::Flag(valid)) => !valid,
        (ClickState::CheckMinimized { .. }, SysAnswer::Flag(minimized)) => minimized,
        (ClickState::ToScreen { .. }, SysAnswer::Flag(ok)) => !ok,
        _ => false,
    }
}

/// A click is sent to a window only after it was found to be a window, not
/// minimised, with its point converted, and, where it must be brought
/// forward, after that succeeded: the click call comes only from these steps.
pub proof fn lemma_click_only_after_checks(s: ClickState, a: SysAnswer)
    ensures
        click_next(s, a).1 == ClickCall::Click && s != ClickState::Click ==> click_is_earned(s, a),
        skips_window(s, a) ==> click_next(s, a).1 == ClickCall::Next,
{
}

/// The input link from thread `from` to thread `to`, when `b` holds.
pub open spec fn link_if(b: bool, from: u32, to: u32) -> Seq<(u32, u32)> {
    if b { seq![(from, to)] } else { seq![] }
}

/// The input links that a focus state has made and not yet undone, in the
/// order in which they are to be undone.
pub open spec fn focus_links(s: FocusState) -> Seq<(u32, u32)> {
    match s {
        FocusState::AttachCurrent(t) => link_if(t.foreground != t.target, t.foreground, t.target),
        FocusState::CheckMinimized(t) => link_if(t.foreground != t.target, t.foreground, t.target)
            + link_if(t.current != t.target, t.current, t.target),
        FocusState::Restore(t) => link_if(t.foreground != t.target, t.foreground, t.target)
            + link_if(t.current != t.target, t.current, t.target),
        FocusState::Show(t) => link_if(t.foreground != t.target, t.foreground, t.target)
            + link_if(t.current != t.target, t.current, t.target),
        FocusState::BringToTop(t) => link_if(t.foreground != t.target, t.foreground, t.target)
            + link_if(t.current != t.target, t.current, t.target),
        FocusState::SetActive(t) => link_if(t.foreground != t.target, t.foreground, t.target)
            + link_if(t.current != t.target, t.current, t.target),
        FocusState::SetFocus(t) => link_if(t.foreground != t.target, t.foreground, t.target)
            + link_if(t.current != t.target, t.current, t.target),
        FocusState::DetachForeground(t) => seq![(t.foreground, t.target)] + link_if(
            t.current != t.target,
            t.current,
            t.target,
        ),
        FocusState::DetachCurrent(t) => seq![(t.current, t.target)],
        _ => seq![],
    }
}

/// The input links that stand after the system answered `a` to `call`: a
/// successful attach adds its link, a detach of the first link removes it,
/// and nothing else changes them.
pub open spec fn links_after(links: Seq<(u32, u32)>, call: WindowCall, a: SysAnswer) -> Seq<(u32, u32)> {
    match (call, a) {
        (WindowCall::Attach { from, to }, SysAnswer::Flag(ok)) => if ok { links.push((from, to)) } else { links },
        (WindowCall::Detach { from, to }, SysAnswer::Done) => if links.len() > 0 && links[0] == (from, to) {
            links.drop_first()
        } else {
            links
        },
        _ => links,
    }
}

/// Bringing a window forward keeps exact account of the input links it
/// makes: after every answer the links that stand are those made and not
/// yet undone; a detach always undoes the oldest link still standing; and
/// a successful end leaves no link standing, so every attachment made is
/// undone. Only a failure may end with links standing (as the procedure
/// stops at once on a failed call).
pub proof fn lemma_focus_undoes_every_attachment(s: FocusState, a: SysAnswer)
    requires
        focus_state_ok(s),
    ensures
        focus_next(s, a).1 matches WindowCall::Finish(Err(_)) || focus_links(focus_next(s, a).0) == links_after(
            focus_links(s),
            focus_request(s),
            a,
        ),
        focus_next(s, a).1 matches WindowCall::Detach { from, to } ==> focus_links(focus_next(s, a).0).len() > 0
            && focus_links(focus_next(s, a).0)[0] == (from, to),
        focus_next(s, a).1 == WindowCall::Finish(Ok(())) ==> focus_links(focus_next(s, a).0).len() == 0,
{
    let t_links = focus_links(s);
    match (s, a) {
        (FocusState::DetachForeground(t), SysAnswer::Done) => {
            assert(t_links.drop_first() =~= link_if(t.current != t.target, t.current, t.target));
        },
        (FocusState::DetachCurrent(t), SysAnswer::Done) => {
            assert(t_links.drop_first() =~= Seq::<(u32, u32)>::empty());
        },
        (FocusState::AttachForeground(t), SysAnswer::Flag(true)) => {
            assert(t_links.push((t.foreground, t.target)) =~= link_if(true, t.foreground, t.target));
            assert(t_links.push((t.foreground, t.target)) =~= link_if(true, t.foreground, t.target)
                + link_if(false, t.current, t.target));
        },
        (FocusState::AttachCurrent(t), SysAnswer::Flag(true)) => {
            assert(t_links.push((t.current, t.target)) =~= t_links + link_if(true, t.current, t.target));
        },
        _ => {
            assert(t_links + Seq::<(u32, u32)>::empty() =~= t_links);
        },
    }
}

/// The input links that an activation state has made and not yet undone,
/// in the order in which they are to be undone.
pub open spec fn activate_links(s: ActivateState) -> Seq<(u32, u32)> {
    match s {
        ActivateState::AttachCurrent(t, fg) => link_if(fg, t.foreground, t.target),
        ActivateState::CheckMinimized(t, fg, cur) => link_if(fg, t.foreground, t.target) + link_if(cur, t.current, t.target),
        ActivateState::Restore(t, fg, cur) => link_if(fg, t.foreground, t.target) + link_if(cur, t.current, t.target),
        ActivateState::SetForeground(t, fg, cur) => link_if(fg, t.foreground, t.target) + link_if(cur, t.current, t.target),
        ActivateState::BringToTop(t, fg, cur) => link_if(fg, t.foreground, t.target) + link_if(cur, t.current, t.target),
        ActivateState::SetActive(t, fg, cur) => link_if(fg, t.foreground, t.target) + link_if(cur, t.current, t.target),
        ActivateState::DetachForeground(t, cur) => seq![(t.foreground, t.target)] + link_if(cur, t.current, t.target),
        ActivateState::DetachCurrent(t) => seq![(t.current, t.target)],
        _ => seq![],
    }
}

/// Bringing a window forward for a click keeps exact account of the input
/// links it makes: after every answer the links that stand are those whose
/// attachment succeeded and that were not yet undone; a detach always undoes
/// the oldest link still standing; and the wait for the foreground, like
/// every end, comes only once no link stands, so every attachment that
/// succeeded is undone before the window is waited for.
pub proof fn lemma_activate_undoes_every_attachment(s: ActivateState, a: SysAnswer)
    ensures
        activate_links(activate_next(s, a).0) == links_after(activate_links(s), activate_request(s), a),
        activate_next(s, a).1 matches WindowCall::Detach { from, to } ==> activate_links(activate_next(s, a).0).len() > 0
            && activate_links(activate_next(s, a).0)[0] == (from, to),
        activate_next(s, a).1 == WindowCall::WaitForeground ==> activate_links(activate_next(s, a).0).len() == 0,
        activate_next(s, a).1 matches WindowCall::Finish(_) ==> activate_links(activate_next(s, a).0).len() == 0,
{
    let t_links = activate_links(s);
    match (s, a) {
        (ActivateState::DetachForeground(t, cur), SysAnswer::Done) => {
            assert(t_links.drop_first() =~= link_if(cur, t.current, t.target));
        },
        (ActivateState::DetachCurrent(t), SysAnswer::Done) => {
            assert(t_links.drop_first() =~= Seq::<(u32, u32)>::empty());
        },
        (ActivateState::AttachForeground(t), SysAnswer::Flag(ok)) => {
            assert(links_after(t_links, activate_request(s), a) =~= link_if(ok, t.foreground, t.target));
            assert(link_if(ok, t.foreground, t.target) =~= link_if(ok, t.foreground, t.target)
                + link_if(false, t.current, t.target));
        },
        (ActivateState::AttachCurrent(t, fg), SysAnswer::Flag(ok)) => {
            assert(links_after(t_links, activate_request(s), a) =~= t_links + link_if(ok, t.current, t.target));
        },
        (ActivateState::SetActive(t, fg, cur), SysAnswer::Outcome(_)) => {
            if !fg {
                assert(t_links =~= link_if(cur, t.current, t.target));
            }
        },
        _ => {},
    }
}

} // verus!
