use vstd::prelude::*;
use crate::windows::models::{DofusWindow, DofusWindowView, windows_view, copy_windows};

verus! {

/// The position that follows `i` in a rotation over `n` windows.
pub open spec fn next_index(i: nat, n: nat) -> nat {
    if n == 0 { i } else { (i + 1) % (n as int) as nat }
}

/// The position that precedes `i` in a rotation over `n` windows.
pub open spec fn prev_index(i: nat, n: nat) -> nat {
    if n == 0 { i } else { ((i + n - 1) % (n as int)) as nat }
}

/// Stepping back from `i` is `n - 1` at the first position and `i - 1` elsewhere.
pub proof fn lemma_prev_index(i: nat, n: nat)
    requires
        i < n,
    ensures
        prev_index(i, n) == (if i == 0 { (n - 1) as nat } else { (i - 1) as nat }),
{
    if i == 0 {
        vstd::arithmetic::div_mod::lemma_small_mod((n - 1) as nat, n);
    } else {
        vstd::arithmetic::div_mod::lemma_mod_add_multiples_vanish((i - 1) as int, n as int);
        vstd::arithmetic::div_mod::lemma_small_mod((i - 1) as nat, n);
    }
}

/// The first position at or after `from` of a window with handle `hwnd`.
pub open spec fn first_with_handle(ws: Seq<DofusWindowView>, hwnd: usize, from: int) -> Option<nat>
    decreases ws.len() - from,
{
    if from < 0 || from >= ws.len() {
        None
    } else if ws[from].hwnd == hwnd {
        Some(from as nat)
    } else {
        first_with_handle(ws, hwnd, from + 1)
    }
}

/// `first_with_handle` finds the first matching window after `from`, and
/// finds one exactly when there is one.
pub proof fn lemma_first_with_handle(ws: Seq<DofusWindowView>, hwnd: usize, from: int)
    requires
        0 <= from,
    ensures
        first_with_handle(ws, hwnd, from) is Some <==> exists|i: int|
            from <= i < ws.len() && #[trigger] ws[i].hwnd == hwnd,
        first_with_handle(ws, hwnd, from) matches Some(p) ==> from <= p < ws.len()
            && ws[p as int].hwnd == hwnd && forall|j: int| from <= j < p ==> ws[j].hwnd != hwnd,
    decreases ws.len() - from,
{
    if from < ws.len() && ws[from].hwnd != hwnd {
        lemma_first_with_handle(ws, hwnd, from + 1);
        if exists|i: int| from <= i < ws.len() && #[trigger] ws[i].hwnd == hwnd {
            let i = choose|i: int| from <= i < ws.len() && #[trigger] ws[i].hwnd == hwnd;
            assert(from + 1 <= i);
        }
    }
}

/// The error returned for a handle that is not a known game window.
pub open spec fn not_dofus_window_message() -> Seq<char> {
    "Le hwnd n'est pas une fenêtre Dofus"@
}


/// Stepping forward then back returns to the same position, for every
/// position inside a non-empty list.
pub proof fn lemma_next_then_previous(i: nat, n: nat)
    requires
        i < n,
    ensures
        prev_index(next_index(i, n), n) == i,
        next_index(i, n) < n,
{
    if i + 1 < n {
        vstd::arithmetic::div_mod::lemma_small_mod(i + 1, n);
        lemma_prev_index(i + 1, n);
    } else {
        vstd::arithmetic::div_mod::lemma_mod_self_0(n as int);
        lemma_prev_index(0, n);
    }
}

/// Stepping back then forward returns to the same position, for every
/// position inside a non-empty list.
pub proof fn lemma_previous_then_next(i: nat, n: nat)
    requires
        i < n,
    ensures
        next_index(prev_index(i, n), n) == i,
        prev_index(i, n) < n,
{
    lemma_prev_index(i, n);
    if i == 0 {
        vstd::arithmetic::div_mod::lemma_mod_self_0(n as int);
    } else {
        vstd::arithmetic::div_mod::lemma_small_mod(i, n);
    }
}

/// The position after `k` forward steps from `i` over `n` windows.
pub open spec fn advance(i: nat, n: nat, k: nat) -> nat
    decreases k,
{
    if k == 0 { i } else { next_index(advance(i, n, (k - 1) as nat), n) }
}

proof fn lemma_advance_mod(i: nat, n: nat, k: nat)
    requires
        i < n,
    ensures
        advance(i, n, k) == ((i + k) as int) % (n as int),
    decreases k,
{
    if k == 0 {
        vstd::arithmetic::div_mod::lemma_small_mod(i, n);
    } else {
        lemma_advance_mod(i, n, (k - 1) as nat);
        vstd::arithmetic::div_mod::lemma_add_mod_noop_right(1, (i + k - 1) as int, n as int);
    }
}

/// Stepping forward once per window comes back to the starting window:
/// the rotation visits the whole list.
pub proof fn lemma_full_rotation(i: nat, n: nat)
    requires
        i < n,
    ensures
        advance(i, n, n) == i,
{
    lemma_advance_mod(i, n, n);
    vstd::arithmetic::div_mod::lemma_mod_add_multiples_vanish(i as int, n as int);
    vstd::arithmetic::div_mod::lemma_small_mod(i, n);
}

/// The mathematical value of a [`WindowManager`]: the known windows, in the
/// order in which they were found, and the position of the active one.
pub struct WindowManagerView {
    pub windows: Seq<DofusWindowView>,
    pub current_index: nat,
}

impl WindowManagerView {
    /// The active position is inside the list, or 0 when the list is empty.
    pub open spec fn index_in_range(self) -> bool {
        self.current_index == 0 || self.current_index < self.windows.len()
    }

    /// The position of the first window with handle `hwnd`, if any.
    pub open spec fn position_of(self, hwnd: usize) -> Option<nat> {
        first_with_handle(self.windows, hwnd, 0)
    }

    /// Whether some known window has handle `hwnd`.
    pub open spec fn has_window(self, hwnd: usize) -> bool {
        exists|i: int| 0 <= i < self.windows.len() && self.windows[i].hwnd == hwnd
    }
}


/// What one call of `next_window` does to the manager's value: the windows
/// stay and the active position moves one step forward.
pub open spec fn steps_forward(before: WindowManagerView, after: WindowManagerView) -> bool {
    after.windows == before.windows && after.current_index == next_index(before.current_index, before.windows.len())
}

/// What one call of `previous_window` does to the manager's value: the
/// windows stay and the active position moves one step back.
pub open spec fn steps_back(before: WindowManagerView, after: WindowManagerView) -> bool {
    after.windows == before.windows && after.current_index == prev_index(before.current_index, before.windows.len())
}

/// Calling `next_window` once per known window, starting from any valid
/// state, comes back to the starting state, and the last call returns the
/// window that was active at the start. `states` are the manager's values
/// before the first call and after each call, as `next_window` states them.
pub proof fn lemma_next_window_full_rotation(states: Seq<WindowManagerView>)
    requires
        states.len() >= 2,
        states.len() == states[0].windows.len() + 1,
        states[0].current_index < states[0].windows.len(),
        forall|k: int| 0 <= k < states.len() - 1 ==> #[trigger] steps_forward(states[k], states[k + 1]),
    ensures
        states.last() == states[0],
        states.last().windows[states.last().current_index as int] == states[0].windows[states[0].current_index as int],
{
    let n = states[0].windows.len();
    let i0 = states[0].current_index;
    assert forall|k: int| 0 <= k < states.len() implies #[trigger] states[k].windows == states[0].windows
        && states[k].current_index == advance(i0, n, k as nat) by {
        lemma_rotation_prefix(states, k);
    }
    lemma_full_rotation(i0, n);
    assert(states.last().windows == states[0].windows);
    assert(states.last().current_index == states[0].current_index);
}

proof fn lemma_rotation_prefix(states: Seq<WindowManagerView>, k: int)
    requires
        0 <= k < states.len(),
        forall|j: int| 0 <= j < states.len() - 1 ==> #[trigger] steps_forward(states[j], states[j + 1]),
    ensures
        states[k].windows == states[0].windows,
        states[k].current_index == advance(states[0].current_index, states[0].windows.len(), k as nat),
    decreases k,
{
    if k > 0 {
        lemma_rotation_prefix(states, k - 1);
        let j = k - 1;
        assert(steps_forward(states[j], states[j + 1]));
        assert(j + 1 == k);
    }
}

/// Keeps the list of game windows and which of them is active.
pub struct WindowManager {
    windows: Vec<DofusWindow>,
    current_index: usize,
}

impl View for WindowManager {
    type V = WindowManagerView;

    closed spec fn view(&self) -> WindowManagerView {
        WindowManagerView { windows: windows_view(self.windows@), current_index: self.current_index as nat }
    }
}

impl WindowManager {
    #[verifier::type_invariant]
    spec fn index_in_range(&self) -> bool {
        self.current_index == 0 || self.current_index < self.windows.len()
    }

    /// An empty manager.
    pub fn new() -> (m: Self)
        ensures
            m@.windows == Seq::<DofusWindowView>::empty(),
            m@.current_index == 0,
    {
        WindowManager { windows: Vec::new(), current_index: 0 }
    }

    /// Replaces the known windows by `new_windows` and returns a copy of them.
    /// The active position is kept when the number of windows is unchanged
    /// and the position is still inside the list; otherwise it goes back to 0.
    pub fn refresh_windows(&mut self, new_windows: Vec<DofusWindow>) -> (copy: Vec<DofusWindow>)
        ensures
            final(self)@.windows == windows_view(new_windows@),
            final(self)@.current_index == (if new_windows@.len() != old(self)@.windows.len()
                || old(self)@.current_index >= new_windows@.len() {
                0
            } else {
                old(self)@.current_index
            }),
            windows_view(copy@) == windows_view(new_windows@),
            final(self)@.index_in_range(),
    {
        proof { use_type_invariant(&*self); }
        let index = if new_windows.len() != self.windows.len() || self.current_index >= new_windows.len() {
            0
        } else {
            self.current_index
        };
        let copy = copy_windows(&new_windows);
        *self = WindowManager { windows: new_windows, current_index: index };
        copy
    }

    /// Moves the active position one step forward, wrapping to the first
    /// window after the last, and returns the window now active; `None`, with
    /// nothing changed, when no window is known.
    pub fn next_window(&mut self) -> (w: Option<&DofusWindow>)
        ensures
            final(self)@.windows == old(self)@.windows,
            final(self)@.current_index == next_index(old(self)@.current_index, old(self)@.windows.len()),
            steps_forward(old(self)@, final(self)@),
            old(self)@.windows.len() == 0 <==> w is None,
            w matches Some(w) ==> w@ == final(self)@.windows[final(self)@.current_index as int],
            final(self)@.index_in_range(),
    {
        proof { use_type_invariant(&*self); }
        if self.windows.len() == 0 {
            return None;
        }
        self.current_index = (self.current_index + 1) % self.windows.len();
        Some(&self.windows[self.current_index])
    }

    /// Moves the active position one step back, wrapping to the last window
    /// before the first, and returns the window now active; `None`, with
    /// nothing changed, when no window is known.
    pub fn previous_window(&mut self) -> (w: Option<&DofusWindow>)
        ensures
            final(self)@.windows == old(self)@.windows,
            final(self)@.current_index == prev_index(old(self)@.current_index, old(self)@.windows.len()),
            steps_back(old(self)@, final(self)@),
            old(self)@.windows.len() == 0 <==> w is None,
            w matches Some(w) ==> w@ == final(self)@.windows[final(self)@.current_index as int],
            final(self)@.index_in_range(),
    {
        proof { use_type_invariant(&*self); }
        let n = self.windows.len();
        if n == 0 {
            return None;
        }
        let i = self.current_index;
        let j = if i == 0 { n - 1 } else { i - 1 };
        proof { lemma_prev_index(i as nat, n as nat); }
        self.current_index = j;
        Some(&self.windows[self.current_index])
    }

    /// Whether the foreground window `active_hwnd` is the helper's own window
    /// `app_hwnd` or one of the known game windows.
    pub fn is_focused_on_app_or_dofus(&self, app_hwnd: usize, active_hwnd: usize) -> (focused: bool)
        ensures
            focused == (active_hwnd == app_hwnd || self@.has_window(active_hwnd)),
            self@.index_in_range(),
    {
        proof { use_type_invariant(self); }
        active_hwnd == app_hwnd || self.position(active_hwnd).is_some()
    }

    /// The position of the first known window with handle `hwnd`.
    pub fn position(&self, hwnd: usize) -> (pos: Option<usize>)
        ensures
            pos matches Some(p) ==> self@.position_of(hwnd) == Some(p as nat),
            pos is None ==> self@.position_of(hwnd) is None,
            pos is Some <==> self@.has_window(hwnd),
            self@.index_in_range(),
    {
        proof { use_type_invariant(self); }
        proof { lemma_first_with_handle(self@.windows, hwnd, 0); }
        let mut i: usize = 0;
        while i < self.windows.len()
            invariant
                i <= self.windows.len(),
                self@.windows.len() == self.windows.len(),
                first_with_handle(self@.windows, hwnd, 0) == first_with_handle(self@.windows, hwnd, i as int),
                self@.index_in_range(),
            decreases self.windows.len() - i,
        {
            assert(self@.windows[i as int].hwnd == self.windows[i as int].hwnd);
            if self.windows[i].hwnd == hwnd {
                return Some(i);
            }
            i = i + 1;
        }
        None
    }

    /// A copy of the active window; `None` exactly when no window is known.
    pub fn active_dofus_window(&self) -> (w: Option<DofusWindow>)
        ensures
            self@.windows.len() == 0 <==> w is None,
            w matches Some(w) ==> w@ == self@.windows[self@.current_index as int],
            self@.index_in_range(),
    {
        proof { use_type_invariant(self); }
        if self.current_index < self.windows.len() {
            Some(self.windows[self.current_index].clone())
        } else {
            None
        }
    }

    /// A copy of the known windows, in order.
    pub fn dofus_windows(&self) -> (ws: Vec<DofusWindow>)
        ensures
            windows_view(ws@) == self@.windows,
            self@.index_in_range(),
    {
        proof { use_type_invariant(self); }
        copy_windows(&self.windows)
    }

    /// Fails, with the error the helper reports, when `hwnd` is not a known
    /// game window; a focus request is only made for a known window.
    pub fn check_dofus_window(&self, hwnd: usize) -> (r: Result<(), String>)
        ensures
            r is Ok <==> self@.has_window(hwnd),
            r matches Err(e) ==> e@ == not_dofus_window_message(),
            self@.index_in_range(),
    {
        if self.position(hwnd).is_none() {
            return Err(String::from_str("Le hwnd n'est pas une fenêtre Dofus"));
        }
        Ok(())
    }

    /// Completes a focus request for `hwnd`, given what the attempt to bring
    /// the window forward returned (`focused`): an unknown window is refused
    /// with the check's error, a failed attempt returns its error, and a
    /// successful one makes `hwnd` the active window. The state changes only
    /// on success.
    pub fn focus_dofus_window(&mut self, hwnd: usize, focused: Result<(), String>) -> (r: Result<(), String>)
        ensures
            !old(self)@.has_window(hwnd) ==> (r matches Err(e) && e@ == not_dofus_window_message()),
            old(self)@.has_window(hwnd) && focused is Err ==> r == focused,
            r is Ok <==> (old(self)@.has_window(hwnd) && focused is Ok),
            r is Ok ==> final(self)@.windows == old(self)@.windows
                && Some(final(self)@.current_index) == old(self)@.position_of(hwnd),
            r is Err ==> final(self)@ == old(self)@,
            final(self)@.index_in_range(),
    {
        proof { use_type_invariant(&*self); }
        let pos = self.position(hwnd);
        if pos.is_none() {
            return Err(String::from_str("Le hwnd n'est pas une fenêtre Dofus"));
        }
        let p = pos.unwrap();
        proof { lemma_first_with_handle(self@.windows, hwnd, 0); }
        if focused.is_err() {
            return focused;
        }
        self.current_index = p;
        Ok(())
    }
}

} // verus!
