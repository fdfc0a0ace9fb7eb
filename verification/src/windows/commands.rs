use vstd::prelude::*;
use crate::windows::manager::{WindowManager, WindowManagerView, next_index, prev_index};
use crate::windows::models::{DofusWindow, windows_view};

verus! {

/// Whether the helper may act: the foreground window is the helper itself or
/// one of the game windows.
pub open spec fn may_act(m: WindowManagerView, app_hwnd: usize, foreground: usize) -> bool {
    foreground == app_hwnd || m.has_window(foreground)
}

/// Steps to the next game window when the helper or a game window has the
/// focus, and returns a copy of the window to bring forward; otherwise, or
/// when no window is known, returns `None` and changes nothing.
pub fn next_dofus_window(manager: &mut WindowManager, app_hwnd: usize, foreground: usize) -> (w: Option<DofusWindow>)
    ensures
        !may_act(old(manager)@, app_hwnd, foreground) ==> w is None && final(manager)@ == old(manager)@,
        may_act(old(manager)@, app_hwnd, foreground) ==> {
            &&& final(manager)@.windows == old(manager)@.windows
            &&& final(manager)@.current_index == next_index(old(manager)@.current_index, old(manager)@.windows.len())
            &&& (w is None <==> old(manager)@.windows.len() == 0)
            &&& (w matches Some(w) ==> w@ == final(manager)@.windows[final(manager)@.current_index as int])
        },
{
    if !manager.is_focused_on_app_or_dofus(app_hwnd, foreground) {
        return None;
    }
    match manager.next_window() {
        None => None,
        Some(w) => Some(w.clone()),
    }
}

/// Steps to the previous game window when the helper or a game window has
/// the focus, and returns a copy of the window to bring forward; otherwise,
/// or when no window is known, returns `None` and changes nothing.
pub fn prev_dofus_window(manager: &mut WindowManager, app_hwnd: usize, foreground: usize) -> (w: Option<DofusWindow>)
    ensures
        !may_act(old(manager)@, app_hwnd, foreground) ==> w is None && final(manager)@ == old(manager)@,
        may_act(old(manager)@, app_hwnd, foreground) ==> {
            &&& final(manager)@.windows == old(manager)@.windows
            &&& final(manager)@.current_index == prev_index(old(manager)@.current_index, old(manager)@.windows.len())
            &&& (w is None <==> old(manager)@.windows.len() == 0)
            &&& (w matches Some(w) ==> w@ == final(manager)@.windows[final(manager)@.current_index as int])
        },
{
    if !manager.is_focused_on_app_or_dofus(app_hwnd, foreground) {
        return None;
    }
    match manager.previous_window() {
        None => None,
        Some(w) => Some(w.clone()),
    }
}

/// The window whose client area gives the point to click: the foreground
/// window when it is a game window, else the active game window.
pub open spec fn click_reference(m: WindowManagerView, foreground: usize) -> usize {
    if m.has_window(foreground) {
        foreground
    } else {
        m.windows[m.current_index as int].hwnd
    }
}

/// Collects the window list and the reference window for a click-all
/// sequence; `None` when the click should not happen (the focus is neither
/// on the helper nor on a game window, or no game window is known).
pub fn gather_click_context(manager: &WindowManager, app_hwnd: usize, foreground: usize) -> (r: Option<(Vec<DofusWindow>, usize)>)
    ensures
        r is None <==> !may_act(manager@, app_hwnd, foreground) || manager@.windows.len() == 0,
        r matches Some(c) ==> windows_view(c.0@) == manager@.windows && c.1 == click_reference(manager@, foreground),
        r matches Some(c) ==> manager@.has_window(c.1),
        manager@.index_in_range(),
{
    if !manager.is_focused_on_app_or_dofus(app_hwnd, foreground) {
        return None;
    }
    let windows = manager.dofus_windows();
    if windows.len() == 0 {
        return None;
    }
    proof {
        let v = manager@;
        if !v.has_window(foreground) {
            assert(v.current_index < v.windows.len());
            assert(0 <= v.current_index as int && v.current_index < v.windows.len()
                && v.windows[v.current_index as int].hwnd == click_reference(v, foreground));
        }
    }
    let reference = if manager.position(foreground).is_some() {
        foreground
    } else {
        match manager.active_dofus_window() {
            Some(w) => w.hwnd,
            None => windows[0].hwnd,
        }
    };
    Some((windows, reference))
}

/// Parameters of a click-all sequence with pauses: optional bounds, in
/// milliseconds, of the random pause after each click.
pub struct ClickAllDelaysParams {
    pub delay_min_ms: Option<u64>,
    pub delay_max_ms: Option<u64>,
}

impl ClickAllDelaysParams {
    /// The pause bounds, 100 ms and 130 ms where not given.
    pub fn delays(&self) -> (d: (u64, u64))
        ensures
            d.0 == (match self.delay_min_ms { Some(v) => v, None => 100 }),
            d.1 == (match self.delay_max_ms { Some(v) => v, None => 130 }),
    {
        let min = match self.delay_min_ms {
            Some(v) => v,
            None => 100,
        };
        let max = match self.delay_max_ms {
            Some(v) => v,
            None => 130,
        };
        (min, max)
    }
}

/// Where a key is sent to every game window: each window after the first,
/// in order, then the focus goes back to the first.
pub struct KeyBroadcast {
    pub targets: Vec<usize>,
    pub return_to: Option<usize>,
}

/// The plan for sending a key to all game windows; `None` when the focus is
/// neither on the helper nor on a game window.
pub fn key_broadcast_plan(manager: &WindowManager, app_hwnd: usize, foreground: usize) -> (r: Option<KeyBroadcast>)
    ensures
        r is None <==> !may_act(manager@, app_hwnd, foreground),
        r matches Some(p) ==> {
            &&& p.targets@.len() == (if manager@.windows.len() == 0 { 0int } else { manager@.windows.len() - 1 })
            &&& forall|i: int| 0 <= i < p.targets@.len() ==> #[trigger] p.targets@[i] == manager@.windows[i + 1].hwnd
            &&& (p.return_to is None <==> manager@.windows.len() == 0)
            &&& (p.return_to matches Some(h) ==> h == manager@.windows[0].hwnd)
        },
{
    if !manager.is_focused_on_app_or_dofus(app_hwnd, foreground) {
        return None;
    }
    let windows = manager.dofus_windows();
    let mut targets: Vec<usize> = Vec::new();
    let mut i: usize = 1;
    while i < windows.len()
        invariant
            1 <= i,
            i <= windows.len() || (windows.len() == 0 && i == 1),
            windows_view(windows@) == manager@.windows,
            targets@.len() == i - 1,
            forall|k: int| 0 <= k < targets@.len() ==> #[trigger] targets@[k] == manager@.windows[k + 1].hwnd,
        decreases windows.len() - i,
    {
        assert(manager@.windows[i as int].hwnd == windows@[i as int].hwnd);
        targets.push(windows[i].hwnd);
        i = i + 1;
    }
    assert(manager@.windows.len() == windows@.len());
    let return_to = if windows.len() == 0 {
        None
    } else {
        assert(manager@.windows[0].hwnd == windows@[0].hwnd);
        Some(windows[0].hwnd)
    };
    Some(KeyBroadcast { targets, return_to })
}

/// The chat command that invites character `name` to the group.
pub open spec fn invite_command(name: Seq<char>) -> Seq<char> {
    "/invite "@ + name
}

/// Where group invitations are typed: the first game window, which invites
/// the character of every other window in order.
pub struct InvitePlan {
    pub leader: usize,
    pub commands: Vec<String>,
}

/// The error when no game window is known.
pub open spec fn no_window_message() -> Seq<char> {
    "Aucune fenêtre Dofus trouvée"@
}

/// The plan for inviting every character into the first one's group:
/// `Ok(None)` when the focus is neither on the helper nor on a game window,
/// an error when no game window is known.
pub fn auto_invite_plan(manager: &WindowManager, app_hwnd: usize, foreground: usize) -> (r: Result<Option<InvitePlan>, String>)
    ensures
        r matches Ok(None) <==> !may_act(manager@, app_hwnd, foreground),
        r is Err <==> may_act(manager@, app_hwnd, foreground) && manager@.windows.len() == 0,
        r matches Err(e) ==> e@ == no_window_message(),
        r matches Ok(Some(p)) ==> {
            &&& manager@.windows.len() > 0
            &&& p.leader == manager@.windows[0].hwnd
            &&& p.commands@.len() == manager@.windows.len() - 1
            &&& forall|i: int| 0 <= i < p.commands@.len() ==>
                (#[trigger] p.commands@[i])@ == invite_command(manager@.windows[i + 1].name)
        },
{
    if !manager.is_focused_on_app_or_dofus(app_hwnd, foreground) {
        return Ok(None);
    }
    let windows = manager.dofus_windows();
    if windows.len() == 0 {
        return Err(String::from_str("Aucune fenêtre Dofus trouvée"));
    }
    let mut commands: Vec<String> = Vec::new();
    let mut i: usize = 1;
    while i < windows.len()
        invariant
            1 <= i <= windows.len(),
            windows_view(windows@) == manager@.windows,
            commands@.len() == i - 1,
            forall|k: int| 0 <= k < commands@.len() ==>
                (#[trigger] commands@[k])@ == invite_command(manager@.windows[k + 1].name),
        decreases windows.len() - i,
    {
        assert(manager@.windows[i as int].name == windows@[i as int].name@);
        let mut command = String::from_str("/invite ");
        command.append(windows[i].name.as_str());
        commands.push(command);
        i = i + 1;
    }
    assert(manager@.windows[0].hwnd == windows@[0].hwnd);
    Ok(Some(InvitePlan { leader: windows[0].hwnd, commands }))
}

/// One action of the invitation sequence.
#[derive(Debug, PartialEq, Eq)]
pub enum InviteAction {
    /// Bring this window forward.
    Focus(usize),
    /// Press this key.
    SendKey(String),
    /// Type this text.
    SendText(String),
    /// Press Enter.
    SendEnter,
}

/// One step of the invitation sequence: the action, the pause after it in
/// milliseconds, and the text put before the action's error if it fails;
/// the sequence stops at the first failure.
#[derive(Debug, PartialEq, Eq)]
pub struct InviteStep {
    pub action: InviteAction,
    pub pause_ms: u64,
    pub error_prefix: String,
}

/// The invitation sequence: bring the leader forward and pause 100 ms, press
/// the chat key and pause 50 ms, then for each invitation type it, pause
/// 50 ms, press Enter and pause 200 ms.
pub open spec fn invite_sequence_ok(steps: Seq<InviteStep>, plan: &InvitePlan, key: Seq<char>) -> bool {
    &&& steps.len() == 2 + 2 * plan.commands@.len()
    &&& steps[0].action == InviteAction::Focus(plan.leader)
    &&& steps[0].pause_ms == 100
    &&& steps[0].error_prefix@ == "Erreur lors du focus de la première fenêtre: "@
    &&& (steps[1].action matches InviteAction::SendKey(k) && k@ == key)
    &&& steps[1].pause_ms == 50
    &&& steps[1].error_prefix@ == "Erreur lors de l'envoi de la touche '"@ + key + "': "@
    &&& forall|i: int| 0 <= i < plan.commands@.len() ==> {
        let text = #[trigger] steps[2 + 2 * i];
        let enter = steps[3 + 2 * i];
        &&& (text.action matches InviteAction::SendText(t) && t@ == plan.commands@[i]@)
        &&& text.pause_ms == 50
        &&& text.error_prefix@ == "Erreur lors de l'envoi du texte '"@ + plan.commands@[i]@ + "': "@
        &&& enter.action == InviteAction::SendEnter
        &&& enter.pause_ms == 200
        &&& enter.error_prefix@ == "Erreur lors de l'envoi de la touche Entrée: "@
    }
}

fn quoted_prefix(head: &str, item: &str) -> (s: String)
    ensures
        s@ == head@ + "'"@ + item@ + "': "@,
{
    let mut s = String::from_str(head);
    s.append("'");
    s.append(item);
    s.append("': ");
    s
}

/// The steps that carry out an invitation plan, with `focus_chat_key` as
/// the key that opens the chat.
pub fn invite_steps(plan: &InvitePlan, focus_chat_key: &str) -> (steps: Vec<InviteStep>)
    ensures
        invite_sequence_ok(steps@, plan, focus_chat_key@),
{
    let mut steps: Vec<InviteStep> = Vec::new();
    steps.push(InviteStep {
        action: InviteAction::Focus(plan.leader),
        pause_ms: 100,
        error_prefix: String::from_str("Erreur lors du focus de la première fenêtre: "),
    });
    let key_prefix = quoted_prefix("Erreur lors de l'envoi de la touche ", focus_chat_key);
    proof {
        reveal_strlit("Erreur lors de l'envoi de la touche ");
        reveal_strlit("Erreur lors de l'envoi de la touche '");
        reveal_strlit("'");
        assert("Erreur lors de l'envoi de la touche "@ + "'"@ =~= "Erreur lors de l'envoi de la touche '"@);
        assert(key_prefix@ =~= "Erreur lors de l'envoi de la touche '"@ + focus_chat_key@ + "': "@);
    }
    steps.push(InviteStep {
        action: InviteAction::SendKey(String::from_str(focus_chat_key)),
        pause_ms: 50,
        error_prefix: key_prefix,
    });
    let mut i: usize = 0;
    while i < plan.commands.len()
        invariant
            i <= plan.commands@.len(),
            steps@.len() == 2 + 2 * i,
            steps@[0].action == InviteAction::Focus(plan.leader),
            steps@[0].pause_ms == 100,
            steps@[0].error_prefix@ == "Erreur lors du focus de la première fenêtre: "@,
            steps@[1].action matches InviteAction::SendKey(k) && k@ == focus_chat_key@,
            steps@[1].pause_ms == 50,
            steps@[1].error_prefix@ == "Erreur lors de l'envoi de la touche '"@ + focus_chat_key@ + "': "@,
            forall|j: int| 0 <= j < i ==> {
                let text = #[trigger] steps@[2 + 2 * j];
                let enter = steps@[3 + 2 * j];
                &&& (text.action matches InviteAction::SendText(t) && t@ == plan.commands@[j]@)
                &&& text.pause_ms == 50
                &&& text.error_prefix@ == "Erreur lors de l'envoi du texte '"@ + plan.commands@[j]@ + "': "@
                &&& enter.action == InviteAction::SendEnter
                &&& enter.pause_ms == 200
                &&& enter.error_prefix@ == "Erreur lors de l'envoi de la touche Entrée: "@
            },
        decreases plan.commands.len() - i,
    {
        let text_prefix = quoted_prefix("Erreur lors de l'envoi du texte ", plan.commands[i].as_str());
        proof {
            reveal_strlit("Erreur lors de l'envoi du texte ");
            reveal_strlit("Erreur lors de l'envoi du texte '");
            reveal_strlit("'");
            assert("Erreur lors de l'envoi du texte "@ + "'"@ =~= "Erreur lors de l'envoi du texte '"@);
            assert(text_prefix@ =~= "Erreur lors de l'envoi du texte '"@ + plan.commands@[i as int]@ + "': "@);
        }
        let ghost before = steps@;
        steps.push(InviteStep {
            action: InviteAction::SendText(plan.commands[i].clone()),
            pause_ms: 50,
            error_prefix: text_prefix,
        });
        steps.push(InviteStep {
            action: InviteAction::SendEnter,
            pause_ms: 200,
            error_prefix: String::from_str("Erreur lors de l'envoi de la touche Entrée: "),
        });
        proof {
            assert forall|j: int| 0 <= j < i + 1 implies {
                let text = #[trigger] steps@[2 + 2 * j];
                let enter = steps@[3 + 2 * j];
                &&& (text.action matches InviteAction::SendText(t) && t@ == plan.commands@[j]@)
                &&& text.pause_ms == 50
                &&& text.error_prefix@ == "Erreur lors de l'envoi du texte '"@ + plan.commands@[j]@ + "': "@
                &&& enter.action == InviteAction::SendEnter
                &&& enter.pause_ms == 200
                &&& enter.error_prefix@ == "Erreur lors de l'envoi de la touche Entrée: "@
            } by {
                if j < i {
                    assert(steps@[2 + 2 * j] == before[2 + 2 * j]);
                    assert(steps@[3 + 2 * j] == before[3 + 2 * j]);
                }
            }
        }
        i = i + 1;
    }
    steps
}

} // verus!
