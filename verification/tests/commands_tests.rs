use dofus_multi_helper::windows::api::{plan_clicks, ClickStep};
use dofus_multi_helper::windows::commands::{
    auto_invite_plan, gather_click_context, invite_steps, key_broadcast_plan, next_dofus_window, prev_dofus_window,
    InviteAction,
    ClickAllDelaysParams,
};
use dofus_multi_helper::windows::manager::WindowManager;
use dofus_multi_helper::windows::models::DofusWindow;

fn win(hwnd: usize, name: &str) -> DofusWindow {
    DofusWindow { title: format!("{} - Cra", name), hwnd, name: name.to_string(), class: "Cra".to_string() }
}

fn manager() -> WindowManager {
    let mut m = WindowManager::new();
    m.refresh_windows(vec![win(10, "A"), win(20, "B"), win(30, "C")]);
    m
}

const APP: usize = 999;

#[test]
fn next_and_prev_need_focus_on_app_or_game() {
    let mut m = manager();
    assert_eq!(next_dofus_window(&mut m, APP, 12345), None);
    assert_eq!(m.active_dofus_window().map(|w| w.hwnd), Some(10));
    assert_eq!(next_dofus_window(&mut m, APP, APP).map(|w| w.hwnd), Some(20));
    assert_eq!(next_dofus_window(&mut m, APP, 20).map(|w| w.hwnd), Some(30));
    assert_eq!(prev_dofus_window(&mut m, APP, 30).map(|w| w.hwnd), Some(20));
    assert_eq!(prev_dofus_window(&mut m, APP, 4).map(|w| w.hwnd), None);
    let mut empty = WindowManager::new();
    assert_eq!(next_dofus_window(&mut empty, APP, APP), None);
    assert_eq!(prev_dofus_window(&mut empty, APP, APP), None);
}

#[test]
fn click_context_uses_hovered_game_window_or_active_one() {
    let mut m = manager();
    let (ws, reference) = gather_click_context(&m, APP, 30).unwrap();
    assert_eq!(ws.len(), 3);
    assert_eq!(reference, 30);
    m.next_window();
    let (_, reference) = gather_click_context(&m, APP, APP).unwrap();
    assert_eq!(reference, 20);
    assert!(gather_click_context(&m, APP, 5).is_none());
    assert!(gather_click_context(&WindowManager::new(), APP, APP).is_none());
}

#[test]
fn click_plan_clicks_foreground_first() {
    let ws = vec![win(10, "A"), win(20, "B"), win(30, "C")];
    assert_eq!(
        plan_clicks(&ws, 20),
        vec![
            ClickStep { window: 1, activate: false },
            ClickStep { window: 0, activate: true },
            ClickStep { window: 2, activate: true },
        ]
    );
    assert_eq!(
        plan_clicks(&ws, 7),
        vec![
            ClickStep { window: 0, activate: true },
            ClickStep { window: 1, activate: true },
            ClickStep { window: 2, activate: true },
        ]
    );
    assert!(plan_clicks(&vec![], 7).is_empty());
}

#[test]
fn delay_params_default_to_100_and_130() {
    let p = ClickAllDelaysParams { delay_min_ms: None, delay_max_ms: None };
    assert_eq!(p.delays(), (100, 130));
    let p = ClickAllDelaysParams { delay_min_ms: Some(5), delay_max_ms: None };
    assert_eq!(p.delays(), (5, 130));
    let p = ClickAllDelaysParams { delay_min_ms: Some(5), delay_max_ms: Some(9) };
    assert_eq!(p.delays(), (5, 9));
}

#[test]
fn key_broadcast_targets_all_but_first_then_returns() {
    let m = manager();
    let p = key_broadcast_plan(&m, APP, APP).unwrap();
    assert_eq!(p.targets, vec![20, 30]);
    assert_eq!(p.return_to, Some(10));
    assert!(key_broadcast_plan(&m, APP, 1).is_none());
    let p = key_broadcast_plan(&WindowManager::new(), APP, APP).unwrap();
    assert!(p.targets.is_empty());
    assert_eq!(p.return_to, None);
}

#[test]
fn invite_plan_invites_every_other_character_from_the_first() {
    let m = manager();
    let p = auto_invite_plan(&m, APP, 10).unwrap().unwrap();
    assert_eq!(p.leader, 10);
    assert_eq!(p.commands, vec!["/invite B".to_string(), "/invite C".to_string()]);
    assert!(auto_invite_plan(&m, APP, 3).unwrap().is_none());
    assert_eq!(
        auto_invite_plan(&WindowManager::new(), APP, APP).err(),
        Some("Aucune fenêtre Dofus trouvée".to_string())
    );
}

#[test]
fn invite_steps_focus_open_chat_then_invite_each() {
    use_invite_steps();
}

fn use_invite_steps() {
    let m = manager();
    let plan = auto_invite_plan(&m, APP, 10).unwrap().unwrap();
    let steps = invite_steps(&plan, "Tab");
    assert_eq!(steps.len(), 6);
    assert_eq!(steps[0].action, InviteAction::Focus(10));
    assert_eq!(steps[0].pause_ms, 100);
    assert_eq!(steps[0].error_prefix, "Erreur lors du focus de la première fenêtre: ");
    assert_eq!(steps[1].action, InviteAction::SendKey("Tab".to_string()));
    assert_eq!(steps[1].pause_ms, 50);
    assert_eq!(steps[1].error_prefix, "Erreur lors de l'envoi de la touche 'Tab': ");
    assert_eq!(steps[2].action, InviteAction::SendText("/invite B".to_string()));
    assert_eq!(steps[2].pause_ms, 50);
    assert_eq!(steps[2].error_prefix, "Erreur lors de l'envoi du texte '/invite B': ");
    assert_eq!(steps[3].action, InviteAction::SendEnter);
    assert_eq!(steps[3].pause_ms, 200);
    assert_eq!(steps[3].error_prefix, "Erreur lors de l'envoi de la touche Entrée: ");
    assert_eq!(steps[4].action, InviteAction::SendText("/invite C".to_string()));
    assert_eq!(steps[5].action, InviteAction::SendEnter);
}
