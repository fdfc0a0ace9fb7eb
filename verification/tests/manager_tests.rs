use dofus_multi_helper::windows::manager::WindowManager;
use dofus_multi_helper::windows::models::DofusWindow;

fn win(hwnd: usize, name: &str) -> DofusWindow {
    DofusWindow {
        title: format!("{} - Iop - 3.0 - Release", name),
        hwnd,
        name: name.to_string(),
        class: "Iop".to_string(),
    }
}

fn three() -> Vec<DofusWindow> {
    vec![win(10, "A"), win(20, "B"), win(30, "C")]
}

#[test]
fn new_manager_is_empty() {
    let mut m = WindowManager::new();
    assert!(m.dofus_windows().is_empty());
    assert_eq!(m.active_dofus_window(), None);
    assert!(m.next_window().is_none());
    assert!(m.previous_window().is_none());
}

#[test]
fn refresh_returns_and_keeps_the_new_windows() {
    let mut m = WindowManager::new();
    let copy = m.refresh_windows(three());
    assert_eq!(copy, three());
    assert_eq!(m.dofus_windows(), three());
    assert_eq!(m.active_dofus_window(), Some(win(10, "A")));
}

#[test]
fn next_window_wraps_around() {
    let mut m = WindowManager::new();
    m.refresh_windows(three());
    assert_eq!(m.next_window().map(|w| w.hwnd), Some(20));
    assert_eq!(m.next_window().map(|w| w.hwnd), Some(30));
    assert_eq!(m.next_window().map(|w| w.hwnd), Some(10));
    assert_eq!(m.active_dofus_window().map(|w| w.hwnd), Some(10));
}

#[test]
fn previous_window_wraps_around() {
    let mut m = WindowManager::new();
    m.refresh_windows(three());
    assert_eq!(m.previous_window().map(|w| w.hwnd), Some(30));
    assert_eq!(m.previous_window().map(|w| w.hwnd), Some(20));
    assert_eq!(m.previous_window().map(|w| w.hwnd), Some(10));
}

#[test]
fn next_then_previous_returns_to_the_same_window() {
    let mut m = WindowManager::new();
    m.refresh_windows(three());
    m.next_window();
    let before = m.active_dofus_window();
    m.next_window();
    m.previous_window();
    assert_eq!(m.active_dofus_window(), before);
    m.previous_window();
    m.next_window();
    assert_eq!(m.active_dofus_window(), before);
}

#[test]
fn full_rotation_comes_back() {
    let mut m = WindowManager::new();
    m.refresh_windows(three());
    m.next_window();
    let start = m.active_dofus_window();
    for _ in 0..3 {
        m.next_window();
    }
    assert_eq!(m.active_dofus_window(), start);
}

#[test]
fn single_window_stays_active() {
    let mut m = WindowManager::new();
    m.refresh_windows(vec![win(5, "Solo")]);
    assert_eq!(m.next_window().map(|w| w.hwnd), Some(5));
    assert_eq!(m.previous_window().map(|w| w.hwnd), Some(5));
}

#[test]
fn refresh_keeps_position_when_count_is_unchanged() {
    let mut m = WindowManager::new();
    m.refresh_windows(three());
    m.next_window();
    m.next_window();
    m.refresh_windows(vec![win(11, "D"), win(21, "E"), win(31, "F")]);
    assert_eq!(m.active_dofus_window().map(|w| w.hwnd), Some(31));
}

#[test]
fn refresh_resets_position_when_count_changes() {
    let mut m = WindowManager::new();
    m.refresh_windows(three());
    m.next_window();
    m.refresh_windows(vec![win(11, "D"), win(21, "E")]);
    assert_eq!(m.active_dofus_window().map(|w| w.hwnd), Some(11));
    m.refresh_windows(vec![]);
    assert_eq!(m.active_dofus_window(), None);
    assert!(m.next_window().is_none());
}

#[test]
fn focus_on_app_or_game_window() {
    let mut m = WindowManager::new();
    m.refresh_windows(three());
    assert!(m.is_focused_on_app_or_dofus(99, 99));
    assert!(m.is_focused_on_app_or_dofus(99, 20));
    assert!(!m.is_focused_on_app_or_dofus(99, 77));
    assert_eq!(m.position(30), Some(2));
    assert_eq!(m.position(31), None);
}

#[test]
fn focusing_a_known_window_makes_it_active() {
    let mut m = WindowManager::new();
    m.refresh_windows(three());
    assert_eq!(m.check_dofus_window(30), Ok(()));
    assert_eq!(m.focus_dofus_window(30, Ok(())), Ok(()));
    assert_eq!(m.active_dofus_window().map(|w| w.hwnd), Some(30));
}

#[test]
fn focusing_an_unknown_window_is_refused() {
    let mut m = WindowManager::new();
    m.refresh_windows(three());
    let msg = "Le hwnd n'est pas une fenêtre Dofus".to_string();
    assert_eq!(m.check_dofus_window(31), Err(msg.clone()));
    assert_eq!(m.focus_dofus_window(31, Ok(())), Err(msg));
    assert_eq!(m.active_dofus_window().map(|w| w.hwnd), Some(10));
}

#[test]
fn failed_focus_keeps_the_active_window() {
    let mut m = WindowManager::new();
    m.refresh_windows(three());
    assert_eq!(m.focus_dofus_window(20, Err("Invalid window handle".to_string())), Err("Invalid window handle".to_string()));
    assert_eq!(m.active_dofus_window().map(|w| w.hwnd), Some(10));
}

#[test]
fn duplicate_handles_focus_the_first() {
    let mut m = WindowManager::new();
    m.refresh_windows(vec![win(1, "A"), win(2, "B"), win(2, "C")]);
    assert_eq!(m.focus_dofus_window(2, Ok(())), Ok(()));
    assert_eq!(m.active_dofus_window().map(|w| w.name), Some("B".to_string()));
}

#[test]
fn cloning_a_window_keeps_it() {
    let w = win(3, "Z");
    assert_eq!(w.clone(), w);
}

#[test]
fn full_rotation_returns_the_start_window_on_the_last_call() {
    let mut m = WindowManager::new();
    m.refresh_windows(vec![win(1, "A"), win(2, "B"), win(3, "C"), win(4, "D")]);
    m.next_window();
    let start = m.active_dofus_window().unwrap();
    let mut last = None;
    for _ in 0..4 {
        last = m.next_window().cloned();
    }
    assert_eq!(last, Some(start.clone()));
    assert_eq!(m.active_dofus_window(), Some(start));
    assert_eq!(m.dofus_windows().len(), 4);
}
