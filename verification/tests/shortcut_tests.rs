use dofus_multi_helper::shortcuts::handler::{event_key_name, handle_event, EventOutcome, InputEvent, MouseButton};
use dofus_multi_helper::shortcuts::models::{ShortcutData, ShortcutMap};
use dofus_multi_helper::shortcuts::store::ShortcutStore;

fn key(name: &str) -> InputEvent {
    InputEvent::KeyPress(name.to_string())
}

fn triggered(o: EventOutcome) -> Vec<(String, String)> {
    match o {
        EventOutcome::Triggered(ps) => {
            let mut v: Vec<(String, String)> = ps.into_iter().map(|p| (p.shortcut, p.key)).collect();
            v.sort();
            v
        },
        _ => panic!("not a triggered outcome"),
    }
}

#[test]
fn map_insert_get_remove() {
    let mut m = ShortcutMap::new();
    assert_eq!(m.len(), 0);
    m.insert("next".to_string(), "F1".to_string());
    m.insert("prev".to_string(), "F2".to_string());
    m.insert("next".to_string(), "F3".to_string());
    assert_eq!(m.len(), 2);
    assert_eq!(m.get(&"next".to_string()), Some("F3".to_string()));
    assert!(m.remove(&"next".to_string()));
    assert!(!m.remove(&"next".to_string()));
    assert_eq!(m.get(&"next".to_string()), None);
    assert_eq!(m.get(&"prev".to_string()), Some("F2".to_string()));
    let mut pairs = m.copy().pairs();
    pairs.sort();
    assert_eq!(pairs, vec![("prev".to_string(), "F2".to_string())]);
}

#[test]
fn shortcuts_bound_to_a_key() {
    let mut m = ShortcutMap::new();
    m.insert("a".to_string(), "F1".to_string());
    m.insert("b".to_string(), "F2".to_string());
    m.insert("c".to_string(), "F1".to_string());
    let mut r = m.shortcuts_bound_to(&"F1".to_string());
    r.sort();
    assert_eq!(r, vec!["a".to_string(), "c".to_string()]);
    assert!(m.shortcuts_bound_to(&"F9".to_string()).is_empty());
}

#[test]
fn store_loads_saved_shortcuts_or_starts_empty() {
    let mut m = ShortcutMap::new();
    m.insert("next".to_string(), "F1".to_string());
    let s = ShortcutStore::new(Some(ShortcutData { shortcuts: m }));
    assert_eq!(s.get_shortcuts().get(&"next".to_string()), Some("F1".to_string()));
    assert_eq!(s.shortcut_data().shortcuts.len(), 1);
    let empty = ShortcutStore::new(None);
    assert_eq!(empty.get_shortcuts().len(), 0);
}

#[test]
fn registering_binds_the_next_key_which_then_triggers() {
    let mut s = ShortcutStore::new(None);
    s.register_shortcut("next_window".to_string());
    match handle_event(key("F5"), &mut s) {
        EventOutcome::Registered(p) => {
            assert_eq!(p.shortcut, "next_window");
            assert_eq!(p.key, "F5");
        },
        _ => panic!("expected a registration"),
    }
    assert_eq!(s.get_shortcuts().get(&"next_window".to_string()), Some("F5".to_string()));
    assert_eq!(triggered(handle_event(key("F5"), &mut s)), vec![("next_window".to_string(), "F5".to_string())]);
    assert!(triggered(handle_event(key("F6"), &mut s)).is_empty());
}

#[test]
fn one_key_can_trigger_several_shortcuts() {
    let mut s = ShortcutStore::new(None);
    s.register_shortcut("a".to_string());
    handle_event(key("KeyQ"), &mut s);
    s.register_shortcut("b".to_string());
    handle_event(key("KeyQ"), &mut s);
    assert_eq!(
        triggered(handle_event(key("KeyQ"), &mut s)),
        vec![("a".to_string(), "KeyQ".to_string()), ("b".to_string(), "KeyQ".to_string())]
    );
}

#[test]
fn removed_shortcut_no_longer_triggers() {
    let mut s = ShortcutStore::new(None);
    s.register_shortcut("a".to_string());
    handle_event(key("KeyQ"), &mut s);
    let p = s.remove_shortcut_key("a".to_string());
    assert_eq!(p.shortcut, "a");
    assert_eq!(p.key, "");
    assert!(triggered(handle_event(key("KeyQ"), &mut s)).is_empty());
}

#[test]
fn left_right_clicks_and_other_events_are_ignored() {
    let mut s = ShortcutStore::new(None);
    s.register_shortcut("a".to_string());
    assert!(matches!(handle_event(InputEvent::ButtonPress(MouseButton::Left), &mut s), EventOutcome::Ignored));
    assert!(matches!(handle_event(InputEvent::ButtonPress(MouseButton::Right), &mut s), EventOutcome::Ignored));
    assert!(matches!(handle_event(InputEvent::Other, &mut s), EventOutcome::Ignored));
    // still waiting: the middle button is bound
    match handle_event(InputEvent::ButtonPress(MouseButton::Middle), &mut s) {
        EventOutcome::Registered(p) => assert_eq!(p.key, "Middle"),
        _ => panic!("expected a registration"),
    }
}

#[test]
fn button_names_follow_their_debug_form() {
    assert_eq!(event_key_name(&InputEvent::ButtonPress(MouseButton::Unknown(3))), Some("Unknown(3)".to_string()));
    assert_eq!(event_key_name(&InputEvent::ButtonPress(MouseButton::Unknown(0))), Some("Unknown(0)".to_string()));
    assert_eq!(event_key_name(&InputEvent::ButtonPress(MouseButton::Unknown(255))), Some("Unknown(255)".to_string()));
    assert_eq!(event_key_name(&InputEvent::ButtonPress(MouseButton::Middle)), Some("Middle".to_string()));
    assert_eq!(event_key_name(&key("Escape")), Some("Escape".to_string()));
    assert_eq!(event_key_name(&InputEvent::ButtonPress(MouseButton::Left)), None);
}

#[test]
fn watching_key_to_send_can_be_turned_on() {
    let mut s = ShortcutStore::new(None);
    s.watch_key_to_send();
    s.watch_key_to_send();
}
