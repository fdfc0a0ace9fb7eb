use vstd::prelude::*;
use crate::shortcuts::models::{ShortcutPayload, bound_to, texts};
use crate::shortcuts::store::{ShortcutStore, ShortcutStoreView};
use crate::text::{decimal, decimal_string};

verus! {

/// A mouse button, as the input listener reports it.
#[derive(Clone, Copy, Debug, PartialEq, Eq)]
pub enum MouseButton {
    Left,
    Right,
    Middle,
    Unknown(u8),
}

/// An input event from the global keyboard and mouse listener: a key press,
/// given by the debug name of the key (such as `KeyA` or `F1`), a button
/// press, or anything else.
pub enum InputEvent {
    KeyPress(String),
    ButtonPress(MouseButton),
    Other,
}

/// The name under which a button is bound to shortcuts (its debug name);
/// `None` for the left and right buttons, which are never shortcuts.
pub open spec fn button_label(b: MouseButton) -> Option<Seq<char>> {
    match b {
        MouseButton::Left => None,
        MouseButton::Right => None,
        MouseButton::Middle => Some("Middle"@),
        MouseButton::Unknown(n) => Some("Unknown("@ + decimal(n as nat) + ")"@),
    }
}

/// The key name that an event stands for, if it can be bound to a shortcut.
pub open spec fn event_key(e: InputEvent) -> Option<Seq<char>> {
    match e {
        InputEvent::KeyPress(name) => Some(name@),
        InputEvent::ButtonPress(b) => button_label(b),
        InputEvent::Other => None,
    }
}

/// The key name of an event: the key's name, the button's name except for
/// the left and right buttons, nothing for other events.
pub fn event_key_name(e: &InputEvent) -> (r: Option<String>)
    ensures
        r is None <==> event_key(*e) is None,
        r matches Some(s) ==> event_key(*e) == Some(s@),
{
    match e {
        InputEvent::KeyPress(name) => Some(name.clone()),
        InputEvent::ButtonPress(b) => match b {
            MouseButton::Left => None,
            MouseButton::Right => None,
            MouseButton::Middle => Some(String::from_str("Middle")),
            MouseButton::Unknown(n) => {
                let mut s = String::from_str("Unknown(");
                let digits = decimal_string(*n as u64);
                s.append(digits.as_str());
                s.append(")");
                Some(s)
            },
        },
        InputEvent::Other => None,
    }
}

/// What handling an event leads to: nothing; the binding of the shortcut
/// that was waiting for a key (to save and report); or the shortcuts that the
/// key triggers, each once, in no particular order (to report).
pub enum EventOutcome {
    Ignored,
    Registered(ShortcutPayload),
    Triggered(Vec<ShortcutPayload>),
}

/// The mathematical value of an [`EventOutcome`]: the triggered shortcuts
/// are a set.
pub enum EventOutcomeView {
    Ignored,
    Registered(Seq<char>, Seq<char>),
    Triggered(Set<Seq<char>>, Seq<char>),
}

/// The shortcuts of a list of messages.
pub open spec fn payload_shortcuts(ps: Seq<ShortcutPayload>) -> Seq<Seq<char>> {
    ps.map_values(|p: ShortcutPayload| p.shortcut@)
}

/// The view of an outcome; the key of a triggered outcome is the key of its
/// messages (all equal, as `handle_event` states).
pub open spec fn outcome_view(o: EventOutcome, key: Seq<char>) -> EventOutcomeView {
    match o {
        EventOutcome::Ignored => EventOutcomeView::Ignored,
        EventOutcome::Registered(p) => EventOutcomeView::Registered(p.shortcut@, p.key@),
        EventOutcome::Triggered(ps) => EventOutcomeView::Triggered(payload_shortcuts(ps@).to_set(), key),
    }
}

/// The effect of an event with key name `key` on the store: without a key
/// nothing happens; a shortcut waiting for a key is bound to it; otherwise
/// the key triggers every shortcut bound to it.
pub open spec fn handle_spec(s: ShortcutStoreView, key: Option<Seq<char>>) -> (ShortcutStoreView, EventOutcomeView) {
    match key {
        None => (s, EventOutcomeView::Ignored),
        Some(k) => match s.registering {
            Some(t) => (
                ShortcutStoreView { shortcuts: s.shortcuts.insert(t, k), registering: None, ..s },
                EventOutcomeView::Registered(t, k),
            ),
            None => (s, EventOutcomeView::Triggered(bound_to(s.shortcuts, k), k)),
        },
    }
}

/// Handles one input event: binds the shortcut waiting for a key, or finds
/// the shortcuts that the key triggers.
pub fn handle_event(event: InputEvent, store: &mut ShortcutStore) -> (r: EventOutcome)
    ensures
        (final(store)@, outcome_view(r, event_key(event).unwrap_or(Seq::empty()))) == handle_spec(
            old(store)@,
            event_key(event),
        ),
        r matches EventOutcome::Triggered(ps) ==> payload_shortcuts(ps@).no_duplicates() && forall|i: int|
            0 <= i < ps@.len() ==> Some((#[trigger] ps@[i]).key@) == event_key(event),
{
    let key = match event_key_name(&event) {
        None => return EventOutcome::Ignored,
        Some(k) => k,
    };
    match store.take_registering() {
        Some(shortcut) => {
            store.bind(shortcut.clone(), key.clone());
            EventOutcome::Registered(ShortcutPayload { shortcut, key })
        },
        None => {
            let names = store.shortcuts_for_key(&key);
            let mut payloads: Vec<ShortcutPayload> = Vec::new();
            let mut i: usize = 0;
            while i < names.len()
                invariant
                    i <= names@.len(),
                    payloads@.len() == i,
                    forall|j: int| 0 <= j < i ==> (#[trigger] payloads@[j]).shortcut@ == names@[j]@
                        && payloads@[j].key@ == key@,
                decreases names.len() - i,
            {
                payloads.push(ShortcutPayload { shortcut: names[i].clone(), key: key.clone() });
                i = i + 1;
            }
            assert(payload_shortcuts(payloads@) =~= texts(names@));
            EventOutcome::Triggered(payloads)
        },
    }
}

/// A shortcut waiting for a key is bound to the next key pressed, and every
/// later press of that key triggers it.
pub proof fn lemma_registered_key_triggers(s: ShortcutStoreView, t: Seq<char>, k: Seq<char>)
    requires
        s.registering == Some(t),
    ensures
        handle_spec(s, Some(k)).1 == EventOutcomeView::Registered(t, k),
        handle_spec(s, Some(k)).0.shortcuts == s.shortcuts.insert(t, k),
        handle_spec(s, Some(k)).0.registering is None,
        ({
            let after = handle_spec(s, Some(k)).0;
            match handle_spec(after, Some(k)).1 {
                EventOutcomeView::Triggered(set, key) => set.contains(t) && key == k,
                _ => false,
            }
        }),
{
}

/// A key pressed while no shortcut waits for one triggers exactly the
/// shortcuts bound to that key, and reports that key: a shortcut bound to
/// another key is never triggered, even one whose key name starts with the
/// pressed one.
pub proof fn lemma_press_triggers_exactly_its_shortcuts(s: ShortcutStoreView, k: Seq<char>, t: Seq<char>)
    requires
        s.registering is None,
    ensures
        ({
            match handle_spec(s, Some(k)).1 {
                EventOutcomeView::Triggered(set, key) => key == k && (set.contains(t) <==> (
                    s.shortcuts.dom().contains(t) && s.shortcuts[t] == k)),
                _ => false,
            }
        }),
{
}

/// A shortcut that was unbound is not triggered by any key.
pub proof fn lemma_removed_shortcut_never_triggers(s: ShortcutStoreView, t: Seq<char>, k: Seq<char>)
    requires
        s.registering is None,
    ensures
        ({
            let after = ShortcutStoreView { shortcuts: s.shortcuts.remove(t), ..s };
            match handle_spec(after, Some(k)).1 {
                EventOutcomeView::Triggered(set, _) => !set.contains(t),
                _ => false,
            }
        }),
{
}

/// Pressing a key while no shortcut waits for one changes nothing in the
/// store, and the left and right mouse buttons are never handled.
pub proof fn lemma_presses_keep_the_store(s: ShortcutStoreView, e: InputEvent)
    requires
        s.registering is None || event_key(e) is None,
    ensures
        handle_spec(s, event_key(e)).0 == s,
        e matches InputEvent::ButtonPress(b) && (b == MouseButton::Left || b == MouseButton::Right)
            ==> handle_spec(s, event_key(e)).1 == EventOutcomeView::Ignored,
{
}

} // verus!
