use vstd::prelude::*;
use crate::shortcuts::models::{ShortcutData, ShortcutMap, ShortcutPayload};

verus! {

/// The mathematical value of a [`ShortcutStore`].
pub struct ShortcutStoreView {
    pub shortcuts: Map<Seq<char>, Seq<char>>,
    pub registering: Option<Seq<char>>,
    pub watching_key_to_send: bool,
}

/// The shortcut bindings, the shortcut waiting for its key, if any, and
/// whether the helper is waiting for a key to send.
pub struct ShortcutStore {
    shortcuts: ShortcutMap,
    registering: Option<String>,
    watching_key_to_send: bool,
}

/// The text of an optional string.
pub open spec fn opt_text(s: Option<String>) -> Option<Seq<char>> {
    match s {
        Some(t) => Some(t@),
        None => None,
    }
}

impl View for ShortcutStore {
    type V = ShortcutStoreView;

    closed spec fn view(&self) -> ShortcutStoreView {
        ShortcutStoreView {
            shortcuts: self.shortcuts@,
            registering: opt_text(self.registering),
            watching_key_to_send: self.watching_key_to_send,
        }
    }
}

impl ShortcutStore {
    /// A store holding the saved shortcuts, or none when nothing could be
    /// loaded; no shortcut waits for a key.
    pub fn new(saved: Option<ShortcutData>) -> (s: Self)
        ensures
            s@.shortcuts == (match saved {
                Some(d) => d.shortcuts@,
                None => Map::empty(),
            }),
            s@.registering is None,
            !s@.watching_key_to_send,
    {
        let shortcuts = match saved {
            Some(d) => d.shortcuts,
            None => ShortcutMap::new(),
        };
        ShortcutStore { shortcuts, registering: None, watching_key_to_send: false }
    }

    /// The shortcuts to save.
    pub fn shortcut_data(&self) -> (d: ShortcutData)
        ensures
            d.shortcuts@ == self@.shortcuts,
    {
        ShortcutData { shortcuts: self.shortcuts.copy() }
    }

    /// Waits for the next key to bind it to `shortcut_type`.
    pub fn register_shortcut(&mut self, shortcut_type: String)
        ensures
            final(self)@ == (ShortcutStoreView { registering: Some(shortcut_type@), ..old(self)@ }),
    {
        self.registering = Some(shortcut_type);
    }

    /// A copy of the shortcut bindings.
    pub fn get_shortcuts(&self) -> (m: ShortcutMap)
        ensures
            m@ == self@.shortcuts,
    {
        self.shortcuts.copy()
    }

    /// Unbinds `shortcut_type` and returns the message telling the interface
    /// that it has no key any more.
    pub fn remove_shortcut_key(&mut self, shortcut_type: String) -> (p: ShortcutPayload)
        ensures
            final(self)@ == (ShortcutStoreView { shortcuts: old(self)@.shortcuts.remove(shortcut_type@), ..old(self)@ }),
            p@ == (shortcut_type@, Seq::<char>::empty()),
    {
        self.shortcuts.remove(&shortcut_type);
        ShortcutPayload { shortcut: shortcut_type, key: String::new() }
    }

    /// Starts waiting for a key to send.
    pub fn watch_key_to_send(&mut self)
        ensures
            final(self)@ == (ShortcutStoreView { watching_key_to_send: true, ..old(self)@ }),
    {
        self.watching_key_to_send = true;
    }

    /// Takes the shortcut waiting for a key, if any.
    pub(crate) fn take_registering(&mut self) -> (t: Option<String>)
        ensures
            opt_text(t) == old(self)@.registering,
            final(self)@ == (ShortcutStoreView { registering: None, ..old(self)@ }),
    {
        self.registering.take()
    }

    /// Binds `shortcut` to `key`.
    pub(crate) fn bind(&mut self, shortcut: String, key: String)
        ensures
            final(self)@ == (ShortcutStoreView { shortcuts: old(self)@.shortcuts.insert(shortcut@, key@), ..old(self)@ }),
    {
        self.shortcuts.insert(shortcut, key);
    }

    /// The shortcuts bound to `key`, each once.
    pub(crate) fn shortcuts_for_key(&self, key: &String) -> (r: Vec<String>)
        ensures
            crate::shortcuts::models::texts(r@).to_set() == crate::shortcuts::models::bound_to(self@.shortcuts, key@),
            crate::shortcuts::models::texts(r@).no_duplicates(),
    {
        self.shortcuts.shortcuts_bound_to(key)
    }
}

} // verus!
