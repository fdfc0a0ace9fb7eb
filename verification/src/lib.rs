//! Verified core of a multi-window helper for the Dofus game client: the
//! window rotation state, the parsing of window titles, the input sequences
//! sent to the game and the keyboard shortcut store.
pub mod shortcuts;
pub mod text;
pub mod windows;
