# dofus_multi_helper

A helper for playing several Dofus characters at once: it keeps the list of
game windows and rotates the focus among them, clicks the same point in each
game window that can take the click, types keys and chat commands into them, and binds keyboard shortcuts
to these actions.

- `src/` is the verified library (Verus): the window rotation state
  (`windows::manager`), the decisions of the interface commands
  (`windows::commands`), window-title parsing, input sequences and click
  planning (`windows::api`), the step functions that drive the Win32 focus and
  click calls (`windows::steps`), text helpers (`text`), and the shortcut store and
  event handling (`shortcuts`).
- `app/` is the desktop program around it: the Tauri interface, the Win32
  calls, the global input listener and the settings file.
- `tests/` exercises the library.
