# exbar

A folder-shortcut toolbar for Windows 11 File Explorer. The toolbar floats
over the active Explorer window (or a Save As / Open dialog); clicking a
folder navigates there, Ctrl+click opens a new tab, files dropped on a
folder are moved or copied, folders dropped on `+` are added, folder
buttons are reordered by dragging them, and renamed or removed from a
context menu.

Layout of the crate:

- `src/` — the library, verified with Verus: the configuration and its
  edits, geometry and hit testing, the pointer and rename state machines,
  window-message decisions, painting plans, drag-and-drop effects, the
  `DROPFILES` parser, positioning, foreground tracking, keyboard injection
  plans, the new-tab protocol, file locations, log lines and the retry
  bookkeeping of the in-Explorer variant.
- `tests/` — tests of the library on concrete values.
- `app/` — the `exbar` program: command line, files, Win32 and COM. It
  performs what the library decides.
