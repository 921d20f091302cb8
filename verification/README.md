# DeepChat Desktop

A desktop shell for chat.deepseek.com that stays in the tray and keeps the
session across restarts.

- `src/` is the library, verified with Verus: which pages may call commands
  (`origin`), where pages may go (`links`), what events lead to (`shell`), how the
  session snapshot is accepted, written, read and cleared (`session`, `cipher`),
  and how cookies are exported and restored (`cookies`). `laws` states what holds
  of the commands together.
- `tests/` runs the library.
- `app/` is the program around it: Tauri, files, the Keychain, DPAPI and the
  native webviews. It has two optional features, `encrypt-session` and
  `full-cookie-snapshot`.
