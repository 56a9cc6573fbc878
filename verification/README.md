# codex_chatgpt_client

The settings model and the desktop-shell decisions of an unofficial Linux
ChatGPT client, verified with Verus.

- `src/settings.rs` — the persisted settings, their defaults, and the
  `SettingsManager` that loads, updates, resets and clears them.
- `src/menu.rs` — the application and tray menus and the action of each item.
- `src/navigation.rs` — which links stay in the webview and which open in the
  browser.
- `src/autostart.rs` — the launch-at-login desktop entry.
- `src/text.rs` — character-wise text comparisons.
- `app/` — the Tauri program: windows, global shortcut, tray, the settings
  file (JSON via serde) and the lock that shares the settings manager.
