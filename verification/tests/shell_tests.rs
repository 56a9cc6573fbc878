use codex_chatgpt_client::autostart::{
    autostart_action, desktop_entry, AutostartAction, DESKTOP_FILE_NAME, FALLBACK_EXECUTABLE,
};
use codex_chatgpt_client::menu::{
    about_message, app_menu_entries, menu_action, new_chat_script, tray_menu_entries, MenuAction,
    MenuEntry, ABOUT_DISCLAIMER, COMPANION_LABEL,
};
use codex_chatgpt_client::navigation::{navigation_for, Navigation, CHATGPT_HOST, CHATGPT_URL};
use codex_chatgpt_client::settings::AppSettings;
use codex_chatgpt_client::text::same_text;

#[test]
fn menu_ids_map_to_their_actions() {
    assert_eq!(menu_action("new_chat"), MenuAction::NewChat);
    assert_eq!(menu_action("tray_new_chat"), MenuAction::NewChat);
    assert_eq!(menu_action("find"), MenuAction::FindInConversation);
    assert_eq!(menu_action("settings"), MenuAction::OpenSettings);
    assert_eq!(menu_action("tray_settings"), MenuAction::OpenSettings);
    assert_eq!(menu_action("toggle_links"), MenuAction::ToggleExternalLinks);
    assert_eq!(menu_action("about"), MenuAction::ShowAbout);
    assert_eq!(menu_action("open_companion"), MenuAction::OpenCompanion);
    assert_eq!(menu_action("open_main"), MenuAction::OpenMain);
    assert_eq!(menu_action("quit"), MenuAction::Quit);
}

#[test]
fn unknown_menu_ids_are_ignored() {
    assert_eq!(menu_action(""), MenuAction::Ignore);
    assert_eq!(menu_action("Quit"), MenuAction::Ignore);
    assert_eq!(menu_action("new_chat "), MenuAction::Ignore);
}

fn ids(entries: &[MenuEntry]) -> Vec<String> {
    entries
        .iter()
        .map(|e| match e {
            MenuEntry::Item { id, .. } => id.clone(),
            MenuEntry::Separator => "-".to_string(),
        })
        .collect()
}

#[test]
fn app_menu_lists_its_items_in_order() {
    let entries = app_menu_entries();
    assert_eq!(ids(&entries), vec!["new_chat", "find", "toggle_links", "settings", "-", "about"]);
    match &entries[1] {
        MenuEntry::Item { title, .. } => assert_eq!(title, "Find in conversation (Ctrl+F)"),
        MenuEntry::Separator => panic!("expected an item"),
    }
    for e in &entries {
        if let MenuEntry::Item { id, .. } = e {
            assert_ne!(menu_action(id), MenuAction::Ignore);
        }
    }
}

#[test]
fn tray_menu_lists_its_items_in_order() {
    let entries = tray_menu_entries();
    assert_eq!(ids(&entries), vec!["open_companion", "open_main", "tray_new_chat", "tray_settings", "-", "quit"]);
    match &entries[0] {
        MenuEntry::Item { title, .. } => assert_eq!(title, "Open Companion"),
        MenuEntry::Separator => panic!("expected an item"),
    }
    for e in &entries {
        if let MenuEntry::Item { id, .. } = e {
            assert_ne!(menu_action(id), MenuAction::Ignore);
        }
    }
}

#[test]
fn scripts_and_messages() {
    assert_eq!(new_chat_script(), "window.location.href='https://chatgpt.com'");
    assert_eq!(
        about_message(),
        "Codex ChatGPT Client\nUnofficial Linux client. Not affiliated with OpenAI.\nLog in via the official ChatGPT site. Login credentials are never intercepted."
    );
    assert_eq!(ABOUT_DISCLAIMER, "Unofficial Linux client. Not affiliated with OpenAI.");
    assert_eq!(COMPANION_LABEL, "companion");
}

fn decide(open_links_in_browser: bool, url: &str) -> Navigation {
    let parsed = url::Url::parse(url).unwrap();
    navigation_for(open_links_in_browser, parsed.scheme(), parsed.host_str())
}

#[test]
fn navigation_decisions() {
    assert_eq!(CHATGPT_URL, "https://chatgpt.com");
    assert_eq!(CHATGPT_HOST, "chatgpt.com");
    assert_eq!(decide(true, "https://chatgpt.com/c/123"), Navigation::StayInApp);
    assert_eq!(decide(true, "https://chatgpt.com"), Navigation::StayInApp);
    assert_eq!(decide(true, "https://ChatGPT.com/"), Navigation::StayInApp);
    assert_eq!(decide(true, "https://example.com/page"), Navigation::OpenInBrowser);
    assert_eq!(decide(true, "https://chatgpt.com.evil.example/login"), Navigation::OpenInBrowser);
    assert_eq!(decide(true, "https://chatgpt.com@evil.example/"), Navigation::OpenInBrowser);
    assert_eq!(decide(true, "http://chatgpt.com/"), Navigation::OpenInBrowser);
    assert_eq!(decide(true, "mailto:someone@chatgpt.com"), Navigation::OpenInBrowser);
    assert_eq!(decide(false, "https://example.com/page"), Navigation::StayInApp);
    assert_eq!(decide(false, "https://chatgpt.com.evil.example/login"), Navigation::StayInApp);
    assert_eq!(navigation_for(true, "https", None), Navigation::OpenInBrowser);
    assert_eq!(navigation_for(true, "https", Some("chatgpt.com")), Navigation::StayInApp);
}

#[test]
fn text_comparisons() {
    assert!(same_text("abc", "abc"));
    assert!(same_text("héllo", "héllo"));
    assert!(!same_text("abc", "abd"));
    assert!(!same_text("abc", "ab"));
}

const ENTRY_PREFIX: &str = "[Desktop Entry]\nType=Application\nName=Codex ChatGPT Client\nExec=";
const ENTRY_SUFFIX: &str = " --hidden\nX-GNOME-Autostart-enabled=true\n";

#[test]
fn desktop_entry_holds_the_executable() {
    assert_eq!(
        desktop_entry("/usr/bin/client"),
        format!("{}/usr/bin/client{}", ENTRY_PREFIX, ENTRY_SUFFIX)
    );
    assert_eq!(DESKTOP_FILE_NAME, "codex-chatgpt-client.desktop");
}

#[test]
fn autostart_entry_follows_launch_at_login() {
    let mut s = AppSettings::default();
    match autostart_action(&s, true, None) {
        AutostartAction::RemoveEntry => {}
        other => panic!("unexpected {:?}", other),
    }
    match autostart_action(&s, false, None) {
        AutostartAction::LeaveAsIs => {}
        other => panic!("unexpected {:?}", other),
    }
    s.preferences.launch_at_login = true;
    match autostart_action(&s, false, Some("/opt/app/bin".to_string())) {
        AutostartAction::WriteEntry(c) => {
            assert_eq!(c, format!("{}/opt/app/bin{}", ENTRY_PREFIX, ENTRY_SUFFIX))
        }
        other => panic!("unexpected {:?}", other),
    }
    match autostart_action(&s, true, None) {
        AutostartAction::WriteEntry(c) => {
            assert_eq!(c, format!("{}{}{}", ENTRY_PREFIX, FALLBACK_EXECUTABLE, ENTRY_SUFFIX))
        }
        other => panic!("unexpected {:?}", other),
    }
}
