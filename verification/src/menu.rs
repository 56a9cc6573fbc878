//! The application menu, the tray menu, and what each of their items does.
use vstd::prelude::*;
use crate::navigation::CHATGPT_URL;
use crate::text::same_text;

verus! {

/// Label of the main window.
pub const MAIN_LABEL: &'static str = "main";

/// Label of the companion window.
pub const COMPANION_LABEL: &'static str = "companion";

/// Label of the settings window.
pub const SETTINGS_LABEL: &'static str = "settings";

/// Title of the application menu.
pub const MENU_TITLE: &'static str = "ChatGPT";

/// Shown in the About dialog and the settings window.
pub const ABOUT_DISCLAIMER: &'static str = "Unofficial Linux client. Not affiliated with OpenAI.";

/// Script that makes the main window send a find shortcut to the page.
pub const FIND_SCRIPT: &'static str = "window.dispatchEvent(new KeyboardEvent('keydown', {key:'f', ctrlKey:true}));";

/// What a click on a menu or tray item asks for.
#[derive(Debug, PartialEq, Eq, Structural, Clone, Copy)]
pub enum MenuAction {
    NewChat,
    FindInConversation,
    OpenSettings,
    ToggleExternalLinks,
    ShowAbout,
    OpenCompanion,
    OpenMain,
    Quit,
    Ignore,
}

/// The action of the item whose id is `id`.
pub open spec fn action_for(id: Seq<char>) -> MenuAction {
    if id == "new_chat"@ || id == "tray_new_chat"@ {
        MenuAction::NewChat
    } else if id == "find"@ {
        MenuAction::FindInConversation
    } else if id == "settings"@ || id == "tray_settings"@ {
        MenuAction::OpenSettings
    } else if id == "toggle_links"@ {
        MenuAction::ToggleExternalLinks
    } else if id == "about"@ {
        MenuAction::ShowAbout
    } else if id == "open_companion"@ {
        MenuAction::OpenCompanion
    } else if id == "open_main"@ {
        MenuAction::OpenMain
    } else if id == "quit"@ {
        MenuAction::Quit
    } else {
        MenuAction::Ignore
    }
}

/// Maps the id of a clicked menu or tray item to its action.
pub fn menu_action(id: &str) -> (r: MenuAction)
    ensures
        r == action_for(id@),
{
    if same_text(id, "new_chat") || same_text(id, "tray_new_chat") {
        MenuAction::NewChat
    } else if same_text(id, "find") {
        MenuAction::FindInConversation
    } else if same_text(id, "settings") || same_text(id, "tray_settings") {
        MenuAction::OpenSettings
    } else if same_text(id, "toggle_links") {
        MenuAction::ToggleExternalLinks
    } else if same_text(id, "about") {
        MenuAction::ShowAbout
    } else if same_text(id, "open_companion") {
        MenuAction::OpenCompanion
    } else if same_text(id, "open_main") {
        MenuAction::OpenMain
    } else if same_text(id, "quit") {
        MenuAction::Quit
    } else {
        MenuAction::Ignore
    }
}

/// An entry of a menu: an item with its id and title, or a separator.
#[derive(Debug)]
pub enum MenuEntry {
    Item { id: String, title: String },
    Separator,
}

/// The value of a [`MenuEntry`].
pub enum MenuEntryView {
    Item { id: Seq<char>, title: Seq<char> },
    Separator,
}

impl View for MenuEntry {
    type V = MenuEntryView;

    open spec fn view(&self) -> MenuEntryView {
        match self {
            MenuEntry::Item { id, title } => MenuEntryView::Item { id: id@, title: title@ },
            MenuEntry::Separator => MenuEntryView::Separator,
        }
    }
}

pub open spec fn item_view(id: Seq<char>, title: Seq<char>) -> MenuEntryView {
    MenuEntryView::Item { id, title }
}

/// The entries of the application menu, in order.
pub open spec fn app_menu_view() -> Seq<MenuEntryView> {
    seq![
        item_view("new_chat"@, "New Chat"@),
        item_view("find"@, "Find in conversation (Ctrl+F)"@),
        item_view("toggle_links"@, "Toggle external links"@),
        item_view("settings"@, "Settings"@),
        MenuEntryView::Separator,
        item_view("about"@, "About"@),
    ]
}

/// The entries of the tray menu, in order.
pub open spec fn tray_menu_view() -> Seq<MenuEntryView> {
    seq![
        item_view("open_companion"@, "Open Companion"@),
        item_view("open_main"@, "Open Main"@),
        item_view("tray_new_chat"@, "New Chat"@),
        item_view("tray_settings"@, "Settings"@),
        MenuEntryView::Separator,
        item_view("quit"@, "Quit"@),
    ]
}

fn item(id: &str, title: &str) -> (r: MenuEntry)
    ensures
        r@ == item_view(id@, title@),
{
    MenuEntry::Item { id: String::from_str(id), title: String::from_str(title) }
}

/// The entries of the application menu ("ChatGPT").
pub fn app_menu_entries() -> (r: Vec<MenuEntry>)
    ensures
        r@.map_values(|e: MenuEntry| e@) == app_menu_view(),
        r@.len() == 6,
        r@[0]@ == (MenuEntryView::Item { id: "new_chat"@, title: "New Chat"@ }),
        r@[1]@ == (MenuEntryView::Item { id: "find"@, title: "Find in conversation (Ctrl+F)"@ }),
        r@[2]@ == (MenuEntryView::Item { id: "toggle_links"@, title: "Toggle external links"@ }),
        r@[3]@ == (MenuEntryView::Item { id: "settings"@, title: "Settings"@ }),
        r@[4]@ == MenuEntryView::Separator,
        r@[5]@ == (MenuEntryView::Item { id: "about"@, title: "About"@ }),
{
    let mut r: Vec<MenuEntry> = Vec::new();
    r.push(item("new_chat", "New Chat"));
    r.push(item("find", "Find in conversation (Ctrl+F)"));
    r.push(item("toggle_links", "Toggle external links"));
    r.push(item("settings", "Settings"));
    r.push(MenuEntry::Separator);
    r.push(item("about", "About"));
    assert(r@.map_values(|e: MenuEntry| e@) =~= app_menu_view());
    r
}

/// The entries of the system tray menu.
pub fn tray_menu_entries() -> (r: Vec<MenuEntry>)
    ensures
        r@.map_values(|e: MenuEntry| e@) == tray_menu_view(),
        r@.len() == 6,
        r@[0]@ == (MenuEntryView::Item { id: "open_companion"@, title: "Open Companion"@ }),
        r@[1]@ == (MenuEntryView::Item { id: "open_main"@, title: "Open Main"@ }),
        r@[2]@ == (MenuEntryView::Item { id: "tray_new_chat"@, title: "New Chat"@ }),
        r@[3]@ == (MenuEntryView::Item { id: "tray_settings"@, title: "Settings"@ }),
        r@[4]@ == MenuEntryView::Separator,
        r@[5]@ == (MenuEntryView::Item { id: "quit"@, title: "Quit"@ }),
{
    let mut r: Vec<MenuEntry> = Vec::new();
    r.push(item("open_companion", "Open Companion"));
    r.push(item("open_main", "Open Main"));
    r.push(item("tray_new_chat", "New Chat"));
    r.push(item("tray_settings", "Settings"));
    r.push(MenuEntry::Separator);
    r.push(item("quit", "Quit"));
    assert(r@.map_values(|e: MenuEntry| e@) =~= tray_menu_view());
    r
}

/// Every item of both menus has an action: no click on them is ignored.
pub proof fn lemma_every_menu_item_has_an_action()
    ensures
        forall|i: int|
            0 <= i < app_menu_view().len() ==> (#[trigger] app_menu_view()[i] matches MenuEntryView::Item { id, .. }
                ==> action_for(id) != MenuAction::Ignore),
        forall|i: int|
            0 <= i < tray_menu_view().len() ==> (#[trigger] tray_menu_view()[i] matches MenuEntryView::Item { id, .. }
                ==> action_for(id) != MenuAction::Ignore),
{
}

/// Each item id of the two menus triggers its own action: the main-menu and
/// tray entries for a new chat and for the settings do the same thing, and
/// no two other items are confused.
pub proof fn lemma_menu_ids_select_their_actions()
    ensures
        action_for("new_chat"@) == MenuAction::NewChat,
        action_for("tray_new_chat"@) == MenuAction::NewChat,
        action_for("find"@) == MenuAction::FindInConversation,
        action_for("settings"@) == MenuAction::OpenSettings,
        action_for("tray_settings"@) == MenuAction::OpenSettings,
        action_for("toggle_links"@) == MenuAction::ToggleExternalLinks,
        action_for("about"@) == MenuAction::ShowAbout,
        action_for("open_companion"@) == MenuAction::OpenCompanion,
        action_for("open_main"@) == MenuAction::OpenMain,
        action_for("quit"@) == MenuAction::Quit,
{
    reveal_strlit("new_chat");
    reveal_strlit("tray_new_chat");
    reveal_strlit("find");
    reveal_strlit("settings");
    reveal_strlit("tray_settings");
    reveal_strlit("toggle_links");
    reveal_strlit("about");
    reveal_strlit("open_companion");
    reveal_strlit("open_main");
    reveal_strlit("quit");
    assert("new_chat"@.len() == 8);
    assert("tray_new_chat"@.len() == 13);
    assert("find"@.len() == 4);
    assert("settings"@.len() == 8);
    assert("tray_settings"@.len() == 13);
    assert("toggle_links"@.len() == 12);
    assert("about"@.len() == 5);
    assert("open_companion"@.len() == 14);
    assert("open_main"@.len() == 9);
    assert("quit"@.len() == 4);
    assert("settings"@[0] != "new_chat"@[0]);
    assert("tray_settings"@[5] != "tray_new_chat"@[5]);
    assert("quit"@[0] != "find"@[0]);
}

/// Each menu item carries the title of what it does: position by position,
/// the two menus hold exactly these id and title pairs, and each id triggers
/// the action its title names.
pub proof fn lemma_menu_titles_name_their_actions()
    ensures
        app_menu_view().len() == 6,
        tray_menu_view().len() == 6,
        app_menu_view()[0] == (MenuEntryView::Item { id: "new_chat"@, title: "New Chat"@ }),
        action_for("new_chat"@) == MenuAction::NewChat,
        app_menu_view()[1] == (MenuEntryView::Item { id: "find"@, title: "Find in conversation (Ctrl+F)"@ }),
        action_for("find"@) == MenuAction::FindInConversation,
        app_menu_view()[2] == (MenuEntryView::Item { id: "toggle_links"@, title: "Toggle external links"@ }),
        action_for("toggle_links"@) == MenuAction::ToggleExternalLinks,
        app_menu_view()[3] == (MenuEntryView::Item { id: "settings"@, title: "Settings"@ }),
        action_for("settings"@) == MenuAction::OpenSettings,
        app_menu_view()[4] == MenuEntryView::Separator,
        app_menu_view()[5] == (MenuEntryView::Item { id: "about"@, title: "About"@ }),
        action_for("about"@) == MenuAction::ShowAbout,
        tray_menu_view()[0] == (MenuEntryView::Item { id: "open_companion"@, title: "Open Companion"@ }),
        action_for("open_companion"@) == MenuAction::OpenCompanion,
        tray_menu_view()[1] == (MenuEntryView::Item { id: "open_main"@, title: "Open Main"@ }),
        action_for("open_main"@) == MenuAction::OpenMain,
        tray_menu_view()[2] == (MenuEntryView::Item { id: "tray_new_chat"@, title: "New Chat"@ }),
        action_for("tray_new_chat"@) == MenuAction::NewChat,
        tray_menu_view()[3] == (MenuEntryView::Item { id: "tray_settings"@, title: "Settings"@ }),
        action_for("tray_settings"@) == MenuAction::OpenSettings,
        tray_menu_view()[4] == MenuEntryView::Separator,
        tray_menu_view()[5] == (MenuEntryView::Item { id: "quit"@, title: "Quit"@ }),
        action_for("quit"@) == MenuAction::Quit,
{
    lemma_menu_ids_select_their_actions();
}

/// A click on anything that is not one of the menus' items does nothing.
pub proof fn lemma_unknown_ids_are_ignored(id: Seq<char>)
    ensures
        id != "new_chat"@ && id != "tray_new_chat"@ && id != "find"@ && id != "settings"@ && id != "tray_settings"@ && id != "toggle_links"@ && id != "about"@ && id != "open_companion"@ && id != "open_main"@ && id != "quit"@ ==> action_for(id) == MenuAction::Ignore,
{
}

/// The script that loads a fresh conversation in the main window.
pub fn new_chat_script() -> (r: String)
    ensures
        r@ == "window.location.href='"@ + CHATGPT_URL@ + "'"@,
{
    let mut s = String::from_str("window.location.href='");
    s.append(CHATGPT_URL);
    s.append("'");
    s
}

/// The text of the About dialog.
pub fn about_message() -> (r: String)
    ensures
        r@ == "Codex ChatGPT Client\n"@ + ABOUT_DISCLAIMER@
            + "\nLog in via the official ChatGPT site. Login credentials are never intercepted."@,
{
    let mut s = String::from_str("Codex ChatGPT Client\n");
    s.append(ABOUT_DISCLAIMER);
    s.append("\nLog in via the official ChatGPT site. Login credentials are never intercepted.");
    s
}

} // verus!
