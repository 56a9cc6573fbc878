//! The "launch at login" desktop entry.
use vstd::prelude::*;
use crate::settings::AppSettings;

verus! {

/// Configuration directory used when the platform reports none.
pub const FALLBACK_CONFIG_DIR: &'static str = "~/.config";

/// Directory, under the configuration directory, that holds autostart entries.
pub const AUTOSTART_DIR_NAME: &'static str = "autostart";

/// File name of the client's autostart entry.
pub const DESKTOP_FILE_NAME: &'static str = "codex-chatgpt-client.desktop";

/// Command used in the entry when the executable's own path is unknown.
pub const FALLBACK_EXECUTABLE: &'static str = "codex-chatgpt-client";

/// The text of the autostart entry that starts `exec` hidden.
pub open spec fn desktop_entry_text(exec: Seq<char>) -> Seq<char> {
    "[Desktop Entry]\nType=Application\nName=Codex ChatGPT Client\nExec="@ + exec
        + " --hidden\nX-GNOME-Autostart-enabled=true\n"@
}

/// The command written into the entry: the executable's path when known.
pub open spec fn entry_executable(exec_path: Option<String>) -> Seq<char> {
    match exec_path {
        Some(p) => p@,
        None => FALLBACK_EXECUTABLE@,
    }
}

/// What to do with the autostart entry.
#[derive(Debug)]
pub enum AutostartAction {
    /// Write the entry with these contents.
    WriteEntry(String),
    /// Remove the existing entry.
    RemoveEntry,
    /// Nothing to do: no entry is wanted and none exists.
    LeaveAsIs,
}

/// The autostart entry for the executable at `exec`.
pub fn desktop_entry(exec: &str) -> (r: String)
    ensures
        r@ == desktop_entry_text(exec@),
        r@ == "[Desktop Entry]\nType=Application\nName=Codex ChatGPT Client\nExec="@ + exec@ + " --hidden\nX-GNOME-Autostart-enabled=true\n"@,
{
    let mut s = String::from_str("[Desktop Entry]\nType=Application\nName=Codex ChatGPT Client\nExec=");
    s.append(exec);
    s.append(" --hidden\nX-GNOME-Autostart-enabled=true\n");
    s
}

/// Decides how to bring the autostart entry in line with the settings:
/// written when launching at login is on, removed when it is off and an
/// entry exists, left alone otherwise. `exec_path` is the path of the
/// running executable, when it could be found.
pub fn autostart_action(settings: &AppSettings, entry_exists: bool, exec_path: Option<String>) -> (r: AutostartAction)
    ensures
        settings.preferences.launch_at_login ==> (r matches AutostartAction::WriteEntry(c)
            && c@ == desktop_entry_text(entry_executable(exec_path))),
        settings.preferences.launch_at_login && exec_path is Some ==> (r matches AutostartAction::WriteEntry(c)
            && c@ == "[Desktop Entry]\nType=Application\nName=Codex ChatGPT Client\nExec="@ + exec_path.unwrap()@ + " --hidden\nX-GNOME-Autostart-enabled=true\n"@),
        settings.preferences.launch_at_login && exec_path is None ==> (r matches AutostartAction::WriteEntry(c)
            && c@ == "[Desktop Entry]\nType=Application\nName=Codex ChatGPT Client\nExec="@ + "codex-chatgpt-client"@ + " --hidden\nX-GNOME-Autostart-enabled=true\n"@),
        !settings.preferences.launch_at_login && entry_exists ==> r is RemoveEntry,
        !settings.preferences.launch_at_login && !entry_exists ==> r is LeaveAsIs,
{
    if settings.preferences.launch_at_login {
        let contents = match exec_path {
            Some(p) => desktop_entry(p.as_str()),
            None => desktop_entry(FALLBACK_EXECUTABLE),
        };
        AutostartAction::WriteEntry(contents)
    } else if entry_exists {
        AutostartAction::RemoveEntry
    } else {
        AutostartAction::LeaveAsIs
    }
}

/// The entry written for a known executable runs that executable, its whole
/// path, hidden; without a known path it runs the plain program name.
pub proof fn lemma_entry_runs_the_whole_executable_path(path: String)
    ensures
        desktop_entry_text(entry_executable(Some(path))) == "[Desktop Entry]\nType=Application\nName=Codex ChatGPT Client\nExec="@ + path@ + " --hidden\nX-GNOME-Autostart-enabled=true\n"@,
        desktop_entry_text(entry_executable(None)) == "[Desktop Entry]\nType=Application\nName=Codex ChatGPT Client\nExec="@ + "codex-chatgpt-client"@ + " --hidden\nX-GNOME-Autostart-enabled=true\n"@,
{
}

} // verus!
