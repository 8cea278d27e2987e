//! The session key kept in the platform keyring, the login autostart entry
//! and the update check.

use vstd::prelude::*;
use vstd::string::StringExecFns;

verus! {

/// The keyring service under which the session key is kept.
pub const KEYRING_SERVICE: &'static str = "com.whatsapp.unofficial";

/// The keyring user under which the session key is kept.
pub const KEYRING_USER: &'static str = "session";

/// The desktop entry written to start the app at login.
pub const AUTOSTART_DESKTOP: &'static str = "[Desktop Entry]
Type=Application
Name=WhatsApp
Exec=whatsapp
Hidden=false
NoDisplay=false
X-GNOME-Autostart-enabled=true
";

/// The directory, under the user's configuration directory, that holds
/// autostart entries.
pub const AUTOSTART_DIR: &'static str = "autostart";

/// The file name of the app's autostart entry.
pub const AUTOSTART_FILE: &'static str = "whatsapp-unofficial.desktop";

/// `prefix` followed by `detail`, as a new string.
fn with_detail(prefix: &str, detail: &str) -> (s: String)
    ensures
        s@ == prefix@ + detail@,
{
    let mut s = prefix.to_owned();
    s.append(detail);
    s
}

/// Why reading the session key from the keyring failed.
pub enum KeyringFailure {
    /// The keyring holds no session key.
    NoEntry,
    /// Any other failure, with the keyring's description of it.
    Other(String),
}

/// The outcome of reading the session key: the key when one is stored,
/// nothing when the keyring holds none, and an error message otherwise.
pub fn session_key_lookup(found: Result<String, KeyringFailure>) -> (r: Result<
    Option<String>,
    String,
>)
    ensures
        match found {
            Ok(key) => r == Ok::<Option<String>, String>(Some(key)),
            Err(KeyringFailure::NoEntry) => r == Ok::<Option<String>, String>(None),
            Err(KeyringFailure::Other(e)) => r matches Err(m) && m@ == "Failed to get session key: "@
                + e@,
        },
{
    match found {
        Ok(key) => Ok(Some(key)),
        Err(KeyringFailure::NoEntry) => Ok(None),
        Err(KeyringFailure::Other(e)) => Err(with_detail("Failed to get session key: ", e.as_str())),
    }
}

/// The error message when the keyring entry cannot be opened.
pub fn keyring_entry_error(detail: &str) -> (m: String)
    ensures
        m@ == "Keyring entry error: "@ + detail@,
{
    with_detail("Keyring entry error: ", detail)
}

/// The error message when the session key cannot be stored.
pub fn save_session_key_error(detail: &str) -> (m: String)
    ensures
        m@ == "Failed to save session key: "@ + detail@,
{
    with_detail("Failed to save session key: ", detail)
}

/// Checking for updates: the app never reports a newer version.
pub fn check_for_updates() -> (r: Result<Option<String>, String>)
    ensures
        r == Ok::<Option<String>, String>(None),
{
    Ok(None)
}

/// What to do with the autostart entry.
#[derive(PartialEq, Eq, Structural)]
pub enum AutostartAction {
    /// Create the autostart directory and write the entry.
    Install,
    /// Delete the existing entry.
    Remove,
    /// Leave things as they are.
    Keep,
}

/// The action for the wanted setting and the entry's current existence.
pub open spec fn autostart_plan(enabled: bool, entry_exists: bool) -> AutostartAction {
    if enabled {
        AutostartAction::Install
    } else if entry_exists {
        AutostartAction::Remove
    } else {
        AutostartAction::Keep
    }
}

/// Enabling autostart writes the entry; disabling it deletes the entry when
/// there is one.
pub fn autostart_action(enabled: bool, entry_exists: bool) -> (a: AutostartAction)
    ensures
        a == autostart_plan(enabled, entry_exists),
{
    if enabled {
        AutostartAction::Install
    } else if entry_exists {
        AutostartAction::Remove
    } else {
        AutostartAction::Keep
    }
}

/// Whether the entry exists once `action` has been carried out.
pub open spec fn entry_exists_after(action: AutostartAction, existed: bool) -> bool {
    match action {
        AutostartAction::Install => true,
        AutostartAction::Remove => false,
        AutostartAction::Keep => existed,
    }
}

/// Once the chosen action is carried out, the autostart entry exists exactly
/// when autostart is enabled, whatever was there before; asking again for
/// the same setting then changes nothing.
pub proof fn lemma_autostart_settles(enabled: bool, existed: bool)
    ensures
        entry_exists_after(autostart_plan(enabled, existed), existed) == enabled,
        entry_exists_after(autostart_plan(enabled, enabled), enabled) == enabled,
        !enabled ==> autostart_plan(enabled, enabled) == AutostartAction::Keep,
{
}

/// The step of changing the autostart entry that failed.
pub enum AutostartStep {
    CreateDir,
    WriteFile,
    RemoveFile,
}

pub open spec fn autostart_step_prefix(step: AutostartStep) -> Seq<char> {
    match step {
        AutostartStep::CreateDir => "Failed to create autostart dir: "@,
        AutostartStep::WriteFile => "Failed to write autostart file: "@,
        AutostartStep::RemoveFile => "Failed to remove autostart file: "@,
    }
}

/// The error message when a step of changing the autostart entry fails.
pub fn autostart_error(step: AutostartStep, detail: &str) -> (m: String)
    ensures
        m@ == autostart_step_prefix(step) + detail@,
{
    match step {
        AutostartStep::CreateDir => with_detail("Failed to create autostart dir: ", detail),
        AutostartStep::WriteFile => with_detail("Failed to write autostart file: ", detail),
        AutostartStep::RemoveFile => with_detail("Failed to remove autostart file: ", detail),
    }
}

} // verus!
