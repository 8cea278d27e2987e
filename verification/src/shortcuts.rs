//! Global keyboard shortcuts: Ctrl+Comma toggles the settings panel and
//! Ctrl+Q quits.

use vstd::prelude::*;

verus! {

/// The event sent to the page to toggle the settings panel.
pub const TOGGLE_SETTINGS_EVENT: &'static str = "toggle-settings";

/// The exit code used when quitting from the keyboard.
pub const QUIT_EXIT_CODE: i32 = 0;

/// The keys that the app's shortcuts use.
#[derive(PartialEq, Eq, Structural, Clone, Copy)]
pub enum ShortcutKey {
    Comma,
    KeyQ,
    /// Any other key.
    Other,
}

/// A key together with its modifiers: `control_only` holds when Control is
/// the one modifier held.
#[derive(PartialEq, Eq, Structural, Clone, Copy)]
pub struct KeyChord {
    pub control_only: bool,
    pub key: ShortcutKey,
}

/// Whether a shortcut event is a key press or a key release.
#[derive(PartialEq, Eq, Structural, Clone, Copy)]
pub enum KeyState {
    Pressed,
    Released,
}

/// What a shortcut does.
#[derive(PartialEq, Eq, Structural)]
pub enum ShortcutAction {
    /// Send `TOGGLE_SETTINGS_EVENT` to the page.
    ToggleSettings,
    /// Quit the app with `QUIT_EXIT_CODE`.
    Quit,
    /// Nothing.
    Ignore,
}

/// The chords registered as global shortcuts: Ctrl+Comma and Ctrl+Q.
pub open spec fn registered_chords() -> Seq<KeyChord> {
    seq![
        KeyChord { control_only: true, key: ShortcutKey::Comma },
        KeyChord { control_only: true, key: ShortcutKey::KeyQ },
    ]
}

/// The chords to register as global shortcuts.
pub fn registered_shortcuts() -> (v: Vec<KeyChord>)
    ensures
        v@ == registered_chords(),
{
    let mut v: Vec<KeyChord> = Vec::new();
    v.push(KeyChord { control_only: true, key: ShortcutKey::Comma });
    v.push(KeyChord { control_only: true, key: ShortcutKey::KeyQ });
    assert(v@ =~= registered_chords());
    v
}

/// What a shortcut event does, as a function of the chord and key state.
pub open spec fn shortcut_plan(chord: KeyChord, state: KeyState) -> ShortcutAction {
    if state == KeyState::Pressed && chord == (KeyChord { control_only: true, key: ShortcutKey::Comma }) {
        ShortcutAction::ToggleSettings
    } else if state == KeyState::Pressed && chord == (KeyChord { control_only: true, key: ShortcutKey::KeyQ }) {
        ShortcutAction::Quit
    } else {
        ShortcutAction::Ignore
    }
}

/// Only key presses act: Ctrl+Comma toggles the settings panel, Ctrl+Q
/// quits, anything else is ignored.
pub fn shortcut_action(chord: KeyChord, state: KeyState) -> (a: ShortcutAction)
    ensures
        a == shortcut_plan(chord, state),
{
    if state == KeyState::Pressed && chord.control_only {
        match chord.key {
            ShortcutKey::Comma => ShortcutAction::ToggleSettings,
            ShortcutKey::KeyQ => ShortcutAction::Quit,
            ShortcutKey::Other => ShortcutAction::Ignore,
        }
    } else {
        ShortcutAction::Ignore
    }
}

/// Releasing a key never does anything, and only the registered chords do
/// anything when pressed.
pub proof fn lemma_only_registered_presses_act(chord: KeyChord, state: KeyState)
    ensures
        state == KeyState::Released ==> shortcut_plan(chord, state) == ShortcutAction::Ignore,
        shortcut_plan(chord, state) != ShortcutAction::Ignore ==> registered_chords().contains(
            chord,
        ),
{
    if shortcut_plan(chord, state) != ShortcutAction::Ignore {
        if chord.key == ShortcutKey::Comma {
            assert(registered_chords()[0] == chord);
        } else {
            assert(registered_chords()[1] == chord);
        }
    }
}

} // verus!
