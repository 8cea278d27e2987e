use whatsapp_unofficial::session::{
    autostart_action, autostart_error, check_for_updates, keyring_entry_error,
    save_session_key_error, session_key_lookup, AutostartAction, AutostartStep, KeyringFailure,
    AUTOSTART_DESKTOP,
};
use whatsapp_unofficial::window::{
    restore_plan, saved_entries, toggle_maximize_action, MaximizeAction, WindowGeometry, KEY_HEIGHT,
    KEY_WIDTH, KEY_X, KEY_Y,
};

#[test]
fn stored_key_is_returned() {
    assert_eq!(session_key_lookup(Ok("k3y".to_string())), Ok(Some("k3y".to_string())));
}

#[test]
fn missing_key_is_none() {
    assert_eq!(session_key_lookup(Err(KeyringFailure::NoEntry)), Ok(None));
}

#[test]
fn keyring_failure_is_reported() {
    assert_eq!(
        session_key_lookup(Err(KeyringFailure::Other("locked".to_string()))),
        Err("Failed to get session key: locked".to_string())
    );
    assert_eq!(keyring_entry_error("bad"), "Keyring entry error: bad");
    assert_eq!(save_session_key_error("denied"), "Failed to save session key: denied");
}

#[test]
fn updates_are_never_found() {
    assert_eq!(check_for_updates(), Ok(None));
}

#[test]
fn autostart_actions() {
    assert!(autostart_action(true, false) == AutostartAction::Install);
    assert!(autostart_action(true, true) == AutostartAction::Install);
    assert!(autostart_action(false, true) == AutostartAction::Remove);
    assert!(autostart_action(false, false) == AutostartAction::Keep);
}

#[test]
fn autostart_settles_on_the_wanted_setting() {
    for enabled in [false, true] {
        for existed in [false, true] {
            let after = match autostart_action(enabled, existed) {
                AutostartAction::Install => true,
                AutostartAction::Remove => false,
                AutostartAction::Keep => existed,
            };
            assert_eq!(after, enabled);
        }
    }
}

#[test]
fn autostart_errors_and_entry() {
    assert_eq!(autostart_error(AutostartStep::CreateDir, "e"), "Failed to create autostart dir: e");
    assert_eq!(autostart_error(AutostartStep::WriteFile, "e"), "Failed to write autostart file: e");
    assert_eq!(autostart_error(AutostartStep::RemoveFile, "e"), "Failed to remove autostart file: e");
    assert!(AUTOSTART_DESKTOP.starts_with("[Desktop Entry]\nType=Application\n"));
    assert!(AUTOSTART_DESKTOP.ends_with("X-GNOME-Autostart-enabled=true\n"));
}

#[test]
fn maximize_toggles() {
    assert!(toggle_maximize_action(true) == MaximizeAction::Unmaximize);
    assert!(toggle_maximize_action(false) == MaximizeAction::Maximize);
}

#[test]
fn restore_needs_both_values() {
    let p = restore_plan(Some(1), None, Some(800), Some(600));
    assert_eq!(p.size, Some((800, 600)));
    assert_eq!(p.position, None);
    let q = restore_plan(Some(-5), Some(7), None, Some(600));
    assert_eq!(q.size, None);
    assert_eq!(q.position, Some((-5, 7)));
}

#[test]
fn restore_after_save_gives_saved_geometry() {
    let g = WindowGeometry { x: -20, y: 40, width: 1200, height: 800 };
    let entries = saved_entries(&g);
    assert_eq!(entries, vec![(KEY_X, -20i64), (KEY_Y, 40), (KEY_WIDTH, 1200), (KEY_HEIGHT, 800)]);
    let find = |k: &str| entries.iter().rev().find(|e| e.0 == k).map(|e| e.1);
    let p = restore_plan(find(KEY_X), find(KEY_Y), find(KEY_WIDTH), find(KEY_HEIGHT));
    assert_eq!(p.size, Some((1200, 800)));
    assert_eq!(p.position, Some((-20, 40)));
}
