use whatsapp_unofficial::media::{probe_report, LogLevel, ProbeOutcome};
use whatsapp_unofficial::notification::{notification_text, BODY_MAX_CHARS, TITLE_MAX_CHARS};
use whatsapp_unofficial::shortcuts::{
    registered_shortcuts, shortcut_action, KeyChord, KeyState, ShortcutAction, ShortcutKey,
};
use whatsapp_unofficial::text::{decimal_string, truncate_chars};
use whatsapp_unofficial::tray::badge_tooltip;
use whatsapp_unofficial::webview::{
    init_script, BACKGROUND_SYNC_POLYFILL, NOTIFICATION_BRIDGE, TITLEBAR_SCRIPT,
};

#[test]
fn short_notifications_are_kept() {
    let n = notification_text("Alice", "hello");
    assert_eq!(n.title, "Alice");
    assert_eq!(n.body, "hello");
}

#[test]
fn long_notifications_are_cut_by_characters() {
    let title: String = std::iter::repeat('\u{e9}').take(200).collect();
    let body: String = std::iter::repeat("ab").take(400).collect();
    let n = notification_text(&title, &body);
    assert_eq!(n.title.chars().count(), TITLE_MAX_CHARS);
    assert_eq!(n.body.chars().count(), BODY_MAX_CHARS);
    assert_eq!(n.title, title.chars().take(128).collect::<String>());
    assert_eq!(n.body, body.chars().take(512).collect::<String>());
}

#[test]
fn cutting_twice_changes_nothing() {
    let title: String = std::iter::repeat('x').take(300).collect();
    let once = notification_text(&title, "b");
    let twice = notification_text(&once.title, &once.body);
    assert_eq!(once.title, twice.title);
    assert_eq!(once.body, twice.body);
}

#[test]
fn truncate_at_edges() {
    assert_eq!(truncate_chars("", 3), "");
    assert_eq!(truncate_chars("abc", 0), "");
    assert_eq!(truncate_chars("abc", 3), "abc");
    assert_eq!(truncate_chars("\u{1f600}bc", 1), "\u{1f600}");
}

#[test]
fn tooltip_without_unread_messages() {
    assert_eq!(badge_tooltip(0), "WhatsApp");
}

#[test]
fn tooltip_with_unread_messages() {
    assert_eq!(badge_tooltip(1), "WhatsApp (1 unread)");
    assert_eq!(badge_tooltip(42), "WhatsApp (42 unread)");
    assert_eq!(badge_tooltip(u32::MAX), "WhatsApp (4294967295 unread)");
}

#[test]
fn tooltips_differ_for_different_counts() {
    let a: Vec<String> = (0u32..200).map(badge_tooltip).collect();
    for i in 0..a.len() {
        for j in (i + 1)..a.len() {
            assert_ne!(a[i], a[j]);
        }
    }
}

#[test]
fn decimal_matches_to_string() {
    let mut n: u32 = 0;
    loop {
        assert_eq!(decimal_string(n), n.to_string());
        if n > u32::MAX / 3 {
            break;
        }
        n = n * 3 + 1;
    }
    for n in [0u32, 9, 10, 99, 100, 1000000, u32::MAX] {
        assert_eq!(decimal_string(n), n.to_string());
    }
}

#[test]
fn shortcuts_act_on_press_only() {
    let comma = KeyChord { control_only: true, key: ShortcutKey::Comma };
    let quit = KeyChord { control_only: true, key: ShortcutKey::KeyQ };
    assert!(shortcut_action(comma, KeyState::Pressed) == ShortcutAction::ToggleSettings);
    assert!(shortcut_action(quit, KeyState::Pressed) == ShortcutAction::Quit);
    assert!(shortcut_action(comma, KeyState::Released) == ShortcutAction::Ignore);
    assert!(shortcut_action(quit, KeyState::Released) == ShortcutAction::Ignore);
}

#[test]
fn unregistered_chords_are_ignored() {
    let plain_q = KeyChord { control_only: false, key: ShortcutKey::KeyQ };
    let other = KeyChord { control_only: true, key: ShortcutKey::Other };
    assert!(shortcut_action(plain_q, KeyState::Pressed) == ShortcutAction::Ignore);
    assert!(shortcut_action(other, KeyState::Pressed) == ShortcutAction::Ignore);
    let regs = registered_shortcuts();
    assert_eq!(regs.len(), 2);
    assert!(regs[0] == KeyChord { control_only: true, key: ShortcutKey::Comma });
    assert!(regs[1] == KeyChord { control_only: true, key: ShortcutKey::KeyQ });
}

#[test]
fn probe_reports() {
    let found = probe_report(ProbeOutcome::Found);
    assert!(found.level == LogLevel::Info);
    assert_eq!(found.message, "GStreamer PipeWire support detected");
    let missing = probe_report(ProbeOutcome::Missing);
    assert!(missing.level == LogLevel::Warn);
    assert_eq!(
        missing.message,
        "gstreamer1.0-pipewire not available \u{2014} audio/video calls may use ALSA fallback"
    );
    let not_run = probe_report(ProbeOutcome::NotRun("not found".to_string()));
    assert!(not_run.level == LogLevel::Warn);
    assert_eq!(
        not_run.message,
        "Could not run gst-inspect-1.0: not found \u{2014} GStreamer may not be installed"
    );
}

#[test]
fn init_script_joins_the_three_scripts() {
    assert_eq!(
        init_script(),
        format!("{}\n{}\n{}", TITLEBAR_SCRIPT, NOTIFICATION_BRIDGE, BACKGROUND_SYNC_POLYFILL)
    );
}
