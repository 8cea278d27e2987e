use whatsapp_unofficial::navigation::{
    allows_navigation, is_whatsapp_host, link_target, navigation_allowed, new_window_action,
    new_window_action_for, LinkTarget, NewWindowAction, WHATSAPP_URL,
};

#[test]
fn service_hosts_are_recognised() {
    assert!(is_whatsapp_host("web.whatsapp.com"));
    assert!(is_whatsapp_host("mmg.whatsapp.net"));
    assert!(is_whatsapp_host("static.whatsapp.net"));
    assert!(is_whatsapp_host("pps.whatsapp.com"));
    assert!(is_whatsapp_host("a.b.whatsapp.com"));
}

#[test]
fn other_hosts_are_refused() {
    assert!(!is_whatsapp_host(""));
    assert!(!is_whatsapp_host("whatsapp.com"));
    assert!(!is_whatsapp_host("whatsapp.net"));
    assert!(!is_whatsapp_host("evilwhatsapp.com"));
    assert!(!is_whatsapp_host("web.whatsapp.com.evil.org"));
    assert!(!is_whatsapp_host("WEB.WHATSAPP.COM"));
    assert!(!is_whatsapp_host("example.com"));
}

#[test]
fn every_subdomain_is_a_service_host() {
    for label in ["", "x", "media-1", "a.b.c"] {
        assert!(is_whatsapp_host(&format!("{}.whatsapp.com", label)));
        assert!(is_whatsapp_host(&format!("{}.whatsapp.net", label)));
    }
}

#[test]
fn start_page_is_allowed() {
    assert!(allows_navigation(WHATSAPP_URL));
}

#[test]
fn parsed_hosts_are_normalised() {
    let t = link_target("https://WEB.WhatsApp.com/path?q=1").unwrap();
    assert_eq!(t.host.as_deref(), Some("web.whatsapp.com"));
    assert_eq!(t.scheme, "https");
    assert_eq!(t.href, "https://web.whatsapp.com/path?q=1");
    assert!(allows_navigation("https://WEB.WhatsApp.com/path?q=1"));
}

#[test]
fn non_urls_are_refused() {
    assert!(link_target("not a url").is_none());
    assert!(!allows_navigation("not a url"));
    assert!(matches!(new_window_action_for("not a url"), NewWindowAction::Deny));
}

#[test]
fn foreign_pages_are_not_navigated() {
    assert!(!allows_navigation("https://example.com/"));
    assert!(!allows_navigation("https://whatsapp.com/"));
}

#[test]
fn new_windows_follow_the_policy() {
    assert!(matches!(new_window_action_for("https://web.whatsapp.com/send"), NewWindowAction::Allow));
    match new_window_action_for("http://example.com") {
        NewWindowAction::OpenInBrowser(u) => assert_eq!(u, "http://example.com/"),
        _ => panic!("web link should open in the browser"),
    }
    assert!(matches!(new_window_action_for("mailto:someone@example.com"), NewWindowAction::Deny));
    assert!(matches!(new_window_action_for("file:///etc/passwd"), NewWindowAction::Deny));
}

#[test]
fn hostless_targets_are_refused() {
    let t = LinkTarget { href: "data:text/plain,hi".to_string(), scheme: "data".to_string(), host: None };
    assert!(!navigation_allowed(&t));
    assert!(matches!(new_window_action(&t), NewWindowAction::Deny));
}
