//! Which pages the main window may show, and what happens to links that ask
//! for a new window: the messaging site's own hosts stay inside the app,
//! other web links open in the system browser, anything else is refused.

use vstd::prelude::*;
use crate::text::{chars_end_with, chars_equal, chars_of, ends_with};

verus! {

/// The page that the main window opens.
pub const WHATSAPP_URL: &'static str = "https://web.whatsapp.com";

/// Hosts that belong to the messaging service: `web.whatsapp.com` itself and
/// every subdomain of `whatsapp.net` and `whatsapp.com`.
pub open spec fn whatsapp_host(host: Seq<char>) -> bool {
    ||| host == "web.whatsapp.com"@
    ||| ends_with(host, ".whatsapp.net"@)
    ||| ends_with(host, ".whatsapp.com"@)
}

/// Decides whether `host` belongs to the messaging service.
pub fn is_whatsapp_host(host: &str) -> (r: bool)
    ensures
        r == whatsapp_host(host@),
{
    let h = chars_of(host);
    chars_equal(&h, &chars_of("web.whatsapp.com")) || chars_end_with(&h, &chars_of(".whatsapp.net"))
        || chars_end_with(&h, &chars_of(".whatsapp.com"))
}

/// The parts of a parsed URL that the navigation policy reads.
pub struct LinkTarget {
    /// The whole URL, as its serialization gives it.
    pub href: String,
    pub scheme: String,
    pub host: Option<String>,
}

impl LinkTarget {
    /// The host, or the empty text for URLs without one.
    pub open spec fn host_or_empty(&self) -> Seq<char> {
        match self.host {
            Some(h) => h@,
            None => Seq::empty(),
        }
    }

    pub open spec fn host_view(&self) -> Option<Seq<char>> {
        match self.host {
            Some(h) => Some(h@),
            None => None,
        }
    }
}

/// Whether `url::Url::parse` accepts the text.
pub uninterp spec fn url_parses(text: Seq<char>) -> bool;

/// The scheme (`Url::scheme`) of the URL parsed from the text.
pub uninterp spec fn url_scheme(text: Seq<char>) -> Seq<char>;

/// The host (`Url::host_str`) of the URL parsed from the text.
pub uninterp spec fn url_host(text: Seq<char>) -> Option<Seq<char>>;

/// The serialization (`Url::as_str`) of the URL parsed from the text.
pub uninterp spec fn url_serialization(text: Seq<char>) -> Seq<char>;

/// Parses a URL with `url::Url::parse` and keeps its serialization, scheme and
/// host. Trusted: the parse succeeds exactly when `url_parses` holds, and the
/// parts are those that `Url::as_str`, `Url::scheme` and `Url::host_str` give
/// for the parsed URL. What the parser accepts and how it normalises hosts
/// is left unsaid.
#[verifier::external_body]
fn parse_url(text: &str) -> (r: Option<LinkTarget>)
    ensures
        r is Some <==> url_parses(text@),
        r matches Some(t) ==> t.href@ == url_serialization(text@) && t.scheme@ == url_scheme(
            text@,
        ) && t.host_view() == url_host(text@),
{
    match url::Url::parse(text) {
        Ok(u) => Some(
            LinkTarget {
                href: u.as_str().to_string(),
                scheme: u.scheme().to_string(),
                host: u.host_str().map(String::from),
            },
        ),
        Err(_) => None,
    }
}

/// The parts of the URL written in `text`, or `None` when it is not a URL.
pub fn link_target(text: &str) -> (r: Option<LinkTarget>)
    ensures
        r is Some <==> url_parses(text@),
        r matches Some(t) ==> t.href@ == url_serialization(text@) && t.scheme@ == url_scheme(
            text@,
        ) && t.host_view() == url_host(text@),
{
    parse_url(text)
}

/// The main window may navigate to a URL exactly when its host belongs to the
/// messaging service.
pub fn navigation_allowed(target: &LinkTarget) -> (r: bool)
    ensures
        r == whatsapp_host(target.host_or_empty()),
{
    match &target.host {
        Some(h) => {
            let r = is_whatsapp_host(h.as_str());
            assert(target.host_or_empty() == h@);
            r
        },
        None => {
            proof {
                reveal_strlit("");
            }
            let r = is_whatsapp_host("");
            assert(target.host_or_empty() =~= ""@);
            r
        },
    }
}

/// What to do with a link that asks for a new window.
pub enum NewWindowAction {
    /// Open it in a new app window.
    Allow,
    /// Refuse it.
    Deny,
    /// Refuse the window and open this URL in the system browser instead.
    OpenInBrowser(String),
}

/// The scheme of ordinary web pages.
pub open spec fn web_scheme(scheme: Seq<char>) -> bool {
    scheme == "http"@ || scheme == "https"@
}

/// What happens to a link that asks for a new window.
pub open spec fn new_window_outcome(target: LinkTarget) -> NewWindowAction {
    if whatsapp_host(target.host_or_empty()) {
        NewWindowAction::Allow
    } else if web_scheme(target.scheme@) {
        NewWindowAction::OpenInBrowser(target.href)
    } else {
        NewWindowAction::Deny
    }
}

/// Decides what happens to a link that asks for a new window: the service's
/// own hosts get the window; other `http`/`https` links open in the system
/// browser; everything else is refused.
pub fn new_window_action(target: &LinkTarget) -> (r: NewWindowAction)
    ensures
        r == new_window_outcome(*target),
        r is Allow <==> whatsapp_host(target.host_or_empty()),
        !whatsapp_host(target.host_or_empty()) && !web_scheme(target.scheme@) ==> r is Deny,
        !whatsapp_host(target.host_or_empty()) && web_scheme(target.scheme@) ==> (r matches NewWindowAction::OpenInBrowser(u) && u@ == target.href@),
{
    if navigation_allowed(target) {
        NewWindowAction::Allow
    } else {
        let scheme = chars_of(target.scheme.as_str());
        if !chars_equal(&scheme, &chars_of("http")) && !chars_equal(&scheme, &chars_of("https")) {
            NewWindowAction::Deny
        } else {
            NewWindowAction::OpenInBrowser(target.href.clone())
        }
    }
}

/// Whether the main window may navigate to the URL written in `text`; text
/// that is not a URL is refused.
pub fn allows_navigation(text: &str) -> (r: bool)
    ensures
        r == (url_parses(text@) && whatsapp_host(
            match url_host(text@) {
                Some(h) => h,
                None => Seq::empty(),
            },
        )),
{
    match link_target(text) {
        Some(t) => navigation_allowed(&t),
        None => false,
    }
}

/// What happens to the URL written in `text` when it asks for a new window;
/// text that is not a URL is refused.
pub fn new_window_action_for(text: &str) -> (r: NewWindowAction)
    ensures
        !url_parses(text@) ==> r is Deny,
        url_parses(text@) && whatsapp_host(
            match url_host(text@) {
                Some(h) => h,
                None => Seq::empty(),
            },
        ) ==> r is Allow,
        url_parses(text@) && !whatsapp_host(
            match url_host(text@) {
                Some(h) => h,
                None => Seq::empty(),
            },
        ) && !web_scheme(url_scheme(text@)) ==> r is Deny,
        url_parses(text@) && !whatsapp_host(
            match url_host(text@) {
                Some(h) => h,
                None => Seq::empty(),
            },
        ) && web_scheme(url_scheme(text@)) ==> (r matches NewWindowAction::OpenInBrowser(u)
            && u@ == url_serialization(text@)),
{
    match link_target(text) {
        Some(t) => new_window_action(&t),
        None => NewWindowAction::Deny,
    }
}

/// Every subdomain of the service's two domains is one of its hosts.
pub proof fn lemma_subdomains_are_whatsapp_hosts(label: Seq<char>)
    ensures
        whatsapp_host(label + ".whatsapp.com"@),
        whatsapp_host(label + ".whatsapp.net"@),
{
    let com = ".whatsapp.com"@;
    let net = ".whatsapp.net"@;
    let a = label + com;
    let b = label + net;
    assert(a.subrange(a.len() - com.len(), a.len() as int) =~= com);
    assert(b.subrange(b.len() - net.len(), b.len() as int) =~= net);
}

/// Links that ask for a new window: the service's hosts get an app window;
/// any other `http` or `https` link opens in the system browser with its
/// own URL; a link with any other scheme is refused.
pub proof fn lemma_new_window_policy(target: LinkTarget)
    ensures
        whatsapp_host(target.host_or_empty()) ==> new_window_outcome(target) == NewWindowAction::Allow,
        !whatsapp_host(target.host_or_empty()) && (target.scheme@ == "https"@ || target.scheme@ == "http"@)
            ==> new_window_outcome(target) == NewWindowAction::OpenInBrowser(target.href),
        !whatsapp_host(target.host_or_empty()) && target.scheme@ != "https"@ && target.scheme@ != "http"@
            ==> new_window_outcome(target) == NewWindowAction::Deny,
{
}

} // verus!
