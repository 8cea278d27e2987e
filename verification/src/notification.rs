//! Text of the desktop notifications relayed from the web page: titles and
//! bodies are cut to a fixed number of characters.

use vstd::prelude::*;
use crate::text::{first_chars, lemma_first_chars_exact, lemma_first_chars_idempotent, truncate_chars};

verus! {

/// The most characters of a notification title that are shown.
pub const TITLE_MAX_CHARS: usize = 128;

/// The most characters of a notification body that are shown.
pub const BODY_MAX_CHARS: usize = 512;

/// The text of a notification as it is shown.
pub struct NotificationText {
    pub title: String,
    pub body: String,
}

/// The shown title: the first `TITLE_MAX_CHARS` characters of `title`.
pub open spec fn shown_title(title: Seq<char>) -> Seq<char> {
    first_chars(title, TITLE_MAX_CHARS as nat)
}

/// The shown body: the first `BODY_MAX_CHARS` characters of `body`.
pub open spec fn shown_body(body: Seq<char>) -> Seq<char> {
    first_chars(body, BODY_MAX_CHARS as nat)
}

/// Cuts a relayed notification to the lengths that are shown.
pub fn notification_text(title: &str, body: &str) -> (n: NotificationText)
    ensures
        n.title@ == shown_title(title@),
        n.body@ == shown_body(body@),
{
    NotificationText {
        title: truncate_chars(title, TITLE_MAX_CHARS),
        body: truncate_chars(body, BODY_MAX_CHARS),
    }
}

/// Relaying a notification that was already cut changes nothing, and the
/// shown text is always a prefix of what the page sent, within the limits.
pub proof fn lemma_shown_text_is_stable(title: Seq<char>, body: Seq<char>)
    ensures
        shown_title(shown_title(title)) == shown_title(title),
        shown_body(shown_body(body)) == shown_body(body),
        shown_title(title).len() <= TITLE_MAX_CHARS,
        shown_body(body).len() <= BODY_MAX_CHARS,
        shown_title(title).is_prefix_of(title),
        shown_body(body).is_prefix_of(body),
{
    lemma_first_chars_idempotent(title, TITLE_MAX_CHARS as nat);
    lemma_first_chars_idempotent(body, BODY_MAX_CHARS as nat);
}

/// A notification whose title and body fit is shown exactly as sent, line
/// feeds and all; a longer title or body is shown as exactly its first
/// `TITLE_MAX_CHARS` or `BODY_MAX_CHARS` characters.
pub proof fn lemma_shown_text_is_exact(title: Seq<char>, body: Seq<char>)
    ensures
        title.len() <= TITLE_MAX_CHARS ==> shown_title(title) == title,
        body.len() <= BODY_MAX_CHARS ==> shown_body(body) == body,
        title.len() > TITLE_MAX_CHARS ==> shown_title(title) == title.take(TITLE_MAX_CHARS as int),
        body.len() > BODY_MAX_CHARS ==> shown_body(body) == body.take(BODY_MAX_CHARS as int),
{
    lemma_first_chars_exact(title, TITLE_MAX_CHARS as nat);
    lemma_first_chars_exact(body, BODY_MAX_CHARS as nat);
    assert(title.len() > TITLE_MAX_CHARS ==> shown_title(title) =~= title.take(TITLE_MAX_CHARS as int));
    assert(body.len() > BODY_MAX_CHARS ==> shown_body(body) =~= body.take(BODY_MAX_CHARS as int));
}

} // verus!
