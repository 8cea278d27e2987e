//! The tray icon's tooltip, which shows the number of unread messages.

use vstd::prelude::*;
use crate::text::{decimal, lemma_decimal_injective, push_decimal};
use vstd::string::StringExecFns;

verus! {

/// The id of the tray icon whose tooltip shows the unread count.
pub const TRAY_ID: &'static str = "main";

/// The tooltip for `count` unread messages: the bare app name when there are
/// none, otherwise the name followed by the count in parentheses.
pub open spec fn badge_tooltip_text(count: nat) -> Seq<char> {
    if count == 0 {
        "WhatsApp"@
    } else {
        "WhatsApp ("@ + decimal(count) + " unread)"@
    }
}

/// The tooltip for `count` unread messages, e.g. `WhatsApp (3 unread)`.
pub fn badge_tooltip(count: u32) -> (s: String)
    ensures
        s@ == badge_tooltip_text(count as nat),
{
    if count > 0 {
        let mut s = "WhatsApp (".to_owned();
        push_decimal(&mut s, count);
        s.append(" unread)");
        s
    } else {
        "WhatsApp".to_owned()
    }
}

/// Different unread counts give different tooltips.
pub proof fn lemma_tooltip_injective(a: nat, b: nat)
    requires
        badge_tooltip_text(a) == badge_tooltip_text(b),
    ensures
        a == b,
{
    reveal_strlit("WhatsApp");
    reveal_strlit("WhatsApp (");
    reveal_strlit(" unread)");
    let pre = "WhatsApp ("@;
    let post = " unread)"@;
    if a != 0 && b != 0 {
        let ta = badge_tooltip_text(a);
        let da = decimal(a);
        let db = decimal(b);
        assert(ta.len() == pre.len() + da.len() + post.len());
        assert(da.len() == db.len());
        assert(da =~= ta.subrange(pre.len() as int, (pre.len() + da.len()) as int));
        assert(db =~= badge_tooltip_text(b).subrange(pre.len() as int, (pre.len() + db.len()) as int));
        lemma_decimal_injective(a, b);
    } else if a != 0 || b != 0 {
        let n = if a != 0 { a } else { b };
        assert(badge_tooltip_text(n).len() > 8);
    }
}

} // verus!
