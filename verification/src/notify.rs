//! Desktop notifications for sessions the user is not looking at.
use vstd::prelude::*;

use crate::paths::file_name;
#[allow(unused_imports)]
use crate::paths::last_name;
use crate::side::Platform;
#[allow(unused_imports)]
use crate::text::{decimal, opt_slice};
use crate::text::{concat2, concat3, decimal_text};

verus! {

/// The title of every notification.
pub const SUMMARY: &'static str = "alacritree";

/// The action a notifier fires when the body is clicked.
pub const OPEN_ACTION: &'static str = "default";

/// What a notifier reports when a notification was closed without a click.
pub const CLOSED_ACTION: &'static str = "__closed";

/// Drains every queued click and gives the newest.  Clicks can pile up while
/// the window is unfocused; the user most likely meant the latest one.
pub fn latest_click(clicks: &mut Vec<u64>) -> (r: Option<u64>)
    ensures
        r == newest(old(clicks)@),
        final(clicks)@.len() == 0,
        r == if old(clicks)@.len() == 0 {
            None
        } else {
            Some(old(clicks)@.last())
        },
{
    let latest = clicks.pop();
    clicks.clear();
    latest
}

/// What a notification calls a session: the last name of its directory, or its
/// title when the directory has none.
pub open spec fn session_label(
    directory: Option<Seq<char>>,
    title: Seq<char>,
    platform: Platform,
) -> Seq<char> {
    match directory {
        Some(path) => match last_name(path, platform) {
            Some(name) => name,
            None => title,
        },
        None => title,
    }
}

/// What a notification says of a session that waits for input.
pub open spec fn attention_text(label: Seq<char>) -> Seq<char> {
    if label.len() == 0 {
        "Session is waiting for input"@
    } else {
        label + " is waiting for input"@
    }
}

/// What a notification says of a session that waits for input.
pub fn attention(directory: Option<&str>, title: &str, platform: Platform) -> (r: String)
    ensures
        r@ == attention_text(session_label(opt_slice(directory), title@, platform)),
{
    let named = match directory {
        Some(path) => file_name(path, platform),
        None => None,
    };
    let label = match named {
        Some(name) => name,
        None => title.to_owned(),
    };
    if label.as_str().is_empty() {
        "Session is waiting for input".to_owned()
    } else {
        concat2(label.as_str(), " is waiting for input")
    }
}

/// A report is a click.
pub open spec fn tells_of_a_click(action: Seq<char>) -> bool {
    action != CLOSED_ACTION@
}

/// The click that counts among those that piled up.
pub open spec fn newest(clicks: Seq<u64>) -> Option<u64> {
    if clicks.len() == 0 {
        None
    } else {
        Some(clicks.last())
    }
}

/// Whether a notifier's report is a click.
pub fn is_click(action: &str) -> (r: bool)
    ensures
        r == tells_of_a_click(action@),
        r == (action@ != CLOSED_ACTION@),
{
    !crate::text::same(action, CLOSED_ACTION)
}

/// What the `n`th notification is called, for a session: each its own, so that
/// a later one does not replace one the user has not seen yet.
pub fn request_name(id: u64, n: u64) -> (r: String)
    ensures
        r@ == "attention-"@ + decimal(id as nat) + "-"@ + decimal(n as nat),
{
    let head = concat3("attention-", decimal_text(id).as_str(), "-");
    concat2(head.as_str(), decimal_text(n).as_str())
}

} // verus!
