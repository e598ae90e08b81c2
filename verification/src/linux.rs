//! The Linux variant: recognized browser names and the session-bus
//! method call issued for each.
//!
//! Two mechanisms could serve this platform: a direct session-bus method
//! call, or shelling out to a window-query tool and a generic bus-send
//! command. The direct call is the one used, being the same single call
//! without the extra subprocess: the embedding program opens a
//! session-bus connection, sends the method call described by
//! [`BusTarget`], parses the reply body as a string, and feeds it back
//! into [`url_from_reply`]. When [`bus_target_for`] returns nothing, no
//! connection is opened at all.

use vstd::prelude::*;
use vstd::string::*;

use crate::text::clean_url;
use crate::text::is_space;
use crate::text::str_eq_ci;
use crate::text::trimmed;

verus! {

/// The fixed set of browser names recognized on Linux, up to ASCII case.
pub open spec fn linux_recognized(name: Seq<char>) -> bool {
    ||| str_eq_ci(name, "firefox"@)
    ||| str_eq_ci(name, "chromium"@)
    ||| str_eq_ci(name, "google-chrome"@)
    ||| str_eq_ci(name, "brave-browser"@)
}

/// A session-bus method call: the destination bus name, the object path,
/// the interface, and the method to invoke on it.
pub struct BusTarget {
    pub bus_name: String,
    pub object_path: String,
    pub interface_name: String,
    pub method: String,
}

/// The bus call issued for a recognized name, as
/// (bus name, object path, interface, method). Firefox answers its own
/// interface's current-URL query; the Chromium family all share one
/// browser interface and differ only in the destination bus name.
pub open spec fn linux_target(name: Seq<char>) -> (Seq<char>, Seq<char>, Seq<char>, Seq<char>)
    recommends
        linux_recognized(name),
{
    if str_eq_ci(name, "firefox"@) {
        ("org.mozilla.firefox"@, "/org/mozilla/firefox"@, "org.mozilla.firefox"@,
        "GetCurrentURL"@)
    } else if str_eq_ci(name, "chromium"@) {
        ("org.chromium"@, "/org/chromium/Browser"@, "org.chromium.Browser"@,
        "GetCurrentTabURL"@)
    } else if str_eq_ci(name, "google-chrome"@) {
        ("com.google.Chrome"@, "/org/chromium/Browser"@, "org.chromium.Browser"@,
        "GetCurrentTabURL"@)
    } else if str_eq_ci(name, "brave-browser"@) {
        ("com.brave.Browser"@, "/org/chromium/Browser"@, "org.chromium.Browser"@,
        "GetCurrentTabURL"@)
    } else {
        (Seq::empty(), Seq::empty(), Seq::empty(), Seq::empty())
    }
}

/// The bus call to send for `app_name`, or nothing when the name is not
/// a recognized browser. A caller that gets nothing must not open a bus
/// connection: an unrecognized name yields no result without any query.
pub fn bus_target_for(app_name: &str) -> (r: Option<BusTarget>)
    ensures
        r is Some <==> linux_recognized(app_name@),
        r is Some ==> (r->0.bus_name@, r->0.object_path@, r->0.interface_name@, r->0.method@)
            == linux_target(app_name@),
{
    if crate::text::eq_ignore_case(app_name, "firefox") {
        Some(
            BusTarget {
                bus_name: String::from_str("org.mozilla.firefox"),
                object_path: String::from_str("/org/mozilla/firefox"),
                interface_name: String::from_str("org.mozilla.firefox"),
                method: String::from_str("GetCurrentURL"),
            },
        )
    } else if crate::text::eq_ignore_case(app_name, "chromium") {
        Some(
            BusTarget {
                bus_name: String::from_str("org.chromium"),
                object_path: String::from_str("/org/chromium/Browser"),
                interface_name: String::from_str("org.chromium.Browser"),
                method: String::from_str("GetCurrentTabURL"),
            },
        )
    } else if crate::text::eq_ignore_case(app_name, "google-chrome") {
        Some(
            BusTarget {
                bus_name: String::from_str("com.google.Chrome"),
                object_path: String::from_str("/org/chromium/Browser"),
                interface_name: String::from_str("org.chromium.Browser"),
                method: String::from_str("GetCurrentTabURL"),
            },
        )
    } else if crate::text::eq_ignore_case(app_name, "brave-browser") {
        Some(
            BusTarget {
                bus_name: String::from_str("com.brave.Browser"),
                object_path: String::from_str("/org/chromium/Browser"),
                interface_name: String::from_str("org.chromium.Browser"),
                method: String::from_str("GetCurrentTabURL"),
            },
        )
    } else {
        None
    }
}

/// Reads a bus call's outcome. `body` is the reply body parsed as a
/// string, or nothing when the connection failed, the call failed, or
/// the body was empty or not a string. A missing or unparseable reply
/// yields no result; a parsed reply comes back trimmed of surrounding
/// whitespace.
pub fn url_from_reply(body: Option<String>) -> (r: Option<String>)
    ensures
        r is Some <==> body is Some,
        body is Some ==> r->0@ == trimmed(body->0@),
        r is Some && r->0@.len() > 0 ==> !is_space(r->0@[0]) && !is_space(r->0@.last()),
{
    clean_url(body)
}

} // verus!
