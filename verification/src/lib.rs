//! Look up the URL shown in a running browser's active tab.
//!
//! The library holds the decision logic of a platform-dispatched lookup:
//! which application names are recognized as browsers on each platform,
//! which automation query is issued for each recognized name, and how a
//! query's raw outcome is turned into a URL, or into no result. The calls
//! into the operating system (spawning the script runner, walking the
//! accessibility tree, sending the bus message) are I/O and stay with the
//! embedding program, which feeds their outcomes back into these functions.

use vstd::prelude::*;

pub mod linux;
pub mod macos;
pub mod text;
pub mod windows;

pub use text::clean_url;
pub use text::contains_ignore_case;
pub use text::eq_ignore_case;
pub use text::trim;

verus! {

/// Name recognition and query selection are case-insensitive: two names
/// equal up to ASCII case are recognized alike on every platform, and a
/// recognized pair is assigned the same automation script on macOS and
/// the same bus call on Linux.
pub proof fn lemma_lookup_case_insensitive(a: Seq<char>, b: Seq<char>)
    requires
        text::str_eq_ci(a, b),
    ensures
        macos::macos_recognized(a) == macos::macos_recognized(b),
        macos::macos_script(a) == macos::macos_script(b),
        windows::windows_recognized(a) == windows::windows_recognized(b),
        linux::linux_recognized(a) == linux::linux_recognized(b),
        linux::linux_target(a) == linux::linux_target(b),
{
    text::lemma_str_eq_ci_same_matches(a, b, "safari"@);
    text::lemma_str_eq_ci_same_matches(a, b, "google chrome"@);
    text::lemma_str_eq_ci_same_matches(a, b, "arc"@);
    text::lemma_str_eq_ci_same_matches(a, b, "brave browser"@);
    text::lemma_str_eq_ci_same_matches(a, b, "chrome"@);
    text::lemma_str_eq_ci_same_matches(a, b, "firefox"@);
    text::lemma_str_eq_ci_same_matches(a, b, "msedge"@);
    text::lemma_str_eq_ci_same_matches(a, b, "brave"@);
    text::lemma_str_eq_ci_same_matches(a, b, "opera"@);
    text::lemma_str_eq_ci_same_matches(a, b, "chromium"@);
    text::lemma_str_eq_ci_same_matches(a, b, "google-chrome"@);
    text::lemma_str_eq_ci_same_matches(a, b, "brave-browser"@);
}

} // verus!
