//! The macOS variant: recognized browser names, the automation script
//! issued for each, and the reading of a script run's outcome.
//!
//! The embedding program runs the returned script through the system
//! script-execution utility as a synchronous subprocess and feeds the
//! exit status and captured standard output back into
//! [`url_from_output`]. When [`script_for`] returns nothing, no process
//! is spawned at all.

use vstd::prelude::*;
use vstd::string::*;

use crate::text::clean_url;
use crate::text::is_space;
use crate::text::str_eq_ci;
use crate::text::trimmed;

verus! {

/// The fixed set of browser names recognized on macOS, up to ASCII case.
pub open spec fn macos_recognized(name: Seq<char>) -> bool {
    ||| str_eq_ci(name, "safari"@)
    ||| str_eq_ci(name, "google chrome"@)
    ||| str_eq_ci(name, "arc"@)
    ||| str_eq_ci(name, "brave browser"@)
}

/// The automation script issued for a recognized name: each browser is
/// addressed in its own automation vocabulary, and no other browser's.
pub open spec fn macos_script(name: Seq<char>) -> Seq<char>
    recommends
        macos_recognized(name),
{
    if str_eq_ci(name, "safari"@) {
        "tell application \"Safari\" to get URL of current tab of front window"@
    } else if str_eq_ci(name, "google chrome"@) {
        "tell application \"Google Chrome\" to get URL of active tab of front window"@
    } else if str_eq_ci(name, "arc"@) {
        "tell application \"Arc\" to get URL of active tab of front window"@
    } else if str_eq_ci(name, "brave browser"@) {
        "tell application \"Brave Browser\" to get URL of active tab of front window"@
    } else {
        Seq::empty()
    }
}

/// The script to run for `app_name`, or nothing when the name is not a
/// recognized browser. A caller that gets nothing must not spawn any
/// process: an unrecognized name yields no result without any query.
pub fn script_for(app_name: &str) -> (r: Option<String>)
    ensures
        r is Some <==> macos_recognized(app_name@),
        r is Some ==> r->0@ == macos_script(app_name@),
{
    if crate::text::eq_ignore_case(app_name, "safari") {
        Some(
            String::from_str(
                "tell application \"Safari\" to get URL of current tab of front window",
            ),
        )
    } else if crate::text::eq_ignore_case(app_name, "google chrome") {
        Some(
            String::from_str(
                "tell application \"Google Chrome\" to get URL of active tab of front window",
            ),
        )
    } else if crate::text::eq_ignore_case(app_name, "arc") {
        Some(
            String::from_str(
                "tell application \"Arc\" to get URL of active tab of front window",
            ),
        )
    } else if crate::text::eq_ignore_case(app_name, "brave browser") {
        Some(
            String::from_str(
                "tell application \"Brave Browser\" to get URL of active tab of front window",
            ),
        )
    } else {
        None
    }
}

/// Reads a script run's outcome. `success` is whether the subprocess
/// exited with status zero; `stdout` is its captured standard output,
/// already decoded as text, or nothing when the run failed to launch or
/// its output was not valid text. A URL comes back only from a zero exit
/// with decodable output, and then it is the output trimmed of
/// surrounding whitespace; a non-zero exit yields no result whatever the
/// output held.
pub fn url_from_output(success: bool, stdout: Option<String>) -> (r: Option<String>)
    ensures
        r is Some <==> (success && stdout is Some),
        success && stdout is Some ==> r->0@ == trimmed(stdout->0@),
        r is Some && r->0@.len() > 0 ==> !is_space(r->0@[0]) && !is_space(r->0@.last()),
{
    if success {
        clean_url(stdout)
    } else {
        None
    }
}

} // verus!
