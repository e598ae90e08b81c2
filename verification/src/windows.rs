//! The Windows variant: recognized browser process names and the match
//! of a window's owning process against a requested name.
//!
//! The embedding program enumerates the top-level windows, resolves each
//! window's owning process to its executable image path, and asks
//! [`image_matches`] whether that window belongs to the requested
//! browser. For the first window that matches, it walks the window's
//! accessibility tree to the first edit control — the address bar — and
//! reads its value; the final cleanup of that value is [`clean_url`].
//! When [`recognized`] returns false, no window is enumerated at all.
//!
//! [`clean_url`]: crate::text::clean_url

use vstd::prelude::*;

use crate::text::contains_ci;
use crate::text::contains_ignore_case;
use crate::text::eq_ignore_case;
use crate::text::str_eq_ci;

verus! {

/// The fixed set of browser process names recognized on Windows, up to
/// ASCII case.
pub open spec fn windows_recognized(name: Seq<char>) -> bool {
    ||| str_eq_ci(name, "chrome"@)
    ||| str_eq_ci(name, "firefox"@)
    ||| str_eq_ci(name, "msedge"@)
    ||| str_eq_ci(name, "brave"@)
    ||| str_eq_ci(name, "opera"@)
}

/// Whether `app_name` is a recognized browser. A caller that gets false
/// must not enumerate windows or touch the automation interface: an
/// unrecognized name yields no result without any query.
pub fn recognized(app_name: &str) -> (r: bool)
    ensures
        r == windows_recognized(app_name@),
{
    ||| eq_ignore_case(app_name, "chrome")
    ||| eq_ignore_case(app_name, "firefox")
    ||| eq_ignore_case(app_name, "msedge")
    ||| eq_ignore_case(app_name, "brave")
    ||| eq_ignore_case(app_name, "opera")
}

/// A path separator as it appears in an executable image path.
pub open spec fn is_path_sep(c: char) -> bool {
    c == '\\' || c == '/'
}

/// The final component of `path`: everything after the last path
/// separator, or all of `path` when it has none.
pub open spec fn file_name_of(path: Seq<char>) -> Seq<char>
    decreases path.len(),
{
    if path.len() == 0 {
        path
    } else if is_path_sep(path.last()) {
        Seq::empty()
    } else {
        file_name_of(path.drop_last()).push(path.last())
    }
}

proof fn lemma_file_name_is_suffix(path: Seq<char>, j: int)
    requires
        0 <= j <= path.len(),
        j == 0 || is_path_sep(path[j - 1]),
        forall|i: int| j <= i < path.len() ==> !is_path_sep(path[i]),
    ensures
        file_name_of(path) == path.subrange(j, path.len() as int),
    decreases path.len(),
{
    if path.len() == j {
        assert(file_name_of(path) =~= path.subrange(j, path.len() as int));
    } else {
        assert(!is_path_sep(path.last()));
        lemma_file_name_is_suffix(path.drop_last(), j);
        assert(file_name_of(path.drop_last()).push(path.last()) =~= path.subrange(
            j,
            path.len() as int,
        ));
    }
}

fn is_path_sep_exec(c: char) -> (r: bool)
    ensures
        r == is_path_sep(c),
{
    c == '\\' || c == '/'
}

/// Whether the window of the process whose executable image lies at
/// `image_path` belongs to the browser asked for as `app_name`: the
/// image's file name must contain the requested name, compared up to
/// ASCII case.
pub fn image_matches(image_path: &str, app_name: &str) -> (r: bool)
    ensures
        r == contains_ci(file_name_of(image_path@), app_name@),
{
    let n = image_path.unicode_len();
    let mut j: usize = n;
    while j > 0 && !is_path_sep_exec(image_path.get_char(j - 1))
        invariant
            j <= n,
            n == image_path@.len(),
            forall|i: int| j <= i < n ==> !is_path_sep(image_path@[i]),
        decreases j,
    {
        j = j - 1;
    }
    proof {
        lemma_file_name_is_suffix(image_path@, j as int);
    }
    let file_name = image_path.substring_char(j, n);
    contains_ignore_case(file_name, app_name)
}

} // verus!
