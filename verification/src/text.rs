//! Character and string helpers shared by the platform modules:
//! ASCII-case-insensitive comparison, whitespace trimming, and the
//! final cleanup applied to every URL handed back to a caller.

use vstd::prelude::*;
use vstd::string::*;

verus! {

/// The whitespace characters trimmed from the edges of a URL: the ASCII
/// white-space set (space, tab, line feed, vertical tab, form feed,
/// carriage return), which covers everything a subprocess or bus reply
/// wraps around its payload.
pub open spec fn is_space(c: char) -> bool {
    c == ' ' || c == '\t' || c == '\n' || c == '\r' || c == '\u{b}' || c == '\u{c}'
}

fn is_space_exec(c: char) -> (r: bool)
    ensures
        r == is_space(c),
{
    c == ' ' || c == '\t' || c == '\n' || c == '\r' || c == '\u{b}' || c == '\u{c}'
}

/// The code point of `c` with an ASCII upper-case letter folded to its
/// lower-case counterpart; every other character is left as it is.
pub open spec fn lower_code(c: char) -> int {
    if 'A' <= c && c <= 'Z' {
        c as int + 32
    } else {
        c as int
    }
}

/// Two characters are equal up to ASCII case.
pub open spec fn char_eq_ci(a: char, b: char) -> bool {
    lower_code(a) == lower_code(b)
}

/// Two character sequences are equal up to ASCII case.
pub open spec fn str_eq_ci(a: Seq<char>, b: Seq<char>) -> bool {
    a.len() == b.len() && (forall|i: int| 0 <= i < a.len() ==> char_eq_ci(a[i], b[i]))
}

fn lower_code_exec(c: char) -> (r: u32)
    ensures
        r == lower_code(c),
{
    let x = c as u32;
    if 65 <= x && x <= 90 {
        x + 32
    } else {
        x
    }
}

/// Whether two strings are equal up to ASCII case. This is the one notion
/// of name recognition used by all three platform sets.
pub fn eq_ignore_case(a: &str, b: &str) -> (r: bool)
    ensures
        r == str_eq_ci(a@, b@),
{
    let n = a.unicode_len();
    if n != b.unicode_len() {
        return false;
    }
    for i in 0..n
        invariant
            n == a@.len(),
            n == b@.len(),
            forall|j: int| 0 <= j < i ==> char_eq_ci(a@[j], b@[j]),
    {
        if lower_code_exec(a.get_char(i)) != lower_code_exec(b.get_char(i)) {
            return false;
        }
    }
    true
}

/// Equality up to ASCII case is symmetric.
pub proof fn lemma_str_eq_ci_symm(a: Seq<char>, b: Seq<char>)
    ensures
        str_eq_ci(a, b) == str_eq_ci(b, a),
{
}

/// Equality up to ASCII case is transitive.
pub proof fn lemma_str_eq_ci_trans(a: Seq<char>, b: Seq<char>, c: Seq<char>)
    requires
        str_eq_ci(a, b),
        str_eq_ci(b, c),
    ensures
        str_eq_ci(a, c),
{
}

/// Two strings equal up to ASCII case agree on which strings they equal
/// up to ASCII case.
pub proof fn lemma_str_eq_ci_same_matches(a: Seq<char>, b: Seq<char>, pat: Seq<char>)
    requires
        str_eq_ci(a, b),
    ensures
        str_eq_ci(a, pat) == str_eq_ci(b, pat),
{
    lemma_str_eq_ci_symm(a, b);
    if str_eq_ci(a, pat) {
        lemma_str_eq_ci_trans(b, a, pat);
    }
    if str_eq_ci(b, pat) {
        lemma_str_eq_ci_trans(a, b, pat);
    }
}

/// `needle` occurs in `hay` as a contiguous run, up to ASCII case.
pub open spec fn contains_ci(hay: Seq<char>, needle: Seq<char>) -> bool {
    exists|k: int|
        0 <= k && k + needle.len() <= hay.len() && #[trigger] str_eq_ci(
            hay.subrange(k, k + needle.len() as int),
            needle,
        )
}

fn matches_at(hay: &str, needle: &str, k: usize) -> (r: bool)
    requires
        k + needle@.len() <= hay@.len(),
    ensures
        r == str_eq_ci(hay@.subrange(k as int, k as int + needle@.len() as int), needle@),
{
    let n = hay.unicode_len();
    let m = needle.unicode_len();
    let ghost sub = hay@.subrange(k as int, k as int + m as int);
    for j in 0..m
        invariant
            n == hay@.len(),
            m == needle@.len(),
            k + m <= n,
            sub == hay@.subrange(k as int, k as int + m as int),
            forall|j2: int| 0 <= j2 < j ==> char_eq_ci(sub[j2], needle@[j2]),
    {
        if lower_code_exec(hay.get_char(k + j)) != lower_code_exec(needle.get_char(j)) {
            proof {
                assert(sub[j as int] == hay@[k + j as int]);
                assert(!char_eq_ci(sub[j as int], needle@[j as int]));
            }
            return false;
        }
        proof {
            assert(sub[j as int] == hay@[k + j as int]);
        }
    }
    true
}

/// Whether `hay` contains `needle` as a contiguous run, up to ASCII
/// case.
pub fn contains_ignore_case(hay: &str, needle: &str) -> (r: bool)
    ensures
        r == contains_ci(hay@, needle@),
{
    let n = hay.unicode_len();
    let m = needle.unicode_len();
    if m == 0 {
        proof {
            assert(str_eq_ci(hay@.subrange(0, 0 + needle@.len() as int), needle@));
        }
        return true;
    }
    if m > n {
        return false;
    }
    let mut k: usize = 0;
    while k <= n - m
        invariant
            n == hay@.len(),
            m == needle@.len(),
            0 < m <= n,
            k <= n - m + 1,
            forall|k2: int|
                0 <= k2 < k ==> !(#[trigger] str_eq_ci(
                    hay@.subrange(k2, k2 + m as int),
                    needle@,
                )),
        decreases n - m + 1 - k,
    {
        if matches_at(hay, needle, k) {
            proof {
                assert(str_eq_ci(hay@.subrange(k as int, k as int + needle@.len() as int),
                needle@));
            }
            return true;
        }
        k = k + 1;
    }
    proof {
        assert forall|k2: int| 0 <= k2 && k2 + needle@.len() <= hay@.len() implies !(
        #[trigger] str_eq_ci(hay@.subrange(k2, k2 + needle@.len() as int), needle@)) by {
            assert(k2 < k);
        }
    }
    false
}

/// `s` with leading whitespace removed.
pub open spec fn trim_front(s: Seq<char>) -> Seq<char>
    decreases s.len(),
{
    if s.len() > 0 && is_space(s[0]) {
        trim_front(s.drop_first())
    } else {
        s
    }
}

/// `s` with trailing whitespace removed.
pub open spec fn trim_back(s: Seq<char>) -> Seq<char>
    decreases s.len(),
{
    if s.len() > 0 && is_space(s.last()) {
        trim_back(s.drop_last())
    } else {
        s
    }
}

/// `s` with both leading and trailing whitespace removed.
pub open spec fn trimmed(s: Seq<char>) -> Seq<char> {
    trim_back(trim_front(s))
}

proof fn lemma_trim_front_no_leading_space(s: Seq<char>)
    ensures
        trim_front(s).len() > 0 ==> !is_space(trim_front(s)[0]),
    decreases s.len(),
{
    if s.len() > 0 && is_space(s[0]) {
        lemma_trim_front_no_leading_space(s.drop_first());
    }
}

proof fn lemma_trim_back_no_trailing_space(s: Seq<char>)
    ensures
        trim_back(s).len() > 0 ==> !is_space(trim_back(s).last()),
    decreases s.len(),
{
    if s.len() > 0 && is_space(s.last()) {
        lemma_trim_back_no_trailing_space(s.drop_last());
    }
}

proof fn lemma_trim_back_keeps_first(s: Seq<char>)
    ensures
        trim_back(s).len() > 0 ==> trim_back(s)[0] == s[0],
    decreases s.len(),
{
    if s.len() > 0 && is_space(s.last()) {
        lemma_trim_back_keeps_first(s.drop_last());
    }
}

/// A trimmed sequence has no whitespace at either edge.
pub proof fn lemma_trimmed_clean(s: Seq<char>)
    ensures
        trimmed(s).len() > 0 ==> !is_space(trimmed(s)[0]) && !is_space(trimmed(s).last()),
{
    lemma_trim_front_no_leading_space(s);
    lemma_trim_back_no_trailing_space(trim_front(s));
    lemma_trim_back_keeps_first(trim_front(s));
}

/// `s` with leading and trailing whitespace removed, as a fresh string.
pub fn trim(s: &str) -> (r: String)
    ensures
        r@ == trimmed(s@),
{
    let n = s.unicode_len();
    proof {
        assert(s@.subrange(0, n as int) =~= s@);
    }
    let mut i: usize = 0;
    while i < n && is_space_exec(s.get_char(i))
        invariant
            i <= n,
            n == s@.len(),
            trim_front(s@) == trim_front(s@.subrange(i as int, n as int)),
        decreases n - i,
    {
        proof {
            assert(s@.subrange(i as int, n as int).drop_first() =~= s@.subrange(
                i as int + 1,
                n as int,
            ));
        }
        i = i + 1;
    }
    proof {
        if i < n {
            assert(s@.subrange(i as int, n as int)[0] == s@[i as int]);
        }
        assert(trim_front(s@) =~= s@.subrange(i as int, n as int));
    }
    let mut j: usize = n;
    while j > i && is_space_exec(s.get_char(j - 1))
        invariant
            i <= j <= n,
            n == s@.len(),
            trim_front(s@) == s@.subrange(i as int, n as int),
            trim_back(s@.subrange(i as int, n as int)) == trim_back(
                s@.subrange(i as int, j as int),
            ),
        decreases j,
    {
        proof {
            assert(s@.subrange(i as int, j as int).last() == s@[j as int - 1]);
            assert(s@.subrange(i as int, j as int).drop_last() =~= s@.subrange(
                i as int,
                j as int - 1,
            ));
        }
        j = j - 1;
    }
    proof {
        if j > i {
            assert(s@.subrange(i as int, j as int).last() == s@[j as int - 1]);
        }
        assert(trimmed(s@) =~= s@.subrange(i as int, j as int));
    }
    let t = s.substring_char(i, j);
    String::from_str(t)
}

/// The cleanup applied to every URL before it is returned: a missing or
/// failed reply stays missing, and a reply's text loses its surrounding
/// whitespace, so that a returned URL never carries any at its edges.
pub fn clean_url(raw: Option<String>) -> (r: Option<String>)
    ensures
        r is Some <==> raw is Some,
        raw is Some ==> r->0@ == trimmed(raw->0@),
        r is Some && r->0@.len() > 0 ==> !is_space(r->0@[0]) && !is_space(r->0@.last()),
{
    match raw {
        None => None,
        Some(s) => {
            proof {
                lemma_trimmed_clean(s@);
            }
            Some(trim(s.as_str()))
        },
    }
}

} // verus!
