//! Classification of the external copy tool's failure output into the fixed
//! error categories, by case-insensitive substring matching on its stderr
//! text. Not-found patterns take precedence over forbidden patterns.

use vstd::prelude::*;
use vstd::string::*;

verus! {

/// The category a failed tool invocation falls into.
#[derive(Clone, Copy, Debug, PartialEq, Eq, Structural)]
pub enum FailureCategory {
    NotFound,
    Forbidden,
    Upstream,
}

/// The code of `c` with an ASCII upper-case letter folded to lower case.
pub open spec fn lower_code(c: char) -> int {
    let u = c as u32;
    if 65 <= u && u <= 90 {
        u + 32
    } else {
        u as int
    }
}

/// Case-insensitive character equality (ASCII folding).
pub open spec fn ci_equal(a: char, b: char) -> bool {
    lower_code(a) == lower_code(b)
}

/// `pat` matches `s` at index `i`, ignoring ASCII case.
pub open spec fn ci_matches_at(s: Seq<char>, pat: Seq<char>, i: int) -> bool {
    0 <= i && i + pat.len() <= s.len() && (forall|j: int|
        0 <= j < pat.len() ==> ci_equal(s[i + j], pat[j]))
}

/// `pat` occurs in `s`, ignoring ASCII case.
pub open spec fn ci_contains(s: Seq<char>, pat: Seq<char>) -> bool {
    exists|i: int| ci_matches_at(s, pat, i)
}

/// Whether `stderr` matches any of the not-found diagnostics.
pub open spec fn spec_matches_not_found(stderr: Seq<char>) -> bool {
    ci_contains(stderr, "manifest unknown"@) || ci_contains(stderr, "not found"@) || ci_contains(
        stderr,
        "name unknown"@,
    )
}

/// Whether `stderr` matches any of the access-denied diagnostics.
pub open spec fn spec_matches_forbidden(stderr: Seq<char>) -> bool {
    ci_contains(stderr, "denied"@) || ci_contains(stderr, "unauthorized"@) || ci_contains(
        stderr,
        "authentication required"@,
    )
}

/// The category of a failing invocation with the given stderr text:
/// not-found patterns first, then forbidden patterns, else upstream.
pub open spec fn spec_classify(stderr: Seq<char>) -> FailureCategory {
    if spec_matches_not_found(stderr) {
        FailureCategory::NotFound
    } else if spec_matches_forbidden(stderr) {
        FailureCategory::Forbidden
    } else {
        FailureCategory::Upstream
    }
}

fn char_ci_eq(a: char, b: char) -> (r: bool)
    ensures
        r == ci_equal(a, b),
{
    let ua = a as u32;
    let la = if 65 <= ua && ua <= 90 {
        ua + 32
    } else {
        ua
    };
    let ub = b as u32;
    let lb = if 65 <= ub && ub <= 90 {
        ub + 32
    } else {
        ub
    };
    la == lb
}

fn ci_match_at(s: &str, pat: &str, i: usize, slen: usize, plen: usize) -> (b: bool)
    requires
        slen == s@.len(),
        plen == pat@.len(),
        i + plen <= slen,
    ensures
        b == ci_matches_at(s@, pat@, i as int),
{
    let mut j: usize = 0;
    while j < plen
        invariant
            slen == s@.len(),
            plen == pat@.len(),
            i + plen <= slen,
            j <= plen,
            forall|k: int| 0 <= k < j ==> ci_equal(s@[i + k], pat@[k]),
        decreases plen - j,
    {
        if !char_ci_eq(s.get_char(i + j), pat.get_char(j)) {
            return false;
        }
        j += 1;
    }
    true
}

/// Case-insensitive substring search.
pub fn contains_ci(s: &str, pat: &str) -> (b: bool)
    ensures
        b == ci_contains(s@, pat@),
{
    let slen = s.unicode_len();
    let plen = pat.unicode_len();
    if plen > slen {
        proof {
            assert forall|i: int| !ci_matches_at(s@, pat@, i) by {}
        }
        return false;
    }
    if plen == 0 {
        proof {
            assert(ci_matches_at(s@, pat@, 0));
        }
        return true;
    }
    let mut i: usize = 0;
    while i <= slen - plen
        invariant
            1 <= plen <= slen,
            slen == s@.len(),
            plen == pat@.len(),
            i <= slen - plen + 1,
            forall|k: int| 0 <= k < i ==> !ci_matches_at(s@, pat@, k),
        decreases slen - plen + 1 - i,
    {
        if ci_match_at(s, pat, i, slen, plen) {
            return true;
        }
        i += 1;
    }
    proof {
        assert forall|k: int| !ci_matches_at(s@, pat@, k) by {
            if 0 <= k && k + plen <= slen {
                assert(!ci_matches_at(s@, pat@, k));
            }
        }
    }
    false
}

/// Classify the stderr text of a failing tool invocation.
pub fn classify_failure(stderr: &str) -> (c: FailureCategory)
    ensures
        c == spec_classify(stderr@),
{
    if contains_ci(stderr, "manifest unknown") || contains_ci(stderr, "not found") || contains_ci(
        stderr,
        "name unknown",
    ) {
        FailureCategory::NotFound
    } else if contains_ci(stderr, "denied") || contains_ci(stderr, "unauthorized") || contains_ci(
        stderr,
        "authentication required",
    ) {
        FailureCategory::Forbidden
    } else {
        FailureCategory::Upstream
    }
}

/// A diagnostic that names an unknown manifest is classified as not-found on
/// every input, whatever else the text also matches: the not-found patterns
/// are checked before the forbidden ones.
pub proof fn lemma_not_found_precedence(stderr: Seq<char>)
    requires
        ci_contains(stderr, "manifest unknown"@),
    ensures
        spec_classify(stderr) == FailureCategory::NotFound,
{
}

} // verus!
