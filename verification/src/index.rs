//! Normalization of a chart-repository URL path: ensure it ends in an index
//! document name, stripping trailing slashes before appending the default.

use vstd::prelude::*;
use vstd::string::*;

verus! {

/// `s` ends with `suffix`.
pub open spec fn spec_ends_with(s: Seq<char>, suffix: Seq<char>) -> bool {
    s.len() >= suffix.len() && s.subrange(s.len() - suffix.len(), s.len() as int) == suffix
}

/// End of `s` once trailing `/` characters before `to` are dropped.
pub open spec fn trim_slashes_end(s: Seq<char>, to: int) -> int
    decreases to,
{
    if to <= 0 {
        0
    } else if s[to - 1] == '/' {
        trim_slashes_end(s, to - 1)
    } else {
        to
    }
}

/// The normalized index path: unchanged when it already names an index
/// document, else the path without trailing slashes with `/index.yaml`
/// appended.
pub open spec fn spec_normalize_index_path(p: Seq<char>) -> Seq<char> {
    if spec_ends_with(p, "/index.yaml"@) || spec_ends_with(p, "/index.yml"@) {
        p
    } else {
        p.subrange(0, trim_slashes_end(p, p.len() as int)) + "/index.yaml"@
    }
}

fn ends_with(s: &str, suffix: &str) -> (b: bool)
    ensures
        b == spec_ends_with(s@, suffix@),
{
    let slen = s.unicode_len();
    let xlen = suffix.unicode_len();
    if xlen > slen {
        return false;
    }
    let mut j: usize = 0;
    while j < xlen
        invariant
            xlen <= slen,
            slen == s@.len(),
            xlen == suffix@.len(),
            j <= xlen,
            forall|k: int| 0 <= k < j ==> s@[slen - xlen + k] == suffix@[k],
        decreases xlen - j,
    {
        if s.get_char(slen - xlen + j) != suffix.get_char(j) {
            proof {
                assert(s@.subrange(slen - xlen, slen as int)[j as int] == s@[slen - xlen + j]);
            }
            return false;
        }
        j += 1;
    }
    proof {
        assert(s@.subrange(slen - xlen, slen as int) =~= suffix@);
    }
    true
}

/// Normalize a URL path so that it names an index document: paths already
/// ending in `/index.yaml` or `/index.yml` pass through; any other path has
/// its trailing slashes stripped and `/index.yaml` appended.
pub fn normalize_index_path(path: &str) -> (r: String)
    ensures
        r@ == spec_normalize_index_path(path@),
{
    if ends_with(path, "/index.yaml") || ends_with(path, "/index.yml") {
        return String::from_str(path);
    }
    let len = path.unicode_len();
    let mut b: usize = len;
    while b > 0 && path.get_char(b - 1) == '/'
        invariant
            b <= len,
            len == path@.len(),
            trim_slashes_end(path@, len as int) == trim_slashes_end(path@, b as int),
        decreases b,
    {
        b -= 1;
    }
    let stem = path.substring_char(0, b);
    String::from_str(stem).concat("/index.yaml")
}

} // verus!
