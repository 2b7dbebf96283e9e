//! Parsing and validation of container image references: the character-class
//! validator, the (repository, tag) parser, and the registry-host extractor.
//! All parsing functions are total: they accept any string and never fail.

use vstd::prelude::*;
use vstd::string::*;

verus! {

// ---------------------------------------------------------------------------
// Character predicates
// ---------------------------------------------------------------------------

/// The restricted character class a reference must match before any parsing:
/// letters, digits, `. / : @ _ -`.
pub open spec fn valid_ref_char(c: char) -> bool {
    let u = c as u32;
    (65 <= u && u <= 90) || (97 <= u && u <= 122) || (48 <= u && u <= 57) || c == '.' || c == '/'
        || c == ':' || c == '@' || c == '_' || c == '-'
}

/// A reference is valid when it is non-empty and every character lies in the
/// accepted class.
pub open spec fn spec_valid_ref(s: Seq<char>) -> bool {
    s.len() > 0 && (forall|i: int| 0 <= i < s.len() ==> valid_ref_char(s[i]))
}

/// ASCII whitespace, as stripped from the ends of a string by trimming.
pub open spec fn is_space(c: char) -> bool {
    c == ' ' || c == '\t' || c == '\n' || c == '\r' || c == '\u{b}' || c == '\u{c}'
}

// ---------------------------------------------------------------------------
// Searching within a sequence of characters
// ---------------------------------------------------------------------------

/// Index of the first occurrence of `c` in `s` at or after `from`.
pub open spec fn find_char_from(s: Seq<char>, c: char, from: int) -> Option<int>
    decreases s.len() - from,
{
    if from >= s.len() {
        None
    } else if s[from] == c {
        Some(from)
    } else {
        find_char_from(s, c, from + 1)
    }
}

/// Index of the last occurrence of `c` in `s` strictly before `to`.
pub open spec fn rfind_char_before(s: Seq<char>, c: char, to: int) -> Option<int>
    decreases to,
{
    if to <= 0 {
        None
    } else if s[to - 1] == c {
        Some(to - 1)
    } else {
        rfind_char_before(s, c, to - 1)
    }
}

/// Index of the last occurrence of `c` in `s`.
pub open spec fn rfind_char(s: Seq<char>, c: char) -> Option<int> {
    rfind_char_before(s, c, s.len() as int)
}

/// `pat` occurs in `s` at index `i`.
pub open spec fn contains_at(s: Seq<char>, pat: Seq<char>, i: int) -> bool {
    0 <= i && i + pat.len() <= s.len() && s.subrange(i, i + pat.len() as int) == pat
}

/// `pat` occurs somewhere in `s`.
pub open spec fn contains_seq(s: Seq<char>, pat: Seq<char>) -> bool {
    exists|i: int| contains_at(s, pat, i)
}

/// `c` occurs somewhere in `s`.
pub open spec fn seq_contains_char(s: Seq<char>, c: char) -> bool {
    exists|i: int| 0 <= i < s.len() && s[i] == c
}

/// Index of the first occurrence of `pat` in `s` at or after `from`.
pub open spec fn find_sub(s: Seq<char>, pat: Seq<char>, from: int) -> Option<int>
    decreases s.len() - from + 1,
{
    if from + pat.len() > s.len() || from < 0 {
        None
    } else if s.subrange(from, from + pat.len() as int) == pat {
        Some(from)
    } else {
        find_sub(s, pat, from + 1)
    }
}

pub proof fn lemma_find_sub_some(s: Seq<char>, pat: Seq<char>, from: int)
    requires
        find_sub(s, pat, from) is Some,
    ensures
        ({
            let i = find_sub(s, pat, from)->0;
            from <= i && contains_at(s, pat, i)
        }),
    decreases s.len() - from + 1,
{
    if from + pat.len() > s.len() || from < 0 {
    } else if s.subrange(from, from + pat.len() as int) == pat {
    } else {
        lemma_find_sub_some(s, pat, from + 1);
    }
}

pub proof fn lemma_find_sub_none(s: Seq<char>, pat: Seq<char>, from: int)
    requires
        find_sub(s, pat, from) is None,
        from >= 0,
    ensures
        forall|i: int| from <= i ==> !#[trigger] contains_at(s, pat, i),
    decreases s.len() - from + 1,
{
    if from + pat.len() > s.len() {
        assert forall|i: int| from <= i implies !#[trigger] contains_at(s, pat, i) by {
            assert(i + pat.len() > s.len());
        }
    } else {
        lemma_find_sub_none(s, pat, from + 1);
        assert forall|i: int| from <= i implies !#[trigger] contains_at(s, pat, i) by {
            if i == from {
                assert(s.subrange(from, from + pat.len() as int) != pat);
            } else {
                assert(!contains_at(s, pat, i));
            }
        }
    }
}

// ---------------------------------------------------------------------------
// Trimming
// ---------------------------------------------------------------------------

/// Index of the first non-whitespace character at or after `from`
/// (`s.len()` when there is none).
pub open spec fn first_non_space(s: Seq<char>, from: int) -> int
    decreases s.len() - from,
{
    if from >= s.len() {
        s.len() as int
    } else if is_space(s[from]) {
        first_non_space(s, from + 1)
    } else {
        from
    }
}

/// End of `s` once trailing whitespace before `to` is dropped.
pub open spec fn last_non_space_end(s: Seq<char>, to: int) -> int
    decreases to,
{
    if to <= 0 {
        0
    } else if is_space(s[to - 1]) {
        last_non_space_end(s, to - 1)
    } else {
        to
    }
}

/// `s` with leading and trailing whitespace removed.
pub open spec fn spec_trim(s: Seq<char>) -> Seq<char> {
    let a = first_non_space(s, 0);
    if a == s.len() {
        Seq::empty()
    } else {
        s.subrange(a, last_non_space_end(s, s.len() as int))
    }
}

/// `s` is empty or consists of whitespace alone.
pub open spec fn spec_blank(s: Seq<char>) -> bool {
    spec_trim(s).len() == 0
}

// ---------------------------------------------------------------------------
// Reference decomposition (specification)
// ---------------------------------------------------------------------------

/// `s` with a leading transport scheme (`scheme://`) stripped.
pub open spec fn spec_after_transport(s: Seq<char>) -> Seq<char> {
    match find_sub(s, "://"@, 0) {
        Some(i) => s.subrange(i + 3, s.len() as int),
        None => s,
    }
}

/// What follows the first `/` of the transport-stripped reference, or the
/// whole of it when it has no `/`.
pub open spec fn spec_after_registry(s: Seq<char>) -> Seq<char> {
    let t = spec_after_transport(s);
    match find_char_from(t, '/', 0) {
        Some(i) => t.subrange(i + 1, t.len() as int),
        None => t,
    }
}

/// The final `/`-delimited segment of `p`.
pub open spec fn spec_last_segment(p: Seq<char>) -> Seq<char> {
    match rfind_char(p, '/') {
        Some(i) => p.subrange(i + 1, p.len() as int),
        None => p,
    }
}

/// The repository name: the final path segment, with a placeholder when that
/// segment is empty.
pub open spec fn spec_repo_name(p: Seq<char>) -> Seq<char> {
    let seg = spec_last_segment(p);
    if seg.len() == 0 {
        "image"@
    } else {
        seg
    }
}

/// The (repository, tag) pair parsed from a reference: digest-pinned
/// references are tagged `latest`; otherwise the last colon after the final
/// `/` separates the tag, defaulting to `latest` when empty or absent.
pub open spec fn spec_repo_tag(s: Seq<char>) -> (Seq<char>, Seq<char>) {
    let a = spec_after_registry(s);
    match find_char_from(a, '@', 0) {
        Some(i) => (spec_repo_name(a.subrange(0, i)), "latest"@),
        None => match rfind_char(a, ':') {
            Some(i) => {
                let tag = a.subrange(i + 1, a.len() as int);
                (
                    spec_repo_name(a.subrange(0, i)),
                    if tag.len() == 0 {
                        "latest"@
                    } else {
                        tag
                    },
                )
            },
            None => (spec_repo_name(a), "latest"@),
        },
    }
}

/// The first `/`-delimited segment of the transport-stripped reference.
pub open spec fn spec_first_segment(s: Seq<char>) -> Seq<char> {
    let t = spec_after_transport(s);
    match find_char_from(t, '/', 0) {
        Some(i) => t.subrange(0, i),
        None => t,
    }
}

/// The registry host of a reference: the first segment when it looks like a
/// host (contains a dot or colon, or is `localhost`), else the canonical
/// public-registry marker `docker.io`.
pub open spec fn spec_registry_host(s: Seq<char>) -> Seq<char> {
    let f = spec_trim(spec_first_segment(s));
    if seq_contains_char(f, '.') || seq_contains_char(f, ':') || f == "localhost"@ {
        f
    } else {
        "docker.io"@
    }
}

// ---------------------------------------------------------------------------
// Executable searching
// ---------------------------------------------------------------------------

fn is_space_char(c: char) -> (b: bool)
    ensures
        b == is_space(c),
{
    c == ' ' || c == '\t' || c == '\n' || c == '\r' || c == '\u{b}' || c == '\u{c}'
}

fn ref_char_ok(c: char) -> (b: bool)
    ensures
        b == valid_ref_char(c),
{
    let u = c as u32;
    (65 <= u && u <= 90) || (97 <= u && u <= 122) || (48 <= u && u <= 57) || c == '.' || c == '/'
        || c == ':' || c == '@' || c == '_' || c == '-'
}

/// The pre-parse validator: accepts exactly the non-empty strings made of
/// letters, digits and `. / : @ _ -`.
pub fn valid_ref(s: &str) -> (b: bool)
    ensures
        b == spec_valid_ref(s@),
{
    let len = s.unicode_len();
    if len == 0 {
        return false;
    }
    let mut i: usize = 0;
    while i < len
        invariant
            len == s@.len(),
            i <= len,
            forall|k: int| 0 <= k < i ==> valid_ref_char(s@[k]),
        decreases len - i,
    {
        if !ref_char_ok(s.get_char(i)) {
            return false;
        }
        i += 1;
    }
    true
}

/// Character-for-character string equality.
pub fn str_eq(a: &str, b: &str) -> (r: bool)
    ensures
        r == (a@ == b@),
{
    let alen = a.unicode_len();
    let blen = b.unicode_len();
    if alen != blen {
        return false;
    }
    let mut i: usize = 0;
    while i < alen
        invariant
            alen == a@.len(),
            alen == b@.len(),
            i <= alen,
            forall|k: int| 0 <= k < i ==> a@[k] == b@[k],
        decreases alen - i,
    {
        if a.get_char(i) != b.get_char(i) {
            return false;
        }
        i += 1;
    }
    proof {
        assert(a@ =~= b@);
    }
    true
}

fn contains_char(s: &str, c: char, slen: usize) -> (b: bool)
    requires
        slen == s@.len(),
    ensures
        b == seq_contains_char(s@, c),
{
    let mut i: usize = 0;
    while i < slen
        invariant
            slen == s@.len(),
            i <= slen,
            forall|k: int| 0 <= k < i ==> s@[k] != c,
        decreases slen - i,
    {
        if s.get_char(i) == c {
            return true;
        }
        i += 1;
    }
    false
}

fn find_char_in(s: &str, c: char, slen: usize) -> (r: Option<usize>)
    requires
        slen == s@.len(),
    ensures
        match r {
            Some(i) => find_char_from(s@, c, 0) == Some(i as int) && i < slen && s@[i as int]
                == c,
            None => find_char_from(s@, c, 0) is None,
        },
{
    let mut i: usize = 0;
    while i < slen
        invariant
            slen == s@.len(),
            i <= slen,
            find_char_from(s@, c, 0) == find_char_from(s@, c, i as int),
        decreases slen - i,
    {
        if s.get_char(i) == c {
            return Some(i);
        }
        i += 1;
    }
    None
}

fn rfind_char_in(s: &str, c: char, slen: usize) -> (r: Option<usize>)
    requires
        slen == s@.len(),
    ensures
        match r {
            Some(i) => rfind_char(s@, c) == Some(i as int) && i < slen && s@[i as int] == c,
            None => rfind_char(s@, c) is None,
        },
{
    let mut b: usize = slen;
    while b > 0
        invariant
            b <= slen,
            slen == s@.len(),
            rfind_char(s@, c) == rfind_char_before(s@, c, b as int),
        decreases b,
    {
        if s.get_char(b - 1) == c {
            return Some(b - 1);
        }
        b -= 1;
    }
    None
}

fn match_at(s: &str, pat: &str, i: usize, slen: usize, plen: usize) -> (b: bool)
    requires
        slen == s@.len(),
        plen == pat@.len(),
        i + plen <= slen,
    ensures
        b == (s@.subrange(i as int, i as int + plen as int) == pat@),
{
    let mut j: usize = 0;
    while j < plen
        invariant
            slen == s@.len(),
            plen == pat@.len(),
            i + plen <= slen,
            j <= plen,
            forall|k: int| 0 <= k < j ==> s@[i + k] == pat@[k],
        decreases plen - j,
    {
        if s.get_char(i + j) != pat.get_char(j) {
            proof {
                assert(s@.subrange(i as int, i as int + plen as int)[j as int] == s@[i + j]);
            }
            return false;
        }
        j += 1;
    }
    proof {
        assert(s@.subrange(i as int, i as int + plen as int) =~= pat@);
    }
    true
}

/// First occurrence of `pat` within `s`.
pub fn find_pattern(s: &str, pat: &str) -> (r: Option<usize>)
    ensures
        match r {
            Some(i) => find_sub(s@, pat@, 0) == Some(i as int),
            None => find_sub(s@, pat@, 0) is None,
        },
{
    let slen = s.unicode_len();
    let plen = pat.unicode_len();
    if plen > slen {
        return None;
    }
    if plen == 0 {
        proof {
            assert(s@.subrange(0, 0) =~= pat@);
        }
        return Some(0);
    }
    let mut i: usize = 0;
    while i <= slen - plen
        invariant
            1 <= plen <= slen,
            slen == s@.len(),
            plen == pat@.len(),
            i <= slen - plen + 1,
            find_sub(s@, pat@, 0) == find_sub(s@, pat@, i as int),
        decreases slen - plen + 1 - i,
    {
        if match_at(s, pat, i, slen, plen) {
            return Some(i);
        }
        i += 1;
    }
    None
}

/// Whether `pat` occurs within `s`.
pub fn contains_pattern(s: &str, pat: &str) -> (b: bool)
    ensures
        b == contains_seq(s@, pat@),
{
    match find_pattern(s, pat) {
        Some(i) => {
            proof {
                lemma_find_sub_some(s@, pat@, 0);
            }
            true
        },
        None => {
            proof {
                lemma_find_sub_none(s@, pat@, 0);
            }
            false
        },
    }
}

// ---------------------------------------------------------------------------
// Executable trimming
// ---------------------------------------------------------------------------

/// `s` with leading and trailing whitespace removed.
pub fn trim_str<'a>(s: &'a str) -> (r: &'a str)
    ensures
        r@ == spec_trim(s@),
{
    let len = s.unicode_len();
    let mut a: usize = 0;
    while a < len && is_space_char(s.get_char(a))
        invariant
            len == s@.len(),
            a <= len,
            first_non_space(s@, 0) == first_non_space(s@, a as int),
        decreases len - a,
    {
        a += 1;
    }
    if a == len {
        proof {
            reveal_strlit("");
            assert(""@ =~= Seq::<char>::empty());
        }
        return "";
    }
    let mut b: usize = len;
    while b > a + 1 && is_space_char(s.get_char(b - 1))
        invariant
            len == s@.len(),
            a < len,
            !is_space(s@[a as int]),
            a + 1 <= b <= len,
            last_non_space_end(s@, len as int) == last_non_space_end(s@, b as int),
        decreases b,
    {
        b -= 1;
    }
    s.substring_char(a, b)
}

/// Whether `s` is empty or whitespace alone.
pub fn is_blank(s: &str) -> (b: bool)
    ensures
        b == spec_blank(s@),
{
    let t = trim_str(s);
    t.unicode_len() == 0
}

// ---------------------------------------------------------------------------
// Executable reference decomposition
// ---------------------------------------------------------------------------

fn strip_transport<'a>(s: &'a str) -> (r: &'a str)
    ensures
        r@ == spec_after_transport(s@),
{
    let len = s.unicode_len();
    match find_pattern(s, "://") {
        Some(i) => {
            proof {
                lemma_find_sub_some(s@, "://"@, 0);
                reveal_strlit("://");
            }
            s.substring_char(i + 3, len)
        },
        None => s,
    }
}

fn repo_name(p: &str) -> (r: String)
    ensures
        r@ == spec_repo_name(p@),
{
    let plen = p.unicode_len();
    let seg: &str = match rfind_char_in(p, '/', plen) {
        Some(i) => p.substring_char(i + 1, plen),
        None => p,
    };
    if seg.unicode_len() == 0 {
        String::from_str("image")
    } else {
        String::from_str(seg)
    }
}

/// Parse a reference into its repository name and tag. Total: defined for
/// every string, with `latest` as the default tag and a placeholder
/// repository name when the path ends in `/`.
pub fn parse_repo_tag(reference: &str) -> (r: (String, String))
    ensures
        r.0@ == spec_repo_tag(reference@).0,
        r.1@ == spec_repo_tag(reference@).1,
{
    let t = strip_transport(reference);
    let tlen = t.unicode_len();
    let after: &str = match find_char_in(t, '/', tlen) {
        Some(i) => t.substring_char(i + 1, tlen),
        None => t,
    };
    let alen = after.unicode_len();
    match find_char_in(after, '@', alen) {
        Some(i) => {
            let name = after.substring_char(0, i);
            (repo_name(name), String::from_str("latest"))
        },
        None => match rfind_char_in(after, ':', alen) {
            Some(i) => {
                let name = after.substring_char(0, i);
                let tag = after.substring_char(i + 1, alen);
                let tag_s = if tag.unicode_len() == 0 {
                    String::from_str("latest")
                } else {
                    String::from_str(tag)
                };
                (repo_name(name), tag_s)
            },
            None => (repo_name(after), String::from_str("latest")),
        },
    }
}

/// Extract the registry host of a reference, defaulting to the canonical
/// public-registry marker `docker.io` when the leading segment names no host.
pub fn extract_registry(reference: &str) -> (r: String)
    ensures
        r@ == spec_registry_host(reference@),
{
    let t = strip_transport(reference);
    let tlen = t.unicode_len();
    let first: &str = match find_char_in(t, '/', tlen) {
        Some(i) => t.substring_char(0, i),
        None => t,
    };
    let f = trim_str(first);
    let flen = f.unicode_len();
    if contains_char(f, '.', flen) || contains_char(f, ':', flen) || str_eq(f, "localhost") {
        String::from_str(f)
    } else {
        String::from_str("docker.io")
    }
}

} // verus!
