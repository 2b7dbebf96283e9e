//! Naming, addressing and lifecycle rules of the temporary archive artifacts
//! a pull produces: identifier validation for retrieval, the fixed filename
//! patterns, and the idempotence of artifact deletion.

use vstd::prelude::*;
use vstd::string::*;
use crate::reference::{contains_seq, find_pattern, lemma_find_sub_none, seq_contains_char};

verus! {

/// The archive format used when a request names no recognized format.
pub fn default_format() -> (r: String)
    ensures
        r@ == "docker-archive"@,
{
    String::from_str("docker-archive")
}

/// The download filename synthesized for a finished pull.
pub open spec fn spec_make_filename(repo: Seq<char>, tag: Seq<char>, fmt: Seq<char>) -> Seq<
    char,
> {
    repo + "-"@ + tag + "-"@ + fmt + ".tar"@
}

/// The download filename synthesized for a finished pull:
/// `{repo}-{tag}-{fmt}.tar`.
pub fn make_filename(repo: &str, tag: &str, fmt: &str) -> (r: String)
    ensures
        r@ == spec_make_filename(repo@, tag@, fmt@),
{
    let s = String::from_str(repo);
    let s = s.concat("-");
    let s = s.concat(tag);
    let s = s.concat("-");
    let s = s.concat(fmt);
    s.concat(".tar")
}

/// The fixed-pattern name of the archive for an identifier.
pub open spec fn spec_temp_tar_name(id: Seq<char>) -> Seq<char> {
    "pull-"@ + id + ".tar"@
}

/// The archive filename for an identifier: `pull-{id}.tar`.
pub fn temp_tar_name(id: &str) -> (r: String)
    ensures
        r@ == spec_temp_tar_name(id@),
{
    let s = String::from_str("pull-");
    let s = s.concat(id);
    s.concat(".tar")
}

/// An identifier may address an artifact only if it holds no path separator
/// and no parent-directory token.
pub open spec fn spec_valid_artifact_id(id: Seq<char>) -> bool {
    !seq_contains_char(id, '/') && !contains_seq(id, ".."@)
}

/// Retrieval gate: accepts an identifier only when it holds no `/` and no
/// `..`; a rejected identifier must never reach the filesystem.
pub fn valid_artifact_id(id: &str) -> (b: bool)
    ensures
        b == spec_valid_artifact_id(id@),
{
    let len = id.unicode_len();
    let mut i: usize = 0;
    while i < len
        invariant
            len == id@.len(),
            i <= len,
            forall|k: int| 0 <= k < i ==> id@[k] != '/',
        decreases len - i,
    {
        if id.get_char(i) == '/' {
            return false;
        }
        i += 1;
    }
    match find_pattern(id, "..") {
        Some(_) => {
            proof {
                crate::reference::lemma_find_sub_some(id@, ".."@, 0);
            }
            false
        },
        None => {
            proof {
                lemma_find_sub_none(id@, ".."@, 0);
            }
            true
        },
    }
}

/// The character class of a generated artifact identifier: lowercase hex
/// digits and hyphens.
pub open spec fn uuid_char(c: char) -> bool {
    let u = c as u32;
    (48 <= u && u <= 57) || (97 <= u && u <= 102) || c == '-'
}

/// Relies on uuid's `Uuid::new_v4` and its `Display` impl: the hyphenated
/// form, 36 lowercase hex digits and hyphens. Nothing is assumed about which
/// identifier comes back, only its shape.
#[verifier::external_body]
pub fn fresh_artifact_id() -> (r: String)
    ensures
        r@.len() == 36,
        forall|i: int| 0 <= i < r@.len() ==> uuid_char(r@[i]),
{
    uuid::Uuid::new_v4().to_string()
}

/// Any identifier drawn from the generated character class is accepted by
/// retrieval: it can hold neither a path separator nor a parent-directory
/// token.
pub proof fn lemma_uuid_chars_valid_id(s: Seq<char>)
    requires
        forall|i: int| 0 <= i < s.len() ==> uuid_char(s[i]),
    ensures
        spec_valid_artifact_id(s),
{
    reveal_strlit("..");
    assert forall|i: int| !crate::reference::contains_at(s, ".."@, i) by {
        if crate::reference::contains_at(s, ".."@, i) {
            assert(s.subrange(i, i + 2)[0] == s[i]);
            assert(s[i] == '.');
            assert(uuid_char(s[i]));
        }
    }
}

/// An identifier holding a path separator or a parent-directory token is
/// always rejected by retrieval.
pub proof fn lemma_traversal_rejected(id: Seq<char>)
    requires
        seq_contains_char(id, '/') || contains_seq(id, ".."@),
    ensures
        !spec_valid_artifact_id(id),
{
}

/// Deleting an artifact path is idempotent over the set of paths present:
/// deleting it twice leaves the same state as deleting it once, and the
/// deletion of an already-absent path is defined all the same — repeated
/// deletion of one artifact path is always meaningful and never fails.
pub proof fn lemma_delete_idempotent(present: Set<Seq<char>>, path: Seq<char>)
    ensures
        present.remove(path).remove(path) == present.remove(path),
        !present.remove(path).contains(path),
{
    assert(present.remove(path).remove(path) =~= present.remove(path));
}

} // verus!
