//! Construction of the transient registry-credential file handed to the
//! external copy tool: a JSON structure mapping the registry host to a
//! base64 `user:pass` auth blob, with a legacy alias entry for the canonical
//! public registry.

use vstd::prelude::*;
use vstd::string::*;
use crate::reference::{
    contains_at, contains_seq, spec_blank, spec_registry_host, spec_trim, extract_registry,
    is_blank, str_eq, trim_str,
};

verus! {

/// The standard base64 encoding of the UTF-8 bytes of a string: a pure
/// function of its characters, named rather than spelled out.
pub uninterp spec fn base64_of(s: Seq<char>) -> Seq<char>;

/// Relies on base64's `STANDARD` engine (`Engine::encode`): the encoding is a
/// pure function of the input bytes, here the UTF-8 bytes of `s`.
#[verifier::external_body]
fn encode_base64(s: &String) -> (r: String)
    ensures
        r@ == base64_of(s@),
{
    base64::Engine::encode(&base64::engine::general_purpose::STANDARD, s.as_bytes())
}

/// Both credentials were supplied and neither is blank or whitespace-only.
pub open spec fn spec_creds_present(u: Option<Seq<char>>, p: Option<Seq<char>>) -> bool {
    &&& u is Some && !spec_blank(u->0)
    &&& p is Some && !spec_blank(p->0)
}

/// The auth blob: base64 of `user:pass`, both trimmed.
pub open spec fn spec_auth_blob(u: Seq<char>, p: Seq<char>) -> Seq<char> {
    base64_of(spec_trim(u) + ":"@ + spec_trim(p))
}

/// One `"host":{"auth":"blob"}` entry of the credential file.
pub open spec fn spec_auth_entry(host: Seq<char>, blob: Seq<char>) -> Seq<char> {
    "\""@ + host + "\":{\"auth\":\""@ + blob + "\"}"@
}

/// The full credential-file text for a registry and auth blob. For the
/// canonical public registry the structure carries a second, legacy alias
/// key bound to the same blob.
pub open spec fn spec_authfile_content(registry: Seq<char>, blob: Seq<char>) -> Seq<char> {
    if registry == "docker.io"@ {
        "{\"auths\":{"@ + spec_auth_entry(registry, blob) + ","@ + spec_auth_entry(
            "https://index.docker.io/v1/"@,
            blob,
        ) + "}}"@
    } else {
        "{\"auths\":{"@ + spec_auth_entry(registry, blob) + "}}"@
    }
}

fn auth_entry(host: &str, blob: &str) -> (r: String)
    ensures
        r@ == spec_auth_entry(host@, blob@),
{
    let s = String::from_str("\"");
    let s = s.concat(host);
    let s = s.concat("\":{\"auth\":\"");
    let s = s.concat(blob);
    s.concat("\"}")
}

/// Build the credential-file content for a pull, or decide that the tool is
/// to run unauthenticated: a missing, blank or whitespace-only username or
/// password yields no credentials, which is not an error.
pub fn authfile_content(reference: &str, username: Option<&str>, password: Option<&str>) -> (r:
    Option<String>)
    ensures
        r is Some <==> spec_creds_present(username.deep_view(), password.deep_view()),
        r matches Some(c) ==> c@ == spec_authfile_content(
            spec_registry_host(reference@),
            spec_auth_blob(username.deep_view()->0, password.deep_view()->0),
        ),
{
    let u = match username {
        Some(u) => u,
        None => {
            return None;
        },
    };
    let p = match password {
        Some(p) => p,
        None => {
            return None;
        },
    };
    if is_blank(u) {
        return None;
    }
    if is_blank(p) {
        return None;
    }
    let registry = extract_registry(reference);
    let user_pass = String::from_str(trim_str(u)).concat(":").concat(trim_str(p));
    let blob = encode_base64(&user_pass);
    let is_public = str_eq(registry.as_str(), "docker.io");
    let entry_main = auth_entry(registry.as_str(), blob.as_str());
    let mut content = String::from_str("{\"auths\":{");
    content.append(entry_main.as_str());
    if is_public {
        content.append(",");
        let alias = auth_entry("https://index.docker.io/v1/", blob.as_str());
        content.append(alias.as_str());
    }
    content.append("}}");
    Some(content)
}

/// The credential file for the canonical public registry always carries both
/// the host key and the legacy alias key, each bound to the same auth blob.
pub proof fn lemma_public_registry_aliases(blob: Seq<char>)
    ensures
        contains_seq(
            spec_authfile_content("docker.io"@, blob),
            spec_auth_entry("docker.io"@, blob),
        ),
        contains_seq(
            spec_authfile_content("docker.io"@, blob),
            spec_auth_entry("https://index.docker.io/v1/"@, blob),
        ),
{
    let pre = "{\"auths\":{"@;
    let e1 = spec_auth_entry("docker.io"@, blob);
    let e2 = spec_auth_entry("https://index.docker.io/v1/"@, blob);
    let content = spec_authfile_content("docker.io"@, blob);
    reveal_strlit(",");
    let off1 = pre.len() as int;
    assert(content.subrange(off1, off1 + e1.len() as int) =~= e1);
    assert(contains_at(content, e1, off1));
    let off2 = off1 + e1.len() as int + 1;
    assert(content.subrange(off2, off2 + e2.len() as int) =~= e2);
    assert(contains_at(content, e2, off2));
}

} // verus!
