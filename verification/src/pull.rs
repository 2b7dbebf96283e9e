//! Decisions of the blocking pull path: request validation, format
//! resolution, the destination spec handed to the external copy tool, and the
//! mapping of tool failures onto the error taxonomy.

use vstd::prelude::*;
use vstd::string::*;
use crate::artifact::{make_filename, spec_make_filename, default_format};
use crate::classify::{classify_failure, spec_classify, FailureCategory};
use crate::reference::{parse_repo_tag, spec_repo_tag, spec_valid_ref, str_eq, valid_ref};

verus! {

/// A pull request: the raw reference, the requested archive format, and the
/// optional registry credentials.
pub struct PullRequest {
    pub reference: String,
    pub format: String,
    pub username: Option<String>,
    pub password: Option<String>,
}

/// The error taxonomy of a pull, as surfaced to the caller.
#[derive(Debug)]
pub enum PullError {
    /// Malformed or empty reference, rejected before any other work.
    InvalidInput,
    /// The external copy tool's executable is absent.
    ToolMissing,
    /// The bounded wall-clock wait elapsed.
    Timeout,
    /// The tool reported that the image does not exist.
    NotFound,
    /// The registry denied access.
    Forbidden,
    /// Any other tool failure, carrying its diagnostic text.
    Upstream(String),
    /// A filesystem failure, carrying its message.
    Io(String),
}

/// The requested format when recognized, else the default archive format.
pub open spec fn spec_resolve_format(f: Seq<char>) -> Seq<char> {
    if f == "docker-archive"@ || f == "oci-archive"@ {
        f
    } else {
        "docker-archive"@
    }
}

/// Resolve a requested format: unrecognized values silently fall back to the
/// default rather than erroring.
pub fn resolve_format(format: &str) -> (r: String)
    ensures
        r@ == spec_resolve_format(format@),
{
    if str_eq(format, "docker-archive") || str_eq(format, "oci-archive") {
        String::from_str(format)
    } else {
        default_format()
    }
}

/// What a validated request resolves to before the tool is invoked.
pub struct PullPlan {
    pub fmt: String,
    pub repo: String,
    pub tag: String,
    pub filename: String,
}

/// Validate a pull request and resolve its format, repository, tag and
/// download filename. Rejects exactly the references that fail the
/// character-class validator, before any subprocess or filesystem work.
pub fn prepare_pull(reference: &str, format: &str) -> (r: Result<PullPlan, PullError>)
    ensures
        match r {
            Ok(p) => spec_valid_ref(reference@) && p.fmt@ == spec_resolve_format(format@)
                && p.repo@ == spec_repo_tag(reference@).0 && p.tag@ == spec_repo_tag(
                reference@,
            ).1 && p.filename@ == spec_make_filename(
                spec_repo_tag(reference@).0,
                spec_repo_tag(reference@).1,
                spec_resolve_format(format@),
            ),
            Err(e) => !spec_valid_ref(reference@) && e is InvalidInput,
        },
{
    if !valid_ref(reference) {
        return Err(PullError::InvalidInput);
    }
    let fmt = resolve_format(format);
    let (repo, tag) = parse_repo_tag(reference);
    let filename = make_filename(repo.as_str(), tag.as_str(), fmt.as_str());
    Ok(PullPlan { fmt, repo, tag, filename })
}

/// The colon-delimited destination spec understood by the external copy
/// tool: `{fmt}:{path}:{repo}:{tag}`.
pub fn destination_spec(fmt: &str, path: &str, repo: &str, tag: &str) -> (r: String)
    ensures
        r@ == fmt@ + ":"@ + path@ + ":"@ + repo@ + ":"@ + tag@,
{
    let s = String::from_str(fmt);
    let s = s.concat(":");
    let s = s.concat(path);
    let s = s.concat(":");
    let s = s.concat(repo);
    let s = s.concat(":");
    s.concat(tag)
}

/// The source argument handed to the external tool: the reference behind the
/// registry transport scheme.
pub fn source_reference(reference: &str) -> (r: String)
    ensures
        r@ == "docker://"@ + reference@,
{
    let s = String::from_str("docker://");
    s.concat(reference)
}

/// Map a failing tool invocation's stderr text onto the error taxonomy:
/// not-found and forbidden diagnostics get their own categories, anything
/// else is an upstream error carrying the raw text.
pub fn error_for_failure(stderr: &str) -> (e: PullError)
    ensures
        spec_classify(stderr@) == FailureCategory::NotFound ==> e is NotFound,
        spec_classify(stderr@) == FailureCategory::Forbidden ==> e is Forbidden,
        spec_classify(stderr@) == FailureCategory::Upstream ==> (e matches PullError::Upstream(m)
            && m@ == stderr@),
{
    match classify_failure(stderr) {
        FailureCategory::NotFound => PullError::NotFound,
        FailureCategory::Forbidden => PullError::Forbidden,
        FailureCategory::Upstream => PullError::Upstream(String::from_str(stderr)),
    }
}

/// Map a spawn failure onto the taxonomy: an absent executable is surfaced
/// distinctly from any other spawn error.
pub fn error_for_spawn(executable_missing: bool, msg: &str) -> (e: PullError)
    ensures
        executable_missing ==> e is ToolMissing,
        !executable_missing ==> (e matches PullError::Upstream(m) && m@ == msg@),
{
    if executable_missing {
        PullError::ToolMissing
    } else {
        PullError::Upstream(String::from_str(msg))
    }
}

} // verus!
