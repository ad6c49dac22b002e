//! Decisions behind the remote CI merge-context resolver.
//!
//! The resolver queries a code-hosting API for recently merged change
//! requests, matches one by merge-commit SHA, and materializes the
//! merge commit by cloning and fetching a special ref.  The HTTP call,
//! the environment reads and the Git invocations are the caller's; this
//! module holds the decisions between them: which token authenticates,
//! what endpoint is queried, how the clone URL carries the credentials,
//! which change request matches, and what Git is asked to do.

use vstd::prelude::*;
use vstd::string::StringExecFns;
use crate::decimal::{dec_digits, u64_to_dec_string};
use crate::installer::GitAiError;
use crate::text::{starts_with_seq, starts_with_str, str_eq, trim_prefix_seq, trim_prefix_str};

verus! {

/// A merged change request, as reported by the API.
pub struct GitLabMergeRequest {
    pub iid: u64,
    pub source_branch: String,
    pub target_branch: String,
    pub sha: String,
    pub merge_commit_sha: Option<String>,
}

/// Whether the change request's merge commit is the given one.
pub open spec fn mr_matches(mr: GitLabMergeRequest, sha: Seq<char>) -> bool {
    mr.merge_commit_sha matches Some(s) && s@ == sha
}

/// The first change request whose merge commit is the given one.
pub open spec fn first_matching_mr(mrs: Seq<GitLabMergeRequest>, sha: Seq<char>) -> Option<
    GitLabMergeRequest,
>
    decreases mrs.len(),
{
    if mrs.len() == 0 {
        None
    } else if mr_matches(mrs[0], sha) {
        Some(mrs[0])
    } else {
        first_matching_mr(mrs.drop_first(), sha)
    }
}

proof fn lemma_first_matching_found(mrs: Seq<GitLabMergeRequest>, sha: Seq<char>, i: int)
    requires
        0 <= i < mrs.len(),
        mr_matches(mrs[i], sha),
        forall|j: int| 0 <= j < i ==> !mr_matches(mrs[j], sha),
    ensures
        first_matching_mr(mrs, sha) == Some(mrs[i]),
    decreases i,
{
    if i > 0 {
        lemma_first_matching_found(mrs.drop_first(), sha, i - 1);
    }
}

proof fn lemma_first_matching_absent(mrs: Seq<GitLabMergeRequest>, sha: Seq<char>)
    requires
        forall|j: int| 0 <= j < mrs.len() ==> !mr_matches(mrs[j], sha),
    ensures
        first_matching_mr(mrs, sha) is None,
    decreases mrs.len(),
{
    if mrs.len() > 0 {
        lemma_first_matching_absent(mrs.drop_first(), sha);
    }
}

/// The change request whose merge commit SHA is the current commit, if
/// the API reported one; `None` is the ordinary no-match outcome, not
/// an error.
pub fn find_matching_merge_request(mrs: Vec<GitLabMergeRequest>, commit_sha: &str) -> (r: Option<
    GitLabMergeRequest,
>)
    ensures
        r == first_matching_mr(mrs@, commit_sha@),
{
    let mut i: usize = 0;
    let n = mrs.len();
    let mut rest = mrs;
    while i < n
        invariant
            i <= n,
            n == rest@.len(),
            rest@ == mrs@,
            forall|j: int| 0 <= j < i ==> !mr_matches(rest@[j], commit_sha@),
        decreases n - i,
    {
        let hit = match &rest[i].merge_commit_sha {
            Some(s) => str_eq(s.as_str(), commit_sha),
            None => false,
        };
        if hit {
            proof {
                lemma_first_matching_found(rest@, commit_sha@, i as int);
            }
            return Some(rest.remove(i));
        }
        i = i + 1;
    }
    proof {
        lemma_first_matching_absent(rest@, commit_sha@);
    }
    None
}

/// The authentication header and token: a job token is preferred over
/// a personal token; with neither, the operation fails.
pub fn select_auth_token(job_token: Option<String>, gitlab_token: Option<String>) -> (r: Result<
    (String, String),
    GitAiError,
>)
    ensures
        job_token matches Some(t) ==> (r matches Ok(p) && p.0@ == "JOB-TOKEN"@ && p.1@ == t@),
        job_token is None ==> (gitlab_token matches Some(t) ==> (r matches Ok(p) && p.0@
            == "PRIVATE-TOKEN"@ && p.1@ == t@)),
        (job_token is None && gitlab_token is None) ==> (r matches Err(e) && e matches
            GitAiError::Generic(m) && m@
            == "Neither CI_JOB_TOKEN nor GITLAB_TOKEN environment variable is set"@),
{
    match job_token {
        Some(t) => Ok((String::from_str("JOB-TOKEN"), t)),
        None => match gitlab_token {
            Some(t) => Ok((String::from_str("PRIVATE-TOKEN"), t)),
            None => Err(
                GitAiError::Generic(
                    String::from_str(
                        "Neither CI_JOB_TOKEN nor GITLAB_TOKEN environment variable is set",
                    ),
                ),
            ),
        },
    }
}

/// The endpoint that lists merged change requests updated after the
/// cutoff, newest first.
pub open spec fn merge_requests_endpoint_spec(
    api_url: Seq<char>,
    project_id: Seq<char>,
    cutoff: Seq<char>,
) -> Seq<char> {
    api_url + "/projects/"@ + project_id
        + "/merge_requests?state=merged&updated_after="@ + cutoff
        + "&order_by=updated_at&sort=desc&per_page=100"@
}

/// The endpoint that lists merged change requests updated after the
/// cutoff.
pub fn merge_requests_endpoint(api_url: &str, project_id: &str, cutoff: &str) -> (r: String)
    ensures
        r@ == merge_requests_endpoint_spec(api_url@, project_id@, cutoff@),
{
    let mut s = api_url.to_owned();
    s.append("/projects/");
    s.append(project_id);
    s.append("/merge_requests?state=merged&updated_after=");
    s.append(cutoff);
    s.append("&order_by=updated_at&sort=desc&per_page=100");
    s
}

/// Relies on chrono's `Utc::now`, `TimeDelta::minutes` and
/// `DateTime::format`: the UTC time the given number of minutes ago,
/// rendered as `%Y-%m-%dT%H:%M:%SZ` text.  `TimeDelta::minutes` and the
/// subtraction panic far outside chrono's representable range, so the
/// bound keeps those inputs out.  The result depends on the clock; of
/// every outcome only the format's fixed characters are promised: the
/// two-digit clock fields and the literal `T` and `Z` make the last ten
/// characters `THH:MM:SSZ`, after a date part of at least ten.
#[verifier::external_body]
fn utc_timestamp_minutes_ago(minutes: i64) -> (r: String)
    requires
        0 <= minutes <= 1000000,
    ensures
        r@.len() >= 20,
        r@[r@.len() - 10] == 'T',
        r@[r@.len() - 1] == 'Z',
{
    (chrono::Utc::now() - chrono::Duration::minutes(minutes)).format("%Y-%m-%dT%H:%M:%SZ")
        .to_string()
}

/// The query for change requests merged in the recent window (a
/// fifteen-minute cutoff, with safety buffer).  The cutoff comes from
/// the clock; it is returned beside the endpoint it was embedded in,
/// and carries the timestamp format's fixed shape.
pub fn recent_merged_requests_query(api_url: &str, project_id: &str) -> (r: (String, String))
    ensures
        r.1@ == merge_requests_endpoint_spec(api_url@, project_id@, r.0@),
        r.0@.len() >= 20,
        r.0@[r.0@.len() - 10] == 'T',
        r.0@[r.0@.len() - 1] == 'Z',
{
    let cutoff = utc_timestamp_minutes_ago(15);
    let endpoint = merge_requests_endpoint(api_url, project_id, cutoff.as_str());
    (cutoff, endpoint)
}

/// The error reporting a required environment variable that is not set.
pub fn missing_env_error(name: &str) -> (r: GitAiError)
    ensures
        r matches GitAiError::Generic(m) && m@ == name@ + " environment variable not set"@,
{
    let mut s = name.to_owned();
    s.append(" environment variable not set");
    GitAiError::Generic(s)
}

/// The scheme the server URL speaks.
pub open spec fn scheme_of(server_url: Seq<char>) -> Seq<char> {
    if starts_with_seq(server_url, "https"@) {
        "https"@
    } else {
        "http"@
    }
}

/// The server URL with its scheme prefix removed.
pub open spec fn host_of(server_url: Seq<char>) -> Seq<char> {
    trim_prefix_seq(trim_prefix_seq(server_url, "https://"@), "http://"@)
}

/// A clone URL carrying credentials in its authority part.
pub open spec fn credentialed_clone_url_spec(
    server_url: Seq<char>,
    project_path: Seq<char>,
    user: Seq<char>,
    token: Seq<char>,
) -> Seq<char> {
    scheme_of(server_url) + "://"@ + user + ":"@ + token + "@"@ + host_of(server_url) + "/"@
        + project_path + ".git"@
}

fn build_credentialed_url(server_url: &str, project_path: &str, user: &str, token: &str) -> (r:
    String)
    ensures
        r@ == credentialed_clone_url_spec(server_url@, project_path@, user@, token@),
{
    let scheme = if starts_with_str(server_url, "https") {
        "https"
    } else {
        "http"
    };
    let h1 = trim_prefix_str(server_url, "https://");
    let host = trim_prefix_str(h1.as_str(), "http://");
    let mut s = scheme.to_owned();
    s.append("://");
    s.append(user);
    s.append(":");
    s.append(token);
    s.append("@");
    s.append(host.as_str());
    s.append("/");
    s.append(project_path);
    s.append(".git");
    s
}

/// The URL to clone the project from: authenticated as the CI job where
/// a job token exists, as a personal token holder otherwise, and plain
/// where no token is at hand.
pub fn authenticated_clone_url(
    server_url: &str,
    project_path: &str,
    job_token: Option<&str>,
    gitlab_token: Option<&str>,
) -> (r: String)
    ensures
        job_token matches Some(t) ==> r@ == credentialed_clone_url_spec(
            server_url@,
            project_path@,
            "gitlab-ci-token"@,
            t@,
        ),
        job_token is None ==> (gitlab_token matches Some(t) ==> r@ == credentialed_clone_url_spec(
            server_url@,
            project_path@,
            "oauth2"@,
            t@,
        )),
        (job_token is None && gitlab_token is None) ==> r@ == server_url@ + "/"@ + project_path@
            + ".git"@,
{
    match job_token {
        Some(t) => build_credentialed_url(server_url, project_path, "gitlab-ci-token", t),
        None => match gitlab_token {
            Some(t) => build_credentialed_url(server_url, project_path, "oauth2", t),
            None => {
                let mut s = server_url.to_owned();
                s.append("/");
                s.append(project_path);
                s.append(".git");
                s
            },
        },
    }
}

/// The ref that keeps a merged change request's commits reachable, and
/// the local ref it is fetched into.
pub open spec fn mr_fetch_refspec_spec(iid: u64) -> Seq<char> {
    "refs/merge-requests/"@ + dec_digits(iid as nat) + "/head:refs/gitlab/mr/"@ + dec_digits(
        iid as nat,
    )
}

/// The refspec fetching the change request's head into a local ref.
pub fn mr_fetch_refspec(iid: u64) -> (r: String)
    ensures
        r@ == mr_fetch_refspec_spec(iid),
{
    let num = u64_to_dec_string(iid);
    let mut s = String::from_str("refs/merge-requests/");
    s.append(num.as_str());
    s.append("/head:refs/gitlab/mr/");
    s.append(num.as_str());
    s
}

/// The argument list that clones the change request's target branch.
pub fn git_clone_args(authenticated_url: &str, target_branch: &str, clone_dir: &str) -> (r: Vec<
    String,
>)
    ensures
        r@.len() == 5,
        r@[0]@ == "clone"@,
        r@[1]@ == "--branch"@,
        r@[2]@ == target_branch@,
        r@[3]@ == authenticated_url@,
        r@[4]@ == clone_dir@,
{
    let mut v: Vec<String> = Vec::new();
    v.push(String::from_str("clone"));
    v.push(String::from_str("--branch"));
    v.push(target_branch.to_owned());
    v.push(authenticated_url.to_owned());
    v.push(clone_dir.to_owned());
    v
}

/// The argument list that fetches the change request's special ref
/// inside the fresh clone.
pub fn git_fetch_args(clone_dir: &str, authenticated_url: &str, iid: u64) -> (r: Vec<String>)
    ensures
        r@.len() == 5,
        r@[0]@ == "-C"@,
        r@[1]@ == clone_dir@,
        r@[2]@ == "fetch"@,
        r@[3]@ == authenticated_url@,
        r@[4]@ == mr_fetch_refspec_spec(iid),
{
    let mut v: Vec<String> = Vec::new();
    v.push(String::from_str("-C"));
    v.push(clone_dir.to_owned());
    v.push(String::from_str("fetch"));
    v.push(authenticated_url.to_owned());
    v.push(mr_fetch_refspec(iid));
    v
}

} // verus!
