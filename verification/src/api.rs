//! The two calls to the hosting service's REST API: whether a token
//! authenticates, and which repositories its user can reach.

use vstd::prelude::*;
use vstd::string::*;
use crate::text::{blank, is_blank};

verus! {

/// A GET request to the API with a bearer token.
pub struct ApiRequest {
    pub url: String,
    pub authorization: String,
    pub user_agent: String,
    pub accept: String,
}

pub struct ApiRequestView {
    pub url: Seq<char>,
    pub authorization: Seq<char>,
    pub user_agent: Seq<char>,
    pub accept: Seq<char>,
}

impl View for ApiRequest {
    type V = ApiRequestView;

    open spec fn view(&self) -> ApiRequestView {
        ApiRequestView {
            url: self.url@,
            authorization: self.authorization@,
            user_agent: self.user_agent@,
            accept: self.accept@,
        }
    }
}

/// The endpoint of the signed-in user.
pub open spec fn user_url() -> Seq<char> {
    "https://api.github.com/user"@
}

/// The endpoint of the user's repositories, owned or shared, most
/// recently pushed first, a hundred at most.
pub open spec fn repos_url() -> Seq<char> {
    "https://api.github.com/user/repos?sort=pushed&per_page=100&affiliation=owner,collaborator"@
}

/// A GET of `url` with the token `pat`.
pub open spec fn request_to(url: Seq<char>, pat: Seq<char>) -> ApiRequestView {
    ApiRequestView {
        url,
        authorization: "Bearer "@ + pat,
        user_agent: "ghostgit"@,
        accept: "application/vnd.github+json"@,
    }
}

fn make_request(url: &str, pat: &str) -> (r: ApiRequest)
    ensures
        r@ == request_to(url@, pat@),
{
    let mut auth = String::from_str("Bearer ");
    auth.append(pat);
    ApiRequest {
        url: String::from_str(url),
        authorization: auth,
        user_agent: String::from_str("ghostgit"),
        accept: String::from_str("application/vnd.github+json"),
    }
}

/// The request that checks a token; none for a blank token, which is
/// simply not valid (no request is sent). A sent request's answer is the
/// check: the token is valid when the status is a success.
pub fn token_check_request(pat: &str) -> (r: Option<ApiRequest>)
    ensures
        is_blank(pat@) ==> r is None,
        !is_blank(pat@) ==> (r matches Some(q) && q@ == request_to(user_url(), pat@)),
{
    if blank(pat) {
        None
    } else {
        Some(make_request("https://api.github.com/user", pat))
    }
}

/// The refusal of a repository listing without a token.
pub open spec fn no_token_text() -> Seq<char> {
    "No PAT provided"@
}

/// The request that lists the user's repositories, or the refusal of a
/// blank token.
pub fn repos_request(pat: &str) -> (r: Result<ApiRequest, String>)
    ensures
        is_blank(pat@) ==> (r matches Err(t) && t@ == no_token_text()),
        !is_blank(pat@) ==> (r matches Ok(q) && q@ == request_to(repos_url(), pat@)),
{
    if blank(pat) {
        Err(String::from_str("No PAT provided"))
    } else {
        Ok(
            make_request(
                "https://api.github.com/user/repos?sort=pushed&per_page=100&affiliation=owner,collaborator",
                pat,
            ),
        )
    }
}

/// The refusal of an unsuccessful answer; `status` is the status line,
/// such as "401 Unauthorized".
pub open spec fn api_error_text(status: Seq<char>) -> Seq<char> {
    "GitHub API error: "@ + status
}

/// Whether the listing's answer may be read: only a success.
pub fn repos_status(success: bool, status: &str) -> (r: Result<(), String>)
    ensures
        success ==> r is Ok,
        !success ==> (r matches Err(t) && t@ == api_error_text(status@)),
{
    if success {
        Ok(())
    } else {
        let mut s = String::from_str("GitHub API error: ");
        s.append(status);
        Err(s)
    }
}

/// The two requests, spelled out: each is a GET with the header
/// "Authorization: Bearer TOKEN", the user agent "ghostgit" and the
/// accept type "application/vnd.github+json"; the token check asks for
/// the signed-in user, the listing for the user's repositories, owned or
/// shared, most recently pushed first, a hundred at most; an unsuccessful
/// answer is reported as "GitHub API error: STATUS".
pub proof fn law_api_requests(pat: Seq<char>, status: Seq<char>)
    ensures
        request_to(user_url(), pat) == (ApiRequestView {
            url: "https://api.github.com/user"@,
            authorization: "Bearer "@ + pat,
            user_agent: "ghostgit"@,
            accept: "application/vnd.github+json"@,
        }),
        request_to(repos_url(), pat) == (ApiRequestView {
            url: "https://api.github.com/user/repos?sort=pushed&per_page=100&affiliation=owner,collaborator"@,
            authorization: "Bearer "@ + pat,
            user_agent: "ghostgit"@,
            accept: "application/vnd.github+json"@,
        }),
        no_token_text() == "No PAT provided"@,
        api_error_text(status) == "GitHub API error: "@ + status,
{
}

} // verus!
