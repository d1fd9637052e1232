//! Laws of URLs: what a text stands for, and where its document comes from.

use vstd::prelude::*;
use vstd::string::*;

use crate::laws::jobs;
use crate::location;
use crate::location::{
    canonical_url, fetch_route, local_path, path_or_failure, upgraded_result, FetchRoute, UrlParts,
};
use crate::options::ResolvedOptions;
use crate::status::Failure;
use crate::text;

verus! {

/// The parts of a URL are those that the parser found in a text.
pub open spec fn parsed_from(u: UrlParts, input: Seq<char>) -> bool {
    location::url_parse(input) matches Ok(p) && u.text@ == p.0 && u.scheme@ == p.1 && (
    u.host is Some <==> p.2 is Some) && (u.host matches Some(h) ==> h@ == p.2->0)
}

/// A text that parses is the URL that it parses to, and only one that does not is read as
/// the host and path of an `https` URL. It is refused where that does not parse either,
/// with the text in quotes and the reason.
pub proof fn law_texts_stand_for_what_they_parse_to(url: &str, r: Result<UrlParts, Failure>)
    requires
        call_ensures(canonical_url, (url,), r),
    ensures
        location::url_parse(url@) is Ok ==> (r matches Ok(u) && parsed_from(u, url@)),
        location::url_parse(url@) is Err && location::url_parse("https://"@ + url@) is Ok ==> (
        r matches Ok(u) && parsed_from(u, "https://"@ + url@)),
        location::url_parse(url@) is Err ==> (location::url_parse("https://"@ + url@) matches Err(e)
            ==> (r matches Err(f) && jobs::says(
            f,
            -3,
            "invalid url "@ + text::debug_quoted(url@) + ": "@ + e,
        ))),
{
}

/// A text without a colon, such as a bare host, is never taken as it stands: it is read as
/// an `https` URL or refused.
pub proof fn law_bare_hosts_become_https(url: &str, r: Result<UrlParts, Failure>)
    requires
        call_ensures(canonical_url, (url,), r),
        !url@.contains(':'),
    ensures
        r matches Ok(u) ==> u.scheme@ == "https"@ && parsed_from(u, "https://"@ + url@),
{
}

/// A second attempt is handed on, or reported with the text that was given.
pub proof fn law_second_attempts_are_handed_on(
    url: &str,
    attempt: Result<UrlParts, String>,
    r: Result<UrlParts, Failure>,
)
    requires
        call_ensures(upgraded_result, (url, attempt), r),
    ensures
        attempt matches Ok(u) ==> r == Ok::<UrlParts, Failure>(u),
        attempt matches Err(e) ==> (r matches Err(f) && jobs::says(
            f,
            -3,
            "invalid url "@ + text::debug_quoted(url@) + ": "@ + e@,
        )),
{
}

/// `file:` is read locally, and everything else is asked for with the user agent and the
/// timeout of the options.
pub proof fn law_only_files_are_local(url: &UrlParts, options: &ResolvedOptions, r: FetchRoute)
    requires
        call_ensures(fetch_route, (url, options), r),
    ensures
        r is File <==> url.scheme@ == "file"@,
        r matches FetchRoute::Http { timeout_ms, user_agent } ==> timeout_ms
            == options.net_timeout_ms && user_agent@ == options.user_agent@,
{
}

/// The path that the system named is the one that is read; without one the URL is bad.
pub proof fn law_paths_are_the_named_ones(
    url: &UrlParts,
    path: Option<std::path::PathBuf>,
    r: Result<std::path::PathBuf, Failure>,
    local: Result<std::path::PathBuf, Failure>,
)
    requires
        call_ensures(path_or_failure, (url, path), r),
        call_ensures(local_path, (url,), local),
    ensures
        path matches Some(p) ==> r == Ok::<std::path::PathBuf, Failure>(p),
        path is None ==> (r matches Err(f) && jobs::says(f, -3, "bad file url: "@ + url.text@)),
        local matches Ok(p) ==> location::may_name(url.text@, Some(p)),
        local matches Err(f) ==> location::may_name(url.text@, None) && jobs::says(
            f,
            -3,
            "bad file url: "@ + url.text@,
        ),
        location::url_parse(url.text@) is Err ==> local is Err,
{
}

} // verus!
