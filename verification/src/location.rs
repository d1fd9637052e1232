//! Where a document comes from: URLs, and what fetching one comes to.

use vstd::prelude::*;
use vstd::string::*;
use vstd::utf8::*;

use crate::options::ResolvedOptions;
use crate::status::{
    Failure, BLITZ_ERR_INVALID_URL, BLITZ_ERR_INVALID_UTF8, BLITZ_ERR_IO, BLITZ_ERR_NETWORK,
};
use crate::text;

verus! {

/// A path of the file system.
#[verifier::external_type_specification]
#[verifier::external_body]
pub struct ExPathBuf(std::path::PathBuf);

/// A parsed URL: its serialization, its scheme, and its host where it has one.
#[derive(Clone, Debug)]
pub struct UrlParts {
    pub text: String,
    pub scheme: String,
    pub host: Option<String>,
}

impl View for UrlParts {
    type V = (Seq<char>, Seq<char>, Option<Seq<char>>);

    open spec fn view(&self) -> (Seq<char>, Seq<char>, Option<Seq<char>>) {
        (
            self.text@,
            self.scheme@,
            match self.host {
                Some(h) => Some(h@),
                None => None,
            },
        )
    }
}

/// What `url::Url::parse` makes of a text: the serialization, scheme and host of
/// the URL, or the text of the error.
pub uninterp spec fn url_parse(input: Seq<char>) -> Result<
    (Seq<char>, Seq<char>, Option<Seq<char>>),
    Seq<char>,
>;

/// `url::Url::parse`. A text without a colon has no scheme and is refused, and
/// what starts with `https:` has the scheme `https`.
#[verifier::external_body]
fn parse_url(input: &str) -> (r: Result<UrlParts, String>)
    ensures
        match r {
            Ok(u) => url_parse(input@) == Ok::<_, Seq<char>>(u@),
            Err(e) => url_parse(input@) == Err::<
                (Seq<char>, Seq<char>, Option<Seq<char>>),
                Seq<char>,
            >(e@),
        },
        !input@.contains(':') ==> r is Err,
        text::occurs_at(input@, "https:"@, 0) ==> (r matches Ok(u) ==> u.scheme@ == "https"@),
{
    match url::Url::parse(input) {
        Ok(u) => Ok(
            UrlParts {
                text: u.to_string(),
                scheme: u.scheme().to_owned(),
                host: u.host_str().map(|h| h.to_owned()),
            },
        ),
        Err(e) => Err(e.to_string()),
    }
}

/// `url::Url::to_file_path` may answer this for the URL with the given text, on some
/// system: the path, or none. One text can have several answers, for the systems differ.
pub uninterp spec fn may_name(url: Seq<char>, path: Option<std::path::PathBuf>) -> bool;

/// `url::Url::to_file_path` of the URL with the given text. Which path a URL names,
/// and whether it names one, depends on the system. All that is claimed is that the
/// result is an answer to this text, and that a text which is no URL names no path.
#[verifier::external_body]
fn to_file_path(url: &str) -> (r: Option<std::path::PathBuf>)
    ensures
        may_name(url@, r),
        url_parse(url@) is Err ==> r is None,
{
    match url::Url::parse(url) {
        Ok(u) => u.to_file_path().ok(),
        Err(_) => None,
    }
}

/// The text that a bare host is upgraded to.
pub open spec fn upgraded(url: Seq<char>) -> Seq<char> {
    "https://"@ + url
}

/// What is said of a text that is no URL, neither as it stands nor upgraded.
pub open spec fn invalid_url_message(url: Seq<char>, error: Seq<char>) -> Seq<char> {
    "invalid url "@ + text::debug_quoted(url) + ": "@ + error
}

/// The URL that a text stands for. One that does not parse is tried again as the
/// host and path of an `https` URL.
pub open spec fn canonical(url: Seq<char>) -> Result<
    (Seq<char>, Seq<char>, Option<Seq<char>>),
    (i32, Seq<char>),
> {
    match url_parse(url) {
        Ok(u) => Ok(u),
        Err(_) => match url_parse(upgraded(url)) {
            Ok(u) => Ok(u),
            Err(e) => Err((BLITZ_ERR_INVALID_URL, invalid_url_message(url, e))),
        },
    }
}

/// What the second attempt, on the upgraded text, comes to.
pub fn upgraded_result(url: &str, attempt: Result<UrlParts, String>) -> (r: Result<
    UrlParts,
    Failure,
>)
    ensures
        match r {
            Ok(u) => attempt == Ok::<_, String>(u),
            Err(f) => attempt matches Err(e) && f@ == (
                BLITZ_ERR_INVALID_URL,
                invalid_url_message(url@, e@),
            ),
        },
{
    match attempt {
        Ok(u) => Ok(u),
        Err(e) => {
            let quoted = text::debug_text(url);
            Err(
                Failure::of_cause(
                    BLITZ_ERR_INVALID_URL,
                    "invalid url ",
                    quoted.as_str(),
                    e.as_str(),
                ),
            )
        },
    }
}

/// The URL that a text stands for. A text without a colon, such as a bare host, is
/// always upgraded, and then its scheme is `https`.
pub fn canonical_url(url: &str) -> (r: Result<UrlParts, Failure>)
    ensures
        match r {
            Ok(u) => canonical(url@) == Ok::<_, (i32, Seq<char>)>(u@),
            Err(f) => canonical(url@) == Err::<
                (Seq<char>, Seq<char>, Option<Seq<char>>),
                (i32, Seq<char>),
            >(f@),
        },
        !url@.contains(':') ==> (r matches Ok(u) ==> url_parse(upgraded(url@)) == Ok::<
            _,
            Seq<char>,
        >(u@) && u.scheme@ == "https"@),
{
    match parse_url(url) {
        Ok(u) => Ok(u),
        Err(_) => {
            let mut longer = "https://".to_owned();
            longer.append(url);
            proof {
                reveal_strlit("https://");
                reveal_strlit("https:");
                assert(longer@.subrange(0, 6) =~= "https:"@);
            }
            upgraded_result(url, parse_url(longer.as_str()))
        },
    }
}

/// How a document is fetched.
pub enum FetchRoute {
    /// Read the local file that the URL names.
    File,
    /// Send a GET request with this user agent, giving up after so many
    /// milliseconds.
    Http { timeout_ms: u64, user_agent: String },
}

/// `file:` is read locally and everything else goes over HTTP.
pub fn fetch_route(url: &UrlParts, options: &ResolvedOptions) -> (r: FetchRoute)
    ensures
        match r {
            FetchRoute::File => url.scheme@ == "file"@,
            FetchRoute::Http { timeout_ms, user_agent } => {
                &&& url.scheme@ != "file"@
                &&& timeout_ms == options.net_timeout_ms
                &&& user_agent@ == options.user_agent@
            },
        },
{
    if text::same_text(url.scheme.as_str(), "file") {
        FetchRoute::File
    } else {
        FetchRoute::Http {
            timeout_ms: options.net_timeout_ms,
            user_agent: options.user_agent.clone(),
        }
    }
}

/// The path to read, or the failure of a `file:` URL that names none.
pub fn path_or_failure(url: &UrlParts, path: Option<std::path::PathBuf>) -> (r: Result<
    std::path::PathBuf,
    Failure,
>)
    ensures
        match r {
            Ok(p) => path == Some(p),
            Err(f) => path is None && f@ == (BLITZ_ERR_INVALID_URL, "bad file url: "@ + url.text@),
        },
{
    match path {
        Some(p) => Ok(p),
        None => Err(
            Failure::of_two(BLITZ_ERR_INVALID_URL, "bad file url: ", url.text.as_str()),
        ),
    }
}

/// The path behind a result, if there is one.
pub open spec fn path_of(r: Result<std::path::PathBuf, Failure>) -> Option<std::path::PathBuf> {
    match r {
        Ok(p) => Some(p),
        Err(_) => None,
    }
}

/// The path that a `file:` URL names on this system. Which URLs name one is for the
/// system to say: the result is its answer for the text of this URL.
pub fn local_path(url: &UrlParts) -> (r: Result<std::path::PathBuf, Failure>)
    ensures
        may_name(url.text@, path_of(r)),
        r matches Err(f) ==> f@ == (BLITZ_ERR_INVALID_URL, "bad file url: "@ + url.text@),
        url_parse(url.text@) is Err ==> r is Err,
{
    path_or_failure(url, to_file_path(url.text.as_str()))
}

/// What came of fetching a document.
pub enum FetchReply {
    /// The file with this path could not be read.
    ReadFailed { path: String, error: String },
    /// The file holds these bytes.
    FileBytes(Vec<u8>),
    /// No HTTP client could be set up.
    ClientFailed(String),
    /// The request could not be sent, or was not answered.
    SendFailed(String),
    /// The answer could not be read to its end.
    BodyFailed(String),
    /// The answer is this text.
    Text(String),
}

/// The text of the document, or why there is none.
pub open spec fn fetched(url: Seq<char>, reply: FetchReply) -> Result<
    Seq<char>,
    (i32, Seq<char>),
> {
    match reply {
        FetchReply::ReadFailed { path, error } => Err(
            (BLITZ_ERR_IO, "read "@ + path@ + ": "@ + error@),
        ),
        FetchReply::FileBytes(bytes) => if valid_utf8(bytes@) {
            Ok(decode_utf8(bytes@))
        } else {
            Err(
                (
                    BLITZ_ERR_INVALID_UTF8,
                    url + " is not UTF-8: "@ + text::utf8_error_text(bytes@),
                ),
            )
        },
        FetchReply::ClientFailed(error) => Err((BLITZ_ERR_NETWORK, "http client: "@ + error@)),
        FetchReply::SendFailed(error) => Err(
            (BLITZ_ERR_NETWORK, "GET "@ + url + ": "@ + error@),
        ),
        FetchReply::BodyFailed(error) => Err(
            (BLITZ_ERR_NETWORK, "body of "@ + url + ": "@ + error@),
        ),
        FetchReply::Text(t) => Ok(t@),
    }
}

/// Turns what came of fetching into the text of the document.
pub fn fetch(url: &UrlParts, reply: FetchReply) -> (r: Result<String, Failure>)
    ensures
        match r {
            Ok(t) => fetched(url.text@, reply) == Ok::<_, (i32, Seq<char>)>(t@),
            Err(f) => fetched(url.text@, reply) == Err::<Seq<char>, (i32, Seq<char>)>(f@),
        },
{
    let name = url.text.as_str();
    match reply {
        FetchReply::ReadFailed { path, error } => Err(
            Failure::of_cause(BLITZ_ERR_IO, "read ", path.as_str(), error.as_str()),
        ),
        FetchReply::FileBytes(bytes) => match text::decode_text(bytes.as_slice()) {
            Ok(t) => Ok(t.to_owned()),
            Err(e) => {
                let mut message = name.to_owned();
                message.append(" is not UTF-8: ");
                message.append(e.as_str());
                Err(Failure { code: BLITZ_ERR_INVALID_UTF8, message })
            },
        },
        FetchReply::ClientFailed(error) => Err(
            Failure::of_two(BLITZ_ERR_NETWORK, "http client: ", error.as_str()),
        ),
        FetchReply::SendFailed(error) => Err(
            Failure::of_cause(BLITZ_ERR_NETWORK, "GET ", name, error.as_str()),
        ),
        FetchReply::BodyFailed(error) => Err(
            Failure::of_cause(BLITZ_ERR_NETWORK, "body of ", name, error.as_str()),
        ),
        FetchReply::Text(t) => Ok(t),
    }
}

} // verus!
