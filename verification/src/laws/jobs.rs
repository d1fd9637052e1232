//! Laws of the entry points: what is rendered, and what is refused.

use vstd::prelude::*;
use vstd::string::*;
use vstd::utf8::*;

use crate::arguments::{cstr, optional_cstr, require_ctx, require_image, require_out};
use crate::entry::{
    blitz_markdown_to_html, blitz_render_html, blitz_render_markdown, blitz_render_url,
    blitz_version, deliver_image, fetched_job, RenderJob, UrlJob,
};
use crate::image::{BlitzBuffer, BlitzImage};
use crate::laws::options;
use crate::location::{canonical_url, fetch, FetchReply, UrlParts};
use crate::markdown::to_html_document;
use crate::options::{BlitzRenderOptions, ResolvedOptions};
use crate::status::Failure;

verus! {

/// The bytes of an argument are text.
pub open spec fn is_text(p: Option<&[u8]>) -> bool {
    p matches Some(b) && valid_utf8(b@)
}

/// The bytes of an argument, where there is one, are text.
pub open spec fn is_absent_or_text(p: Option<&[u8]>) -> bool {
    p is None || is_text(p)
}

/// The failure has this code and this message.
pub open spec fn says(f: Failure, code: int, message: Seq<char>) -> bool {
    f.code == code && f.message@ == message
}

/// A string argument is read as the text that its bytes encode; a missing one and one
/// that is not UTF-8 are refused by name.
pub proof fn law_strings_are_read_as_they_are(
    p: Option<&[u8]>,
    name: &str,
    r: Result<&str, Failure>,
)
    requires
        call_ensures(cstr, (p, name), r),
    ensures
        r is Ok <==> is_text(p),
        r matches Ok(s) ==> encode_utf8(s@) == p->0@,
        r matches Err(f) ==> if p is None {
            says(f, -1, name@ + " is NULL"@)
        } else {
            says(f, -2, name@ + " is not valid UTF-8"@)
        },
{
    if is_text(p) {
        decode_utf8_encode_utf8(p->0@);
    }
}

/// A string argument that may be missing is read like any other where it is there.
pub proof fn law_optional_strings_may_be_missing(
    p: Option<&[u8]>,
    name: &str,
    r: Result<Option<&str>, Failure>,
)
    requires
        call_ensures(optional_cstr, (p, name), r),
    ensures
        r is Ok <==> is_absent_or_text(p),
        r matches Ok(s) ==> (s is None <==> p is None),
        r matches Ok(Some(s)) ==> encode_utf8(s@) == p->0@,
        r matches Err(f) ==> says(f, -2, name@ + " is not valid UTF-8"@),
{
    if is_text(p) {
        decode_utf8_encode_utf8(p->0@);
    }
}

/// A missing context, a missing out-parameter, and a missing or empty image are refused,
/// and nothing else is.
pub proof fn law_handles_must_be_there(
    present: bool,
    ctx: Result<(), Failure>,
    out: Result<(), Failure>,
    image: Option<&BlitzImage>,
    r: Result<&BlitzImage, Failure>,
)
    requires
        call_ensures(require_ctx, (present,), ctx),
        call_ensures(require_out, (present,), out),
        call_ensures(require_image, (image,), r),
    ensures
        ctx is Ok <==> present,
        ctx matches Err(f) ==> says(f, -1, "context is NULL"@),
        out is Ok <==> present,
        out matches Err(f) ==> says(f, -1, "out is NULL"@),
        r is Ok <==> (image matches Some(i) && i.data matches Some(d) && d@.len() > 0),
        r matches Ok(i) ==> image == Some(i),
        r matches Err(f) ==> if image is None {
            says(f, -1, "image is NULL"@)
        } else {
            says(f, -1, "image is empty"@)
        },
{
}

/// Markup is rendered as it was given, with its base URL as it was given, under the
/// options that the caller's settings come to and no others.
pub proof fn law_html_is_rendered_as_given(
    has_ctx: bool,
    html: Option<&[u8]>,
    base_url: Option<&[u8]>,
    opts: Option<&BlitzRenderOptions>,
    has_out: bool,
    job: RenderJob,
    resolved: Result<ResolvedOptions, Failure>,
)
    requires
        call_ensures(blitz_render_html, (has_ctx, html, base_url, opts, has_out), Ok(job)),
        call_ensures(ResolvedOptions::from_raw, (opts,), resolved),
    ensures
        html matches Some(b) && encode_utf8(job.html@) == b@,
        job.base_url is Some <==> base_url is Some,
        job.base_url matches Some(base) ==> encode_utf8(base@) == base_url->0@,
        resolved matches Ok(o) && options::same_options(job.options, o),
        opts matches Some(given) ==> (job.options.enable_net <==> given.enable_net != 0),
{
    decode_utf8_encode_utf8(html->0@);
    if is_text(base_url) {
        decode_utf8_encode_utf8(base_url->0@);
    }
}

/// Markup is taken on exactly where every argument is usable, and otherwise refused for
/// the first one that is not.
pub proof fn law_html_is_refused_for_its_first_bad_argument(
    has_ctx: bool,
    html: Option<&[u8]>,
    base_url: Option<&[u8]>,
    opts: Option<&BlitzRenderOptions>,
    has_out: bool,
    r: Result<RenderJob, Failure>,
    resolved: Result<ResolvedOptions, Failure>,
)
    requires
        call_ensures(blitz_render_html, (has_ctx, html, base_url, opts, has_out), r),
        call_ensures(ResolvedOptions::from_raw, (opts,), resolved),
    ensures
        r is Ok <==> has_ctx && has_out && is_text(html) && is_absent_or_text(base_url)
            && resolved is Ok,
        r matches Err(f) ==> if !has_ctx {
            says(f, -1, "context is NULL"@)
        } else if !has_out {
            says(f, -1, "out is NULL"@)
        } else if html is None {
            says(f, -1, "html"@ + " is NULL"@)
        } else if !is_text(html) {
            says(f, -2, "html"@ + " is not valid UTF-8"@)
        } else if !is_absent_or_text(base_url) {
            says(f, -2, "base_url"@ + " is not valid UTF-8"@)
        } else {
            says(f, -2, "user_agent is not valid UTF-8"@)
        },
{
}

/// Markdown is rendered as the document that it converts to with the stylesheet given,
/// with its base URL as it was given, under the caller's options and no others.
pub proof fn law_markdown_is_rendered_as_converted(
    has_ctx: bool,
    source: Option<&[u8]>,
    base_url: Option<&[u8]>,
    stylesheet: Option<&[u8]>,
    opts: Option<&BlitzRenderOptions>,
    has_out: bool,
    job: RenderJob,
    resolved: Result<ResolvedOptions, Failure>,
    text: &str,
    css: Option<&str>,
    doc: String,
)
    requires
        call_ensures(
            blitz_render_markdown,
            (has_ctx, source, base_url, stylesheet, opts, has_out),
            Ok(job),
        ),
        call_ensures(ResolvedOptions::from_raw, (opts,), resolved),
        source matches Some(b) && b@ == encode_utf8(text@),
        stylesheet is Some <==> css is Some,
        css matches Some(c) ==> stylesheet->0@ == encode_utf8(c@),
        call_ensures(to_html_document, (text, css), doc),
    ensures
        job.html@ == doc@,
        job.base_url is Some <==> base_url is Some,
        job.base_url matches Some(base) ==> encode_utf8(base@) == base_url->0@,
        resolved matches Ok(o) && options::same_options(job.options, o),
        opts matches Some(given) ==> (job.options.enable_net <==> given.enable_net != 0),
{
    encode_utf8_decode_utf8(text@);
    if let Some(c) = css {
        encode_utf8_decode_utf8(c@);
    }
    if is_text(base_url) {
        decode_utf8_encode_utf8(base_url->0@);
    }
}

/// Markdown is taken on exactly where every argument is usable, and otherwise refused
/// for the first one that is not.
pub proof fn law_markdown_is_refused_for_its_first_bad_argument(
    has_ctx: bool,
    source: Option<&[u8]>,
    base_url: Option<&[u8]>,
    stylesheet: Option<&[u8]>,
    opts: Option<&BlitzRenderOptions>,
    has_out: bool,
    r: Result<RenderJob, Failure>,
    resolved: Result<ResolvedOptions, Failure>,
)
    requires
        call_ensures(
            blitz_render_markdown,
            (has_ctx, source, base_url, stylesheet, opts, has_out),
            r,
        ),
        call_ensures(ResolvedOptions::from_raw, (opts,), resolved),
    ensures
        r is Ok <==> has_ctx && has_out && is_text(source) && is_absent_or_text(base_url)
            && is_absent_or_text(stylesheet) && resolved is Ok,
        r matches Err(f) ==> if !has_ctx {
            says(f, -1, "context is NULL"@)
        } else if !has_out {
            says(f, -1, "out is NULL"@)
        } else if source is None {
            says(f, -1, "markdown"@ + " is NULL"@)
        } else if !is_text(source) {
            says(f, -2, "markdown"@ + " is not valid UTF-8"@)
        } else if !is_absent_or_text(base_url) {
            says(f, -2, "base_url"@ + " is not valid UTF-8"@)
        } else if !is_absent_or_text(stylesheet) {
            says(f, -2, "stylesheet"@ + " is not valid UTF-8"@)
        } else {
            says(f, -2, "user_agent is not valid UTF-8"@)
        },
{
}

/// Converting markdown fills the buffer with the document, in UTF-8, and leaves the
/// buffer alone where an argument is refused.
pub proof fn law_conversion_gives_the_document(
    source: Option<&[u8]>,
    stylesheet: Option<&[u8]>,
    out: &mut BlitzBuffer,
    r: Result<(), Failure>,
    text: &str,
    css: Option<&str>,
    doc: String,
)
    requires
        call_ensures(blitz_markdown_to_html, (source, stylesheet, Some(out)), r),
        is_text(source) ==> source->0@ == encode_utf8(text@),
        stylesheet is Some <==> css is Some,
        is_text(stylesheet) ==> stylesheet->0@ == encode_utf8(css->0@),
        call_ensures(to_html_document, (text, css), doc),
    ensures
        r is Ok <==> is_text(source) && is_absent_or_text(stylesheet),
        r is Ok ==> (final(out).data matches Some(v) && v@ == encode_utf8(doc@)),
        r is Err ==> *final(out) == *old(out),
        r matches Err(f) ==> if source is None {
            says(f, -1, "markdown"@ + " is NULL"@)
        } else if !is_text(source) {
            says(f, -2, "markdown"@ + " is not valid UTF-8"@)
        } else {
            says(f, -2, "stylesheet"@ + " is not valid UTF-8"@)
        },
{
    encode_utf8_decode_utf8(text@);
    if let Some(c) = css {
        encode_utf8_decode_utf8(c@);
    }
}

/// Converting markdown into nothing is refused, whatever the other arguments are.
pub proof fn law_conversion_needs_a_buffer(
    source: Option<&[u8]>,
    stylesheet: Option<&[u8]>,
    r: Result<(), Failure>,
)
    requires
        call_ensures(blitz_markdown_to_html, (source, stylesheet, None), r),
    ensures
        r matches Err(f) && says(f, -1, "out is NULL"@),
{
}

/// A URL is taken on as what its text stands for, under the caller's options and no
/// others; it is refused for its first bad argument, and last for the URL itself.
pub proof fn law_url_is_taken_on_as_its_text_stands_for(
    has_ctx: bool,
    url: Option<&[u8]>,
    opts: Option<&BlitzRenderOptions>,
    has_out: bool,
    r: Result<UrlJob, Failure>,
    resolved: Result<ResolvedOptions, Failure>,
    text: &str,
    canonical: Result<UrlParts, Failure>,
)
    requires
        call_ensures(blitz_render_url, (has_ctx, url, opts, has_out), r),
        call_ensures(ResolvedOptions::from_raw, (opts,), resolved),
        is_text(url) ==> url->0@ == encode_utf8(text@),
        call_ensures(canonical_url, (text,), canonical),
    ensures
        r is Ok <==> has_ctx && has_out && is_text(url) && resolved is Ok && canonical is Ok,
        r matches Ok(job) ==> options::same_options(job.options, resolved->Ok_0) && job.url.text@
            == canonical->Ok_0.text@ && job.url.scheme@ == canonical->Ok_0.scheme@ && (
        job.url.host is Some <==> canonical->Ok_0.host is Some) && (job.url.host matches Some(h)
            ==> h@ == canonical->Ok_0.host->0@),
        r matches Err(f) ==> if !has_ctx {
            says(f, -1, "context is NULL"@)
        } else if !has_out {
            says(f, -1, "out is NULL"@)
        } else if url is None {
            says(f, -1, "url"@ + " is NULL"@)
        } else if !is_text(url) {
            says(f, -2, "url"@ + " is not valid UTF-8"@)
        } else if resolved is Err {
            says(f, -2, "user_agent is not valid UTF-8"@)
        } else {
            canonical matches Err(g) && says(f, g.code as int, g.message@)
        },
{
    encode_utf8_decode_utf8(text@);
}

/// A document that was fetched over HTTP is rendered as it was received, and a file as
/// the text that its bytes encode, with the document's own URL as the base and under
/// the options of the job.
pub proof fn law_fetched_documents_are_rendered_as_received(
    job: UrlJob,
    reply: FetchReply,
    r: Result<RenderJob, Failure>,
)
    requires
        call_ensures(fetched_job, (job, reply), r),
    ensures
        reply is Text ==> r is Ok,
        reply is FileBytes && valid_utf8(reply->FileBytes_0@) ==> r is Ok,
        r is Ok ==> reply is Text || reply is FileBytes,
        reply matches FetchReply::Text(t) ==> (r matches Ok(j) && j.html@ == t@),
        r matches Ok(j) ==> (reply matches FetchReply::FileBytes(b) ==> encode_utf8(j.html@) == b@),
        r matches Ok(j) ==> (j.base_url matches Some(b) && b@ == job.url.text@),
        r matches Ok(j) ==> options::same_options(j.options, job.options),
{
    if let FetchReply::FileBytes(b) = reply {
        if valid_utf8(b@) {
            decode_utf8_encode_utf8(b@);
        }
    }
}

/// What was fetched is handed on as it is, and a fetch that failed is reported with what
/// went wrong and where.
pub proof fn law_fetch_hands_on_what_came(
    url: &UrlParts,
    reply: FetchReply,
    r: Result<String, Failure>,
)
    requires
        call_ensures(fetch, (url, reply), r),
    ensures
        reply matches FetchReply::Text(t) ==> (r matches Ok(s) && s@ == t@),
        reply matches FetchReply::FileBytes(b) ==> (r is Ok <==> valid_utf8(b@)) && (r matches Ok(s)
            ==> encode_utf8(s@) == b@) && (r matches Err(f) ==> says(
            f,
            -2,
            url.text@ + " is not UTF-8: "@ + crate::text::utf8_error_text(b@),
        )),
        reply matches FetchReply::ReadFailed { path, error } ==> (r matches Err(f) && says(
            f,
            -5,
            "read "@ + path@ + ": "@ + error@,
        )),
        reply matches FetchReply::ClientFailed(error) ==> (r matches Err(f) && says(
            f,
            -4,
            "http client: "@ + error@,
        )),
        reply matches FetchReply::SendFailed(error) ==> (r matches Err(f) && says(
            f,
            -4,
            "GET "@ + url.text@ + ": "@ + error@,
        )),
        reply matches FetchReply::BodyFailed(error) ==> (r matches Err(f) && says(
            f,
            -4,
            "body of "@ + url.text@ + ": "@ + error@,
        )),
{
    if let FetchReply::FileBytes(b) = reply {
        if valid_utf8(b@) {
            decode_utf8_encode_utf8(b@);
        }
    }
}

/// Fetching and then taking on the job is the same as handing the fetched text on: the
/// two fail together, with the same failure.
pub proof fn law_fetched_job_fails_as_the_fetch_does(
    job: UrlJob,
    reply: FetchReply,
    r: Result<RenderJob, Failure>,
    fetched: Result<String, Failure>,
)
    requires
        call_ensures(fetched_job, (job, reply), r),
        call_ensures(fetch, (&job.url, reply), fetched),
    ensures
        r is Ok <==> fetched is Ok,
        r matches Ok(j) ==> j.html@ == fetched->Ok_0@,
        r matches Err(f) ==> says(f, fetched->Err_0.code as int, fetched->Err_0.message@),
{
}

/// A rendered image is handed over as it is; a failed render leaves the image alone and
/// is reported as it is.
pub proof fn law_images_are_handed_over_whole(
    out: &mut BlitzImage,
    result: Result<BlitzImage, Failure>,
    r: Result<(), Failure>,
)
    requires
        call_ensures(deliver_image, (out, result), r),
    ensures
        r is Ok <==> result is Ok,
        result matches Ok(i) ==> *final(out) == i,
        result matches Err(f) ==> r == Err::<(), Failure>(f) && *final(out) == *old(out),
{
}

/// The version of the library.
pub proof fn law_version(v: &'static str)
    requires
        call_ensures(blitz_version, (), v),
    ensures
        v@ == "0.1.0"@,
{
}

} // verus!
