//! The entry points: what each makes of its arguments before the caller fetches,
//! renders or hands over.

use vstd::prelude::*;
use vstd::string::*;
use vstd::utf8::*;

use crate::arguments;
use crate::encode;
use crate::image::{vec_into_buffer, BlitzBuffer, BlitzImage};
use crate::location;
use crate::location::{FetchReply, UrlParts};
use crate::markdown;
use crate::options;
use crate::options::{BlitzRenderOptions, OptionsModel, ResolvedModel, ResolvedOptions};
use crate::status::{Failure, BLITZ_ERR_INVALID_ARG, BLITZ_OK};

verus! {

/// The semantic version of the library.
pub const BLITZ_VERSION: &'static str = "0.1.0";

/// The semantic version of the library.
pub fn blitz_version() -> (v: &'static str)
    ensures
        v@ == BLITZ_VERSION@,
{
    BLITZ_VERSION
}

/// A document to render.
pub struct RenderJob {
    pub html: String,
    pub base_url: Option<String>,
    pub options: ResolvedOptions,
}

/// `RenderJob` as values.
pub struct JobModel {
    pub html: Seq<char>,
    pub base_url: Option<Seq<char>>,
    pub options: ResolvedModel,
}

impl View for RenderJob {
    type V = JobModel;

    open spec fn view(&self) -> JobModel {
        JobModel {
            html: self.html@,
            base_url: match self.base_url {
                Some(b) => Some(b@),
                None => None,
            },
            options: self.options@,
        }
    }
}

/// A missing context or out-parameter is refused before anything else.
pub open spec fn handles_refusal(has_ctx: bool, has_out: bool) -> Option<(i32, Seq<char>)> {
    if !has_ctx {
        Some((BLITZ_ERR_INVALID_ARG, "context is NULL"@))
    } else if !has_out {
        Some((BLITZ_ERR_INVALID_ARG, "out is NULL"@))
    } else {
        None
    }
}

/// The job that given text makes with a base URL and options, in the order in which
/// the arguments are refused.
pub open spec fn text_job(
    html: Seq<char>,
    base_url: Option<Seq<char>>,
    opts: Option<OptionsModel>,
) -> Result<JobModel, (i32, Seq<char>)> {
    match options::resolved(opts) {
        Err(f) => Err(f),
        Ok(o) => Ok(JobModel { html, base_url, options: o }),
    }
}

/// What rendering markup comes to: the job, or why it is refused.
pub open spec fn html_job(
    has_ctx: bool,
    html: Option<Seq<u8>>,
    base_url: Option<Seq<u8>>,
    opts: Option<OptionsModel>,
    has_out: bool,
) -> Result<JobModel, (i32, Seq<char>)> {
    match handles_refusal(has_ctx, has_out) {
        Some(f) => Err(f),
        None => match arguments::cstr_result(html, "html"@) {
            Err(f) => Err(f),
            Ok(text) => match arguments::optional_cstr_result(base_url, "base_url"@) {
                Err(f) => Err(f),
                Ok(base) => text_job(text, base, opts),
            },
        },
    }
}

/// What rendering markdown comes to: the job, or why it is refused.
pub open spec fn markdown_job(
    has_ctx: bool,
    source: Option<Seq<u8>>,
    base_url: Option<Seq<u8>>,
    stylesheet: Option<Seq<u8>>,
    opts: Option<OptionsModel>,
    has_out: bool,
) -> Result<JobModel, (i32, Seq<char>)> {
    match handles_refusal(has_ctx, has_out) {
        Some(f) => Err(f),
        None => match arguments::cstr_result(source, "markdown"@) {
            Err(f) => Err(f),
            Ok(text) => match arguments::optional_cstr_result(base_url, "base_url"@) {
                Err(f) => Err(f),
                Ok(base) => match arguments::optional_cstr_result(stylesheet, "stylesheet"@) {
                    Err(f) => Err(f),
                    Ok(css) => text_job(markdown::markdown_document(text, css), base, opts),
                },
            },
        },
    }
}

/// Refuses a missing context, then a missing out-parameter.
fn require_handles(has_ctx: bool, has_out: bool) -> (r: Result<(), Failure>)
    ensures
        match r {
            Ok(()) => handles_refusal(has_ctx, has_out) is None,
            Err(f) => handles_refusal(has_ctx, has_out) == Some(f@),
        },
{
    arguments::require_ctx(has_ctx)?;
    arguments::require_out(has_out)
}

/// An owned copy of an optional text.
fn owned(s: Option<&str>) -> (r: Option<String>)
    ensures
        crate::net::string_of(r) == arguments::text_of(s),
{
    match s {
        Some(t) => Some(t.to_owned()),
        None => None,
    }
}

/// Takes on markup that the caller already has in hand. Without a base URL relative
/// URLs in the document don't resolve.
pub fn blitz_render_html(
    has_ctx: bool,
    html: Option<&[u8]>,
    base_url: Option<&[u8]>,
    opts: Option<&BlitzRenderOptions>,
    has_out: bool,
) -> (r: Result<RenderJob, Failure>)
    ensures
        match r {
            Ok(j) => html_job(
                has_ctx,
                arguments::slice_of(html),
                arguments::slice_of(base_url),
                options::settings_of(opts),
                has_out,
            ) == Ok::<_, (i32, Seq<char>)>(j@) && j.options@.well_formed(),
            Err(f) => html_job(
                has_ctx,
                arguments::slice_of(html),
                arguments::slice_of(base_url),
                options::settings_of(opts),
                has_out,
            ) == Err::<JobModel, (i32, Seq<char>)>(f@),
        },
{
    require_handles(has_ctx, has_out)?;
    let text = arguments::cstr(html, "html")?;
    let base = arguments::optional_cstr(base_url, "base_url")?;
    let options = ResolvedOptions::from_raw(opts)?;
    Ok(RenderJob { html: text.to_owned(), base_url: owned(base), options })
}

/// Takes on a markdown document.
///
/// `stylesheet` selects the CSS: none for the built-in stylesheet, an empty one for
/// an unstyled document, and anything else in place of the built-in one. It stands
/// verbatim but for `</style`, which is defused so that it cannot end the sheet.
/// A base URL is for relative image paths.
pub fn blitz_render_markdown(
    has_ctx: bool,
    source: Option<&[u8]>,
    base_url: Option<&[u8]>,
    stylesheet: Option<&[u8]>,
    opts: Option<&BlitzRenderOptions>,
    has_out: bool,
) -> (r: Result<RenderJob, Failure>)
    ensures
        match r {
            Ok(j) => markdown_job(
                has_ctx,
                arguments::slice_of(source),
                arguments::slice_of(base_url),
                arguments::slice_of(stylesheet),
                options::settings_of(opts),
                has_out,
            ) == Ok::<_, (i32, Seq<char>)>(j@) && j.options@.well_formed(),
            Err(f) => markdown_job(
                has_ctx,
                arguments::slice_of(source),
                arguments::slice_of(base_url),
                arguments::slice_of(stylesheet),
                options::settings_of(opts),
                has_out,
            ) == Err::<JobModel, (i32, Seq<char>)>(f@),
        },
{
    require_handles(has_ctx, has_out)?;
    let text = arguments::cstr(source, "markdown")?;
    let base = arguments::optional_cstr(base_url, "base_url")?;
    let css = arguments::optional_cstr(stylesheet, "stylesheet")?;
    let options = ResolvedOptions::from_raw(opts)?;
    let html = markdown::to_html_document(text, css);
    Ok(RenderJob { html, base_url: owned(base), options })
}

/// What converting markdown comes to: the document, or why it is refused.
pub open spec fn conversion(
    has_out: bool,
    source: Option<Seq<u8>>,
    stylesheet: Option<Seq<u8>>,
) -> Result<Seq<char>, (i32, Seq<char>)> {
    if !has_out {
        Err((BLITZ_ERR_INVALID_ARG, "out is NULL"@))
    } else {
        match arguments::cstr_result(source, "markdown"@) {
            Err(f) => Err(f),
            Ok(text) => match arguments::optional_cstr_result(stylesheet, "stylesheet"@) {
                Err(f) => Err(f),
                Ok(css) => Ok(markdown::markdown_document(text, css)),
            },
        }
    }
}

/// Converts markdown to a styled HTML document without rendering it. The buffer
/// holds UTF-8 without a terminating NUL, and is untouched on failure.
pub fn blitz_markdown_to_html(
    source: Option<&[u8]>,
    stylesheet: Option<&[u8]>,
    out: Option<&mut BlitzBuffer>,
) -> (r: Result<(), Failure>)
    ensures
        match r {
            Ok(()) => out matches Some(o) && conversion(
                true,
                arguments::slice_of(source),
                arguments::slice_of(stylesheet),
            ) matches Ok(doc) && final(o)@ == Some(encode_utf8(doc)),
            Err(f) => {
                &&& conversion(
                    out is Some,
                    arguments::slice_of(source),
                    arguments::slice_of(stylesheet),
                ) == Err::<Seq<char>, (i32, Seq<char>)>(f@)
                &&& out matches Some(o) ==> *final(o) == *o
            },
        },
{
    match out {
        None => Err(Failure::new(BLITZ_ERR_INVALID_ARG, "out is NULL")),
        Some(o) => {
            let text = match arguments::cstr(source, "markdown") {
                Ok(t) => t,
                Err(f) => {
                    return Err(f);
                },
            };
            let css = match arguments::optional_cstr(stylesheet, "stylesheet") {
                Ok(c) => c,
                Err(f) => {
                    return Err(f);
                },
            };
            let html = markdown::to_html_document(text, css);
            *o = vec_into_buffer(html.as_str().as_bytes_vec());
            Ok(())
        },
    }
}

/// A document to fetch and render.
pub struct UrlJob {
    pub url: UrlParts,
    pub options: ResolvedOptions,
}

/// What rendering a URL comes to before anything is fetched: the URL and the
/// options, or why it is refused.
pub open spec fn url_job(
    has_ctx: bool,
    url: Option<Seq<u8>>,
    opts: Option<OptionsModel>,
    has_out: bool,
) -> Result<((Seq<char>, Seq<char>, Option<Seq<char>>), ResolvedModel), (i32, Seq<char>)> {
    match handles_refusal(has_ctx, has_out) {
        Some(f) => Err(f),
        None => match arguments::cstr_result(url, "url"@) {
            Err(f) => Err(f),
            Ok(text) => match options::resolved(opts) {
                Err(f) => Err(f),
                Ok(o) => match location::canonical(text) {
                    Err(f) => Err(f),
                    Ok(u) => Ok((u, o)),
                },
            },
        },
    }
}

/// Takes on a URL. A bare host is upgraded to `https`.
pub fn blitz_render_url(
    has_ctx: bool,
    url: Option<&[u8]>,
    opts: Option<&BlitzRenderOptions>,
    has_out: bool,
) -> (r: Result<UrlJob, Failure>)
    ensures
        match r {
            Ok(j) => url_job(
                has_ctx,
                arguments::slice_of(url),
                options::settings_of(opts),
                has_out,
            ) == Ok::<_, (i32, Seq<char>)>((j.url@, j.options@)) && j.options@.well_formed(),
            Err(f) => url_job(
                has_ctx,
                arguments::slice_of(url),
                options::settings_of(opts),
                has_out,
            ) == Err::<
                ((Seq<char>, Seq<char>, Option<Seq<char>>), ResolvedModel),
                (i32, Seq<char>),
            >(f@),
        },
{
    require_handles(has_ctx, has_out)?;
    let text = arguments::cstr(url, "url")?;
    let options = ResolvedOptions::from_raw(opts)?;
    let url = location::canonical_url(text)?;
    Ok(UrlJob { url, options })
}

/// The document that was fetched, to be rendered with its own URL as the base.
pub fn fetched_job(job: UrlJob, reply: FetchReply) -> (r: Result<RenderJob, Failure>)
    ensures
        match r {
            Ok(j) => {
                &&& location::fetched(job.url.text@, reply) == Ok::<_, (i32, Seq<char>)>(j.html@)
                &&& j@.base_url == Some(job.url.text@)
                &&& j.options == job.options
            },
            Err(f) => location::fetched(job.url.text@, reply) == Err::<
                Seq<char>,
                (i32, Seq<char>),
            >(f@),
        },
{
    let html = location::fetch(&job.url, reply)?;
    Ok(RenderJob { html, base_url: Some(job.url.text), options: job.options })
}

/// Hands a rendered image over. The out-parameter is untouched on failure.
pub fn deliver_image(out: &mut BlitzImage, result: Result<BlitzImage, Failure>) -> (r: Result<
    (),
    Failure,
>)
    ensures
        match result {
            Ok(i) => r is Ok && *final(out) == i,
            Err(f) => r == Err::<(), Failure>(f) && *final(out) == *old(out),
        },
{
    match result {
        Ok(i) => {
            *out = i;
            Ok(())
        },
        Err(f) => Err(f),
    }
}

/// The codes of failure.
pub open spec fn is_failure_code(code: i32) -> bool {
    -7 <= code <= -1
}

/// No refusal carries the code of success, whatever is refused: arguments, options,
/// URLs, what was fetched, or an image to encode.
pub proof fn law_refusals_carry_failure_codes(
    has_ctx: bool,
    has_out: bool,
    a: Option<Seq<u8>>,
    b: Option<Seq<u8>>,
    c: Option<Seq<u8>>,
    opts: Option<OptionsModel>,
    url: Seq<char>,
    reply: FetchReply,
    image: Option<&BlitzImage>,
    dpi: u32,
)
    ensures
        html_job(has_ctx, a, b, opts, has_out) matches Err(f) ==> is_failure_code(f.0),
        markdown_job(has_ctx, a, b, c, opts, has_out) matches Err(f) ==> is_failure_code(f.0),
        url_job(has_ctx, a, opts, has_out) matches Err(f) ==> is_failure_code(f.0),
        conversion(has_out, a, b) matches Err(f) ==> is_failure_code(f.0),
        location::fetched(url, reply) matches Err(f) ==> is_failure_code(f.0),
        encode::encode_result(has_out, image, dpi) matches Err(f) ==> is_failure_code(f.0),
        encode::write_target(image, a) matches Err(f) ==> is_failure_code(f.0),
        !is_failure_code(BLITZ_OK),
{
}

/// Markdown takes the same path as markup: a markdown job is the job of the document
/// that the markdown becomes.
pub proof fn law_markdown_renders_as_its_document(
    has_ctx: bool,
    source: Option<Seq<u8>>,
    base_url: Option<Seq<u8>>,
    stylesheet: Option<Seq<u8>>,
    opts: Option<OptionsModel>,
    has_out: bool,
)
    ensures
        markdown_job(has_ctx, source, base_url, stylesheet, opts, has_out) matches Ok(j)
            ==> html_job(has_ctx, Some(encode_utf8(j.html)), base_url, opts, has_out) == Ok::<
            _,
            (i32, Seq<char>),
        >(j),
{
    if let Ok(j) = markdown_job(has_ctx, source, base_url, stylesheet, opts, has_out) {
        encode_utf8_valid_utf8(j.html);
        encode_utf8_decode_utf8(j.html);
    }
}

/// Converting markdown gives the very document that rendering it renders.
pub proof fn law_conversion_is_what_is_rendered(
    source: Option<Seq<u8>>,
    base_url: Option<Seq<u8>>,
    stylesheet: Option<Seq<u8>>,
    opts: Option<OptionsModel>,
)
    ensures
        markdown_job(true, source, base_url, stylesheet, opts, true) matches Ok(j) ==> conversion(
            true,
            source,
            stylesheet,
        ) == Ok::<_, (i32, Seq<char>)>(j.html),
{
}

} // verus!
