use blitz::arguments::{cstr, optional_cstr, require_ctx, require_image, require_out};
use blitz::entry::{deliver_image, fetched_job, RenderJob, UrlJob};
use blitz::location::{
    canonical_url, fetch, fetch_route, local_path, path_or_failure, upgraded_result, FetchReply,
    FetchRoute, UrlParts,
};
use blitz::markdown::to_html_document;
use blitz::options::ResolvedOptions;
use blitz::status::Failure;
use blitz::{
    blitz_render_html, blitz_render_markdown, blitz_render_options_default, blitz_render_url,
    BlitzImage, BlitzRenderOptions,
};
use blitz::{
    BLITZ_ERR_INVALID_ARG, BLITZ_ERR_INVALID_URL, BLITZ_ERR_INVALID_UTF8, BLITZ_ERR_IO,
    BLITZ_ERR_NETWORK, BLITZ_ERR_RENDER,
};

fn refusal<T>(r: Result<T, Failure>) -> (i32, String) {
    match r {
        Ok(_) => panic!("not refused"),
        Err(f) => (f.code, f.message),
    }
}

fn said(code: i32, message: &str) -> (i32, String) {
    (code, message.to_string())
}

fn bad_agent() -> BlitzRenderOptions {
    let mut o = blitz_render_options_default();
    o.user_agent = Some(vec![0x80]);
    o
}

fn parts(r: Result<UrlParts, Failure>) -> (String, String, Option<String>) {
    let u = r.unwrap();
    (u.text, u.scheme, u.host)
}

#[test]
fn arguments_are_checked_one_by_one() {
    assert!(require_ctx(true).is_ok());
    assert_eq!(refusal(require_ctx(false)), said(BLITZ_ERR_INVALID_ARG, "context is NULL"));
    assert!(require_out(true).is_ok());
    assert_eq!(refusal(require_out(false)), said(BLITZ_ERR_INVALID_ARG, "out is NULL"));
    assert_eq!(refusal(require_image(None)), said(BLITZ_ERR_INVALID_ARG, "image is NULL"));
    let image = BlitzImage { data: Some(vec![1]), width: 9, height: 9, stride: 0 };
    assert_eq!(require_image(Some(&image)).unwrap().width, 9);
    assert_eq!(cstr(Some("h\u{e9}".as_bytes()), "html").unwrap(), "h\u{e9}");
    assert_eq!(refusal(cstr(None, "html")), said(BLITZ_ERR_INVALID_ARG, "html is NULL"));
    assert_eq!(
        refusal(cstr(Some(b"\xed\xa0\x80"), "html")),
        said(BLITZ_ERR_INVALID_UTF8, "html is not valid UTF-8")
    );
    assert_eq!(optional_cstr(None, "base_url").unwrap(), None);
    assert_eq!(optional_cstr(Some(b""), "base_url").unwrap(), Some(""));
    assert_eq!(
        refusal(optional_cstr(Some(b"\xff"), "base_url")),
        said(BLITZ_ERR_INVALID_UTF8, "base_url is not valid UTF-8")
    );
}

#[test]
fn html_is_taken_on() {
    let job = blitz_render_html(true, Some(b"<p>x</p>"), None, None, true).unwrap();
    assert_eq!((job.html.as_str(), job.base_url), ("<p>x</p>", None));
    assert_eq!(job.options.css_width, 1200);
    let mut opts = blitz_render_options_default();
    opts.width = 900;
    let job = blitz_render_html(true, Some(b""), Some(b"file:///a/"), Some(&opts), true).unwrap();
    assert_eq!((job.html.as_str(), job.base_url.as_deref()), ("", Some("file:///a/")));
    assert_eq!(job.options.css_width, 900);
}

#[test]
fn html_arguments_are_refused_in_order() {
    let bad: Option<&[u8]> = Some(b"\xff");
    let agent = bad_agent();
    let call = |ctx, html, base, opts, out| refusal(blitz_render_html(ctx, html, base, opts, out));
    assert_eq!(call(false, None, bad, Some(&agent), false).1, "context is NULL");
    assert_eq!(call(true, None, bad, Some(&agent), false).1, "out is NULL");
    assert_eq!(call(true, None, bad, Some(&agent), true).1, "html is NULL");
    assert_eq!(call(true, bad, bad, Some(&agent), true).1, "html is not valid UTF-8");
    assert_eq!(call(true, Some(b"x"), bad, Some(&agent), true).1, "base_url is not valid UTF-8");
    assert_eq!(
        call(true, Some(b"x"), None, Some(&agent), true),
        said(BLITZ_ERR_INVALID_UTF8, "user_agent is not valid UTF-8")
    );
}

#[test]
fn markdown_takes_the_path_of_its_document() {
    let job = blitz_render_markdown(true, Some(b"# Hi"), Some(b"file:///d/"), None, None, true);
    let job = job.unwrap();
    assert_eq!(job.html, to_html_document("# Hi", None));
    assert_eq!(job.base_url.as_deref(), Some("file:///d/"));
    let same = blitz_render_html(true, Some(job.html.as_bytes()), Some(b"file:///d/"), None, true);
    assert_eq!(same.unwrap().html, job.html);
    let job = blitz_render_markdown(true, Some(b"# Hi"), None, Some(b"p{}"), None, true).unwrap();
    assert_eq!(job.html, to_html_document("# Hi", Some("p{}")));
    assert!(job.base_url.is_none());
    let job = blitz_render_markdown(true, Some(b"# Hi"), None, Some(b""), None, true).unwrap();
    assert!(!job.html.contains("<style>"));
}

#[test]
fn markdown_arguments_are_refused_in_order() {
    let bad: Option<&[u8]> = Some(b"\xff");
    let agent = bad_agent();
    let call = |ctx, md, base, css, out| {
        refusal(blitz_render_markdown(ctx, md, base, css, Some(&agent), out)).1
    };
    assert_eq!(call(false, None, bad, bad, false), "context is NULL");
    assert_eq!(call(true, None, bad, bad, false), "out is NULL");
    assert_eq!(call(true, None, bad, bad, true), "markdown is NULL");
    assert_eq!(call(true, bad, bad, bad, true), "markdown is not valid UTF-8");
    assert_eq!(call(true, Some(b"x"), bad, bad, true), "base_url is not valid UTF-8");
    assert_eq!(call(true, Some(b"x"), None, bad, true), "stylesheet is not valid UTF-8");
    assert_eq!(call(true, Some(b"x"), None, None, true), "user_agent is not valid UTF-8");
}

#[test]
fn urls_are_taken_on() {
    let job = blitz_render_url(true, Some(b"https://www.google.com"), None, true).unwrap();
    assert_eq!(job.url.text, "https://www.google.com/");
    let job = blitz_render_url(true, Some(b"example.com"), None, true).unwrap();
    assert_eq!(job.url.text, "https://example.com/");
    assert_eq!(job.url.scheme, "https");
    assert_eq!(job.url.host.as_deref(), Some("example.com"));
    assert_eq!(job.options.net_timeout_ms, 10_000);
}

#[test]
fn url_arguments_are_refused_in_order() {
    let agent = bad_agent();
    let call = |ctx, url, opts, out| refusal(blitz_render_url(ctx, url, opts, out));
    assert_eq!(call(false, None, Some(&agent), false).1, "context is NULL");
    assert_eq!(call(true, None, Some(&agent), false).1, "out is NULL");
    assert_eq!(call(true, None, Some(&agent), true).1, "url is NULL");
    assert_eq!(call(true, Some(b"\xff"), Some(&agent), true).1, "url is not valid UTF-8");
    assert_eq!(call(true, Some(b"a b"), Some(&agent), true).1, "user_agent is not valid UTF-8");
    assert_eq!(
        call(true, Some(b"a b"), None, true),
        said(BLITZ_ERR_INVALID_URL, "invalid url \"a b\": invalid international domain name")
    );
    assert_eq!(
        call(true, Some(b""), None, true),
        said(BLITZ_ERR_INVALID_URL, "invalid url \"\": empty host")
    );
    assert_eq!(
        call(true, Some(b"a\"\n\x01 b"), None, true).1,
        "invalid url \"a\\\"\\n\\u{1} b\": invalid international domain name"
    );
}

#[test]
fn bare_hosts_are_upgraded() {
    let some = |s: &str| Some(s.to_string());
    assert_eq!(
        parts(canonical_url("Example.COM/a?b#c")),
        ("https://example.com/a?b#c".to_string(), "https".to_string(), some("example.com"))
    );
    assert_eq!(
        parts(canonical_url("HTTP://x:80/")),
        ("http://x/".to_string(), "http".to_string(), some("x"))
    );
    assert_eq!(
        parts(canonical_url("file:///tmp/x.html")),
        ("file:///tmp/x.html".to_string(), "file".to_string(), None)
    );
    assert_eq!(
        parts(canonical_url("localhost:8080")),
        ("localhost:8080".to_string(), "localhost".to_string(), None)
    );
    let host = UrlParts {
        text: "https://h/".to_string(),
        scheme: "https".to_string(),
        host: some("h"),
    };
    assert_eq!(parts(upgraded_result("h", Ok(host))).0, "https://h/");
    assert_eq!(
        refusal(upgraded_result("h\\", Err("why".to_string()))),
        said(BLITZ_ERR_INVALID_URL, "invalid url \"h\\\\\": why")
    );
}

#[test]
fn files_are_read_and_the_rest_is_asked_for() {
    let mut opts = blitz_render_options_default();
    opts.net_timeout_ms = 250;
    opts.user_agent = Some(b"ua/1".to_vec());
    let options = ResolvedOptions::from_raw(Some(&opts)).unwrap();
    let file = canonical_url("file:///tmp/x").unwrap();
    assert!(matches!(fetch_route(&file, &options), FetchRoute::File));
    for other in ["https://x/", "http://x/", "ftp://x/", "data:,x"] {
        match fetch_route(&canonical_url(other).unwrap(), &options) {
            FetchRoute::Http { timeout_ms, user_agent } => {
                assert_eq!((timeout_ms, user_agent.as_str()), (250, "ua/1"));
            }
            FetchRoute::File => panic!("{} is no file", other),
        }
    }
}

#[test]
fn file_urls_name_paths() {
    let path = local_path(&canonical_url("file:///tmp/a%20b.html").unwrap()).unwrap();
    assert_eq!(path, std::path::PathBuf::from("/tmp/a b.html"));
    let remote = canonical_url("file://server/share").unwrap();
    assert_eq!(
        refusal(local_path(&remote)),
        said(BLITZ_ERR_INVALID_URL, "bad file url: file://server/share")
    );
    let broken = UrlParts { text: "no url".to_string(), scheme: "file".to_string(), host: None };
    assert_eq!(
        refusal(local_path(&broken)),
        said(BLITZ_ERR_INVALID_URL, "bad file url: no url")
    );
    let given = path_or_failure(&broken, Some(std::path::PathBuf::from("/p")));
    assert_eq!(given.unwrap(), std::path::PathBuf::from("/p"));
}

#[test]
fn fetched_replies_are_mapped() {
    let url = canonical_url("https://x/y").unwrap();
    let ok = |reply| fetch(&url, reply).unwrap();
    let err = |reply| refusal(fetch(&url, reply));
    assert_eq!(ok(FetchReply::Text("<p>".to_string())), "<p>");
    assert_eq!(ok(FetchReply::FileBytes("\u{e9}".as_bytes().to_vec())), "\u{e9}");
    assert_eq!(
        err(FetchReply::FileBytes(vec![0x41, 0xFF, 0x42])),
        said(
            BLITZ_ERR_INVALID_UTF8,
            "https://x/y is not UTF-8: invalid utf-8 sequence of 1 bytes from index 1"
        )
    );
    assert_eq!(
        err(FetchReply::ReadFailed { path: "/y".to_string(), error: "gone".to_string() }),
        said(BLITZ_ERR_IO, "read /y: gone")
    );
    assert_eq!(
        err(FetchReply::ClientFailed("c".to_string())),
        said(BLITZ_ERR_NETWORK, "http client: c")
    );
    assert_eq!(
        err(FetchReply::SendFailed("s".to_string())),
        said(BLITZ_ERR_NETWORK, "GET https://x/y: s")
    );
    assert_eq!(
        err(FetchReply::BodyFailed("b".to_string())),
        said(BLITZ_ERR_NETWORK, "body of https://x/y: b")
    );
}

#[test]
fn fetched_documents_have_their_url_as_base() {
    let job = || -> UrlJob { blitz_render_url(true, Some(b"example.com"), None, true).unwrap() };
    let rendered: RenderJob = fetched_job(job(), FetchReply::Text("t".to_string())).unwrap();
    assert_eq!(rendered.html, "t");
    assert_eq!(rendered.base_url.as_deref(), Some("https://example.com/"));
    assert_eq!(
        refusal(fetched_job(job(), FetchReply::SendFailed("s".to_string()))).1,
        "GET https://example.com/: s"
    );
}

#[test]
fn failed_renders_leave_the_image_alone() {
    let mut out = BlitzImage { data: Some(vec![1]), width: 2, height: 3, stride: 4 };
    let failed = deliver_image(&mut out, Err(Failure::new(BLITZ_ERR_RENDER, "short")));
    assert_eq!(refusal(failed), said(BLITZ_ERR_RENDER, "short"));
    assert_eq!((out.data.as_deref(), out.width, out.height, out.stride), (Some(&[1u8][..]), 2, 3, 4));
    let image = BlitzImage { data: Some(vec![5]), width: 6, height: 7, stride: 8 };
    assert!(deliver_image(&mut out, Ok(image)).is_ok());
    assert_eq!((out.data.as_deref(), out.width, out.height, out.stride), (Some(&[5u8][..]), 6, 7, 8));
}
