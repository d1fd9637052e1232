use blitz::markdown::{parser_options, to_html_document, wrap_document};
use blitz::stylesheet::DEFAULT_STYLESHEET;
use blitz::text::replace_text;
use blitz::{blitz_default_markdown_stylesheet, blitz_markdown_to_html, BlitzBuffer};
use blitz::{BLITZ_ERR_INVALID_ARG, BLITZ_ERR_INVALID_UTF8};

#[test]
fn wraps_body_in_a_document() {
    let out = to_html_document("# Hi", None);
    assert!(out.starts_with("<!DOCTYPE html>"));
    assert!(out.contains("<h1>Hi</h1>"));
    assert!(out.contains("--fg"));
}

#[test]
fn gfm_extensions_are_on() {
    let out = to_html_document("| a |\n| - |\n| 1 |\n\n~~x~~", None);
    assert!(out.contains("<table>"));
    assert!(out.contains("<del>"));
}

#[test]
fn empty_stylesheet_omits_the_style_element() {
    let out = to_html_document("# Hi", Some(""));
    assert!(!out.contains("<style>"));
}

#[test]
fn document_is_exact() {
    assert_eq!(
        wrap_document("p{}", "<p>x</p>\n"),
        "<!DOCTYPE html>\n<html>\n<head>\n<meta charset=\"utf-8\">\n<style>\np{}\n</style>\n\
         </head>\n<body>\n<p>x</p>\n\n</body>\n</html>\n"
    );
    assert_eq!(
        wrap_document("", "b"),
        "<!DOCTYPE html>\n<html>\n<head>\n<meta charset=\"utf-8\">\n</head>\n<body>\nb\n</body>\n</html>\n"
    );
}

#[test]
fn every_extension_is_on() {
    let on = parser_options();
    assert!(on.tables && on.footnotes && on.strikethrough);
    assert!(on.tasklists && on.smart_punctuation && on.heading_attributes);
    let out = to_html_document(
        "# T {#anchor}\n\n- [x] done\n\n\"quoted\" -- text[^n]\n\n[^n]: note\n",
        Some(""),
    );
    assert!(out.contains("<h1 id=\"anchor\">T</h1>"));
    assert!(out.contains("type=\"checkbox\""));
    assert!(out.contains("\u{201c}quoted\u{201d} \u{2013} text"));
    assert!(out.contains("footnote-reference"));
    assert!(out.contains("footnote-definition"));
}

#[test]
fn stylesheet_cannot_close_its_element() {
    let out = to_html_document("x", Some("a</style>b</style</style"));
    let end = out.find("\n</style>\n").unwrap();
    assert_eq!(out.find("</style").unwrap(), end + 1);
    assert!(out.contains("a<\\/style>b<\\/style<\\/style"));
    assert_eq!(out.matches("</style").count(), 1);
}

#[test]
fn upper_case_end_tag_is_passed_through() {
    assert!(to_html_document("x", Some("</STYLE>")).contains("<style>\n</STYLE>\n</style>"));
}

#[test]
fn replacement_is_from_the_left() {
    assert_eq!(replace_text("aaa", "aa", "b"), "ba");
    assert_eq!(replace_text("\u{e9}x\u{e9}", "x", "yy"), "\u{e9}yy\u{e9}");
    assert_eq!(replace_text("", "x", "y"), "");
    assert_eq!(replace_text("</sty</style", "</style", "<\\/style"), "</sty<\\/style");
}

#[test]
fn default_stylesheet_ends_in_one_nul() {
    let s = blitz_default_markdown_stylesheet();
    assert_eq!(s.as_str(), format!("{}\0", DEFAULT_STYLESHEET));
    assert_eq!(s.matches('\0').count(), 1);
    assert!(DEFAULT_STYLESHEET.starts_with("\n:root {\n  color-scheme: light dark;"));
    assert!(DEFAULT_STYLESHEET.ends_with(".footnote-definition p { display: inline; }\n"));
}

#[test]
fn markdown_to_html_fills_the_buffer() {
    let mut buf = BlitzBuffer { data: None };
    assert!(blitz_markdown_to_html(Some(b"# Hi"), None, Some(&mut buf)).is_ok());
    let bytes = buf.data.unwrap();
    assert_eq!(String::from_utf8(bytes).unwrap(), to_html_document("# Hi", None));

    let mut buf = BlitzBuffer { data: None };
    assert!(blitz_markdown_to_html(Some(b"*x*"), Some(b""), Some(&mut buf)).is_ok());
    assert_eq!(
        buf.data.unwrap(),
        b"<!DOCTYPE html>\n<html>\n<head>\n<meta charset=\"utf-8\">\n</head>\n<body>\n\
          <p><em>x</em></p>\n\n</body>\n</html>\n"
    );
}

#[test]
fn markdown_to_html_refuses_bad_arguments() {
    let f = blitz_markdown_to_html(None, None, None).unwrap_err();
    assert_eq!((f.code, f.message.as_str()), (BLITZ_ERR_INVALID_ARG, "out is NULL"));

    let mut buf = BlitzBuffer { data: Some(vec![7]) };
    let f = blitz_markdown_to_html(None, None, Some(&mut buf)).unwrap_err();
    assert_eq!((f.code, f.message.as_str()), (BLITZ_ERR_INVALID_ARG, "markdown is NULL"));
    let f = blitz_markdown_to_html(Some(b"\xff"), None, Some(&mut buf)).unwrap_err();
    assert_eq!(
        (f.code, f.message.as_str()),
        (BLITZ_ERR_INVALID_UTF8, "markdown is not valid UTF-8")
    );
    let f = blitz_markdown_to_html(Some(b"x"), Some(b"\xc0\x80"), Some(&mut buf)).unwrap_err();
    assert_eq!(
        (f.code, f.message.as_str()),
        (BLITZ_ERR_INVALID_UTF8, "stylesheet is not valid UTF-8")
    );
    assert_eq!(buf.data, Some(vec![7]));
}

#[test]
fn default_stylesheet_stands_verbatim() {
    assert!(!DEFAULT_STYLESHEET.contains('\0'));
    assert!(!DEFAULT_STYLESHEET.contains("</style"));
    let styled = format!("<style>\n{}\n</style>", DEFAULT_STYLESHEET);
    assert!(to_html_document("x", None).contains(&styled));
}
