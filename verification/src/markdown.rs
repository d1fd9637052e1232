//! Markdown support: GFM-flavoured parsing plus a default stylesheet, wrapped
//! into a standalone HTML document.

use vstd::prelude::*;
use vstd::string::*;

use crate::stylesheet::DEFAULT_STYLESHEET;
use crate::text;

verus! {

/// Which extensions of the markdown syntax are on.
#[derive(Clone, Copy, Debug, PartialEq, Eq, Structural)]
pub struct ParserOptions {
    pub tables: bool,
    pub footnotes: bool,
    pub strikethrough: bool,
    pub tasklists: bool,
    pub smart_punctuation: bool,
    pub heading_attributes: bool,
}

/// The HTML that `pulldown_cmark` renders markdown to, with the named extensions
/// on or off and all others off.
pub uninterp spec fn rendered_markdown(
    markdown: Seq<char>,
    tables: bool,
    footnotes: bool,
    strikethrough: bool,
    tasklists: bool,
    smart_punctuation: bool,
    heading_attributes: bool,
) -> Seq<char>;

/// `pulldown_cmark::html::push_html` over the events of
/// `pulldown_cmark::Parser::new_ext`, into an empty string. What it writes depends
/// on the markdown and the extensions alone.
#[verifier::external_body]
fn push_html(markdown: &str, on: ParserOptions) -> (body: String)
    ensures
        body@ == rendered_markdown(
            markdown@,
            on.tables,
            on.footnotes,
            on.strikethrough,
            on.tasklists,
            on.smart_punctuation,
            on.heading_attributes,
        ),
{
    let mut options = pulldown_cmark::Options::empty();
    options.set(pulldown_cmark::Options::ENABLE_TABLES, on.tables);
    options.set(pulldown_cmark::Options::ENABLE_FOOTNOTES, on.footnotes);
    options.set(pulldown_cmark::Options::ENABLE_STRIKETHROUGH, on.strikethrough);
    options.set(pulldown_cmark::Options::ENABLE_TASKLISTS, on.tasklists);
    options.set(pulldown_cmark::Options::ENABLE_SMART_PUNCTUATION, on.smart_punctuation);
    options.set(pulldown_cmark::Options::ENABLE_HEADING_ATTRIBUTES, on.heading_attributes);
    let mut body = String::new();
    pulldown_cmark::html::push_html(&mut body, pulldown_cmark::Parser::new_ext(markdown, options));
    body
}

/// The extensions that documents are parsed with.
pub fn parser_options() -> (on: ParserOptions)
    ensures
        on == (ParserOptions {
            tables: true,
            footnotes: true,
            strikethrough: true,
            tasklists: true,
            smart_punctuation: true,
            heading_attributes: true,
        }),
{
    ParserOptions {
        tables: true,
        footnotes: true,
        strikethrough: true,
        tasklists: true,
        smart_punctuation: true,
        heading_attributes: true,
    }
}

/// What could close a style element early.
pub open spec fn style_close() -> Seq<char> {
    "</style"@
}

/// A stylesheet with every `</style` in it defused.
pub open spec fn escaped_css(css: Seq<char>) -> Seq<char> {
    text::replaced(css, "</style"@, "<\\/style"@)
}

/// The style element of a stylesheet; an empty stylesheet has none.
pub open spec fn style_element(css: Seq<char>) -> Seq<char> {
    if css.len() == 0 {
        Seq::empty()
    } else {
        "<style>\n"@ + escaped_css(css) + "\n</style>\n"@
    }
}

/// A complete HTML document.
pub open spec fn document(css: Seq<char>, body: Seq<char>) -> Seq<char> {
    "<!DOCTYPE html>\n<html>\n<head>\n<meta charset=\"utf-8\">\n"@ + style_element(css)
        + "</head>\n<body>\n"@ + body + "\n</body>\n</html>\n"@
}

/// The stylesheet in force: the built-in one where none is given.
pub open spec fn chosen_css(stylesheet: Option<Seq<char>>) -> Seq<char> {
    match stylesheet {
        Some(css) => css,
        None => DEFAULT_STYLESHEET@,
    }
}

/// The document that markdown becomes.
pub open spec fn markdown_document(markdown: Seq<char>, stylesheet: Option<Seq<char>>) -> Seq<
    char,
> {
    document(
        chosen_css(stylesheet),
        rendered_markdown(markdown, true, true, true, true, true, true),
    )
}

/// Wraps rendered markdown into a document.
pub fn wrap_document(css: &str, body: &str) -> (doc: String)
    ensures
        doc@ == document(css@, body@),
{
    let mut doc = "<!DOCTYPE html>\n<html>\n<head>\n<meta charset=\"utf-8\">\n".to_owned();
    let ghost head = doc@;
    if !css.is_empty() {
        proof {
            reveal_strlit("</style");
        }
        doc.append("<style>\n");
        doc.append(text::replace_text(css, "</style", "<\\/style").as_str());
        doc.append("\n</style>\n");
    }
    assert(doc@ =~= head + style_element(css@));
    doc.append("</head>\n<body>\n");
    doc.append(body);
    doc.append("\n</body>\n</html>\n");
    doc
}

/// Converts markdown into a complete HTML document, styled and ready to lay out.
///
/// `stylesheet` of `None` uses the built-in one; an empty one produces an unstyled
/// document, which is occasionally what you want if the markdown itself carries a
/// style block.
pub fn to_html_document(markdown: &str, stylesheet: Option<&str>) -> (doc: String)
    ensures
        doc@ == markdown_document(markdown@, crate::arguments::text_of(stylesheet)),
{
    let css = match stylesheet {
        Some(s) => s,
        None => DEFAULT_STYLESHEET,
    };
    let body = push_html(markdown, parser_options());
    wrap_document(css, body.as_str())
}

/// The built-in stylesheet, terminated by a NUL.
pub fn blitz_default_markdown_stylesheet() -> (s: String)
    ensures
        s@ == DEFAULT_STYLESHEET@.push('\0'),
{
    let mut s = DEFAULT_STYLESHEET.to_owned();
    s.push('\0');
    s
}

/// Where an escaped stylesheet begins with characters other than `<`, so did the
/// stylesheet.
proof fn lemma_plain_prefix(s: Seq<char>, plain: Seq<char>)
    requires
        forall|j: int| 0 <= j < plain.len() ==> plain[j] != '<',
        text::occurs_at(escaped_css(s), plain, 0),
    ensures
        text::occurs_at(s, plain, 0),
    decreases plain.len(),
{
    reveal_strlit("</style");
    reveal_strlit("<\\/style");
    let out = escaped_css(s);
    if plain.len() == 0 {
        assert(s.subrange(0, 0) =~= plain);
    } else {
        assert(out[0] == out.subrange(0, plain.len() as int)[0]);
        assert(out[0] == plain[0]);
        assert(out =~= seq![s[0]] + escaped_css(s.skip(1)));
        let rest = escaped_css(s.skip(1));
        let tail = plain.skip(1);
        assert(rest.subrange(0, tail.len() as int) =~= out.subrange(0, plain.len() as int).skip(1));
        lemma_plain_prefix(s.skip(1), tail);
        assert(s.subrange(0, plain.len() as int) =~= seq![s[0]] + s.skip(1).subrange(
            0,
            tail.len() as int,
        ));
        assert(plain =~= seq![plain[0]] + tail);
    }
}

/// No stylesheet can close its style element early: once escaped it holds no
/// `</style`.
pub proof fn law_escaped_css_stays_open(css: Seq<char>)
    ensures
        !text::occurs(escaped_css(css), style_close()),
    decreases css.len(),
{
    reveal_strlit("</style");
    reveal_strlit("<\\/style");
    let out = escaped_css(css);
    let p = style_close();
    let w = "<\\/style"@;
    if css.len() == 0 {
        assert forall|i: int| !text::occurs_at(out, p, i) by {}
    } else if text::occurs_at(css, p, 0) {
        let rest = escaped_css(css.skip(7));
        law_escaped_css_stays_open(css.skip(7));
        assert(out =~= w + rest);
        assert forall|i: int| !text::occurs_at(out, p, i) by {
            if text::occurs_at(out, p, i) {
                assert(out.subrange(i, i + 7)[0] == '<');
                assert(out.subrange(i, i + 7)[1] == '/');
                if i >= 8 {
                    assert(rest.subrange(i - 8, i - 8 + 7) =~= out.subrange(i, i + 7));
                    assert(text::occurs_at(rest, p, i - 8));
                } else {
                    assert(w[i] == '<');
                    assert(w[1] == '/');
                }
            }
        }
    } else {
        let rest = escaped_css(css.skip(1));
        law_escaped_css_stays_open(css.skip(1));
        assert(out =~= seq![css[0]] + rest);
        assert forall|i: int| !text::occurs_at(out, p, i) by {
            if text::occurs_at(out, p, i) {
                if i >= 1 {
                    assert(rest.subrange(i - 1, i - 1 + 7) =~= out.subrange(i, i + 7));
                    assert(text::occurs_at(rest, p, i - 1));
                } else {
                    let plain = p.skip(1);
                    assert(rest.subrange(0, 6) =~= out.subrange(0, 7).skip(1));
                    lemma_plain_prefix(css.skip(1), plain);
                    assert(out.subrange(0, 7)[0] == '<');
                    assert(css.subrange(0, 7) =~= seq![css[0]] + css.skip(1).subrange(0, 6));
                    assert(p =~= seq!['<'] + plain);
                    assert(text::occurs_at(css, p, 0));
                }
            }
        }
    }
}

/// A stylesheet that holds no `</style` is used verbatim.
pub proof fn law_stylesheet_is_verbatim(css: Seq<char>)
    requires
        !text::occurs(css, style_close()),
    ensures
        escaped_css(css) == css,
    decreases css.len(),
{
    reveal_strlit("</style");
    if css.len() > 0 {
        let rest = css.skip(1);
        assert(!text::occurs_at(css, style_close(), 0));
        assert forall|i: int| !text::occurs_at(rest, style_close(), i) by {
            if text::occurs_at(rest, style_close(), i) {
                assert(css.subrange(i + 1, i + 8) =~= rest.subrange(i, i + 7));
                assert(text::occurs_at(css, style_close(), i + 1));
            }
        }
        law_stylesheet_is_verbatim(rest);
        assert(css =~= seq![css[0]] + rest);
    }
}

/// The built-in stylesheet is used verbatim, and its NUL-terminated form ends at its one
/// NUL.
pub proof fn law_default_stylesheet_is_verbatim()
    ensures
        escaped_css(DEFAULT_STYLESHEET@) == DEFAULT_STYLESHEET@,
        forall|i: int|
            0 <= i <= DEFAULT_STYLESHEET@.len() ==> (#[trigger] DEFAULT_STYLESHEET@.push('\0')[i]
                == '\0' <==> i == DEFAULT_STYLESHEET@.len()),
{
    let css = DEFAULT_STYLESHEET@;
    crate::stylesheet::law_default_stylesheet_is_plain();
    law_stylesheet_is_verbatim(css);
    assert forall|i: int| 0 <= i <= css.len() implies (#[trigger] css.push('\0')[i] == '\0' <==> i
        == css.len()) by {
        if i < css.len() {
            assert(css.contains(css[i]));
        }
    }
}

/// A style element is closed once, by its own end tag.
pub proof fn law_style_element_closes_once(css: Seq<char>, i: int)
    requires
        css.len() > 0,
    ensures
        text::occurs_at(style_element(css), style_close(), i) <==> i == escaped_css(css).len() + 9,
{
    reveal_strlit("</style");
    reveal_strlit("<style>\n");
    reveal_strlit("\n</style>\n");
    let inner = escaped_css(css);
    let all = style_element(css);
    let n = inner.len() as int;
    let p = style_close();
    law_escaped_css_stays_open(css);
    if i == n + 9 {
        assert(all.subrange(i, i + 7) =~= p);
    } else if text::occurs_at(all, p, i) {
        let found = all.subrange(i, i + 7);
        assert(found[0] == all[i]);
        assert(found[1] == all[i + 1]);
        if i < 8 {
            assert(all[i] == "<style>\n"@[i]);
            assert(i == 0);
            assert(all[1] == 's');
        } else if i + 7 <= n + 8 {
            assert(inner.subrange(i - 8, i - 8 + 7) =~= found);
            assert(text::occurs_at(inner, p, i - 8));
        } else if i <= n + 8 {
            let j = n + 8 - i;
            assert(found[j] == all[n + 8]);
            assert(p[j] == '\n');
        } else {
            assert(all[i] == "\n</style>\n"@[i - n - 8]);
        }
    }
}

/// A document starts with its doctype and holds the rendered body between its body
/// tags.
pub proof fn law_document_wraps_body(css: Seq<char>, body: Seq<char>)
    ensures
        text::occurs_at(document(css, body), "<!DOCTYPE html>"@, 0),
        text::occurs(document(css, body), "<body>\n"@ + body + "\n</body>"@),
{
    reveal_strlit("<!DOCTYPE html>");
    reveal_strlit("<!DOCTYPE html>\n<html>\n<head>\n<meta charset=\"utf-8\">\n");
    reveal_strlit("</head>\n<body>\n");
    reveal_strlit("<body>\n");
    reveal_strlit("\n</body>\n</html>\n");
    reveal_strlit("\n</body>");
    let doc = document(css, body);
    assert(doc.subrange(0, 15) =~= "<!DOCTYPE html>"@);
    let head = "<!DOCTYPE html>\n<html>\n<head>\n<meta charset=\"utf-8\">\n"@ + style_element(css);
    let wanted = "<body>\n"@ + body + "\n</body>"@;
    let i = head.len() as int + 8;
    assert(doc.subrange(i, i + wanted.len()) =~= wanted);
    assert(text::occurs_at(doc, wanted, i));
}

/// An empty stylesheet leaves the style element out altogether.
pub proof fn law_empty_stylesheet_has_no_style_element(body: Seq<char>)
    ensures
        document(Seq::empty(), body)
            == "<!DOCTYPE html>\n<html>\n<head>\n<meta charset=\"utf-8\">\n"@ + "</head>\n<body>\n"@
            + body + "\n</body>\n</html>\n"@,
{
    assert(document(Seq::empty(), body)
        =~= "<!DOCTYPE html>\n<html>\n<head>\n<meta charset=\"utf-8\">\n"@ + "</head>\n<body>\n"@
        + body + "\n</body>\n</html>\n"@);
}

} // verus!
