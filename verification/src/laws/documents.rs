//! Laws of markdown documents.

use vstd::prelude::*;
use vstd::string::*;

use crate::markdown;
use crate::markdown::{
    blitz_default_markdown_stylesheet, parser_options, to_html_document, wrap_document,
    ParserOptions,
};
use crate::stylesheet;
use crate::stylesheet::DEFAULT_STYLESHEET;
use crate::text;
use crate::text::replace_text;

verus! {

/// A document is a head and a body, and the body is what the parser renders from the
/// very markdown that was given, with all six extensions on.
pub proof fn law_body_is_the_rendered_markdown(source: &str, stylesheet: Option<&str>, doc: String)
    requires
        call_ensures(to_html_document, (source, stylesheet), doc),
    ensures
        exists|style: Seq<char>|
            doc@ == #[trigger] page(
                style,
                markdown::rendered_markdown(source@, true, true, true, true, true, true),
            ),
{
    let css = match stylesheet {
        Some(s) => s@,
        None => DEFAULT_STYLESHEET@,
    };
    let body = markdown::rendered_markdown(source@, true, true, true, true, true, true);
    assert(doc@ == page(markdown::style_element(css), body));
}

/// The text holds `</style`, as it is written here.
pub open spec fn holds_end_tag(s: Seq<char>) -> bool {
    exists|i: int| 0 <= i && i + 7 <= s.len() && #[trigger] s.subrange(i, i + 7) == "</style"@
}

/// Holding the end tag is an occurrence of it.
proof fn lemma_end_tag(s: Seq<char>)
    ensures
        holds_end_tag(s) <==> text::occurs(s, "</style"@),
{
    reveal_strlit("</style");
    if holds_end_tag(s) {
        let i = choose|i: int|
            0 <= i && i + 7 <= s.len() && #[trigger] s.subrange(i, i + 7) == "</style"@;
        assert(text::occurs_at(s, "</style"@, i));
    }
    if text::occurs(s, "</style"@) {
        let i = choose|i: int| text::occurs_at(s, "</style"@, i);
        assert(s.subrange(i, i + 7) == "</style"@);
    }
}

/// A page with this in its head, after the character set, and this as its body.
pub open spec fn page(style: Seq<char>, body: Seq<char>) -> Seq<char> {
    "<!DOCTYPE html>\n<html>\n<head>\n<meta charset=\"utf-8\">\n"@ + style + "</head>\n<body>\n"@
        + body + "\n</body>\n</html>\n"@
}

/// A stylesheet that cannot end its element stands verbatim in a style element, in place
/// of the built-in one, whatever the markdown is.
pub proof fn law_own_stylesheet_is_used_verbatim(source: &str, css: &str, doc: String)
    requires
        call_ensures(to_html_document, (source, Some(css)), doc),
        css@.len() > 0,
        !holds_end_tag(css@),
    ensures
        doc@ == page(
            "<style>\n"@ + css@ + "\n</style>\n"@,
            markdown::rendered_markdown(source@, true, true, true, true, true, true),
        ),
{
    lemma_end_tag(css@);
    markdown::law_stylesheet_is_verbatim(css@);
}

/// An empty stylesheet leaves the document without any, whatever the markdown is.
pub proof fn law_empty_stylesheet_leaves_none(source: &str, css: &str, doc: String)
    requires
        call_ensures(to_html_document, (source, Some(css)), doc),
        css@.len() == 0,
    ensures
        doc@ == page(
            Seq::empty(),
            markdown::rendered_markdown(source@, true, true, true, true, true, true),
        ),
{
}

/// Without a stylesheet the built-in one stands in the document, in full.
pub proof fn law_no_stylesheet_means_the_built_in_one(source: &str, doc: String)
    requires
        call_ensures(to_html_document, (source, None), doc),
    ensures
        doc@ == page(
            "<style>\n"@ + DEFAULT_STYLESHEET@ + "\n</style>\n"@,
            markdown::rendered_markdown(source@, true, true, true, true, true, true),
        ),
{
    reveal_strlit("</style");
    markdown::law_default_stylesheet_is_verbatim();
    stylesheet::law_default_stylesheet_is_plain();
}

/// The style element of a document depends on the stylesheet alone, and its body on the
/// markdown alone: two documents of one stylesheet differ at most in their bodies.
pub proof fn law_style_and_body_do_not_mix(
    a: &str,
    b: &str,
    stylesheet: Option<&str>,
    doc_a: String,
    doc_b: String,
)
    requires
        call_ensures(to_html_document, (a, stylesheet), doc_a),
        call_ensures(to_html_document, (b, stylesheet), doc_b),
    ensures
        exists|style: Seq<char>|
            doc_a@ == page(
                style,
                markdown::rendered_markdown(a@, true, true, true, true, true, true),
            ) && doc_b@ == #[trigger] page(
                style,
                markdown::rendered_markdown(b@, true, true, true, true, true, true),
            ),
{
    let css = match stylesheet {
        Some(s) => s@,
        None => DEFAULT_STYLESHEET@,
    };
    let style = markdown::style_element(css);
    assert(doc_a@ == page(
        style,
        markdown::rendered_markdown(a@, true, true, true, true, true, true),
    ));
    assert(doc_b@ == page(
        style,
        markdown::rendered_markdown(b@, true, true, true, true, true, true),
    ));
}

/// Wrapping keeps the body as it is, and a stylesheet that cannot end its element too.
pub proof fn law_wrapping_keeps_the_body(css: &str, body: &str, doc: String)
    requires
        call_ensures(wrap_document, (css, body), doc),
        !holds_end_tag(css@),
    ensures
        doc@ == page(
            if css@.len() == 0 {
                Seq::empty()
            } else {
                "<style>\n"@ + css@ + "\n</style>\n"@
            },
            body@,
        ),
{
    lemma_end_tag(css@);
    markdown::law_stylesheet_is_verbatim(css@);
}

/// Only what could end the element is changed in a stylesheet: it is kept up to the first
/// `</style`, which gets a backslash, and what follows is treated in the same way.
pub proof fn law_only_end_tags_are_defused(before: Seq<char>, after: Seq<char>)
    requires
        !holds_end_tag(before),
    ensures
        markdown::escaped_css(before + "</style"@ + after) == before + "<\\/style"@
            + markdown::escaped_css(after),
    decreases before.len(),
{
    reveal_strlit("</style");
    reveal_strlit("<\\/style");
    lemma_end_tag(before);
    let p = "</style"@;
    let css = before + p + after;
    if before.len() == 0 {
        assert(css.subrange(0, 7) =~= p);
        assert(css.skip(7) =~= after);
        assert(before + "<\\/style"@ + markdown::escaped_css(after) =~= "<\\/style"@
            + markdown::escaped_css(after));
    } else {
        let rest = before.skip(1);
        assert forall|i: int| !text::occurs_at(rest, p, i) by {
            if text::occurs_at(rest, p, i) {
                assert(before.subrange(i + 1, i + 8) =~= rest.subrange(i, i + 7));
                assert(text::occurs_at(before, p, i + 1));
            }
        }
        lemma_end_tag(rest);
        law_only_end_tags_are_defused(rest, after);
        assert(css.skip(1) =~= rest + p + after);
        assert(!text::occurs_at(css, p, 0)) by {
            if text::occurs_at(css, p, 0) {
                let found = css.subrange(0, 7);
                assert(found =~= p);
                if before.len() >= 7 {
                    assert(before.subrange(0, 7) =~= found);
                    assert(text::occurs_at(before, p, 0));
                } else {
                    let n = before.len() as int;
                    assert(found[n] == p[0]);
                    assert(p[n] == '<');
                }
            }
        }
        assert(markdown::escaped_css(css) =~= seq![css[0]] + markdown::escaped_css(css.skip(1)));
        assert(before + "<\\/style"@ + markdown::escaped_css(after) =~= seq![before[0]] + (rest
            + "<\\/style"@ + markdown::escaped_css(after)));
    }
}

/// A document whose stylesheet holds an end tag has it defused, once and for all.
pub proof fn law_stylesheet_with_an_end_tag(
    source: &str,
    css: &str,
    doc: String,
    before: Seq<char>,
    after: Seq<char>,
)
    requires
        call_ensures(to_html_document, (source, Some(css)), doc),
        css@ == before + "</style"@ + after,
        !holds_end_tag(before),
    ensures
        doc@ == page(
            "<style>\n"@ + (before + "<\\/style"@ + markdown::escaped_css(after))
                + "\n</style>\n"@,
            markdown::rendered_markdown(source@, true, true, true, true, true, true),
        ),
{
    reveal_strlit("</style");
    law_only_end_tags_are_defused(before, after);
}

/// No document holds an end tag of its stylesheet's own making: the defused stylesheet
/// holds none.
pub proof fn law_defused_stylesheets_hold_no_end_tag(css: Seq<char>)
    ensures
        !holds_end_tag(markdown::escaped_css(css)),
        css.len() > 0 ==> markdown::style_element(css) == "<style>\n"@ + markdown::escaped_css(css)
            + "\n</style>\n"@,
        css.len() == 0 ==> markdown::style_element(css) == Seq::<char>::empty(),
{
    markdown::law_escaped_css_stays_open(css);
    lemma_end_tag(markdown::escaped_css(css));
}

/// All six extensions are on.
pub proof fn law_every_extension_is_on(on: ParserOptions)
    requires
        call_ensures(parser_options, (), on),
    ensures
        on.tables && on.footnotes && on.strikethrough,
        on.tasklists && on.smart_punctuation && on.heading_attributes,
{
}

/// The stylesheet that is handed out is the built-in one with one NUL behind it.
pub proof fn law_handed_out_stylesheet_is_the_built_in_one(s: String)
    requires
        call_ensures(blitz_default_markdown_stylesheet, (), s),
    ensures
        s@ == DEFAULT_STYLESHEET@ + seq!['\0'],
        !DEFAULT_STYLESHEET@.contains('\0'),
{
    stylesheet::law_default_stylesheet_is_plain();
    assert(DEFAULT_STYLESHEET@.push('\0') =~= DEFAULT_STYLESHEET@ + seq!['\0']);
}

/// Replacing keeps a text that the pattern does not occur in.
pub proof fn law_replacing_nothing_keeps_the_text(s: &str, pattern: &str, with: &str, r: String)
    requires
        call_ensures(replace_text, (s, pattern, with), r),
        pattern@.len() > 0,
        forall|i: int|
            0 <= i && i + pattern@.len() <= s@.len() ==> #[trigger] s@.subrange(
                i,
                i + pattern@.len(),
            ) != pattern@,
    ensures
        r@ == s@,
{
    lemma_unchanged(s@, pattern@, with@);
}

/// Replacing goes on behind the first occurrence: what stands there is replaced, and the
/// rest is treated in the same way.
pub proof fn law_replacing_goes_from_the_left(rest: Seq<char>, pattern: Seq<char>, with: Seq<char>)
    requires
        pattern.len() > 0,
    ensures
        text::replaced(pattern + rest, pattern, with) == with + text::replaced(rest, pattern, with),
        rest.len() > 0 && !pattern.is_prefix_of(rest) ==> text::replaced(rest, pattern, with)
            == seq![rest[0]] + text::replaced(rest.skip(1), pattern, with),
{
    assert((pattern + rest).subrange(0, pattern.len() as int) =~= pattern);
    assert((pattern + rest).skip(pattern.len() as int) =~= rest);
}

proof fn lemma_unchanged(s: Seq<char>, pattern: Seq<char>, with: Seq<char>)
    requires
        pattern.len() > 0,
        !text::occurs(s, pattern),
    ensures
        text::replaced(s, pattern, with) == s,
    decreases s.len(),
{
    if s.len() > 0 {
        let rest = s.skip(1);
        let n = pattern.len() as int;
        assert(!text::occurs_at(s, pattern, 0));
        assert forall|i: int| !text::occurs_at(rest, pattern, i) by {
            if text::occurs_at(rest, pattern, i) {
                assert(s.subrange(i + 1, i + 1 + n) =~= rest.subrange(i, i + n));
                assert(text::occurs_at(s, pattern, i + 1));
            }
        }
        lemma_unchanged(rest, pattern, with);
        assert(s =~= seq![s[0]] + rest);
    }
}

} // verus!
