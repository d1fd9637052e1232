//! The built-in stylesheet of markdown documents.

use vstd::prelude::*;
use vstd::string::*;

use crate::text;

verus! {

/// Default stylesheet applied when the caller doesn't supply one.
pub const DEFAULT_STYLESHEET: &'static str = r#"
:root {
  color-scheme: light dark;
  --fg: #1f2328;
  --fg-muted: #59636e;
  --bg: #ffffff;
  --border: #d1d9e0;
  --code-bg: #f6f8fa;
  --link: #0969da;
}

@media (prefers-color-scheme: dark) {
  :root {
    --fg: #d1d7e0;
    --fg-muted: #9198a1;
    --bg: #0d1117;
    --border: #3d444d;
    --code-bg: #151b23;
    --link: #4493f8;
  }
}

html { background: var(--bg); }

body {
  margin: 0;
  padding: 40px;
  color: var(--fg);
  background: var(--bg);
  font-family: -apple-system, BlinkMacSystemFont, "Segoe UI", "Noto Sans",
               "DejaVu Sans", Helvetica, Arial, sans-serif;
  font-size: 16px;
  line-height: 1.6;
  word-wrap: break-word;
}

h1, h2, h3, h4, h5, h6 {
  margin-top: 24px;
  margin-bottom: 16px;
  font-weight: 600;
  line-height: 1.25;
}

h1 { font-size: 2em; padding-bottom: 0.3em; border-bottom: 1px solid var(--border); }
h2 { font-size: 1.5em; padding-bottom: 0.3em; border-bottom: 1px solid var(--border); }
h3 { font-size: 1.25em; }
h4 { font-size: 1em; }
h5 { font-size: 0.875em; }
h6 { font-size: 0.85em; color: var(--fg-muted); }

body > *:first-child { margin-top: 0; }
body > *:last-child { margin-bottom: 0; }

p, blockquote, ul, ol, dl, table, pre { margin-top: 0; margin-bottom: 16px; }

a { color: var(--link); text-decoration: none; }

strong { font-weight: 600; }

blockquote {
  padding: 0 1em;
  color: var(--fg-muted);
  border-left: 0.25em solid var(--border);
}

ul, ol { padding-left: 2em; }
li + li { margin-top: 0.25em; }
li > p { margin-bottom: 0; }

code, pre, tt {
  font-family: ui-monospace, "SFMono-Regular", "Liberation Mono",
               "DejaVu Sans Mono", Menlo, Consolas, monospace;
  font-size: 0.85em;
}

code {
  padding: 0.2em 0.4em;
  background: var(--code-bg);
  border-radius: 6px;
}

pre {
  padding: 16px;
  overflow: auto;
  line-height: 1.45;
  background: var(--code-bg);
  border-radius: 6px;
}

pre > code {
  padding: 0;
  background: transparent;
  border-radius: 0;
}

table {
  display: table;
  border-collapse: collapse;
  border-spacing: 0;
  max-width: 100%;
}

th, td {
  padding: 6px 13px;
  border: 1px solid var(--border);
}

th { font-weight: 600; background: var(--code-bg); }

hr {
  height: 0.25em;
  padding: 0;
  margin: 24px 0;
  background: var(--border);
  border: 0;
}

img { max-width: 100%; }

del { text-decoration: line-through; }

/* Task list checkboxes are emitted as <input type="checkbox" disabled>. */
input[type="checkbox"] { margin-right: 0.5em; }

.footnote-definition { font-size: 0.85em; color: var(--fg-muted); }
.footnote-definition p { display: inline; }
"#;

/// The built-in stylesheet is a C string in full, for it holds no NUL, and nothing in it
/// closes a style element: its one `<` begins no end tag.
pub proof fn law_default_stylesheet_is_plain()
    ensures
        DEFAULT_STYLESHEET@.len() > 0,
        !DEFAULT_STYLESHEET@.contains('\0'),
        !text::occurs(DEFAULT_STYLESHEET@, "</style"@),
{
    let css = DEFAULT_STYLESHEET@;
    reveal_strlit("</style");
    reveal_strlit(
        r#"
:root {
  color-scheme: light dark;
  --fg: #1f2328;
  --fg-muted: #59636e;
  --bg: #ffffff;
  --border: #d1d9e0;
  --code-bg: #f6f8fa;
  --link: #0969da;
}

@media (prefers-color-scheme: dark) {
  :root {
    --fg: #d1d7e0;
    --fg-muted: #9198a1;
    --bg: #0d1117;
    --border: #3d444d;
    --code-bg: #151b23;
    --link: #4493f8;
  }
}

html { background: var(--bg); }

body {
  margin: 0;
  padding: 40px;
  color: var(--fg);
  background: var(--bg);
  font-family: -apple-system, BlinkMacSystemFont, "Segoe UI", "Noto Sans",
               "DejaVu Sans", Helvetica, Arial, sans-serif;
  font-size: 16px;
  line-height: 1.6;
  word-wrap: break-word;
}

h1, h2, h3, h4, h5, h6 {
  margin-top: 24px;
  margin-bottom: 16px;
  font-weight: 600;
  line-height: 1.25;
}

h1 { font-size: 2em; padding-bottom: 0.3em; border-bottom: 1px solid var(--border); }
h2 { font-size: 1.5em; padding-bottom: 0.3em; border-bottom: 1px solid var(--border); }
h3 { font-size: 1.25em; }
h4 { font-size: 1em; }
h5 { font-size: 0.875em; }
h6 { font-size: 0.85em; color: var(--fg-muted); }

body > *:first-child { margin-top: 0; }
body > *:last-child { margin-bottom: 0; }

p, blockquote, ul, ol, dl, table, pre { margin-top: 0; margin-bottom: 16px; }

a { color: var(--link); text-decoration: none; }

strong { font-weight: 600; }

blockquote {
  padding: 0 1em;
  color: var(--fg-muted);
  border-left: 0.25em solid var(--border);
}

ul, ol { padding-left: 2em; }
li + li { margin-top: 0.25em; }
li > p { margin-bottom: 0; }

code, pre, tt {
  font-family: ui-monospace, "SFMono-Regular", "Liberation Mono",
               "DejaVu Sans Mono", Menlo, Consolas, monospace;
  font-size: 0.85em;
}

code {
  padding: 0.2em 0.4em;
  background: var(--code-bg);
  border-radius: 6px;
}

pre {
  padding: 16px;
  overflow: auto;
  line-height: 1.45;
  background: var(--code-bg);
  border-radius: 6px;
}

pre > code {
  padding: 0;
  background: transparent;
  border-radius: 0;
}

table {
  display: table;
  border-collapse: collapse;
  border-spacing: 0;
  max-width: 100%;
}

th, td {
  padding: 6px 13px;
  border: 1px solid var(--border);
}

th { font-weight: 600; background: var(--code-bg); }

hr {
  height: 0.25em;
  padding: 0;
  margin: 24px 0;
  background: var(--border);
  border: 0;
}

img { max-width: 100%; }

del { text-decoration: line-through; }

/* Task list checkboxes are emitted as <input type="checkbox" disabled>. */
input[type="checkbox"] { margin-right: 0.5em; }

.footnote-definition { font-size: 0.85em; color: var(--fg-muted); }
.footnote-definition p { display: inline; }
"#,
    );
    assert forall|i: int| 0 <= i < css.len() implies css[i] != '\0' by {}
    assert forall|i: int| !text::occurs_at(css, "</style"@, i) by {
        if text::occurs_at(css, "</style"@, i) {
            assert(css.subrange(i, i + 7)[0] == css[i]);
            assert(css.subrange(i, i + 7)[1] == css[i + 1]);
        }
    }
}

} // verus!
