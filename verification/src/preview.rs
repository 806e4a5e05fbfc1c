//! The preview: the document's markdown turned into a page that a browser
//! engine can show.
//!
//! `pulldown_cmark` reads the markdown and writes the HTML of the body. The
//! page around the body, with the style sheet of the preview, is put together
//! here.

use crate::text::joined;
use vstd::prelude::*;
use vstd::string::StringExecFns;

verus! {

/// Tables, as `pulldown_cmark::Options::ENABLE_TABLES` numbers them.
pub const ENABLE_TABLES: u32 = 0x02;

/// Footnotes, as `pulldown_cmark::Options::ENABLE_FOOTNOTES` numbers them.
pub const ENABLE_FOOTNOTES: u32 = 0x04;

/// Strikethrough, as `pulldown_cmark::Options::ENABLE_STRIKETHROUGH` numbers it.
pub const ENABLE_STRIKETHROUGH: u32 = 0x08;

/// Task lists, as `pulldown_cmark::Options::ENABLE_TASKLISTS` numbers them.
pub const ENABLE_TASKLISTS: u32 = 0x10;

/// Smart punctuation, as `pulldown_cmark::Options::ENABLE_SMART_PUNCTUATION`
/// numbers it.
pub const ENABLE_SMART_PUNCTUATION: u32 = 0x20;

/// The extensions to CommonMark that the preview understands.
pub const PREVIEW_EXTENSIONS: u32 = ENABLE_TABLES | ENABLE_FOOTNOTES | ENABLE_STRIKETHROUGH
    | ENABLE_TASKLISTS | ENABLE_SMART_PUNCTUATION;

/// What stands before the body in the page of the preview.
pub const PAGE_HEAD: &'static str = r#"<!DOCTYPE html>
<html>
<head>
    <meta charset="UTF-8">
    <style>
        :root {
            color-scheme: dark;
        }

        body {
            font-family: "Cantarell", "Ubuntu", "Segoe UI", sans-serif;
            font-size: 15px;
            line-height: 1.6;
            padding: 24px;
            max-width: 100%;
            margin: 0;
            background: #1d1d1d;
            color: #f0f0f0;
        }

        h1, h2, h3, h4, h5, h6 {
            margin-top: 1.5em;
            margin-bottom: 0.5em;
            font-weight: 600;
            color: #ffffff;
        }

        h1 { font-size: 2em; border-bottom: 2px solid #E95420; padding-bottom: 0.3em; }
        h2 { font-size: 1.5em; border-bottom: 1px solid #3d3d3d; padding-bottom: 0.3em; }
        h3 { font-size: 1.25em; }
        h4 { font-size: 1em; }

        p {
            margin: 1em 0;
        }

        code {
            font-family: "JetBrainsMono Nerd Font", "JetBrains Mono", "Ubuntu Mono", monospace;
            font-size: 0.9em;
            background: #2d2d2d;
            color: #ff7043;
            padding: 0.2em 0.4em;
            border-radius: 4px;
            word-break: break-word;
        }

        pre {
            background: #2d2d2d;
            padding: 16px;
            border-radius: 8px;
            border-left: 3px solid #E95420;
            overflow-x: auto;
            white-space: pre-wrap;
            word-wrap: break-word;
        }

        pre code {
            background: none;
            padding: 0;
            color: #f0f0f0;
            white-space: pre-wrap;
            word-wrap: break-word;
            display: block;
        }

        blockquote {
            margin: 1em 0;
            padding: 0.5em 1em;
            border-left: 4px solid #E95420;
            background: #252525;
            color: #b0b0b0;
        }

        a {
            color: #E95420;
            text-decoration: none;
        }

        a:hover {
            color: #ff7043;
            text-decoration: underline;
        }

        ul, ol {
            padding-left: 2em;
        }

        li {
            margin: 0.5em 0;
        }

        li::marker {
            color: #E95420;
        }

        table {
            border-collapse: collapse;
            width: 100%;
            margin: 1em 0;
        }

        table th, table td {
            border: 1px solid #3d3d3d;
            padding: 8px 12px;
            text-align: left;
        }

        table th {
            font-weight: 600;
            background: #E95420;
            color: #ffffff;
        }

        tr:nth-child(even) {
            background: #252525;
        }

        hr {
            border: none;
            border-top: 2px solid #E95420;
            margin: 2em 0;
        }

        img {
            max-width: 100%;
            height: auto;
            border-radius: 8px;
        }

        ::selection {
            background: #E95420;
            color: #ffffff;
        }

        /* Task list */
        ul.task-list {
            list-style: none;
            padding-left: 1em;
        }

        input[type="checkbox"] {
            margin-right: 0.5em;
        }
    </style>
</head>
<body>
"#;

/// What stands behind the body in the page of the preview.
pub const PAGE_TAIL: &'static str = r#"
</body>
</html>"#;

/// The HTML that `pulldown_cmark` writes for `markdown` when the extensions in
/// `extensions` are switched on.
pub uninterp spec fn markdown_html(markdown: Seq<char>, extensions: u32) -> Seq<char>;

/// Calls `pulldown_cmark::html::push_html` on an empty string, with the events
/// that `pulldown_cmark::Parser::new_ext` reads from `markdown` under the
/// options whose bits are `extensions`. Trusted: what was written is the HTML
/// of that markdown under those options, and depends on nothing else.
#[verifier::external_body]
fn push_html(markdown: &str, extensions: u32) -> (html: String)
    ensures
        html@ == markdown_html(markdown@, extensions),
{
    let options = pulldown_cmark::Options::from_bits_retain(extensions);
    let mut html = String::new();
    pulldown_cmark::html::push_html(&mut html, pulldown_cmark::Parser::new_ext(markdown, options));
    html
}

/// Renders the body of the preview for `markdown`.
pub fn render_markdown(markdown: &str) -> (html: String)
    ensures
        html@ == markdown_html(markdown@, PREVIEW_EXTENSIONS),
{
    push_html(markdown, PREVIEW_EXTENSIONS)
}

/// The page of the preview around the body `body`.
pub open spec fn spec_preview_page(body: Seq<char>) -> Seq<char> {
    PAGE_HEAD@ + body + PAGE_TAIL@
}

/// Puts the page of the preview around `body`, which is taken as it is.
pub fn preview_page(body: &str) -> (page: String)
    ensures
        page@ == spec_preview_page(body@),
{
    joined(PAGE_HEAD, body).concat(PAGE_TAIL)
}

/// The page that shows `markdown` in the preview pane.
pub fn render_preview(markdown: &str) -> (page: String)
    ensures
        page@ == spec_preview_page(markdown_html(markdown@, PREVIEW_EXTENSIONS)),
{
    let body = render_markdown(markdown);
    preview_page(body.as_str())
}

} // verus!
