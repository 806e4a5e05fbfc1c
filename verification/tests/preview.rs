use mymarkdown::preview::{
    preview_page, render_markdown, render_preview, ENABLE_FOOTNOTES, ENABLE_SMART_PUNCTUATION,
    ENABLE_STRIKETHROUGH, ENABLE_TABLES, ENABLE_TASKLISTS, PAGE_HEAD, PAGE_TAIL,
    PREVIEW_EXTENSIONS,
};
use pulldown_cmark::Options;

#[test]
fn extension_bits_are_those_of_the_parser() {
    assert_eq!(ENABLE_TABLES, Options::ENABLE_TABLES.bits());
    assert_eq!(ENABLE_FOOTNOTES, Options::ENABLE_FOOTNOTES.bits());
    assert_eq!(ENABLE_STRIKETHROUGH, Options::ENABLE_STRIKETHROUGH.bits());
    assert_eq!(ENABLE_TASKLISTS, Options::ENABLE_TASKLISTS.bits());
    assert_eq!(ENABLE_SMART_PUNCTUATION, Options::ENABLE_SMART_PUNCTUATION.bits());
}

#[test]
fn preview_extensions_are_the_five_and_no_more() {
    let mut options = Options::empty();
    options.insert(Options::ENABLE_STRIKETHROUGH);
    options.insert(Options::ENABLE_TABLES);
    options.insert(Options::ENABLE_FOOTNOTES);
    options.insert(Options::ENABLE_TASKLISTS);
    options.insert(Options::ENABLE_SMART_PUNCTUATION);
    assert_eq!(PREVIEW_EXTENSIONS, options.bits());
    assert_eq!(PREVIEW_EXTENSIONS, 62);
}

#[test]
fn render_markdown_writes_html() {
    assert_eq!(render_markdown("# Title"), "<h1>Title</h1>\n");
    assert_eq!(render_markdown("hello *world*"), "<p>hello <em>world</em></p>\n");
    assert_eq!(render_markdown("* alpha\n* beta\n"), "<ul>\n<li>alpha</li>\n<li>beta</li>\n</ul>\n");
}

#[test]
fn render_markdown_of_nothing_is_nothing() {
    assert_eq!(render_markdown(""), "");
}

#[test]
fn render_markdown_escapes_text() {
    assert_eq!(render_markdown("a < b & c"), "<p>a &lt; b &amp; c</p>\n");
}

#[test]
fn render_markdown_knows_strikethrough() {
    assert_eq!(render_markdown("~~gone~~"), "<p><del>gone</del></p>\n");
}

#[test]
fn render_markdown_knows_tables() {
    assert_eq!(
        render_markdown("| a | b |\n|---|---|\n| 1 | 2 |\n"),
        "<table><thead><tr><th>a</th><th>b</th></tr></thead><tbody>\n<tr><td>1</td><td>2</td></tr>\n</tbody></table>\n"
    );
}

#[test]
fn render_markdown_knows_task_lists() {
    let html = render_markdown("- [x] done\n- [ ] open\n");
    assert_eq!(
        html,
        "<ul>\n<li><input disabled=\"\" type=\"checkbox\" checked=\"\"/>\ndone</li>\n<li><input disabled=\"\" type=\"checkbox\"/>\nopen</li>\n</ul>\n"
    );
}

#[test]
fn render_markdown_knows_footnotes() {
    let html = render_markdown("Text[^1].\n\n[^1]: Note.\n");
    assert!(html.contains("<sup class=\"footnote-reference\"><a href=\"#1\">1</a></sup>"));
    assert!(html.contains("<div class=\"footnote-definition\" id=\"1\">"));
}

#[test]
fn render_markdown_sets_smart_punctuation() {
    assert_eq!(render_markdown("\"quote\" -- dash..."), "<p>“quote” – dash…</p>\n");
}

#[test]
fn preview_page_wraps_the_body() {
    assert_eq!(preview_page("<p>x</p>"), format!("{}<p>x</p>{}", PAGE_HEAD, PAGE_TAIL));
    assert_eq!(preview_page(""), format!("{}{}", PAGE_HEAD, PAGE_TAIL));
}

#[test]
fn preview_page_takes_the_body_as_it_is() {
    let page = preview_page("{html_output} & <b>");
    assert!(page.contains("<body>\n{html_output} & <b>\n</body>"));
}

#[test]
fn page_starts_and_ends_as_a_document() {
    assert!(PAGE_HEAD.starts_with("<!DOCTYPE html>\n<html>\n<head>\n    <meta charset=\"UTF-8\">\n    <style>\n"));
    assert!(PAGE_HEAD.ends_with("    </style>\n</head>\n<body>\n"));
    assert_eq!(PAGE_TAIL, "\n</body>\n</html>");
}

#[test]
fn page_carries_the_style_of_the_preview() {
    assert!(PAGE_HEAD.contains("        :root {\n            color-scheme: dark;\n        }\n"));
    assert!(PAGE_HEAD.contains("        h1 { font-size: 2em; border-bottom: 2px solid #E95420; padding-bottom: 0.3em; }\n"));
    assert!(PAGE_HEAD.contains("            background: #1d1d1d;\n            color: #f0f0f0;\n"));
    assert!(PAGE_HEAD.contains("        input[type=\"checkbox\"] {\n            margin-right: 0.5em;\n        }\n"));
    assert!(!PAGE_HEAD.contains("{{"));
    assert!(!PAGE_HEAD.contains("}}"));
    assert_eq!(PAGE_HEAD.len(), 3224);
}

#[test]
fn render_preview_is_the_page_of_the_rendered_body() {
    assert_eq!(
        render_preview("# Title"),
        format!("{}<h1>Title</h1>\n{}", PAGE_HEAD, PAGE_TAIL)
    );
    assert_eq!(render_preview(""), format!("{}{}", PAGE_HEAD, PAGE_TAIL));
}
