use docrender::render::{render_events, render_markdown};
use docrender::event::{Heading, Level, MdEvent};
use docrender::rewrite::Defect;
use docrender::sanitize::SafeHtml;

fn render(content: &str) -> String {
    render_markdown(content).map(SafeHtml::into_string).expect("the body renders")
}

/// The names of the attributes that stand in the tags of `html`.
fn attribute_names(html: &str) -> Vec<String> {
    let mut names = Vec::new();
    let mut rest = html;
    while let Some(open) = rest.find('<') {
        let tag_end = rest[open..].find('>').map(|at| open + at).unwrap_or(rest.len());
        let tag = &rest[open + 1..tag_end];
        let mut in_value = false;
        let mut words = String::new();
        for c in tag.chars() {
            if c == '"' {
                in_value = !in_value;
                words.push(' ');
            } else if !in_value {
                words.push(c);
            }
        }
        for word in words.split_whitespace().skip(1) {
            if let Some(name) = word.strip_suffix('=') {
                names.push(name.to_string());
            }
        }
        rest = if tag_end < rest.len() { &rest[tag_end + 1..] } else { "" };
    }
    names
}

#[test]
fn heading_gets_an_id_and_a_link_to_itself() {
    let html = render("# Hello World");
    assert_eq!(
        html,
        "<h1 id=\"hello-world\"><a href=\"#hello-world\">#</a>Hello World</h1>"
    );
}

#[test]
fn heading_with_inline_markup_keeps_it_and_derives_the_id_from_text_and_code() {
    let html = render("## Sub `code` **b**\n");
    assert_eq!(
        html,
        "<h2 id=\"sub-code-b\"><a href=\"#sub-code-b\">#</a>Sub <code>code</code> <strong>b</strong></h2>"
    );
}

#[test]
fn heading_with_an_explicit_id_keeps_it() {
    let html = render("# Title {#custom .big}\n");
    assert_eq!(
        html,
        "<h1 id=\"custom\"><a href=\"#custom\">#</a>Title</h1>\n"
    );
}

#[test]
fn heading_with_classes_and_no_id_loses_the_classes_to_the_sanitizer() {
    let html = render("### Wide heading {.wide .tall}\n");
    assert_eq!(
        html,
        "<h3 id=\"wide-heading\"><a href=\"#wide-heading\">#</a>Wide heading</h3>"
    );
}

#[test]
fn two_headings_with_the_same_text_share_the_id() {
    let html = render("# Setup\n\nfirst\n\n# Setup\n\nsecond\n");
    assert_eq!(html.matches("<h1 id=\"setup\">").count(), 2);
    assert_eq!(html.matches("href=\"#setup\"").count(), 2);
}

#[test]
fn fenced_rust_is_highlighted_inside_pre_and_code() {
    let html = render("```rust\nfn main() {}\n```\n");
    assert!(html.starts_with("<pre><code class=\"language-rust\">"));
    assert!(html.ends_with("</code></pre>\n"));
    assert!(html.contains("<span class=\"keyword function\">fn</span>"));
    assert!(html.contains("<span class=\"function\">main</span>"));
    let names = attribute_names(&html);
    assert!(!names.is_empty());
    assert!(names.iter().all(|name| name == "class"));
}

#[test]
fn fenced_code_of_an_unknown_language_is_escaped_plain_text() {
    let html = render("```nolanguage\na < b && c\n```\n");
    assert_eq!(
        html,
        "<pre><code class=\"language-nolanguage\">a &lt; b &amp;&amp; c\n</code></pre>\n"
    );
}

#[test]
fn fenced_code_without_a_language_is_escaped_plain_text() {
    let html = render("```\n<b>plain</b>\n```\n");
    assert_eq!(html, "<pre><code>&lt;b&gt;plain&lt;/b&gt;\n</code></pre>\n");
}

#[test]
fn fenced_code_with_carriage_returns_is_highlighted_as_a_whole() {
    let unix = render("```rust\nfn main() {\n    let x = 1;\n}\n```\n");
    let dos = render("```rust\r\nfn main() {\r\n    let x = 1;\r\n}\r\n```\r\n");
    assert_eq!(dos, unix);
    assert!(dos.contains("<span class=\"keyword storage\">let</span>"));
}

#[test]
fn fenced_code_in_a_quote_is_highlighted_as_a_whole() {
    let html = render("> ```rust\n> fn main() {\n>     let x = 1;\n> }\n> ```\n");
    assert!(html.contains("<span class=\"keyword function\">fn</span>"));
    assert!(html.contains("<span class=\"keyword storage\">let</span>"));
}

#[test]
fn text_after_an_empty_code_block_is_not_highlighted() {
    let html = render("```rust\n```\n\nfn main\n");
    assert_eq!(html, "<pre><code class=\"language-rust\"></code></pre>\n<p>fn main</p>\n");
}

#[test]
fn paragraph_text_is_not_highlighted() {
    let html = render("Some *text* here.\n");
    assert_eq!(html, "<p>Some <em>text</em> here.</p>\n");
}

#[test]
fn handler_attribute_of_an_anchor_in_the_source_is_dropped() {
    let html =
        render("<a href=\"https://example.com\" onclick=\"alert(1)\">x</a>\n");
    assert_eq!(
        html,
        "<p><a href=\"https://example.com\">x</a></p>\n"
    );
    assert!(!html.contains("onclick"));
}

#[test]
fn anchor_in_the_source_keeps_its_href_alone() {
    let html = render(
        "<a href=\"/x\" title=\"t\" rel=\"next\" target=\"_blank\" lang=\"en\">x</a>\n",
    );
    assert_eq!(html, "<p><a href=\"/x\">x</a></p>\n");
    assert_eq!(attribute_names(&html), vec!["href".to_string()]);
}

#[test]
fn script_in_the_source_is_removed() {
    let html = render("before\n\n<script>alert(1)</script>\n\nafter\n");
    assert!(!html.contains("script"));
    assert!(!html.contains("alert"));
    assert!(html.contains("<p>before</p>"));
    assert!(html.contains("<p>after</p>"));
}

#[test]
fn smart_punctuation_is_on() {
    let html = render("\"quoted\" -- dash\n");
    assert_eq!(html, "<p>\u{201c}quoted\u{201d} \u{2013} dash</p>\n");
}

#[test]
fn metadata_block_in_the_body_is_not_rendered() {
    let html = render("---\ntitle: hidden\n---\n\nshown\n");
    assert_eq!(html, "<p>shown</p>\n");
}

#[test]
fn empty_body_renders_to_nothing() {
    assert_eq!(render(""), "");
}

#[test]
fn events_render_as_the_body_they_come_from() {
    let events = vec![
        MdEvent::HeadingStart(Heading {
            level: Level::H1,
            id: None,
            classes: vec![],
            attrs: vec![],
        }),
        MdEvent::Text("Hello World".to_string()),
        MdEvent::HeadingEnd(Level::H1),
    ];
    assert_eq!(render_events(events), render_markdown("# Hello World"));
}

#[test]
fn stray_heading_end_is_a_defect() {
    let events = vec![MdEvent::Text("x".to_string()), MdEvent::HeadingEnd(Level::H2)];
    assert_eq!(render_events(events).map(SafeHtml::into_string), Err(Defect::StrayHeadingEnd));
}
