use mandy::config::get_default_config;
use mandy::template::generate_html;

fn rule<'a>(doc: &'a str, selector: &str) -> &'a str {
    let start = doc.find(selector).expect("selector present");
    let end = start + doc[start..].find("\n        }").expect("rule closed");
    &doc[start..end]
}

#[test]
fn synthesis_is_deterministic() {
    let c = get_default_config();
    let a = generate_html(&c, "Head", "<p>x</p>");
    let b = generate_html(&c.clone(), "Head", "<p>x</p>");
    assert_eq!(a, b);
}

#[test]
fn h2_page_break_follows_its_flag() {
    let mut c = get_default_config();
    c.headings.h2_page_break_before = false;
    let off = generate_html(&c, "", "");
    assert!(!rule(&off, "h2 {").contains("page-break-before"));
    c.headings.h2_page_break_before = true;
    let on = generate_html(&c, "", "");
    assert!(rule(&on, "h2 {").contains("page-break-before: always;"));
    assert_eq!(on.replacen("page-break-before: always;\n        }\n        \n        h3", "\n        }\n        \n        h3", 1), off);
}

#[test]
fn h1_page_break_follows_its_flag() {
    let mut c = get_default_config();
    c.headings.h1_page_break_before = false;
    let off = generate_html(&c, "", "");
    assert!(!rule(&off, "h1 {").contains("page-break-before"));
    c.headings.h1_page_break_before = true;
    let on = generate_html(&c, "", "");
    assert!(rule(&on, "h1 {").contains("page-break-before: always;"));
    assert!(rule(&on, "h1:first-of-type {").contains("page-break-before: avoid;"));
}

#[test]
fn code_block_toggles() {
    let mut c = get_default_config();
    let d = generate_html(&c, "", "");
    let pre = rule(&d, "pre {");
    assert!(pre.contains("white-space: pre-wrap; word-wrap: break-word;"));
    assert!(pre.contains("page-break-inside: avoid;"));
    assert!(rule(&d, "pre code {").contains("white-space: pre-wrap"));
    c.code_blocks.word_wrap = false;
    c.code_blocks.page_break_inside = true;
    let d = generate_html(&c, "", "");
    let pre = rule(&d, "pre {");
    assert!(!pre.contains("pre-wrap"));
    assert!(!pre.contains("page-break-inside"));
    assert!(!rule(&d, "pre code {").contains("pre-wrap"));
}

#[test]
fn theme_link_precedes_palette_overrides() {
    let c = get_default_config();
    let d = generate_html(&c, "", "");
    let link = d
        .find(r#"<link rel="stylesheet" href="https://cdnjs.cloudflare.com/ajax/libs/highlight.js/11.9.0/styles/monokai.min.css">"#)
        .expect("theme link");
    let palette = d.find(".hljs-keyword").expect("palette");
    assert!(link < palette);
    assert!(rule(&d, ".hljs {").contains("background-color: transparent !important;"));
    assert!(rule(&d, ".hljs {").contains("color: #333 !important;"));
}

#[test]
fn disabled_highlighting_has_no_theme_link() {
    let mut c = get_default_config();
    c.syntax_highlighting.enabled = false;
    let d = generate_html(&c, "", "");
    assert!(!d.contains("<link"));
    assert!(!d.contains("monokai"));
}

#[test]
fn captions_follow_their_flag() {
    let mut c = get_default_config();
    let d = generate_html(&c, "", "");
    assert!(d.contains("caption.textContent = img.alt;"));
    assert!(d.contains("caption.style.fontSize = '10pt';"));
    assert!(d.contains("caption.style.fontStyle = 'italic';"));
    assert!(d.contains("caption.style.textAlign = 'center';"));
    assert!(d.contains("caption.style.color = '#666';"));
    c.images.show_captions = false;
    let d = generate_html(&c, "", "");
    assert!(!d.contains("figcaption"));
    assert!(!d.contains("img.alt"));
}

#[test]
fn header_goes_to_first_page_top_margin() {
    let c = get_default_config();
    let d = generate_html(&c, "Annual Report", "");
    let first = rule(&d, "@page :first {");
    assert!(first.contains("margin-top: 2in;"));
    assert!(d.contains("@top-center {\n                content: \"Annual Report\";\n                font-family: 'Times New Roman', serif;\n                font-size: 12pt;"));
}

#[test]
fn values_pass_through_verbatim() {
    let mut c = get_default_config();
    c.headings.h3_size = "not a size;".to_string();
    c.spacing.h3_margins = "1px 2px".to_string();
    let d = generate_html(&c, "", "");
    let h3 = rule(&d, "h3 {");
    assert!(h3.contains("font-size: not a size;;"));
    assert!(h3.contains("margin: 1px 2px;"));
}

#[test]
fn document_frame_and_body() {
    let c = get_default_config();
    let d = generate_html(&c, "", "<p>x</p>\n");
    assert!(d.starts_with("<!DOCTYPE html>\n<html>\n<head>\n    <meta charset=\"UTF-8\">\n    <link rel=\"stylesheet\""));
    assert!(d.ends_with("</style>\n</head>\n<body>\n<p>x</p>\n\n</body>\n</html>"));
    assert!(rule(&d, "body {").contains("font-family: 'Times New Roman', serif;\n            line-height: 1.25;\n            font-size: 12pt;"));
    assert!(rule(&d, "h1:first-of-type + p {").contains("font-size: 16pt;"));
    assert!(rule(&d, "h6 {").contains("font-style: italic;\n            margin: 16pt 0 8pt 0;"));
    assert!(rule(&d, "\n        p {").contains("margin: 12pt;"));
}
