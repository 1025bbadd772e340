use mandy::config::get_default_config;
use mandy::paths::{derive_output_path, temp_artifact_path};
use mandy::pipeline::prepare_document;
use mandy::template::generate_html;

#[test]
fn end_to_end_report() {
    let c = get_default_config();
    let d = prepare_document(&c, "Report\n---\n# Intro\nHello **world**.");
    assert_eq!(d.header, "Report");
    assert!(d.body_html.contains("<h1>Intro</h1>"));
    assert!(d.body_html.contains("<p>Hello <strong>world</strong>.</p>"));
    assert_eq!(d.html, generate_html(&c, "Report", &d.body_html));
    assert!(d.html.contains("content: \"Report\";"));
    assert_eq!(derive_output_path("docs/report.md"), "docs/report.pdf");
    assert_eq!(temp_artifact_path("docs/report.md"), "docs/report.temp.html");
}

#[test]
fn no_extraction_keeps_title_in_body() {
    let mut c = get_default_config();
    c.title_page.extract_header = false;
    let d = prepare_document(&c, "Report\n---\nText");
    assert_eq!(d.header, "");
    assert_eq!(d.body_html, "<h2>Report</h2>\n<p>Text</p>\n");
}

#[test]
fn markdown_is_rendered() {
    let c = get_default_config();
    let d = prepare_document(&c, "**b** ~~s~~");
    assert_eq!(d.body_html, "<p><strong>b</strong> <del>s</del></p>\n");
    let d = prepare_document(&c, "| a |\n|---|\n| 1 |\n");
    assert!(d.body_html.contains("<table>"));
    let d = prepare_document(&c, "- [x] done\n");
    assert!(d.body_html.contains("checkbox"));
}

#[test]
fn empty_markdown_gives_empty_body() {
    let c = get_default_config();
    let d = prepare_document(&c, "");
    assert_eq!(d.header, "");
    assert_eq!(d.body_html, "");
    assert!(d.html.ends_with("<body>\n\n</body>\n</html>"));
}
