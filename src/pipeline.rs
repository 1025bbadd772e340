//! From Markdown text to the complete HTML document: header extraction,
//! Markdown rendering and template synthesis.
use vstd::prelude::*;
use vstd::string::*;
use crate::config::Config;
use crate::header::{extract_header, split_header};
use crate::template::{document, generate_html};

verus! {

/// The HTML fragment that pulldown-cmark renders for the Markdown text `md`,
/// with strikethrough, tables and task lists enabled.
pub uninterp spec fn markdown_html(md: Seq<char>) -> Seq<char>;

/// Relies on `pulldown_cmark::Parser::new_ext` and `pulldown_cmark::html::push_html`:
/// the HTML rendering of `markdown`, which depends on the text alone; empty
/// text gives no events and so no HTML.
#[verifier::external_body]
fn markdown_to_html(markdown: &str) -> (r: String)
    ensures
        r@ == markdown_html(markdown@),
        markdown@.len() == 0 ==> r@.len() == 0,
{
    let mut options = pulldown_cmark::Options::empty();
    options.insert(pulldown_cmark::Options::ENABLE_STRIKETHROUGH);
    options.insert(pulldown_cmark::Options::ENABLE_TABLES);
    options.insert(pulldown_cmark::Options::ENABLE_TASKLISTS);
    let parser = pulldown_cmark::Parser::new_ext(markdown, options);
    let mut html_output = String::new();
    pulldown_cmark::html::push_html(&mut html_output, parser);
    html_output
}

/// The header and the Markdown body of `md` under `c`: split as
/// `split_header` says where the configuration asks for header extraction,
/// otherwise no header and `md` whole.
pub open spec fn header_and_body(c: Config, md: Seq<char>) -> (Seq<char>, Seq<char>) {
    if c.title_page.extract_header {
        split_header(md)
    } else {
        (Seq::empty(), md)
    }
}

/// The products of one conversion: the extracted header, the body rendered to
/// HTML, and the complete document.
#[derive(Debug)]
pub struct PreparedDocument {
    pub header: String,
    pub body_html: String,
    pub html: String,
}

/// Converts Markdown text into the complete HTML document under `config`.
pub fn prepare_document(config: &Config, markdown: &str) -> (r: PreparedDocument)
    ensures
        r.header@ == header_and_body(*config, markdown@).0,
        r.body_html@ == markdown_html(header_and_body(*config, markdown@).1),
        r.html@ == document(*config, r.header@, r.body_html@),
{
    let (header, body) = if config.title_page.extract_header {
        extract_header(markdown)
    } else {
        (String::new(), String::from_str(markdown))
    };
    let body_html = markdown_to_html(body.as_str());
    let html = generate_html(config, header.as_str(), body_html.as_str());
    PreparedDocument { header, body_html, html }
}

} // verus!
