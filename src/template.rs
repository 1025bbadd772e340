//! Synthesis of the complete HTML document handed to the rendering engine.
//!
//! The document is fixed template text with configuration values, the
//! extracted header and the body HTML spliced in verbatim. Each constant
//! below is a run of template text; its name says which value follows it.
use vstd::prelude::*;
use vstd::string::*;
use crate::config::{Config, HeadingsConfig};

verus! {

/// The declaration that starts a heading on a new page.
pub const PAGE_BREAK_BEFORE: &'static str = "page-break-before: always;";

/// The declaration that keeps a code block on one page.
pub const AVOID_BREAK_INSIDE: &'static str = "page-break-inside: avoid;";

/// The declarations that wrap long code lines.
pub const WORD_WRAP: &'static str = "white-space: pre-wrap; word-wrap: break-word;";

/// Document start, up to the theme stylesheet link.
pub const DOC_HEAD: &'static str = r#"<!DOCTYPE html>
<html>
<head>
    <meta charset="UTF-8">
    "#;

/// The highlight.js script and the start of its load handler, up to the caption behaviour.
pub const HIGHLIGHT_SCRIPT: &'static str = r#"
    <script src="https://cdnjs.cloudflare.com/ajax/libs/highlight.js/11.9.0/highlight.min.js"></script>
    <script>
        document.addEventListener('DOMContentLoaded', (event) => {
            document.querySelectorAll('pre code').forEach((block) => {
                hljs.highlightBlock(block);
            });
            "#;

/// End of the load handler and start of the stylesheet.
pub const SCRIPT_END: &'static str = r#"
        });
    </script>
    <style>
        "#;

/// The page rule, up to the page margin.
pub const PAGE_MARGIN: &'static str = r#"@page {
            margin: "#;

/// The first-page rule, up to its top margin.
pub const FIRST_PAGE_TOP: &'static str = r#";
        }
        
        @page :first {
            margin-top: "#;

/// Rest of the first-page margins, up to the header text.
pub const TOP_CENTER_CONTENT: &'static str = r#";
            margin-bottom: 1in;
            margin-left: 1in;
            margin-right: 1in;
            @top-center {
                content: ""#;

/// After the header text, up to its font family.
pub const TOP_CENTER_FAMILY: &'static str = r#"";
                font-family: '"#;

/// After the header font family, up to its size.
pub const TOP_CENTER_SIZE: &'static str = r#"', serif;
                font-size: "#;

/// The page-number rule, up to its font family.
pub const PAGE_NUMBER_FAMILY: &'static str = r#";
            }
            @bottom-right {
                content: none;
            }
        }
        
        @page {
            @bottom-right {
                content: counter(page);
                font-family: '"#;

/// After the page-number font family, up to its size.
pub const PAGE_NUMBER_SIZE: &'static str = r#"', serif;
                font-size: "#;

/// End of the page rules.
pub const PAGE_RULES_END: &'static str = r#";
            }
        }
        
        "#;

/// The body rule, up to its font family.
pub const BODY_FAMILY: &'static str = r#"body {
            font-family: '"#;

/// After the body font family, up to the line height.
pub const BODY_LINE_HEIGHT: &'static str = r#"', serif;
            line-height: "#;

/// After the line height, up to the body font size.
pub const BODY_SIZE: &'static str = r#";
            font-size: "#;

/// End of the body rule.
pub const BODY_END: &'static str = r#";
            counter-reset: page 1;
        }
        
        "#;

/// The h1 rule, up to its font size.
pub const H1_SIZE: &'static str = r#"h1 {
            font-size: "#;

/// After the h1 size, up to its bottom margin.
pub const H1_MARGIN: &'static str = r#";
            font-weight: bold;
            margin: 0 0 "#;

/// After the h1 bottom margin, up to its page-break declaration.
pub const H1_BREAK: &'static str = r#" 0;
            padding: 0;
            "#;

/// After the h1 page-break declaration, up to its alignment.
pub const H1_ALIGN: &'static str = r#"
            text-align: "#;

/// End of the h1 rule and the first-heading rules, up to the subtitle size.
pub const SUBTITLE_SIZE: &'static str = r#";
        }
        
        h1:first-of-type {
            page-break-before: avoid;
        }
        
        h1:first-of-type + p {
            font-size: "#;

/// The h1-page rule, up to its top margin.
pub const H1_PAGE_TOP: &'static str = r#";
        }
        
        .h1-page {
            margin-top: "#;

/// End of the h1-page rule.
pub const H1_RULES_END: &'static str = r#";
        }
        
        "#;

/// The h2 rule, up to its font size.
pub const H2_SIZE: &'static str = r#"h2 {
            font-size: "#;

/// After the h2 size, up to its bottom margin.
pub const H2_MARGIN: &'static str = r#";
            font-weight: bold;
            margin: 0 0 "#;

/// After the h2 bottom margin, up to its page-break declaration.
pub const H2_BREAK: &'static str = r#" 0;
            padding: 0;
            "#;

/// End of the h2 rule.
pub const H2_END: &'static str = r#"
        }
        
        "#;

/// The h3 rule, up to its font size.
pub const H3_SIZE: &'static str = r#"h3 {
            font-size: "#;

/// After the h3 size, up to its margins.
pub const H3_MARGIN: &'static str = r#";
            font-weight: bold;
            margin: "#;

/// The h4 rule, up to its font size.
pub const H4_SIZE: &'static str = r#";
        }
        
        h4 {
            font-size: "#;

/// After the h4 size, up to its margins.
pub const H4_MARGIN: &'static str = r#";
            font-weight: bold;
            margin: "#;

/// The h5 rule, up to its font size.
pub const H5_SIZE: &'static str = r#";
        }
        
        h5 {
            font-size: "#;

/// After the h5 size, up to its margins.
pub const H5_MARGIN: &'static str = r#";
            font-weight: bold;
            margin: "#;

/// The h6 rule, up to its font size.
pub const H6_SIZE: &'static str = r#";
        }
        
        h6 {
            font-size: "#;

/// After the h6 size, up to its margins.
pub const H6_MARGIN: &'static str = r#";
            font-weight: bold;
            font-style: italic;
            margin: "#;

/// The paragraph rule, up to its margin.
pub const PARAGRAPH_MARGIN: &'static str = r#";
        }
        
        p {
            margin: "#;

/// End of the paragraph rule.
pub const TEXT_RULES_END: &'static str = r#";
        }
        
        "#;

/// The inline code rule, up to its font family.
pub const CODE_FAMILY: &'static str = r#"code {
            font-family: '"#;

/// After the inline code family, up to its size.
pub const CODE_SIZE: &'static str = r#"', monospace;
            font-size: "#;

/// After the inline code size, up to its background.
pub const CODE_BACKGROUND: &'static str = r#";
            background-color: "#;

/// After the inline code background, up to its padding.
pub const CODE_PADDING: &'static str = r#" !important;
            padding: "#;

/// After the inline code padding, up to its color.
pub const CODE_COLOR: &'static str = r#";
            color: "#;

/// The code block rule, up to its font family.
pub const PRE_FAMILY: &'static str = r#" !important;
        }
        
        pre {
            font-family: '"#;

/// After the code block family, up to its size.
pub const PRE_SIZE: &'static str = r#"', monospace;
            font-size: "#;

/// After the code block size, up to its background.
pub const PRE_BACKGROUND: &'static str = r#";
            background-color: "#;

/// After the code block background, up to its padding.
pub const PRE_PADDING: &'static str = r#" !important;
            padding: "#;

/// After the code block padding, up to its margin.
pub const PRE_MARGIN: &'static str = r#";
            margin: "#;

/// After the code block margin, up to its border.
pub const PRE_BORDER: &'static str = r#";
            border: "#;

/// After the code block border, up to its wrapping declarations.
pub const PRE_WRAP: &'static str = r#";
            "#;

/// After the wrapping declarations, up to the page-break-inside declaration.
pub const PRE_BREAK: &'static str = r#"
            "#;

/// End of the code block rule; the rule for code inside it, up to its size.
pub const PRE_CODE_SIZE: &'static str = r#"
        }
        
        pre code {
            font-size: "#;

/// After that size, up to its background.
pub const PRE_CODE_BACKGROUND: &'static str = r#";
            background-color: "#;

/// After that background, up to its wrapping declarations.
pub const PRE_CODE_WRAP: &'static str = r#" !important;
            padding: 0;
            "#;

/// After those declarations, up to its color.
pub const PRE_CODE_COLOR: &'static str = r#"
            color: "#;

/// The highlight.js base rule, up to its background.
pub const HLJS_BACKGROUND: &'static str = r#" !important;
        }
        
        .hljs {
            background-color: "#;

/// After that background, up to its color.
pub const HLJS_COLOR: &'static str = r#" !important;
            color: "#;

/// End of the highlight.js base rule.
pub const HLJS_END: &'static str = r#" !important;
        }
        
        "#;

/// The fixed palette overrides and the rules no setting reaches, up to the body text.
pub const FIXED_RULES: &'static str = r#".hljs-keyword, .hljs-selector-tag, .hljs-literal, .hljs-section, .hljs-link {
            color: #0000ff !important;
        }
        
        .hljs-string, .hljs-title, .hljs-name, .hljs-type, .hljs-attribute, .hljs-symbol, .hljs-bullet, .hljs-built_in, .hljs-addition, .hljs-variable, .hljs-template-tag, .hljs-template-variable {
            color: #d73a49 !important;
        }
        
        .hljs-comment, .hljs-quote, .hljs-deletion, .hljs-meta {
            color: #6a737d !important;
        }
        
        .hljs-number {
            color: #005cc5 !important;
        }
        
        blockquote {
            border-left: 3px solid #ccc;
            padding-left: 12pt;
            margin-left: 0;
            margin: 12pt 0;
            color: #666;
        }
        
        ul, ol {
            margin: 12pt 0;
            padding-left: 24pt;
        }
        
        li {
            margin: 6pt 0;
        }
        
        table {
            border-collapse: collapse;
            width: 100%;
            margin: 12pt 0;
        }
        
        th, td {
            border: 1px solid #000;
            padding: 6pt;
            text-align: left;
        }
        
        th {
            font-weight: bold;
            background-color: #f5f5f5;
        }
        
        img {
            max-width: 100%;
            height: auto;
            display: block;
            margin: 0 auto;
        }
        
        figure {
            margin: 12pt 0;
            page-break-inside: avoid;
        }
    </style>
</head>
<body>
"#;

/// Document end, after the body text.
pub const DOC_END: &'static str = r#"
</body>
</html>"#;

/// The theme stylesheet link, up to the theme name.
pub const THEME_LINK: &'static str = r#"<link rel="stylesheet" href="https://cdnjs.cloudflare.com/ajax/libs/highlight.js/11.9.0/styles/"#;

/// After the theme name.
pub const THEME_LINK_END: &'static str = r#".min.css">"#;

/// The caption behaviour, up to the caption size.
pub const CAPTION_SIZE: &'static str = r#"
            document.querySelectorAll('img').forEach((img) => {
                if (img.alt) {
                    const figure = document.createElement('figure');
                    figure.style.margin = '12pt 0';
                    figure.style.pageBreakInside = 'avoid';
                    
                    img.parentNode.insertBefore(figure, img);
                    figure.appendChild(img);
                    
                    const caption = document.createElement('figcaption');
                    caption.textContent = img.alt;
                    caption.style.fontSize = '"#;

/// After the caption size, up to its font style.
pub const CAPTION_STYLE: &'static str = r#"';
                    caption.style.fontStyle = '"#;

/// After the font style, up to its alignment.
pub const CAPTION_ALIGN: &'static str = r#"';
                    caption.style.textAlign = '"#;

/// After the alignment, up to its color.
pub const CAPTION_COLOR: &'static str = r#"';
                    caption.style.marginTop = '6pt';
                    caption.style.color = '"#;

/// End of the caption behaviour.
pub const CAPTION_END: &'static str = r#"';
                    figure.appendChild(caption);
                }
            });"#;

/// `s` where `flag` holds, nothing otherwise.
pub open spec fn when(flag: bool, s: Seq<char>) -> Seq<char> {
    if flag {
        s
    } else {
        Seq::empty()
    }
}

/// The theme stylesheet link.
pub open spec fn theme_link(c: Config) -> Seq<char> {
    THEME_LINK@
        + c.syntax_highlighting.theme@
        + THEME_LINK_END@
}

/// The caption behaviour: each image with alt text is wrapped in a figure whose caption is that text.
pub open spec fn caption_script(c: Config) -> Seq<char> {
    CAPTION_SIZE@
        + c.images.caption_size@
        + CAPTION_STYLE@
        + c.images.caption_style@
        + CAPTION_ALIGN@
        + c.images.caption_align@
        + CAPTION_COLOR@
        + c.images.caption_color@
        + CAPTION_END@
}

/// The page rules: margins, the header in the first page's top margin, page numbers.
pub open spec fn page_rules(c: Config, header: Seq<char>) -> Seq<char> {
    PAGE_MARGIN@
        + c.page.margin@
        + FIRST_PAGE_TOP@
        + c.page.first_page_top_margin@
        + TOP_CENTER_CONTENT@
        + header
        + TOP_CENTER_FAMILY@
        + c.fonts.body_family@
        + TOP_CENTER_SIZE@
        + c.fonts.body_size@
        + PAGE_NUMBER_FAMILY@
        + c.fonts.body_family@
        + PAGE_NUMBER_SIZE@
        + c.fonts.body_size@
        + PAGE_RULES_END@
}

/// The body rule.
pub open spec fn body_rule(c: Config) -> Seq<char> {
    BODY_FAMILY@
        + c.fonts.body_family@
        + BODY_LINE_HEIGHT@
        + c.spacing.line_height@
        + BODY_SIZE@
        + c.fonts.body_size@
        + BODY_END@
}

/// The h1 rule, the first-heading and subtitle rules, and the h1-page rule.
pub open spec fn h1_rules(c: Config) -> Seq<char> {
    H1_SIZE@
        + c.headings.h1_size@
        + H1_MARGIN@
        + c.spacing.h1_bottom_margin@
        + H1_BREAK@
        + when(c.headings.h1_page_break_before, PAGE_BREAK_BEFORE@)
        + H1_ALIGN@
        + c.headings.h1_align@
        + SUBTITLE_SIZE@
        + c.title_page.first_paragraph_size@
        + H1_PAGE_TOP@
        + c.page.first_page_top_margin@
        + H1_RULES_END@
}

/// The h2 rule up to the place of its page-break declaration: selector, size
/// and margins.
pub open spec fn h2_head(c: Config) -> Seq<char> {
    H2_SIZE@
        + c.headings.h2_size@
        + H2_MARGIN@
        + c.spacing.h2_bottom_margin@
        + H2_BREAK@
}

/// The h2 rule.
pub open spec fn h2_rule(c: Config) -> Seq<char> {
    h2_head(c) + when(c.headings.h2_page_break_before, PAGE_BREAK_BEFORE@) + H2_END@
}

/// The h3 to h6 rules and the paragraph rule.
pub open spec fn text_rules(c: Config) -> Seq<char> {
    H3_SIZE@
        + c.headings.h3_size@
        + H3_MARGIN@
        + c.spacing.h3_margins@
        + H4_SIZE@
        + c.headings.h4_size@
        + H4_MARGIN@
        + c.spacing.h4_margins@
        + H5_SIZE@
        + c.headings.h5_size@
        + H5_MARGIN@
        + c.spacing.h5_margins@
        + H6_SIZE@
        + c.headings.h6_size@
        + H6_MARGIN@
        + c.spacing.h6_margins@
        + PARAGRAPH_MARGIN@
        + c.spacing.paragraph_margin@
        + TEXT_RULES_END@
}

/// The inline code, code block and highlight.js base rules.
pub open spec fn code_rules(c: Config) -> Seq<char> {
    CODE_FAMILY@
        + c.fonts.code_family@
        + CODE_SIZE@
        + c.fonts.inline_code_size@
        + CODE_BACKGROUND@
        + c.code_blocks.background_color@
        + CODE_PADDING@
        + c.code_blocks.padding@
        + CODE_COLOR@
        + c.syntax_highlighting.text_color@
        + PRE_FAMILY@
        + c.fonts.code_family@
        + PRE_SIZE@
        + c.fonts.block_code_size@
        + PRE_BACKGROUND@
        + c.code_blocks.background_color@
        + PRE_PADDING@
        + c.code_blocks.padding@
        + PRE_MARGIN@
        + c.code_blocks.margin@
        + PRE_BORDER@
        + c.code_blocks.border@
        + PRE_WRAP@
        + when(c.code_blocks.word_wrap, WORD_WRAP@)
        + PRE_BREAK@
        + when(!c.code_blocks.page_break_inside, AVOID_BREAK_INSIDE@)
        + PRE_CODE_SIZE@
        + c.fonts.block_code_size@
        + PRE_CODE_BACKGROUND@
        + c.code_blocks.background_color@
        + PRE_CODE_WRAP@
        + when(c.code_blocks.word_wrap, WORD_WRAP@)
        + PRE_CODE_COLOR@
        + c.syntax_highlighting.text_color@
        + HLJS_BACKGROUND@
        + c.code_blocks.background_color@
        + HLJS_COLOR@
        + c.syntax_highlighting.text_color@
        + HLJS_END@
}

/// The document head up to the stylesheet: the theme link when highlighting is
/// enabled, the highlight script, and the caption behaviour when captions are shown.
pub open spec fn head_section(c: Config) -> Seq<char> {
    DOC_HEAD@
        + when(c.syntax_highlighting.enabled, theme_link(c))
        + HIGHLIGHT_SCRIPT@
        + when(c.images.show_captions, caption_script(c))
        + SCRIPT_END@
}

/// Everything the document holds before the h2 rule.
pub open spec fn before_h2(c: Config, header: Seq<char>) -> Seq<char> {
    head_section(c) + page_rules(c, header) + body_rule(c) + h1_rules(c)
}

/// Everything the document holds after the h2 rule.
pub open spec fn after_h2(c: Config, body: Seq<char>) -> Seq<char> {
    text_rules(c) + code_rules(c) + FIXED_RULES@ + body + DOC_END@
}

/// The complete document for configuration `c`, title header `header` and
/// body HTML `body`.
pub open spec fn document(c: Config, header: Seq<char>, body: Seq<char>) -> Seq<char> {
    before_h2(c, header) + h2_rule(c) + after_h2(c, body)
}

/// `c` with its h2 page-break flag set to `flag`.
pub open spec fn with_h2_break(c: Config, flag: bool) -> Config {
    Config { headings: HeadingsConfig { h2_page_break_before: flag, ..c.headings }, ..c }
}

/// The document up to the place of the h2 page-break declaration: all rules
/// before the h2 rule, then the h2 rule's selector, size and margins.
pub open spec fn h2_break_prefix(c: Config, header: Seq<char>) -> Seq<char> {
    before_h2(c, header) + h2_head(c)
}

/// The document from the place of the h2 page-break declaration on.
pub open spec fn h2_break_suffix(c: Config, body: Seq<char>) -> Seq<char> {
    H2_END@ + after_h2(c, body)
}

/// Synthesis is a pure function of its inputs: equal configurations, headers
/// and bodies give the same document.
pub proof fn lemma_document_deterministic(
    c1: Config,
    c2: Config,
    header1: Seq<char>,
    header2: Seq<char>,
    body1: Seq<char>,
    body2: Seq<char>,
)
    requires
        c1 == c2,
        header1 == header2,
        body1 == body2,
    ensures
        document(c1, header1, body1) == document(c2, header2, body2),
{
}

/// The h2 page-break flag decides one thing only: with the flag set, the
/// page-break declaration stands inside the h2 rule; with it clear, that
/// declaration is absent and the rest of the document is the same text.
pub proof fn lemma_h2_page_break(c: Config, header: Seq<char>, body: Seq<char>)
    ensures
        document(with_h2_break(c, true), header, body) == h2_break_prefix(c, header)
            + PAGE_BREAK_BEFORE@ + h2_break_suffix(c, body),
        document(with_h2_break(c, false), header, body) == h2_break_prefix(c, header)
            + h2_break_suffix(c, body),
{
    let on = with_h2_break(c, true);
    let off = with_h2_break(c, false);
    let b = before_h2(c, header);
    let hd = h2_head(c);
    let a = after_h2(c, body);
    assert(before_h2(on, header) == b && before_h2(off, header) == b);
    assert(h2_head(on) == hd && h2_head(off) == hd);
    assert(after_h2(on, body) == a && after_h2(off, body) == a);
    lemma_concat_regroup(b, hd, PAGE_BREAK_BEFORE@, H2_END@, a);
    lemma_concat_regroup(b, hd, Seq::empty(), H2_END@, a);
    assert(hd + Seq::<char>::empty() =~= hd);
    assert(b + hd + Seq::<char>::empty() =~= b + hd);
}

/// Regrouping of a five-part concatenation.
proof fn lemma_concat_regroup(
    b: Seq<char>,
    hd: Seq<char>,
    m: Seq<char>,
    e: Seq<char>,
    a: Seq<char>,
)
    ensures
        b + (hd + m + e) + a == b + hd + m + (e + a),
{
    assert(b + (hd + m + e) + a =~= b + hd + m + (e + a));
}

/// Appends `s` to `out` where `flag` holds.
fn append_when(out: &mut String, flag: bool, s: &str)
    ensures
        final(out)@ == old(out)@ + when(flag, s@),
{
    if flag {
        out.append(s);
    } else {
        assert(old(out)@ + when(flag, s@) =~= old(out)@);
    }
}

/// The theme stylesheet link.
fn theme_link_text(c: &Config) -> (r: String)
    ensures
        r@ == theme_link(*c),
{
    let mut s = String::from_str(THEME_LINK);
    s.append(c.syntax_highlighting.theme.as_str());
    s.append(THEME_LINK_END);
    s
}

/// The caption behaviour: each image with alt text is wrapped in a figure whose caption is that text.
fn caption_script_text(c: &Config) -> (r: String)
    ensures
        r@ == caption_script(*c),
{
    let mut s = String::from_str(CAPTION_SIZE);
    s.append(c.images.caption_size.as_str());
    s.append(CAPTION_STYLE);
    s.append(c.images.caption_style.as_str());
    s.append(CAPTION_ALIGN);
    s.append(c.images.caption_align.as_str());
    s.append(CAPTION_COLOR);
    s.append(c.images.caption_color.as_str());
    s.append(CAPTION_END);
    s
}

/// The page rules: margins, the header in the first page's top margin, page numbers.
fn page_rules_text(c: &Config, header: &str) -> (r: String)
    ensures
        r@ == page_rules(*c, header@),
{
    let mut s = String::from_str(PAGE_MARGIN);
    s.append(c.page.margin.as_str());
    s.append(FIRST_PAGE_TOP);
    s.append(c.page.first_page_top_margin.as_str());
    s.append(TOP_CENTER_CONTENT);
    s.append(header);
    s.append(TOP_CENTER_FAMILY);
    s.append(c.fonts.body_family.as_str());
    s.append(TOP_CENTER_SIZE);
    s.append(c.fonts.body_size.as_str());
    s.append(PAGE_NUMBER_FAMILY);
    s.append(c.fonts.body_family.as_str());
    s.append(PAGE_NUMBER_SIZE);
    s.append(c.fonts.body_size.as_str());
    s.append(PAGE_RULES_END);
    s
}

/// The body rule.
fn body_rule_text(c: &Config) -> (r: String)
    ensures
        r@ == body_rule(*c),
{
    let mut s = String::from_str(BODY_FAMILY);
    s.append(c.fonts.body_family.as_str());
    s.append(BODY_LINE_HEIGHT);
    s.append(c.spacing.line_height.as_str());
    s.append(BODY_SIZE);
    s.append(c.fonts.body_size.as_str());
    s.append(BODY_END);
    s
}

/// The h1 rule, the first-heading and subtitle rules, and the h1-page rule.
fn h1_rules_text(c: &Config) -> (r: String)
    ensures
        r@ == h1_rules(*c),
{
    let mut s = String::from_str(H1_SIZE);
    s.append(c.headings.h1_size.as_str());
    s.append(H1_MARGIN);
    s.append(c.spacing.h1_bottom_margin.as_str());
    s.append(H1_BREAK);
    append_when(&mut s, c.headings.h1_page_break_before, PAGE_BREAK_BEFORE);
    s.append(H1_ALIGN);
    s.append(c.headings.h1_align.as_str());
    s.append(SUBTITLE_SIZE);
    s.append(c.title_page.first_paragraph_size.as_str());
    s.append(H1_PAGE_TOP);
    s.append(c.page.first_page_top_margin.as_str());
    s.append(H1_RULES_END);
    s
}

/// The h2 rule.
fn h2_rule_text(c: &Config) -> (r: String)
    ensures
        r@ == h2_rule(*c),
{
    let mut s = String::from_str(H2_SIZE);
    s.append(c.headings.h2_size.as_str());
    s.append(H2_MARGIN);
    s.append(c.spacing.h2_bottom_margin.as_str());
    s.append(H2_BREAK);
    append_when(&mut s, c.headings.h2_page_break_before, PAGE_BREAK_BEFORE);
    s.append(H2_END);
    s
}

/// The h3 to h6 rules and the paragraph rule.
fn text_rules_text(c: &Config) -> (r: String)
    ensures
        r@ == text_rules(*c),
{
    let mut s = String::from_str(H3_SIZE);
    s.append(c.headings.h3_size.as_str());
    s.append(H3_MARGIN);
    s.append(c.spacing.h3_margins.as_str());
    s.append(H4_SIZE);
    s.append(c.headings.h4_size.as_str());
    s.append(H4_MARGIN);
    s.append(c.spacing.h4_margins.as_str());
    s.append(H5_SIZE);
    s.append(c.headings.h5_size.as_str());
    s.append(H5_MARGIN);
    s.append(c.spacing.h5_margins.as_str());
    s.append(H6_SIZE);
    s.append(c.headings.h6_size.as_str());
    s.append(H6_MARGIN);
    s.append(c.spacing.h6_margins.as_str());
    s.append(PARAGRAPH_MARGIN);
    s.append(c.spacing.paragraph_margin.as_str());
    s.append(TEXT_RULES_END);
    s
}

/// The inline code, code block and highlight.js base rules.
fn code_rules_text(c: &Config) -> (r: String)
    ensures
        r@ == code_rules(*c),
{
    let mut s = String::from_str(CODE_FAMILY);
    s.append(c.fonts.code_family.as_str());
    s.append(CODE_SIZE);
    s.append(c.fonts.inline_code_size.as_str());
    s.append(CODE_BACKGROUND);
    s.append(c.code_blocks.background_color.as_str());
    s.append(CODE_PADDING);
    s.append(c.code_blocks.padding.as_str());
    s.append(CODE_COLOR);
    s.append(c.syntax_highlighting.text_color.as_str());
    s.append(PRE_FAMILY);
    s.append(c.fonts.code_family.as_str());
    s.append(PRE_SIZE);
    s.append(c.fonts.block_code_size.as_str());
    s.append(PRE_BACKGROUND);
    s.append(c.code_blocks.background_color.as_str());
    s.append(PRE_PADDING);
    s.append(c.code_blocks.padding.as_str());
    s.append(PRE_MARGIN);
    s.append(c.code_blocks.margin.as_str());
    s.append(PRE_BORDER);
    s.append(c.code_blocks.border.as_str());
    s.append(PRE_WRAP);
    append_when(&mut s, c.code_blocks.word_wrap, WORD_WRAP);
    s.append(PRE_BREAK);
    append_when(&mut s, !c.code_blocks.page_break_inside, AVOID_BREAK_INSIDE);
    s.append(PRE_CODE_SIZE);
    s.append(c.fonts.block_code_size.as_str());
    s.append(PRE_CODE_BACKGROUND);
    s.append(c.code_blocks.background_color.as_str());
    s.append(PRE_CODE_WRAP);
    append_when(&mut s, c.code_blocks.word_wrap, WORD_WRAP);
    s.append(PRE_CODE_COLOR);
    s.append(c.syntax_highlighting.text_color.as_str());
    s.append(HLJS_BACKGROUND);
    s.append(c.code_blocks.background_color.as_str());
    s.append(HLJS_COLOR);
    s.append(c.syntax_highlighting.text_color.as_str());
    s.append(HLJS_END);
    s
}

/// The document head up to the stylesheet.
fn head_section_text(c: &Config) -> (r: String)
    ensures
        r@ == head_section(*c),
{
    let link = if c.syntax_highlighting.enabled {
        theme_link_text(c)
    } else {
        String::new()
    };
    let captions = if c.images.show_captions {
        caption_script_text(c)
    } else {
        String::new()
    };
    let mut s = String::from_str(DOC_HEAD);
    s.append(link.as_str());
    s.append(HIGHLIGHT_SCRIPT);
    s.append(captions.as_str());
    s.append(SCRIPT_END);
    s
}

/// The complete HTML document: the template filled from `config`, with
/// `header_text` in the first page's top margin and `html_content` as the body.
pub fn generate_html(config: &Config, header_text: &str, html_content: &str) -> (r: String)
    ensures
        r@ == document(*config, header_text@, html_content@),
{
    let mut before = head_section_text(config);
    before.append(page_rules_text(config, header_text).as_str());
    before.append(body_rule_text(config).as_str());
    before.append(h1_rules_text(config).as_str());
    let h2 = h2_rule_text(config);
    let mut after = text_rules_text(config);
    after.append(code_rules_text(config).as_str());
    after.append(FIXED_RULES);
    after.append(html_content);
    after.append(DOC_END);
    let mut doc = before;
    doc.append(h2.as_str());
    doc.append(after.as_str());
    doc
}

} // verus!
