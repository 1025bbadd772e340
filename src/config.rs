//! The style configuration: every value the document template reads, and the
//! rule that picks the configuration in force for one run.
use vstd::prelude::*;
use vstd::string::*;

verus! {

/// Page geometry.
#[derive(Debug, Clone, PartialEq, Eq)]
pub struct PageConfig {
    pub margin: String,
    pub first_page_top_margin: String,
}

/// Font families and sizes.
#[derive(Debug, Clone, PartialEq, Eq)]
pub struct FontsConfig {
    pub body_family: String,
    pub body_size: String,
    pub code_family: String,
    pub inline_code_size: String,
    pub block_code_size: String,
}

/// Heading sizes, the `h1` alignment and the page-break flags of `h1` and `h2`.
#[derive(Debug, Clone, PartialEq, Eq)]
pub struct HeadingsConfig {
    pub h1_size: String,
    pub h1_align: String,
    pub h1_page_break_before: bool,
    pub h2_size: String,
    pub h2_page_break_before: bool,
    pub h3_size: String,
    pub h4_size: String,
    pub h5_size: String,
    pub h6_size: String,
}

/// Line height and the margins of paragraphs and headings, as CSS values.
#[derive(Debug, Clone, PartialEq, Eq)]
pub struct SpacingConfig {
    pub line_height: String,
    pub paragraph_margin: String,
    pub h1_bottom_margin: String,
    pub h2_bottom_margin: String,
    pub h3_margins: String,
    pub h4_margins: String,
    pub h5_margins: String,
    pub h6_margins: String,
}

/// Presentation of fenced code blocks.
#[derive(Debug, Clone, PartialEq, Eq)]
pub struct CodeBlocksConfig {
    pub background_color: String,
    pub border: String,
    pub padding: String,
    pub margin: String,
    pub word_wrap: bool,
    pub page_break_inside: bool,
}

/// The highlight.js theme and the forced code text color.
#[derive(Debug, Clone, PartialEq, Eq)]
pub struct SyntaxHighlightingConfig {
    pub theme: String,
    pub enabled: bool,
    pub text_color: String,
}

/// Captions generated from image alt text.
#[derive(Debug, Clone, PartialEq, Eq)]
pub struct ImagesConfig {
    pub show_captions: bool,
    pub caption_size: String,
    pub caption_style: String,
    pub caption_align: String,
    pub caption_color: String,
}

/// Title-page handling.
#[derive(Debug, Clone, PartialEq, Eq)]
pub struct TitlePageConfig {
    pub extract_header: bool,
    pub first_paragraph_size: String,
}

/// The complete style configuration. Every field is always present.
#[derive(Debug, Clone, PartialEq, Eq)]
pub struct Config {
    pub page: PageConfig,
    pub fonts: FontsConfig,
    pub headings: HeadingsConfig,
    pub spacing: SpacingConfig,
    pub code_blocks: CodeBlocksConfig,
    pub syntax_highlighting: SyntaxHighlightingConfig,
    pub images: ImagesConfig,
    pub title_page: TitlePageConfig,
}

/// The compiled-in default configuration as the JSON text of a configuration
/// file; it holds the values that `get_default_config` returns.
pub const DEFAULT_CONFIG_JSON: &'static str = r##"{
    "page": {
        "margin": "1in",
        "first_page_top_margin": "2in"
    },
    "fonts": {
        "body_family": "Times New Roman",
        "body_size": "12pt",
        "code_family": "Courier New",
        "inline_code_size": "12pt",
        "block_code_size": "9pt"
    },
    "headings": {
        "h1_size": "24pt",
        "h1_align": "center",
        "h1_page_break_before": true,
        "h2_size": "16pt",
        "h2_page_break_before": true,
        "h3_size": "14pt",
        "h4_size": "13pt",
        "h5_size": "12pt",
        "h6_size": "12pt"
    },
    "spacing": {
        "line_height": "1.25",
        "paragraph_margin": "12pt",
        "h1_bottom_margin": "12pt",
        "h2_bottom_margin": "16pt",
        "h3_margins": "24pt 0 12pt 0",
        "h4_margins": "20pt 0 10pt 0",
        "h5_margins": "16pt 0 8pt 0",
        "h6_margins": "16pt 0 8pt 0"
    },
    "code_blocks": {
        "background_color": "transparent",
        "border": "none",
        "padding": "0",
        "margin": "6pt 0",
        "word_wrap": true,
        "page_break_inside": false
    },
    "syntax_highlighting": {
        "theme": "monokai",
        "enabled": true,
        "text_color": "#333"
    },
    "images": {
        "show_captions": true,
        "caption_size": "10pt",
        "caption_style": "italic",
        "caption_align": "center",
        "caption_color": "#666"
    },
    "title_page": {
        "extract_header": true,
        "first_paragraph_size": "16pt"
    }
}"##;

/// `c` holds exactly the compiled-in default values.
pub open spec fn is_default_config(c: Config) -> bool {
    &&& c.page.margin@ == "1in"@
    &&& c.page.first_page_top_margin@ == "2in"@
    &&& c.fonts.body_family@ == "Times New Roman"@
    &&& c.fonts.body_size@ == "12pt"@
    &&& c.fonts.code_family@ == "Courier New"@
    &&& c.fonts.inline_code_size@ == "12pt"@
    &&& c.fonts.block_code_size@ == "9pt"@
    &&& c.headings.h1_size@ == "24pt"@
    &&& c.headings.h1_align@ == "center"@
    &&& c.headings.h1_page_break_before
    &&& c.headings.h2_size@ == "16pt"@
    &&& c.headings.h2_page_break_before
    &&& c.headings.h3_size@ == "14pt"@
    &&& c.headings.h4_size@ == "13pt"@
    &&& c.headings.h5_size@ == "12pt"@
    &&& c.headings.h6_size@ == "12pt"@
    &&& c.spacing.line_height@ == "1.25"@
    &&& c.spacing.paragraph_margin@ == "12pt"@
    &&& c.spacing.h1_bottom_margin@ == "12pt"@
    &&& c.spacing.h2_bottom_margin@ == "16pt"@
    &&& c.spacing.h3_margins@ == "24pt 0 12pt 0"@
    &&& c.spacing.h4_margins@ == "20pt 0 10pt 0"@
    &&& c.spacing.h5_margins@ == "16pt 0 8pt 0"@
    &&& c.spacing.h6_margins@ == "16pt 0 8pt 0"@
    &&& c.code_blocks.background_color@ == "transparent"@
    &&& c.code_blocks.border@ == "none"@
    &&& c.code_blocks.padding@ == "0"@
    &&& c.code_blocks.margin@ == "6pt 0"@
    &&& c.code_blocks.word_wrap
    &&& !c.code_blocks.page_break_inside
    &&& c.syntax_highlighting.theme@ == "monokai"@
    &&& c.syntax_highlighting.enabled
    &&& c.syntax_highlighting.text_color@ == "#333"@
    &&& c.images.show_captions
    &&& c.images.caption_size@ == "10pt"@
    &&& c.images.caption_style@ == "italic"@
    &&& c.images.caption_align@ == "center"@
    &&& c.images.caption_color@ == "#666"@
    &&& c.title_page.extract_header
    &&& c.title_page.first_paragraph_size@ == "16pt"@
}

/// The compiled-in default configuration.
pub fn get_default_config() -> (c: Config)
    ensures
        is_default_config(c),
{
    Config {
        page: PageConfig {
            margin: String::from_str("1in"),
            first_page_top_margin: String::from_str("2in"),
        },
        fonts: FontsConfig {
            body_family: String::from_str("Times New Roman"),
            body_size: String::from_str("12pt"),
            code_family: String::from_str("Courier New"),
            inline_code_size: String::from_str("12pt"),
            block_code_size: String::from_str("9pt"),
        },
        headings: HeadingsConfig {
            h1_size: String::from_str("24pt"),
            h1_align: String::from_str("center"),
            h1_page_break_before: true,
            h2_size: String::from_str("16pt"),
            h2_page_break_before: true,
            h3_size: String::from_str("14pt"),
            h4_size: String::from_str("13pt"),
            h5_size: String::from_str("12pt"),
            h6_size: String::from_str("12pt"),
        },
        spacing: SpacingConfig {
            line_height: String::from_str("1.25"),
            paragraph_margin: String::from_str("12pt"),
            h1_bottom_margin: String::from_str("12pt"),
            h2_bottom_margin: String::from_str("16pt"),
            h3_margins: String::from_str("24pt 0 12pt 0"),
            h4_margins: String::from_str("20pt 0 10pt 0"),
            h5_margins: String::from_str("16pt 0 8pt 0"),
            h6_margins: String::from_str("16pt 0 8pt 0"),
        },
        code_blocks: CodeBlocksConfig {
            background_color: String::from_str("transparent"),
            border: String::from_str("none"),
            padding: String::from_str("0"),
            margin: String::from_str("6pt 0"),
            word_wrap: true,
            page_break_inside: false,
        },
        syntax_highlighting: SyntaxHighlightingConfig {
            theme: String::from_str("monokai"),
            enabled: true,
            text_color: String::from_str("#333"),
        },
        images: ImagesConfig {
            show_captions: true,
            caption_size: String::from_str("10pt"),
            caption_style: String::from_str("italic"),
            caption_align: String::from_str("center"),
            caption_color: String::from_str("#666"),
        },
        title_page: TitlePageConfig {
            extract_header: true,
            first_paragraph_size: String::from_str("16pt"),
        },
    }
}

/// What was found where the configuration file should be.
#[derive(Debug)]
pub enum ConfigSource {
    /// No configuration file.
    Missing,
    /// A file that does not parse against the schema, with the parser's message.
    Malformed(String),
    /// A file that parsed into a complete configuration.
    Parsed(Config),
}

/// The warning printed when the configuration file is absent.
pub const MISSING_WARNING: &'static str = "Warning: config.json not found, using default configuration";

/// The text that opens the warning printed for a malformed configuration file.
pub const MALFORMED_PREFIX: &'static str = "Error parsing config.json: ";

/// The text that closes the warning printed for a malformed configuration file.
pub const MALFORMED_SUFFIX: &'static str = "\nUsing default configuration instead.";

/// The warning printed for `source`, if any.
pub open spec fn config_warning(source: ConfigSource) -> Option<Seq<char>> {
    match source {
        ConfigSource::Missing => Some(MISSING_WARNING@),
        ConfigSource::Malformed(e) => Some(MALFORMED_PREFIX@ + e@ + MALFORMED_SUFFIX@),
        ConfigSource::Parsed(_) => None,
    }
}

/// The configuration in force and the warning to print, for what was found in
/// place of the configuration file: a parsed file is taken whole, anything else
/// gives the whole compiled-in default. No field is ever taken from a file that
/// failed to parse.
pub fn load_config(source: ConfigSource) -> (r: (Config, Option<String>))
    ensures
        match source {
            ConfigSource::Parsed(c) => r.0 == c,
            _ => is_default_config(r.0),
        },
        match (r.1, config_warning(source)) {
            (Some(w), Some(v)) => w@ == v,
            (None, None) => true,
            _ => false,
        },
{
    match source {
        ConfigSource::Parsed(c) => (c, None),
        ConfigSource::Missing => (get_default_config(), Some(String::from_str(MISSING_WARNING))),
        ConfigSource::Malformed(e) => {
            let mut w = String::from_str(MALFORMED_PREFIX);
            w.append(e.as_str());
            w.append(MALFORMED_SUFFIX);
            (get_default_config(), Some(w))
        },
    }
}

} // verus!
