use mandy::config::{get_default_config, load_config, Config, ConfigSource, DEFAULT_CONFIG_JSON};

fn custom() -> Config {
    let mut c = get_default_config();
    c.page.margin = "2cm".to_string();
    c.headings.h2_page_break_before = false;
    c.fonts.body_family = "Georgia".to_string();
    c
}

#[test]
fn default_matches_its_json_text() {
    let v: serde_json::Value = serde_json::from_str(DEFAULT_CONFIG_JSON).unwrap();
    let c = get_default_config();
    let s = |sec: &str, key: &str| v[sec][key].as_str().unwrap().to_string();
    let b = |sec: &str, key: &str| v[sec][key].as_bool().unwrap();
    assert_eq!(c.page.margin, s("page", "margin"));
    assert_eq!(c.page.first_page_top_margin, s("page", "first_page_top_margin"));
    assert_eq!(c.fonts.body_family, s("fonts", "body_family"));
    assert_eq!(c.fonts.body_size, s("fonts", "body_size"));
    assert_eq!(c.fonts.code_family, s("fonts", "code_family"));
    assert_eq!(c.fonts.inline_code_size, s("fonts", "inline_code_size"));
    assert_eq!(c.fonts.block_code_size, s("fonts", "block_code_size"));
    assert_eq!(c.headings.h1_size, s("headings", "h1_size"));
    assert_eq!(c.headings.h1_align, s("headings", "h1_align"));
    assert_eq!(c.headings.h1_page_break_before, b("headings", "h1_page_break_before"));
    assert_eq!(c.headings.h2_size, s("headings", "h2_size"));
    assert_eq!(c.headings.h2_page_break_before, b("headings", "h2_page_break_before"));
    assert_eq!(c.headings.h3_size, s("headings", "h3_size"));
    assert_eq!(c.headings.h4_size, s("headings", "h4_size"));
    assert_eq!(c.headings.h5_size, s("headings", "h5_size"));
    assert_eq!(c.headings.h6_size, s("headings", "h6_size"));
    assert_eq!(c.spacing.line_height, s("spacing", "line_height"));
    assert_eq!(c.spacing.paragraph_margin, s("spacing", "paragraph_margin"));
    assert_eq!(c.spacing.h1_bottom_margin, s("spacing", "h1_bottom_margin"));
    assert_eq!(c.spacing.h2_bottom_margin, s("spacing", "h2_bottom_margin"));
    assert_eq!(c.spacing.h3_margins, s("spacing", "h3_margins"));
    assert_eq!(c.spacing.h4_margins, s("spacing", "h4_margins"));
    assert_eq!(c.spacing.h5_margins, s("spacing", "h5_margins"));
    assert_eq!(c.spacing.h6_margins, s("spacing", "h6_margins"));
    assert_eq!(c.code_blocks.background_color, s("code_blocks", "background_color"));
    assert_eq!(c.code_blocks.border, s("code_blocks", "border"));
    assert_eq!(c.code_blocks.padding, s("code_blocks", "padding"));
    assert_eq!(c.code_blocks.margin, s("code_blocks", "margin"));
    assert_eq!(c.code_blocks.word_wrap, b("code_blocks", "word_wrap"));
    assert_eq!(c.code_blocks.page_break_inside, b("code_blocks", "page_break_inside"));
    assert_eq!(c.syntax_highlighting.theme, s("syntax_highlighting", "theme"));
    assert_eq!(c.syntax_highlighting.enabled, b("syntax_highlighting", "enabled"));
    assert_eq!(c.syntax_highlighting.text_color, s("syntax_highlighting", "text_color"));
    assert_eq!(c.images.show_captions, b("images", "show_captions"));
    assert_eq!(c.images.caption_size, s("images", "caption_size"));
    assert_eq!(c.images.caption_style, s("images", "caption_style"));
    assert_eq!(c.images.caption_align, s("images", "caption_align"));
    assert_eq!(c.images.caption_color, s("images", "caption_color"));
    assert_eq!(c.title_page.extract_header, b("title_page", "extract_header"));
    assert_eq!(c.title_page.first_paragraph_size, s("title_page", "first_paragraph_size"));
    let sections = v.as_object().unwrap();
    assert_eq!(sections.len(), 8);
    let fields: usize = sections.values().map(|s| s.as_object().unwrap().len()).sum();
    assert_eq!(fields, 40);
}

#[test]
fn parsed_configuration_is_taken_whole() {
    let (c, warning) = load_config(ConfigSource::Parsed(custom()));
    assert_eq!(c, custom());
    assert!(warning.is_none());
}

#[test]
fn missing_file_gives_default() {
    let (c, warning) = load_config(ConfigSource::Missing);
    assert_eq!(c, get_default_config());
    assert_eq!(warning.unwrap(), "Warning: config.json not found, using default configuration");
}

#[test]
fn malformed_file_gives_whole_default() {
    let (c, warning) = load_config(ConfigSource::Malformed("missing field `fonts` at line 5 column 1".to_string()));
    assert_eq!(c, get_default_config());
    assert_ne!(c, custom());
    assert_eq!(
        warning.unwrap(),
        "Error parsing config.json: missing field `fonts` at line 5 column 1\nUsing default configuration instead."
    );
}
