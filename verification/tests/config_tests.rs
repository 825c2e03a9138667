use liteparse_ruby::cli::run_cli;
use liteparse_ruby::config::{ParserConfig, ParserOptions, DEFAULT_DPI_BITS, DEFAULT_MAX_PAGES};
use liteparse_ruby::formats::{
    output_format_name, parse_image_mode, parse_output_format, ImageMode, OutputFormat,
};
use liteparse_ruby::headers::collect_headers;
use liteparse_ruby::report::Config;

fn s(text: &str) -> String {
    text.to_string()
}

/// The parser's own defaults, as the parser crate sets them.
fn parser_defaults() -> ParserConfig {
    ParserConfig {
        ocr_language: s("eng"),
        ocr_enabled: false,
        ocr_server_url: None,
        ocr_server_headers: Vec::new(),
        tessdata_path: None,
        max_pages: 1000,
        target_pages: None,
        dpi_bits: 150.0f32.to_bits(),
        output_format: OutputFormat::Json,
        preserve_very_small_text: false,
        password: None,
        quiet: false,
        num_workers: 3,
        image_mode: ImageMode::Placeholder,
        extract_links: true,
    }
}

fn no_options() -> ParserOptions {
    ParserOptions {
        ocr_language: None,
        ocr_enabled: None,
        ocr_server_url: None,
        ocr_server_headers: None,
        tessdata_path: None,
        max_pages: None,
        target_pages: None,
        dpi_bits: None,
        output_format: None,
        preserve_very_small_text: None,
        password: None,
        quiet: None,
        num_workers: None,
        image_mode: None,
        extract_links: None,
    }
}

#[test]
fn output_format_names() {
    assert_eq!(parse_output_format(&s("text")), OutputFormat::Text);
    assert_eq!(parse_output_format(&s("markdown")), OutputFormat::Markdown);
    assert_eq!(parse_output_format(&s("md")), OutputFormat::Markdown);
    assert_eq!(parse_output_format(&s("json")), OutputFormat::Json);
    assert_eq!(parse_output_format(&s("pdf")), OutputFormat::Json);
    assert_eq!(parse_output_format(&s("")), OutputFormat::Json);
    assert_eq!(parse_output_format(&s("Text")), OutputFormat::Json);
}

#[test]
fn image_mode_names() {
    assert_eq!(parse_image_mode(&s("off")), ImageMode::Off);
    assert_eq!(parse_image_mode(&s("none")), ImageMode::Off);
    assert_eq!(parse_image_mode(&s("embed")), ImageMode::Embed);
    assert_eq!(parse_image_mode(&s("placeholder")), ImageMode::Placeholder);
    assert_eq!(parse_image_mode(&s("anything")), ImageMode::Placeholder);
}

#[test]
fn format_name_reads_back() {
    for f in [OutputFormat::Json, OutputFormat::Text, OutputFormat::Markdown] {
        assert_eq!(parse_output_format(&output_format_name(f)), f);
    }
    assert_eq!(output_format_name(OutputFormat::Json), "json");
    assert_eq!(output_format_name(OutputFormat::Text), "text");
    assert_eq!(output_format_name(OutputFormat::Markdown), "markdown");
}

#[test]
fn headers_keep_last_value_per_name() {
    let given = vec![(s("a"), s("1")), (s("b"), s("2")), (s("a"), s("3"))];
    let got = collect_headers(&given);
    assert_eq!(got, vec![(s("a"), s("3")), (s("b"), s("2"))]);
    assert_eq!(collect_headers(&got), got);
    assert!(collect_headers(&Vec::new()).is_empty());
}

#[test]
fn new_parser_without_keywords() {
    let cfg = ParserConfig::from_options(parser_defaults(), None);
    assert!(cfg.ocr_enabled);
    assert_eq!(cfg.dpi_bits, DEFAULT_DPI_BITS);
    assert_eq!(f32::from_bits(cfg.dpi_bits), 150.0);
    assert_eq!(cfg.max_pages, DEFAULT_MAX_PAGES);
    assert_eq!(cfg.ocr_language, "eng");
    assert_eq!(cfg.output_format, OutputFormat::Json);
    assert_eq!(cfg.image_mode, ImageMode::Placeholder);
    assert!(cfg.extract_links);
    assert_eq!(cfg.num_workers, 3);
    let empty = ParserConfig::from_options(parser_defaults(), Some(&no_options()));
    assert_eq!(empty.max_pages, 1000);
    assert!(empty.ocr_enabled);
}

#[test]
fn readme_configuration_example() {
    let mut o = no_options();
    o.ocr_enabled = Some(false);
    o.output_format = Some(s("markdown"));
    o.max_pages = Some(10);
    o.dpi_bits = Some((200.0f64 as f32).to_bits());
    o.password = Some(s("secret"));
    o.quiet = Some(true);
    o.image_mode = Some(s("embed"));
    o.extract_links = Some(true);
    let cfg = ParserConfig::from_options(parser_defaults(), Some(&o));
    assert!(!cfg.ocr_enabled);
    assert_eq!(cfg.output_format, OutputFormat::Markdown);
    assert_eq!(cfg.max_pages, 10);
    assert_eq!(f32::from_bits(cfg.dpi_bits), 200.0);
    assert_eq!(cfg.password, Some(s("secret")));
    assert!(cfg.quiet);
    assert_eq!(cfg.image_mode, ImageMode::Embed);
    assert!(cfg.extract_links);

    let report = Config::from_rust(&cfg);
    assert!(!report.ocr_enabled());
    assert_eq!(report.output_format(), "markdown");
    assert_eq!(report.max_pages(), 10);
    assert_eq!(f32::from_bits(report.dpi_bits()) as f64, 200.0);
    assert_eq!(report.password(), Some(&s("secret")));
    assert!(report.quiet());
    assert_eq!(report.ocr_language(), "eng");
    assert_eq!(report.ocr_server_url(), None);
    assert_eq!(report.ocr_server_headers(), None);
    assert_eq!(report.tessdata_path(), None);
    assert_eq!(report.target_pages(), None);
    assert!(!report.preserve_very_small_text());
    assert_eq!(report.num_workers(), 3);
}

#[test]
fn inspecting_config_defaults() {
    let report = Config::from_rust(&ParserConfig::from_options(parser_defaults(), None));
    assert!(report.ocr_enabled());
    assert_eq!(report.output_format(), "json");
    assert_eq!(f32::from_bits(report.dpi_bits()) as f64, 150.0);
    assert_eq!(report.max_pages(), 1000);
}

#[test]
fn every_keyword_reads_back() {
    let mut o = no_options();
    o.ocr_language = Some(s("fra"));
    o.ocr_server_url = Some(s("http://ocr.local"));
    o.ocr_server_headers = Some(vec![(s("Authorization"), s("Bearer x")), (s("X-A"), s("1"))]);
    o.tessdata_path = Some(s("/tess"));
    o.target_pages = Some(s("1-5,10"));
    o.output_format = Some(s("md"));
    o.preserve_very_small_text = Some(true);
    o.num_workers = Some(8);
    let report = Config::from_rust(&ParserConfig::from_options(parser_defaults(), Some(&o)));
    assert_eq!(report.ocr_language(), "fra");
    assert_eq!(report.ocr_server_url(), Some(&s("http://ocr.local")));
    assert_eq!(
        report.ocr_server_headers(),
        Some(&vec![(s("Authorization"), s("Bearer x")), (s("X-A"), s("1"))])
    );
    assert_eq!(report.tessdata_path(), Some(&s("/tess")));
    assert_eq!(report.target_pages(), Some(&s("1-5,10")));
    assert_eq!(report.output_format(), "markdown");
    assert!(report.preserve_very_small_text());
    assert_eq!(report.num_workers(), 8);
}

#[test]
fn empty_header_hash_reports_none() {
    let mut o = no_options();
    o.ocr_server_headers = Some(Vec::new());
    let report = Config::from_rust(&ParserConfig::from_options(parser_defaults(), Some(&o)));
    assert_eq!(report.ocr_server_headers(), None);
}

#[test]
fn duplicate_header_names_report_last_value() {
    let mut cfg = parser_defaults();
    cfg.ocr_server_headers = vec![(s("k"), s("old")), (s("k"), s("new"))];
    let report = Config::from_rust(&cfg);
    assert_eq!(report.ocr_server_headers(), Some(&vec![(s("k"), s("new"))]));
}

#[test]
fn later_keywords_win_and_repeats_change_nothing() {
    let mut first = no_options();
    first.max_pages = Some(5);
    first.quiet = Some(true);
    let mut later = no_options();
    later.max_pages = Some(7);
    let mut cfg = ParserConfig::from_options(parser_defaults(), Some(&first));
    cfg.apply_options(&later);
    assert_eq!(cfg.max_pages, 7);
    assert!(cfg.quiet);
    let mut again = ParserConfig::from_options(parser_defaults(), Some(&first));
    again.apply_options(&first);
    assert_eq!(again.max_pages, 5);
    assert!(again.quiet);
}

#[test]
fn binding_defaults_override_parser_defaults() {
    let mut cfg = parser_defaults();
    cfg.max_pages = 3;
    cfg.use_binding_defaults();
    assert!(cfg.ocr_enabled);
    assert_eq!(cfg.max_pages, 1000);
    assert_eq!(cfg.dpi_bits, 150.0f32.to_bits());
}

#[test]
fn cli_is_refused() {
    assert_eq!(run_cli(vec![s("parse"), s("a.pdf")]), Err(s("CLI not available in Ruby gem.")));
    assert_eq!(run_cli(Vec::new()), Err(s("CLI not available in Ruby gem.")));
}
