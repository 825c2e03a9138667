use vstd::prelude::*;

use crate::config::{
    ConfigModel, DEFAULT_DPI_BITS, DEFAULT_MAX_PAGES, OptionsModel, ParserConfig, copy_opt,
    given_or, given_or_opt, opt_text,
};
use crate::formats::{format_name, format_named, output_format_name};
use crate::headers::{
    HeaderModel, collect_headers, collected, header_map, headers_view, lemma_collected_distinct,
    lemma_collected_empty, lemma_collected_idempotent, lemma_collected_map, names_distinct,
};

verus! {

/// The settings of a parser as its `config` method reports them.
///
/// `dpi_bits` is the bit pattern of the single-precision resolution.
#[derive(Clone, Debug)]
pub struct Config {
    ocr_language: String,
    ocr_enabled: bool,
    ocr_server_url: Option<String>,
    ocr_server_headers: Option<Vec<(String, String)>>,
    tessdata_path: Option<String>,
    max_pages: usize,
    target_pages: Option<String>,
    dpi_bits: u32,
    output_format: String,
    preserve_very_small_text: bool,
    password: Option<String>,
    quiet: bool,
    num_workers: usize,
}

/// The report as values.
pub struct ReportModel {
    pub ocr_language: Seq<char>,
    pub ocr_enabled: bool,
    pub ocr_server_url: Option<Seq<char>>,
    pub ocr_server_headers: Option<Seq<HeaderModel>>,
    pub tessdata_path: Option<Seq<char>>,
    pub max_pages: usize,
    pub target_pages: Option<Seq<char>>,
    pub dpi_bits: u32,
    pub output_format: Seq<char>,
    pub preserve_very_small_text: bool,
    pub password: Option<Seq<char>>,
    pub quiet: bool,
    pub num_workers: usize,
}

impl View for Config {
    type V = ReportModel;

    closed spec fn view(&self) -> ReportModel {
        ReportModel {
            ocr_language: self.ocr_language@,
            ocr_enabled: self.ocr_enabled,
            ocr_server_url: opt_text(self.ocr_server_url),
            ocr_server_headers: match self.ocr_server_headers {
                Some(h) => Some(headers_view(h@)),
                None => None,
            },
            tessdata_path: opt_text(self.tessdata_path),
            max_pages: self.max_pages,
            target_pages: opt_text(self.target_pages),
            dpi_bits: self.dpi_bits,
            output_format: self.output_format@,
            preserve_very_small_text: self.preserve_very_small_text,
            password: opt_text(self.password),
            quiet: self.quiet,
            num_workers: self.num_workers,
        }
    }
}

impl ConfigModel {
    /// What the report of these settings shows: the settings themselves, the
    /// output format by its name, and the headers gathered one per name, or
    /// none at all where there are no headers.
    pub open spec fn report(self) -> ReportModel {
        ReportModel {
            ocr_language: self.ocr_language,
            ocr_enabled: self.ocr_enabled,
            ocr_server_url: self.ocr_server_url,
            ocr_server_headers: if self.ocr_server_headers.len() == 0 {
                None
            } else {
                Some(collected(self.ocr_server_headers))
            },
            tessdata_path: self.tessdata_path,
            max_pages: self.max_pages,
            target_pages: self.target_pages,
            dpi_bits: self.dpi_bits,
            output_format: format_name(self.output_format),
            preserve_very_small_text: self.preserve_very_small_text,
            password: self.password,
            quiet: self.quiet,
            num_workers: self.num_workers,
        }
    }
}

impl Config {
    /// Reports the settings of a parser.
    pub fn from_rust(cfg: &ParserConfig) -> (r: Config)
        ensures
            r@ == cfg@.report(),
    {
        let headers = if cfg.ocr_server_headers.len() == 0 {
            None
        } else {
            Some(collect_headers(&cfg.ocr_server_headers))
        };
        Config {
            ocr_language: cfg.ocr_language.clone(),
            ocr_enabled: cfg.ocr_enabled,
            ocr_server_url: copy_opt(&cfg.ocr_server_url),
            ocr_server_headers: headers,
            tessdata_path: copy_opt(&cfg.tessdata_path),
            max_pages: cfg.max_pages,
            target_pages: copy_opt(&cfg.target_pages),
            dpi_bits: cfg.dpi_bits,
            output_format: output_format_name(cfg.output_format),
            preserve_very_small_text: cfg.preserve_very_small_text,
            password: copy_opt(&cfg.password),
            quiet: cfg.quiet,
            num_workers: cfg.num_workers,
        }
    }

    pub fn ocr_language(&self) -> (r: &String)
        ensures
            r@ == self@.ocr_language,
    {
        &self.ocr_language
    }

    pub fn ocr_enabled(&self) -> (r: bool)
        ensures
            r == self@.ocr_enabled,
    {
        self.ocr_enabled
    }

    pub fn ocr_server_url(&self) -> (r: Option<&String>)
        ensures
            r matches Some(s) ==> self@.ocr_server_url == Some(s@),
            r is None ==> self@.ocr_server_url is None,
    {
        self.ocr_server_url.as_ref()
    }

    pub fn ocr_server_headers(&self) -> (r: Option<&Vec<(String, String)>>)
        ensures
            r matches Some(h) ==> self@.ocr_server_headers == Some(headers_view(h@)),
            r is None ==> self@.ocr_server_headers is None,
    {
        self.ocr_server_headers.as_ref()
    }

    pub fn tessdata_path(&self) -> (r: Option<&String>)
        ensures
            r matches Some(s) ==> self@.tessdata_path == Some(s@),
            r is None ==> self@.tessdata_path is None,
    {
        self.tessdata_path.as_ref()
    }

    pub fn max_pages(&self) -> (r: usize)
        ensures
            r == self@.max_pages,
    {
        self.max_pages
    }

    pub fn target_pages(&self) -> (r: Option<&String>)
        ensures
            r matches Some(s) ==> self@.target_pages == Some(s@),
            r is None ==> self@.target_pages is None,
    {
        self.target_pages.as_ref()
    }

    /// The bit pattern of the single-precision resolution.
    pub fn dpi_bits(&self) -> (r: u32)
        ensures
            r == self@.dpi_bits,
    {
        self.dpi_bits
    }

    pub fn output_format(&self) -> (r: &String)
        ensures
            r@ == self@.output_format,
    {
        &self.output_format
    }

    pub fn preserve_very_small_text(&self) -> (r: bool)
        ensures
            r == self@.preserve_very_small_text,
    {
        self.preserve_very_small_text
    }

    pub fn password(&self) -> (r: Option<&String>)
        ensures
            r matches Some(s) ==> self@.password == Some(s@),
            r is None ==> self@.password is None,
    {
        self.password.as_ref()
    }

    pub fn quiet(&self) -> (r: bool)
        ensures
            r == self@.quiet,
    {
        self.quiet
    }

    pub fn num_workers(&self) -> (r: usize)
        ensures
            r == self@.num_workers,
    {
        self.num_workers
    }
}

/// The headers that a report shows are one per name and describe the same
/// map from names to values as the settings' headers.
pub proof fn lemma_report_headers(c: ConfigModel)
    ensures
        c.report().ocr_server_headers is None <==> c.ocr_server_headers.len() == 0,
        c.report().ocr_server_headers matches Some(h) ==> names_distinct(h) && header_map(h)
            == header_map(c.ocr_server_headers),
{
    lemma_collected_distinct(c.ocr_server_headers);
    lemma_collected_map(c.ocr_server_headers);
}

/// The report of a new parser's settings gives back each keyword that was
/// given, and the starting setting for each that was not: the parser's own
/// default, except OCR on, 150 dpi and 1000 pages. The output format comes
/// back by its name; headers come back one per name, the last value of a
/// name winning, and a hash without headers comes back as none.
pub proof fn lemma_report_reads_back(base: ConfigModel, o: OptionsModel)
    ensures
        ({
            let r = base.binding_defaults().with_options(o).report();
            &&& r.ocr_language == given_or(o.ocr_language, base.ocr_language)
            &&& r.ocr_enabled == given_or(o.ocr_enabled, true)
            &&& r.ocr_server_url == given_or_opt(o.ocr_server_url, base.ocr_server_url)
            &&& r.tessdata_path == given_or_opt(o.tessdata_path, base.tessdata_path)
            &&& r.max_pages == given_or(o.max_pages, DEFAULT_MAX_PAGES)
            &&& r.target_pages == given_or_opt(o.target_pages, base.target_pages)
            &&& r.dpi_bits == given_or(o.dpi_bits, DEFAULT_DPI_BITS)
            &&& r.output_format == format_name(
                match o.output_format {
                    Some(n) => format_named(n),
                    None => base.output_format,
                },
            )
            &&& r.preserve_very_small_text == given_or(
                o.preserve_very_small_text,
                base.preserve_very_small_text,
            )
            &&& r.password == given_or_opt(o.password, base.password)
            &&& r.quiet == given_or(o.quiet, base.quiet)
            &&& r.num_workers == given_or(o.num_workers, base.num_workers)
            &&& r.ocr_server_headers == match o.ocr_server_headers {
                Some(h) => if h.len() == 0 {
                    None
                } else {
                    Some(collected(h))
                },
                None => base.report().ocr_server_headers,
            }
        }),
{
    if o.ocr_server_headers is Some {
        let h = o.ocr_server_headers.unwrap();
        lemma_collected_empty(h);
        lemma_collected_idempotent(h);
    }
}

/// The report names the output format `"json"`, `"text"` or `"markdown"`,
/// and reading that name back gives the format of the settings.
pub proof fn lemma_reported_format_reads_back(c: ConfigModel)
    ensures
        c.report().output_format == "json"@ || c.report().output_format == "text"@
            || c.report().output_format == "markdown"@,
        format_named(c.report().output_format) == c.output_format,
{
    crate::formats::lemma_format_name_round_trip(c.output_format);
}

} // verus!
