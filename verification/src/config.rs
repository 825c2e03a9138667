use vstd::prelude::*;

use crate::formats::{
    ImageMode, OutputFormat, format_named, image_mode_named, parse_image_mode, parse_output_format,
};
use crate::headers::{
    HeaderModel, collect_headers, collected, header_map, headers_view, lemma_collected_distinct,
    lemma_collected_idempotent, lemma_collected_map, names_distinct,
};

verus! {

/// The bit pattern of the single-precision 150.0, the resolution that the
/// bindings render at unless told otherwise.
pub const DEFAULT_DPI_BITS: u32 = 0x4316_0000;

/// The page limit that the bindings parse with unless told otherwise.
pub const DEFAULT_MAX_PAGES: usize = 1000;

/// The text of an optional string.
pub open spec fn opt_text(o: Option<String>) -> Option<Seq<char>> {
    match o {
        Some(s) => Some(s@),
        None => None,
    }
}

/// Copies an optional string.
pub(crate) fn copy_opt(o: &Option<String>) -> (r: Option<String>)
    ensures
        opt_text(r) == opt_text(*o),
{
    match o {
        Some(s) => Some(s.clone()),
        None => None,
    }
}

/// The parser settings that the bindings read and write.
///
/// `dpi_bits` holds the IEEE-754 bit pattern of the single-precision
/// resolution; the library stores it and never computes with it.
pub struct ParserConfig {
    pub ocr_language: String,
    pub ocr_enabled: bool,
    pub ocr_server_url: Option<String>,
    pub ocr_server_headers: Vec<(String, String)>,
    pub tessdata_path: Option<String>,
    pub max_pages: usize,
    pub target_pages: Option<String>,
    pub dpi_bits: u32,
    pub output_format: OutputFormat,
    pub preserve_very_small_text: bool,
    pub password: Option<String>,
    pub quiet: bool,
    pub num_workers: usize,
    pub image_mode: ImageMode,
    pub extract_links: bool,
}

/// The parser settings as values.
#[verifier::ext_equal]
pub struct ConfigModel {
    pub ocr_language: Seq<char>,
    pub ocr_enabled: bool,
    pub ocr_server_url: Option<Seq<char>>,
    pub ocr_server_headers: Seq<HeaderModel>,
    pub tessdata_path: Option<Seq<char>>,
    pub max_pages: usize,
    pub target_pages: Option<Seq<char>>,
    pub dpi_bits: u32,
    pub output_format: OutputFormat,
    pub preserve_very_small_text: bool,
    pub password: Option<Seq<char>>,
    pub quiet: bool,
    pub num_workers: usize,
    pub image_mode: ImageMode,
    pub extract_links: bool,
}

impl View for ParserConfig {
    type V = ConfigModel;

    open spec fn view(&self) -> ConfigModel {
        ConfigModel {
            ocr_language: self.ocr_language@,
            ocr_enabled: self.ocr_enabled,
            ocr_server_url: opt_text(self.ocr_server_url),
            ocr_server_headers: headers_view(self.ocr_server_headers@),
            tessdata_path: opt_text(self.tessdata_path),
            max_pages: self.max_pages,
            target_pages: opt_text(self.target_pages),
            dpi_bits: self.dpi_bits,
            output_format: self.output_format,
            preserve_very_small_text: self.preserve_very_small_text,
            password: opt_text(self.password),
            quiet: self.quiet,
            num_workers: self.num_workers,
            image_mode: self.image_mode,
            extract_links: self.extract_links,
        }
    }
}

/// The keyword arguments of the parser constructor, each absent unless given.
///
/// `ocr_server_headers` lists the pairs of the given hash in its order;
/// `dpi_bits` is the bit pattern of the given resolution narrowed to single
/// precision; `output_format` and `image_mode` are the names given.
pub struct ParserOptions {
    pub ocr_language: Option<String>,
    pub ocr_enabled: Option<bool>,
    pub ocr_server_url: Option<String>,
    pub ocr_server_headers: Option<Vec<(String, String)>>,
    pub tessdata_path: Option<String>,
    pub max_pages: Option<usize>,
    pub target_pages: Option<String>,
    pub dpi_bits: Option<u32>,
    pub output_format: Option<String>,
    pub preserve_very_small_text: Option<bool>,
    pub password: Option<String>,
    pub quiet: Option<bool>,
    pub num_workers: Option<usize>,
    pub image_mode: Option<String>,
    pub extract_links: Option<bool>,
}

/// The keyword arguments as values.
pub struct OptionsModel {
    pub ocr_language: Option<Seq<char>>,
    pub ocr_enabled: Option<bool>,
    pub ocr_server_url: Option<Seq<char>>,
    pub ocr_server_headers: Option<Seq<HeaderModel>>,
    pub tessdata_path: Option<Seq<char>>,
    pub max_pages: Option<usize>,
    pub target_pages: Option<Seq<char>>,
    pub dpi_bits: Option<u32>,
    pub output_format: Option<Seq<char>>,
    pub preserve_very_small_text: Option<bool>,
    pub password: Option<Seq<char>>,
    pub quiet: Option<bool>,
    pub num_workers: Option<usize>,
    pub image_mode: Option<Seq<char>>,
    pub extract_links: Option<bool>,
}

impl View for ParserOptions {
    type V = OptionsModel;

    open spec fn view(&self) -> OptionsModel {
        OptionsModel {
            ocr_language: opt_text(self.ocr_language),
            ocr_enabled: self.ocr_enabled,
            ocr_server_url: opt_text(self.ocr_server_url),
            ocr_server_headers: match self.ocr_server_headers {
                Some(h) => Some(headers_view(h@)),
                None => None,
            },
            tessdata_path: opt_text(self.tessdata_path),
            max_pages: self.max_pages,
            target_pages: opt_text(self.target_pages),
            dpi_bits: self.dpi_bits,
            output_format: opt_text(self.output_format),
            preserve_very_small_text: self.preserve_very_small_text,
            password: opt_text(self.password),
            quiet: self.quiet,
            num_workers: self.num_workers,
            image_mode: opt_text(self.image_mode),
            extract_links: self.extract_links,
        }
    }
}

impl OptionsModel {
    /// The keywords of `self`, each replaced by that of `later` where
    /// `later` gives it.
    pub open spec fn overridden_by(self, later: OptionsModel) -> OptionsModel {
        OptionsModel {
            ocr_language: given_or_opt(later.ocr_language, self.ocr_language),
            ocr_enabled: given_or_opt(later.ocr_enabled, self.ocr_enabled),
            ocr_server_url: given_or_opt(later.ocr_server_url, self.ocr_server_url),
            ocr_server_headers: given_or_opt(later.ocr_server_headers, self.ocr_server_headers),
            tessdata_path: given_or_opt(later.tessdata_path, self.tessdata_path),
            max_pages: given_or_opt(later.max_pages, self.max_pages),
            target_pages: given_or_opt(later.target_pages, self.target_pages),
            dpi_bits: given_or_opt(later.dpi_bits, self.dpi_bits),
            output_format: given_or_opt(later.output_format, self.output_format),
            preserve_very_small_text: given_or_opt(
                later.preserve_very_small_text,
                self.preserve_very_small_text,
            ),
            password: given_or_opt(later.password, self.password),
            quiet: given_or_opt(later.quiet, self.quiet),
            num_workers: given_or_opt(later.num_workers, self.num_workers),
            image_mode: given_or_opt(later.image_mode, self.image_mode),
            extract_links: given_or_opt(later.extract_links, self.extract_links),
        }
    }

    /// No keyword given.
    pub open spec fn none() -> OptionsModel {
        OptionsModel {
            ocr_language: None,
            ocr_enabled: None,
            ocr_server_url: None,
            ocr_server_headers: None,
            tessdata_path: None,
            max_pages: None,
            target_pages: None,
            dpi_bits: None,
            output_format: None,
            preserve_very_small_text: None,
            password: None,
            quiet: None,
            num_workers: None,
            image_mode: None,
            extract_links: None,
        }
    }
}

/// The given value if there is one, else the current one.
pub open spec fn given_or<T>(given: Option<T>, current: T) -> T {
    match given {
        Some(v) => v,
        None => current,
    }
}

/// A string setting that is absent by default: the given value if there is
/// one, else the current one.
pub open spec fn given_or_opt<T>(given: Option<T>, current: Option<T>) -> Option<T> {
    match given {
        Some(v) => Some(v),
        None => current,
    }
}

impl ConfigModel {
    /// The settings after the given keywords: each given keyword sets its
    /// setting, every other setting keeps its value. Headers are gathered
    /// into one per name, and format and image mode are read from their names.
    pub open spec fn with_options(self, o: OptionsModel) -> ConfigModel {
        ConfigModel {
            ocr_language: given_or(o.ocr_language, self.ocr_language),
            ocr_enabled: given_or(o.ocr_enabled, self.ocr_enabled),
            ocr_server_url: given_or_opt(o.ocr_server_url, self.ocr_server_url),
            ocr_server_headers: match o.ocr_server_headers {
                Some(h) => collected(h),
                None => self.ocr_server_headers,
            },
            tessdata_path: given_or_opt(o.tessdata_path, self.tessdata_path),
            max_pages: given_or(o.max_pages, self.max_pages),
            target_pages: given_or_opt(o.target_pages, self.target_pages),
            dpi_bits: given_or(o.dpi_bits, self.dpi_bits),
            output_format: match o.output_format {
                Some(n) => format_named(n),
                None => self.output_format,
            },
            preserve_very_small_text: given_or(
                o.preserve_very_small_text,
                self.preserve_very_small_text,
            ),
            password: given_or_opt(o.password, self.password),
            quiet: given_or(o.quiet, self.quiet),
            num_workers: given_or(o.num_workers, self.num_workers),
            image_mode: match o.image_mode {
                Some(n) => image_mode_named(n),
                None => self.image_mode,
            },
            extract_links: given_or(o.extract_links, self.extract_links),
        }
    }

    /// The settings that the bindings start from: those of the parser's own
    /// defaults, with OCR on, 150 dpi and a limit of 1000 pages.
    pub open spec fn binding_defaults(self) -> ConfigModel {
        ConfigModel {
            ocr_enabled: true,
            dpi_bits: DEFAULT_DPI_BITS,
            max_pages: DEFAULT_MAX_PAGES,
            ..self
        }
    }
}

impl ParserConfig {
    /// Sets what the bindings change in the parser's own defaults: OCR on,
    /// 150 dpi, at most 1000 pages.
    pub fn use_binding_defaults(&mut self)
        ensures
            final(self)@ == old(self)@.binding_defaults(),
    {
        self.ocr_enabled = true;
        self.dpi_bits = DEFAULT_DPI_BITS;
        self.max_pages = DEFAULT_MAX_PAGES;
    }

    fn apply_text_options(&mut self, options: &ParserOptions)
        ensures
            final(self)@ == (ConfigModel {
                ocr_language: given_or(options@.ocr_language, old(self)@.ocr_language),
                ocr_server_url: given_or_opt(options@.ocr_server_url, old(self)@.ocr_server_url),
                tessdata_path: given_or_opt(options@.tessdata_path, old(self)@.tessdata_path),
                target_pages: given_or_opt(options@.target_pages, old(self)@.target_pages),
                password: given_or_opt(options@.password, old(self)@.password),
                ..old(self)@
            }),
    {
        if let Some(v) = &options.ocr_language {
            self.ocr_language = v.clone();
        }
        if let Some(v) = &options.ocr_server_url {
            self.ocr_server_url = Some(v.clone());
        }
        if let Some(v) = &options.tessdata_path {
            self.tessdata_path = Some(v.clone());
        }
        if let Some(v) = &options.target_pages {
            self.target_pages = Some(v.clone());
        }
        if let Some(v) = &options.password {
            self.password = Some(v.clone());
        }
    }

    fn apply_switch_options(&mut self, options: &ParserOptions)
        ensures
            final(self)@ == (ConfigModel {
                ocr_enabled: given_or(options@.ocr_enabled, old(self)@.ocr_enabled),
                preserve_very_small_text: given_or(
                    options@.preserve_very_small_text,
                    old(self)@.preserve_very_small_text,
                ),
                quiet: given_or(options@.quiet, old(self)@.quiet),
                extract_links: given_or(options@.extract_links, old(self)@.extract_links),
                ..old(self)@
            }),
    {
        if let Some(v) = options.ocr_enabled {
            self.ocr_enabled = v;
        }
        if let Some(v) = options.preserve_very_small_text {
            self.preserve_very_small_text = v;
        }
        if let Some(v) = options.quiet {
            self.quiet = v;
        }
        if let Some(v) = options.extract_links {
            self.extract_links = v;
        }
    }

    fn apply_number_options(&mut self, options: &ParserOptions)
        ensures
            final(self)@ == (ConfigModel {
                max_pages: given_or(options@.max_pages, old(self)@.max_pages),
                dpi_bits: given_or(options@.dpi_bits, old(self)@.dpi_bits),
                num_workers: given_or(options@.num_workers, old(self)@.num_workers),
                ..old(self)@
            }),
    {
        if let Some(v) = options.max_pages {
            self.max_pages = v;
        }
        if let Some(v) = options.dpi_bits {
            self.dpi_bits = v;
        }
        if let Some(v) = options.num_workers {
            self.num_workers = v;
        }
    }

    fn apply_read_options(&mut self, options: &ParserOptions)
        ensures
            final(self)@ == (ConfigModel {
                ocr_server_headers: match options@.ocr_server_headers {
                    Some(h) => collected(h),
                    None => old(self)@.ocr_server_headers,
                },
                output_format: match options@.output_format {
                    Some(n) => format_named(n),
                    None => old(self)@.output_format,
                },
                image_mode: match options@.image_mode {
                    Some(n) => image_mode_named(n),
                    None => old(self)@.image_mode,
                },
                ..old(self)@
            }),
    {
        if let Some(v) = &options.ocr_server_headers {
            self.ocr_server_headers = collect_headers(v);
        }
        if let Some(v) = &options.output_format {
            self.output_format = parse_output_format(v);
        }
        if let Some(v) = &options.image_mode {
            self.image_mode = parse_image_mode(v);
        }
    }

    /// Applies the given keywords: each given keyword replaces its setting.
    pub fn apply_options(&mut self, options: &ParserOptions)
        ensures
            final(self)@ == old(self)@.with_options(options@),
    {
        self.apply_text_options(options);
        self.apply_switch_options(options);
        self.apply_number_options(options);
        self.apply_read_options(options);
    }

    /// The settings of a new parser: the parser's own defaults `base`, changed
    /// as the bindings change them, then by the keywords given, if any.
    pub fn from_options(base: ParserConfig, options: Option<&ParserOptions>) -> (r: ParserConfig)
        ensures
            r@ == match options {
                Some(o) => base@.binding_defaults().with_options(o@),
                None => base@.binding_defaults(),
            },
    {
        let mut cfg = base;
        cfg.use_binding_defaults();
        if let Some(o) = options {
            cfg.apply_options(o);
        }
        cfg
    }
}

/// Giving no keyword leaves every setting as it was.
pub proof fn lemma_no_keywords_keep_settings(c: ConfigModel)
    ensures
        c.with_options(OptionsModel::none()) == c,
{
    assert(c.with_options(OptionsModel::none()) =~= c);
}

/// Applying the same keywords twice gives the settings that applying them
/// once gives.
pub proof fn lemma_keywords_idempotent(c: ConfigModel, o: OptionsModel)
    ensures
        c.with_options(o).with_options(o) == c.with_options(o),
{
    if o.ocr_server_headers is Some {
        lemma_collected_idempotent(o.ocr_server_headers.unwrap());
    }
    assert(c.with_options(o).with_options(o) =~= c.with_options(o));
}

/// Applying keywords, then more keywords, gives the settings that applying
/// the first keywords overridden by the later ones gives: a later keyword
/// wins, an earlier one that is not given again stays.
pub proof fn lemma_later_keywords_win(c: ConfigModel, first: OptionsModel, later: OptionsModel)
    ensures
        c.with_options(first).with_options(later) == c.with_options(first.overridden_by(later)),
{
    assert(c.with_options(first).with_options(later) =~= c.with_options(
        first.overridden_by(later),
    ));
}

proof fn lemma_keyword_names_differ()
    ensures
        "off"@ != "embed"@,
        "none"@ != "embed"@,
        "text"@ != "markdown"@,
        "text"@ != "md"@,
{
    reveal_strlit("off");
    reveal_strlit("none");
    reveal_strlit("embed");
    reveal_strlit("text");
    reveal_strlit("markdown");
    reveal_strlit("md");
    assert("off"@[0] != "embed"@[0]);
    assert("none"@[0] != "embed"@[0]);
    assert("text"@[0] != "markdown"@[0]);
    assert("text"@.len() != "md"@.len());
}

/// A keyword given to the constructor is the value of its setting afterwards,
/// exactly as given; a setting whose keyword is not given keeps its value.
pub proof fn lemma_given_values_are_kept(c: ConfigModel, o: OptionsModel)
    ensures
        ({
            let r = c.with_options(o);
            &&& (o.ocr_language matches Some(v) ==> r.ocr_language == v)
            &&& (o.ocr_language is None ==> r.ocr_language == c.ocr_language)
            &&& (o.ocr_enabled matches Some(v) ==> r.ocr_enabled == v)
            &&& (o.ocr_enabled is None ==> r.ocr_enabled == c.ocr_enabled)
            &&& (o.ocr_server_url matches Some(v) ==> r.ocr_server_url == Some(v))
            &&& (o.ocr_server_url is None ==> r.ocr_server_url == c.ocr_server_url)
            &&& (o.ocr_server_headers is None ==> r.ocr_server_headers == c.ocr_server_headers)
            &&& (o.tessdata_path matches Some(v) ==> r.tessdata_path == Some(v))
            &&& (o.tessdata_path is None ==> r.tessdata_path == c.tessdata_path)
            &&& (o.max_pages matches Some(v) ==> r.max_pages == v)
            &&& (o.max_pages is None ==> r.max_pages == c.max_pages)
            &&& (o.target_pages matches Some(v) ==> r.target_pages == Some(v))
            &&& (o.target_pages is None ==> r.target_pages == c.target_pages)
            &&& (o.dpi_bits matches Some(v) ==> r.dpi_bits == v)
            &&& (o.dpi_bits is None ==> r.dpi_bits == c.dpi_bits)
            &&& (o.output_format is None ==> r.output_format == c.output_format)
            &&& (o.preserve_very_small_text matches Some(v) ==> r.preserve_very_small_text == v)
            &&& (o.preserve_very_small_text is None ==> r.preserve_very_small_text
                == c.preserve_very_small_text)
            &&& (o.password matches Some(v) ==> r.password == Some(v))
            &&& (o.password is None ==> r.password == c.password)
            &&& (o.quiet matches Some(v) ==> r.quiet == v)
            &&& (o.quiet is None ==> r.quiet == c.quiet)
            &&& (o.num_workers matches Some(v) ==> r.num_workers == v)
            &&& (o.num_workers is None ==> r.num_workers == c.num_workers)
            &&& (o.image_mode is None ==> r.image_mode == c.image_mode)
            &&& (o.extract_links matches Some(v) ==> r.extract_links == v)
            &&& (o.extract_links is None ==> r.extract_links == c.extract_links)
        }),
{
}

/// An `image_mode` keyword switches images off for `"off"` and `"none"`,
/// embeds them for `"embed"`, and keeps placeholders for any other name.
pub proof fn lemma_image_mode_keyword(c: ConfigModel, o: OptionsModel, n: Seq<char>)
    requires
        o.image_mode == Some(n),
    ensures
        (n == "off"@ || n == "none"@) ==> c.with_options(o).image_mode == ImageMode::Off,
        n == "embed"@ ==> c.with_options(o).image_mode == ImageMode::Embed,
        (n != "off"@ && n != "none"@ && n != "embed"@) ==> c.with_options(o).image_mode
            == ImageMode::Placeholder,
{
    lemma_keyword_names_differ();
}

/// An `output_format` keyword selects text for `"text"`, markdown for
/// `"markdown"` and `"md"`, and JSON for any other name.
pub proof fn lemma_output_format_keyword(c: ConfigModel, o: OptionsModel, n: Seq<char>)
    requires
        o.output_format == Some(n),
    ensures
        n == "text"@ ==> c.with_options(o).output_format == OutputFormat::Text,
        (n == "markdown"@ || n == "md"@) ==> c.with_options(o).output_format
            == OutputFormat::Markdown,
        (n != "text"@ && n != "markdown"@ && n != "md"@) ==> c.with_options(o).output_format
            == OutputFormat::Json,
{
    lemma_keyword_names_differ();
}

/// Headers given to the constructor end up one per name, describing the
/// same map from names to values as the given list: for each name, its last
/// value.
pub proof fn lemma_headers_keyword(c: ConfigModel, o: OptionsModel, h: Seq<HeaderModel>)
    requires
        o.ocr_server_headers == Some(h),
    ensures
        names_distinct(c.with_options(o).ocr_server_headers),
        header_map(c.with_options(o).ocr_server_headers) == header_map(h),
        (c.with_options(o).ocr_server_headers.len() == 0) == (h.len() == 0),
{
    lemma_collected_distinct(h);
    lemma_collected_map(h);
    crate::headers::lemma_collected_empty(h);
}

/// The bindings start from the parser's own defaults with OCR switched on,
/// the resolution set to 150 dpi (single-precision bits 0x4316_0000) and the
/// page limit set to 1000; every other setting is the parser's own.
pub proof fn lemma_binding_default_values(base: ConfigModel)
    ensures
        ({
            let r = base.binding_defaults();
            &&& r.ocr_enabled
            &&& r.dpi_bits == 0x4316_0000u32
            &&& r.max_pages == 1000
            &&& r.ocr_language == base.ocr_language
            &&& r.ocr_server_url == base.ocr_server_url
            &&& r.ocr_server_headers == base.ocr_server_headers
            &&& r.tessdata_path == base.tessdata_path
            &&& r.target_pages == base.target_pages
            &&& r.output_format == base.output_format
            &&& r.preserve_very_small_text == base.preserve_very_small_text
            &&& r.password == base.password
            &&& r.quiet == base.quiet
            &&& r.num_workers == base.num_workers
            &&& r.image_mode == base.image_mode
            &&& r.extract_links == base.extract_links
        }),
{
}

} // verus!
