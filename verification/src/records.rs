use vstd::prelude::*;

use crate::config::opt_text;
use crate::text::{
    debug_string, debug_text, decimal, decimal_string, lemma_decimal_reads_back, numeral_value,
};
use vstd::string::StringExecFns;
use vstd::utf8::encode_utf8;

verus! {

/// A word or phrase on a page with its bounding box.
///
/// The coordinates, the font size and the OCR confidence are the IEEE-754
/// bit patterns of the single-precision values that the parser measured; the
/// library keeps them and never computes with them. The confidence is absent
/// for native text.
#[derive(Clone, Debug)]
pub struct TextItem {
    text: String,
    x: u32,
    y: u32,
    width: u32,
    height: u32,
    font_name: Option<String>,
    font_size: Option<u32>,
    confidence: Option<u32>,
}

/// A text item as values.
pub struct TextItemModel {
    pub text: Seq<char>,
    pub x: u32,
    pub y: u32,
    pub width: u32,
    pub height: u32,
    pub font_name: Option<Seq<char>>,
    pub font_size: Option<u32>,
    pub confidence: Option<u32>,
}

impl View for TextItem {
    type V = TextItemModel;

    closed spec fn view(&self) -> TextItemModel {
        TextItemModel {
            text: self.text@,
            x: self.x,
            y: self.y,
            width: self.width,
            height: self.height,
            font_name: opt_text(self.font_name),
            font_size: self.font_size,
            confidence: self.confidence,
        }
    }
}

impl TextItem {
    /// A text item with the given text, box, font and confidence.
    pub fn from_rust(
        text: String,
        x: u32,
        y: u32,
        width: u32,
        height: u32,
        font_name: Option<String>,
        font_size: Option<u32>,
        confidence: Option<u32>,
    ) -> (r: TextItem)
        ensures
            r@ == (TextItemModel {
                text: text@,
                x,
                y,
                width,
                height,
                font_name: opt_text(font_name),
                font_size,
                confidence,
            }),
    {
        TextItem { text, x, y, width, height, font_name, font_size, confidence }
    }

    pub fn text(&self) -> (r: &String)
        ensures
            r@ == self@.text,
    {
        &self.text
    }

    pub fn x(&self) -> (r: u32)
        ensures
            r == self@.x,
    {
        self.x
    }

    pub fn y(&self) -> (r: u32)
        ensures
            r == self@.y,
    {
        self.y
    }

    pub fn width(&self) -> (r: u32)
        ensures
            r == self@.width,
    {
        self.width
    }

    pub fn height(&self) -> (r: u32)
        ensures
            r == self@.height,
    {
        self.height
    }

    pub fn font_name(&self) -> (r: Option<&String>)
        ensures
            r matches Some(s) ==> self@.font_name == Some(s@),
            r is None ==> self@.font_name is None,
    {
        self.font_name.as_ref()
    }

    pub fn font_size(&self) -> (r: Option<u32>)
        ensures
            r == self@.font_size,
    {
        self.font_size
    }

    pub fn confidence(&self) -> (r: Option<u32>)
        ensures
            r == self@.confidence,
    {
        self.confidence
    }
}

/// One parsed page.
///
/// The width and height are the bit patterns of the single-precision page
/// size.
#[derive(Clone, Debug)]
pub struct ParsedPage {
    page_num: u32,
    width: u32,
    height: u32,
    text: String,
    text_items: Vec<TextItem>,
}

/// A page as values.
pub struct PageModel {
    pub page_num: u32,
    pub width: u32,
    pub height: u32,
    pub text: Seq<char>,
    pub text_items: Seq<TextItemModel>,
}

/// The values of a list of text items.
pub open spec fn items_view(items: Seq<TextItem>) -> Seq<TextItemModel> {
    items.map_values(|i: TextItem| i@)
}

impl View for ParsedPage {
    type V = PageModel;

    closed spec fn view(&self) -> PageModel {
        PageModel {
            page_num: self.page_num,
            width: self.width,
            height: self.height,
            text: self.text@,
            text_items: items_view(self.text_items@),
        }
    }
}

impl ParsedPage {
    /// A page of the given number, size, text and items. The page number is
    /// kept as an unsigned 32-bit number, taken modulo 2^32.
    pub fn from_rust(
        page_number: usize,
        width: u32,
        height: u32,
        text: String,
        text_items: Vec<TextItem>,
    ) -> (r: ParsedPage)
        ensures
            r@ == (PageModel {
                page_num: page_number as u32,
                width,
                height,
                text: text@,
                text_items: items_view(text_items@),
            }),
    {
        ParsedPage {
            page_num: page_number as u32,
            width,
            height,
            text,
            text_items,
        }
    }

    pub fn page_num(&self) -> (r: u32)
        ensures
            r == self@.page_num,
    {
        self.page_num
    }

    pub fn width(&self) -> (r: u32)
        ensures
            r == self@.width,
    {
        self.width
    }

    pub fn height(&self) -> (r: u32)
        ensures
            r == self@.height,
    {
        self.height
    }

    pub fn text(&self) -> (r: &String)
        ensures
            r@ == self@.text,
    {
        &self.text
    }

    /// The page's text items, in their order.
    pub fn text_items(&self) -> (r: &Vec<TextItem>)
        ensures
            items_view(r@) == self@.text_items,
    {
        &self.text_items
    }
}

/// A raster image embedded in the document.
#[derive(Clone, Debug)]
pub struct ExtractedImage {
    id: String,
    page: u32,
    format: String,
    bytes: Vec<u8>,
}

/// An image as values.
pub struct ImageModel {
    pub id: Seq<char>,
    pub page: u32,
    pub format: Seq<char>,
    pub bytes: Seq<u8>,
}

impl View for ExtractedImage {
    type V = ImageModel;

    closed spec fn view(&self) -> ImageModel {
        ImageModel { id: self.id@, page: self.page, format: self.format@, bytes: self.bytes@ }
    }
}

/// How an image describes itself.
pub open spec fn image_summary(m: ImageModel) -> Seq<char> {
    "#<LiteParse::ExtractedImage id="@ + debug_text(m.id) + " page="@ + decimal(m.page as nat)
        + " format="@ + debug_text(m.format) + " bytes_len="@ + decimal(m.bytes.len()) + ">"@
}

impl ExtractedImage {
    /// An image with the given id, page, format and encoded bytes.
    pub fn from_rust(id: String, page: u32, format: String, bytes: Vec<u8>) -> (r: ExtractedImage)
        ensures
            r@ == (ImageModel { id: id@, page, format: format@, bytes: bytes@ }),
    {
        ExtractedImage { id, page, format, bytes }
    }

    pub fn id(&self) -> (r: &String)
        ensures
            r@ == self@.id,
    {
        &self.id
    }

    pub fn page(&self) -> (r: u32)
        ensures
            r == self@.page,
    {
        self.page
    }

    pub fn format(&self) -> (r: &String)
        ensures
            r@ == self@.format,
    {
        &self.format
    }

    pub fn bytes(&self) -> (r: &Vec<u8>)
        ensures
            r@ == self@.bytes,
    {
        &self.bytes
    }

    /// Describes the image: its id, page, format and number of bytes.
    pub fn inspect(&self) -> (r: String)
        ensures
            r@ == image_summary(self@),
    {
        let mut s = "#<LiteParse::ExtractedImage id=".to_owned();
        s.append(debug_string(self.id.as_str()).as_str());
        s.append(" page=");
        s.append(decimal_string(self.page as u64).as_str());
        s.append(" format=");
        s.append(debug_string(self.format.as_str()).as_str());
        s.append(" bytes_len=");
        s.append(decimal_string(self.bytes.len() as u64).as_str());
        s.append(">");
        s
    }
}

/// A rendered page image.
#[derive(Clone, Debug)]
pub struct ScreenshotResult {
    page_num: u32,
    width: u32,
    height: u32,
    image_bytes: Vec<u8>,
}

/// A screenshot as values.
pub struct ScreenshotModel {
    pub page_num: u32,
    pub width: u32,
    pub height: u32,
    pub image_bytes: Seq<u8>,
}

impl View for ScreenshotResult {
    type V = ScreenshotModel;

    closed spec fn view(&self) -> ScreenshotModel {
        ScreenshotModel {
            page_num: self.page_num,
            width: self.width,
            height: self.height,
            image_bytes: self.image_bytes@,
        }
    }
}

/// How a screenshot describes itself.
pub open spec fn screenshot_summary(m: ScreenshotModel) -> Seq<char> {
    "#<LiteParse::ScreenshotResult page_num="@ + decimal(m.page_num as nat) + " width="@
        + decimal(m.width as nat) + " height="@ + decimal(m.height as nat) + ">"@
}

impl ScreenshotResult {
    /// A screenshot of the given page, size in pixels and encoded image.
    pub fn from_rust(page_num: u32, width: u32, height: u32, image_bytes: Vec<u8>) -> (r:
        ScreenshotResult)
        ensures
            r@ == (ScreenshotModel { page_num, width, height, image_bytes: image_bytes@ }),
    {
        ScreenshotResult { page_num, width, height, image_bytes }
    }

    pub fn page_num(&self) -> (r: u32)
        ensures
            r == self@.page_num,
    {
        self.page_num
    }

    pub fn width(&self) -> (r: u32)
        ensures
            r == self@.width,
    {
        self.width
    }

    pub fn height(&self) -> (r: u32)
        ensures
            r == self@.height,
    {
        self.height
    }

    pub fn image_bytes(&self) -> (r: &Vec<u8>)
        ensures
            r@ == self@.image_bytes,
    {
        &self.image_bytes
    }

    /// Describes the screenshot: its page and size.
    pub fn inspect(&self) -> (r: String)
        ensures
            r@ == screenshot_summary(self@),
    {
        let mut s = "#<LiteParse::ScreenshotResult page_num=".to_owned();
        s.append(decimal_string(self.page_num as u64).as_str());
        s.append(" width=");
        s.append(decimal_string(self.width as u64).as_str());
        s.append(" height=");
        s.append(decimal_string(self.height as u64).as_str());
        s.append(">");
        s
    }
}

/// A parsed document: its pages, its full text and its embedded images.
#[derive(Clone, Debug)]
pub struct ParseResult {
    pages: Vec<ParsedPage>,
    text: String,
    images: Vec<ExtractedImage>,
}

/// The first position in `pages` of a page with that number, if any.
pub open spec fn first_page_position(pages: Seq<PageModel>, page_num: u32) -> Option<int>
    decreases pages.len(),
{
    if pages.len() == 0 {
        None
    } else if pages[0].page_num == page_num {
        Some(0)
    } else {
        match first_page_position(pages.drop_first(), page_num) {
            Some(i) => Some(i + 1),
            None => None,
        }
    }
}

/// The values of a list of pages.
pub open spec fn pages_view(pages: Seq<ParsedPage>) -> Seq<PageModel> {
    pages.map_values(|p: ParsedPage| p@)
}

/// The values of a list of images.
pub open spec fn images_view(images: Seq<ExtractedImage>) -> Seq<ImageModel> {
    images.map_values(|i: ExtractedImage| i@)
}

/// A parsed document as values.
pub struct ResultModel {
    pub pages: Seq<PageModel>,
    pub text: Seq<char>,
    pub images: Seq<ImageModel>,
}

impl View for ParseResult {
    type V = ResultModel;

    closed spec fn view(&self) -> ResultModel {
        ResultModel {
            pages: pages_view(self.pages@),
            text: self.text@,
            images: images_view(self.images@),
        }
    }
}

/// The length in UTF-8 bytes of a text, as `str::len` reports it.
pub open spec fn byte_len(text: Seq<char>) -> nat {
    (encode_utf8(text).len() as usize) as nat
}

/// How a parsed document describes itself: its number of pages, the length
/// of its text in UTF-8 bytes, and its number of images.
pub open spec fn result_summary(m: ResultModel) -> Seq<char> {
    "#<LiteParse::ParseResult pages="@ + decimal(m.pages.len()) + " text_len="@ + decimal(
        byte_len(m.text),
    ) + " images="@ + decimal(m.images.len()) + ">"@
}

/// The position that `first_page_position` gives holds a page of that number
/// and no page before it does; it gives none exactly when no page has that
/// number.
pub proof fn lemma_first_page_position(pages: Seq<PageModel>, page_num: u32)
    ensures
        match first_page_position(pages, page_num) {
            Some(i) => 0 <= i < pages.len() && pages[i].page_num == page_num && forall|j: int|
                0 <= j < i ==> #[trigger] pages[j].page_num != page_num,
            None => forall|j: int| 0 <= j < pages.len() ==> #[trigger] pages[j].page_num != page_num,
        },
    decreases pages.len(),
{
    if pages.len() > 0 {
        lemma_first_page_position(pages.drop_first(), page_num);
        if pages[0].page_num != page_num {
            assert forall|j: int| 1 <= j < pages.len() implies pages[j].page_num
                == pages.drop_first()[j - 1].page_num by {}
        }
    }
}

impl ParseResult {
    /// A parsed document with the given pages, text and images.
    pub fn from_rust(pages: Vec<ParsedPage>, text: String, images: Vec<ExtractedImage>) -> (r:
        ParseResult)
        ensures
            r@ == (ResultModel {
                pages: pages_view(pages@),
                text: text@,
                images: images_view(images@),
            }),
    {
        ParseResult { pages, text, images }
    }

    pub fn pages(&self) -> (r: &Vec<ParsedPage>)
        ensures
            pages_view(r@) == self@.pages,
    {
        &self.pages
    }

    pub fn text(&self) -> (r: &String)
        ensures
            r@ == self@.text,
    {
        &self.text
    }

    pub fn images(&self) -> (r: &Vec<ExtractedImage>)
        ensures
            images_view(r@) == self@.images,
    {
        &self.images
    }

    /// The number of parsed pages.
    pub fn num_pages(&self) -> (r: usize)
        ensures
            r == self@.pages.len(),
    {
        self.pages.len()
    }

    /// The first page that carries the given page number, if any.
    pub fn get_page(&self, page_num: u32) -> (r: Option<&ParsedPage>)
        ensures
            match first_page_position(self@.pages, page_num) {
                Some(i) => r matches Some(p) && p@ == self@.pages[i],
                None => r is None,
            },
    {
        let mut i: usize = 0;
        while i < self.pages.len()
            invariant
                i <= self.pages.len(),
                forall|j: int| 0 <= j < i ==> #[trigger] self.pages@[j].page_num != page_num,
            decreases self.pages.len() - i,
        {
            if self.pages[i].page_num == page_num {
                proof {
                    lemma_first_page_position(self@.pages, page_num);
                    let found = first_page_position(self@.pages, page_num);
                    assert(self@.pages[i as int] == self.pages@[i as int]@);
                    assert(self@.pages[i as int].page_num == page_num);
                    if found is Some {
                        let k = found.unwrap();
                        assert(self@.pages[k] == self.pages@[k]@);
                        assert(self.pages@[k].page_num == page_num);
                    }
                }
                return Some(&self.pages[i]);
            }
            i = i + 1;
        }
        proof {
            lemma_first_page_position(self@.pages, page_num);
            if first_page_position(self@.pages, page_num) is Some {
                let k = first_page_position(self@.pages, page_num).unwrap();
                assert(self@.pages[k] == self.pages@[k]@);
            }
        }
        None
    }

    /// Describes the document: its number of pages, the UTF-8 length of its
    /// text and its number of images.
    pub fn inspect(&self) -> (r: String)
        ensures
            r@ == result_summary(self@),
    {
        let mut s = "#<LiteParse::ParseResult pages=".to_owned();
        s.append(decimal_string(self.pages.len() as u64).as_str());
        s.append(" text_len=");
        s.append(decimal_string(self.text.as_str().len() as u64).as_str());
        s.append(" images=");
        s.append(decimal_string(self.images.len() as u64).as_str());
        s.append(">");
        s
    }
}

/// A parse result describes itself by its number of pages, the length of its
/// text in UTF-8 bytes and its number of images, each as a decimal numeral
/// that reads back as that number.
pub proof fn lemma_result_summary_counts(m: ResultModel)
    ensures
        result_summary(m) == "#<LiteParse::ParseResult pages="@ + decimal(m.pages.len())
            + " text_len="@ + decimal((encode_utf8(m.text).len() as usize) as nat)
            + " images="@ + decimal(m.images.len()) + ">"@,
        numeral_value(decimal(m.pages.len())) == m.pages.len(),
        numeral_value(decimal(m.images.len())) == m.images.len(),
{
    lemma_decimal_reads_back(m.pages.len());
    lemma_decimal_reads_back(m.images.len());
}

/// An image describes itself by its quoted id, its page, its quoted format
/// and the number of its bytes, the numbers as decimal numerals that read
/// back as those numbers.
pub proof fn lemma_image_summary_fields(m: ImageModel)
    ensures
        image_summary(m) == "#<LiteParse::ExtractedImage id="@ + debug_text(m.id) + " page="@
            + decimal(m.page as nat) + " format="@ + debug_text(m.format) + " bytes_len="@
            + decimal(m.bytes.len()) + ">"@,
        numeral_value(decimal(m.page as nat)) == m.page,
        numeral_value(decimal(m.bytes.len())) == m.bytes.len(),
{
    lemma_decimal_reads_back(m.page as nat);
    lemma_decimal_reads_back(m.bytes.len());
}

/// A screenshot describes itself by its page number, its width and its
/// height, in that order, as decimal numerals that read back as those
/// numbers.
pub proof fn lemma_screenshot_summary_fields(m: ScreenshotModel)
    ensures
        screenshot_summary(m) == "#<LiteParse::ScreenshotResult page_num="@ + decimal(
            m.page_num as nat,
        ) + " width="@ + decimal(m.width as nat) + " height="@ + decimal(m.height as nat)
            + ">"@,
        numeral_value(decimal(m.page_num as nat)) == m.page_num,
        numeral_value(decimal(m.width as nat)) == m.width,
        numeral_value(decimal(m.height as nat)) == m.height,
{
    lemma_decimal_reads_back(m.page_num as nat);
    lemma_decimal_reads_back(m.width as nat);
    lemma_decimal_reads_back(m.height as nat);
}

} // verus!
