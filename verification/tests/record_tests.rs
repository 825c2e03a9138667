use liteparse_ruby::records::{ExtractedImage, ParseResult, ParsedPage, ScreenshotResult, TextItem};
use liteparse_ruby::text::decimal_string;

fn s(text: &str) -> String {
    text.to_string()
}

fn item(text: &str, x: f32) -> TextItem {
    TextItem::from_rust(
        s(text),
        x.to_bits(),
        2.5f32.to_bits(),
        40.0f32.to_bits(),
        12.0f32.to_bits(),
        Some(s("Arial")),
        Some(12.0f32.to_bits()),
        None,
    )
}

fn page(num: usize, text: &str) -> ParsedPage {
    ParsedPage::from_rust(num, 612.0f32.to_bits(), 792.0f32.to_bits(), s(text), vec![item(text, 1.0)])
}

#[test]
fn decimal_numerals() {
    assert_eq!(decimal_string(0), "0");
    assert_eq!(decimal_string(7), "7");
    assert_eq!(decimal_string(10), "10");
    assert_eq!(decimal_string(1234567890), "1234567890");
    assert_eq!(decimal_string(u64::MAX), u64::MAX.to_string());
}

#[test]
fn text_item_keeps_its_values() {
    let t = item("hello", 3.25);
    assert_eq!(t.text(), "hello");
    assert_eq!(f32::from_bits(t.x()) as f64, 3.25);
    assert_eq!(f32::from_bits(t.y()) as f64, 2.5);
    assert_eq!(f32::from_bits(t.width()), 40.0);
    assert_eq!(f32::from_bits(t.height()), 12.0);
    assert_eq!(t.font_name(), Some(&s("Arial")));
    assert_eq!(t.font_size().map(f32::from_bits), Some(12.0));
    assert_eq!(t.confidence(), None);
    let ocr = TextItem::from_rust(s("x"), 0, 0, 0, 0, None, None, Some(0.5f32.to_bits()));
    assert_eq!(ocr.confidence().map(f32::from_bits), Some(0.5));
    assert_eq!(ocr.font_name(), None);
}

#[test]
fn page_keeps_items_in_order() {
    let p = ParsedPage::from_rust(
        2,
        100.0f32.to_bits(),
        200.0f32.to_bits(),
        s("a b"),
        vec![item("a", 1.0), item("b", 2.0)],
    );
    assert_eq!(p.page_num(), 2);
    assert_eq!(f32::from_bits(p.width()), 100.0);
    assert_eq!(f32::from_bits(p.height()), 200.0);
    assert_eq!(p.text(), "a b");
    let items = p.text_items();
    assert_eq!(items.len(), 2);
    assert_eq!(items[0].text(), "a");
    assert_eq!(items[1].text(), "b");
    assert_eq!(f32::from_bits(items[1].x()), 2.0);
}

#[test]
fn page_number_wraps_to_32_bits() {
    let big = (1usize << 32) + 3;
    assert_eq!(ParsedPage::from_rust(big, 0, 0, s(""), Vec::new()).page_num(), 3);
}

#[test]
fn get_page_finds_first_match() {
    let r = ParseResult::from_rust(
        vec![page(1, "one"), page(3, "three"), page(3, "again")],
        s("one\nthree\nagain"),
        Vec::new(),
    );
    assert_eq!(r.num_pages(), 3);
    assert_eq!(r.get_page(3).map(|p| p.text().clone()), Some(s("three")));
    assert_eq!(r.get_page(1).map(|p| p.page_num()), Some(1));
    assert!(r.get_page(2).is_none());
    assert!(r.get_page(0).is_none());
    assert_eq!(r.pages().len(), 3);
    assert_eq!(r.text(), "one\nthree\nagain");
    assert!(r.images().is_empty());
}

#[test]
fn empty_result() {
    let r = ParseResult::from_rust(Vec::new(), s(""), Vec::new());
    assert_eq!(r.num_pages(), 0);
    assert!(r.get_page(1).is_none());
    assert_eq!(r.inspect(), "#<LiteParse::ParseResult pages=0 text_len=0 images=0>");
}

#[test]
fn result_inspect_counts_bytes() {
    let img = ExtractedImage::from_rust(s("img_p1_1"), 1, s("png"), vec![1, 2, 3]);
    let r = ParseResult::from_rust(vec![page(1, "é")], s("héllo"), vec![img]);
    assert_eq!(r.inspect(), "#<LiteParse::ParseResult pages=1 text_len=6 images=1>");
}

#[test]
fn image_inspect_quotes_strings() {
    let img = ExtractedImage::from_rust(s("img_p2_1"), 2, s("png"), vec![0; 1024]);
    assert_eq!(img.id(), "img_p2_1");
    assert_eq!(img.page(), 2);
    assert_eq!(img.format(), "png");
    assert_eq!(img.bytes().len(), 1024);
    assert_eq!(
        img.inspect(),
        "#<LiteParse::ExtractedImage id=\"img_p2_1\" page=2 format=\"png\" bytes_len=1024>"
    );
    let odd = ExtractedImage::from_rust(s("a\"b"), 0, s("x\\y"), Vec::new());
    assert_eq!(
        odd.inspect(),
        "#<LiteParse::ExtractedImage id=\"a\\\"b\" page=0 format=\"x\\\\y\" bytes_len=0>"
    );
}

#[test]
fn screenshot_inspect() {
    let shot = ScreenshotResult::from_rust(3, 1275, 1650, vec![137, 80, 78, 71]);
    assert_eq!(shot.page_num(), 3);
    assert_eq!(shot.width(), 1275);
    assert_eq!(shot.height(), 1650);
    assert_eq!(shot.image_bytes(), &vec![137, 80, 78, 71]);
    assert_eq!(shot.inspect(), "#<LiteParse::ScreenshotResult page_num=3 width=1275 height=1650>");
}
