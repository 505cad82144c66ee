use manga_epub::files::{kobo, nav, toc_ncx};
use manga_epub::kobo::KoboBook;

#[test]
fn kobo_nav_entry_numbers_its_span() {
    assert_eq!(
        kobo::generate_nav_entry("kingdom", 2, 6),
        "<li><a href=\"Text/kingdom/volume-0002/kcc-0000-kcc.xhtml\"><span class=\"koboSpan\" id=\"kobo.6.1\">Volume 2</span></a></li>\n"
    );
}

#[test]
fn kobo_page_wraps_the_image_in_span_three() {
    let doc = kobo::generate_page("kcc-0000-kcc", 10, 20, "k", "volume-0001");
    assert!(doc.ends_with("<span id=\"kobo.3.1\" class=\"koboSpan\"><img width=\"10\" height=\"20\" src=\"../../../Images/k/volume-0001/kcc-0000-kcc.jpg\"/></span></div></body></html>"));
    assert!(doc.contains("<meta name=\"viewport\" content=\"width=10, height=20\"/>"));
}

#[test]
fn kobo_package_uses_portrait_spreads() {
    let doc = kobo::generate_package("T", "c", "u", "u2", "fr", "", "", "d");
    assert!(doc.contains("<meta property=\"rendition:spread\">portrait</meta>"));
    assert!(!doc.contains("landscape"));
}

#[test]
fn kobo_spans_count_by_two_with_a_gap_between_lists() {
    let mut book = KoboBook::new("k", 10, 20, 3);
    book.begin_volume();
    book.add_page();
    book.begin_volume();
    book.begin_volume();
    let entries = book.finish("u", "u2", "T", "c", "fr", "d");
    let toc_items: String = (1..=3).map(|v| kobo::generate_nav_entry("k", v, 4 + (v - 1) * 2)).collect();
    let page_items: String = (1..=3).map(|v| kobo::generate_nav_entry("k", v, 4 + 3 * 2 + 6 + (v - 1) * 2)).collect();
    assert_eq!(entries[1].text, nav::generate("T", &toc_items, &page_items));
    assert!(entries[1].text.contains("id=\"kobo.4.1\""));
    assert!(entries[1].text.contains("id=\"kobo.16.1\""));
    let toc: String = (1..=3).map(|v| toc_ncx::generate_entry("k", v)).collect();
    assert_eq!(entries[0].text, toc_ncx::generate("u", "T", &toc));
    assert!(entries[2].text.contains("href=\"Text/k/volume-0001/kcc-0000-kcc.xhtml\""));
}
