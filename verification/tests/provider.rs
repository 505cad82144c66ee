use manga_epub::provider::manga_origins::{self, MangaOrigins};
use manga_epub::provider::sushiscan::{self, SushiScan};
use manga_epub::provider::{MangaInfo, ProviderError, TMangaInfo};

const SUSHI_MANGA: &str = r#"<html><body>
<h1 class="entry-title">Kingdom</h1>
<div class="seriestucontl"><img src="https://sushiscan.fr/cover.jpg"></div>
<div id="chapterlist"><ul><li><a href="https://sushiscan.fr/kingdom-2/">2</a></li><li><a href="https://sushiscan.fr/kingdom-1/">1</a></li><li><a>no link</a></li></ul></div>
</body></html>"#;

#[test]
fn sushiscan_urls() {
    let site = SushiScan::new("https://sushiscan.fr");
    assert_eq!(site.manga_info_url("kingdom"), "https://sushiscan.fr/catalogue/kingdom/");
    assert_eq!(site.catalogue_page_url(3), "https://sushiscan.fr/catalogue/?page=3");
    assert_eq!(site.chapters_url("kingdom"), "https://sushiscan.fr/catalogue/kingdom");
}

#[test]
fn sushiscan_manga_info() {
    let info = sushiscan::parse_manga_info("kingdom", SUSHI_MANGA).unwrap();
    assert_eq!(info.tag(), "kingdom");
    assert_eq!(info.name(), "Kingdom");
    assert_eq!(info.cover_url(), "https://sushiscan.fr/cover.jpg");
    assert_eq!(info.chapter_count, 3);
}

#[test]
fn sushiscan_manga_info_errors() {
    let no_title = r#"<div class="seriestucontl"><img src="c.jpg"></div>"#;
    assert!(matches!(sushiscan::parse_manga_info("t", no_title), Err(ProviderError::TitleNotFound)));
    let no_cover = r#"<h1 class="entry-title">T</h1>"#;
    assert!(matches!(sushiscan::parse_manga_info("t", no_cover), Err(ProviderError::CoverNotFound)));
    let no_chapters = r#"<h1 class="entry-title">T</h1><div class="seriestucontl"><img></div>"#;
    let info = sushiscan::parse_manga_info("t", no_chapters).unwrap();
    assert_eq!((info.cover_url.as_str(), info.chapter_count), ("", 0));
}

#[test]
fn sushiscan_chapter_urls_skip_links_without_href() {
    let urls = sushiscan::parse_chapter_urls(SUSHI_MANGA).unwrap();
    assert_eq!(urls, vec!["https://sushiscan.fr/kingdom-2/", "https://sushiscan.fr/kingdom-1/"]);
}

#[test]
fn sushiscan_chapter_pages() {
    let body = r#"<div id="readerarea"><p><img src="p1.jpg"></p><p><img></p><p><img src="p2.jpg"></p></div>"#;
    let chapter = sushiscan::parse_chapter(body, 4).unwrap();
    assert_eq!(chapter.pages, vec!["p1.jpg", "p2.jpg"]);
    assert_eq!(chapter.chapter_number, 4);
}

#[test]
fn sushiscan_catalogue_walk() {
    let site = SushiScan::new("https://s.fr");
    let page = r#"<div class="listupd"><div><div><a href="https://s.fr/catalogue/kingdom/">K</a></div></div><div><div><a href="https://s.fr/catalogue/one-piece/">O</a></div></div><div><div><a>none</a></div></div></div>"#;
    let tags = sushiscan::parse_catalogue_page(page).unwrap();
    assert_eq!(tags, vec!["kingdom", "one-piece", ""]);
    let mut walk = sushiscan::CatalogueWalk::new();
    assert_eq!(walk.next_url(&site).unwrap(), "https://s.fr/catalogue/?page=1");
    walk.absorb(tags);
    assert_eq!(walk.next_url(&site).unwrap(), "https://s.fr/catalogue/?page=2");
    let empty = sushiscan::parse_catalogue_page("<html></html>").unwrap();
    walk.absorb(empty);
    assert!(walk.next_url(&site).is_none());
    assert_eq!(walk.into_tags(), vec!["kingdom", "one-piece", ""]);
}

const ORIGINS_MANGA: &str = r#"<html><body>
<div class="post-title"><h1>
  One Piece </h1></div>
<div class="ori-sr-cover"><img data-src="lazy.jpg" src="placeholder.jpg"></div>
<div class="ori-chl-row"><a class="ori-chl-corps" href="https://o.fr/oeuvre/op/chapitre-2/">2</a></div>
<div class="ori-chl-row"><a class="ori-chl-corps" href="https://o.fr/oeuvre/op/chapitre-1">1</a></div>
</body></html>"#;

#[test]
fn manga_origins_urls_and_form() {
    let site = MangaOrigins::new("https://o.fr");
    assert_eq!(site.manga_info_url("op"), "https://o.fr/oeuvre/op/");
    assert_eq!(site.catalogue_url(), "https://o.fr/catalogues/");
    assert_eq!(site.ajax_url(), "https://o.fr/wp-admin/admin-ajax.php");
    let params = [
        ("action", "madara_load_more"),
        ("page", "7"),
        ("template", "madara-core/content/content-archive"),
        ("vars[paged]", "1"),
        ("vars[orderby]", "meta_value_num"),
        ("vars[template]", "archive"),
        ("vars[sidebar]", "full"),
        ("vars[post_type]", "wp-manga"),
        ("vars[post_status]", "publish"),
        ("vars[meta_key]", "_latest_update"),
        ("vars[order]", "desc"),
        ("vars[meta_query][relation]", "AND"),
        ("vars[manga_archives_item_layout]", "big_thumbnail"),
        ("vars[manga_archives_item_columns]", "0"),
    ];
    let expected = params.iter().map(|(k, v)| format!("{}={}", k, v)).collect::<Vec<_>>().join("&");
    assert_eq!(manga_origins::ajax_form_body(7), expected);
}

#[test]
fn manga_origins_manga_info() {
    let info: MangaInfo = manga_origins::parse_manga_info("op", ORIGINS_MANGA).unwrap();
    assert_eq!(info.name, "One Piece");
    assert_eq!(info.cover_url, "lazy.jpg");
    assert_eq!(info.chapter_count, 2);
    let no_cover = r#"<div class="post-title"><h1>T</h1></div>"#;
    let info = manga_origins::parse_manga_info("t", no_cover).unwrap();
    assert_eq!((info.cover_url.as_str(), info.chapter_count), ("", 0));
    assert!(matches!(manga_origins::parse_manga_info("t", "<p></p>"), Err(ProviderError::TitleNotFound)));
}

#[test]
fn manga_origins_chapters_oldest_first() {
    let urls = manga_origins::parse_chapter_urls(ORIGINS_MANGA).unwrap();
    assert_eq!(
        urls,
        vec!["https://o.fr/oeuvre/op/chapitre-1?style=list", "https://o.fr/oeuvre/op/chapitre-2?style=list"]
    );
}

#[test]
fn manga_origins_chapter_pages_keep_every_image() {
    let body = r#"<div class="reading-content"><img data-src="a.jpg" src="x.gif"><img src="b.jpg"><img></div>"#;
    let chapter = manga_origins::parse_chapter(body, 0).unwrap();
    assert_eq!(chapter.pages, vec!["a.jpg", "b.jpg", ""]);
}

#[test]
fn manga_origins_catalogue_walk() {
    let first = r#"<div class="item-thumb"><a href="https://o.fr/oeuvre/op/">1</a></div><div class="item-thumb"><a href="https://o.fr/oeuvre/op">again</a></div><div class="item-thumb"><a href="/">root</a></div>"#;
    let mut walk = manga_origins::CatalogueWalk::new();
    walk.absorb_first_page(first).unwrap();
    assert_eq!(walk.next_form().unwrap(), manga_origins::ajax_form_body(1));
    walk.absorb_response(r#"<div class="item-thumb"><a href="https://o.fr/oeuvre/kingdom/">k</a></div>"#).unwrap();
    assert_eq!(walk.next_form().unwrap(), manga_origins::ajax_form_body(2));
    walk.absorb_response(r#"<div class="item-thumb"><a href="https://o.fr/oeuvre/op/">dup</a></div>"#).unwrap();
    assert!(walk.next_form().is_none());
    assert_eq!(walk.into_tags(), vec!["op", "kingdom"]);
}

#[test]
fn manga_origins_blank_answer_ends_the_walk() {
    let mut walk = manga_origins::CatalogueWalk::new();
    walk.absorb_response(" \n\t ").unwrap();
    assert!(walk.next_form().is_none());
    assert!(walk.into_tags().is_empty());
}

#[test]
fn extract_tags_skips_duplicates_and_empty_tags() {
    let links = manga_epub::provider::html::HtmlElement {
        inner_html: String::new(),
        attributes: vec![Some("https://o.fr/oeuvre/op//".to_string())],
        child_elements: 0,
    };
    let none = manga_epub::provider::html::HtmlElement { inner_html: String::new(), attributes: vec![None], child_elements: 0 };
    let mut tags = vec!["op".to_string()];
    manga_origins::extract_tags(&vec![links, none], &mut tags);
    assert_eq!(tags, vec!["op"]);
}

#[test]
fn the_site_selectors_always_parse() {
    let empty = "<html><body><p>nothing here</p></body></html>";
    assert_eq!(sushiscan::parse_catalogue_page(empty).unwrap(), Vec::<String>::new());
    assert_eq!(sushiscan::parse_chapter_urls(empty).unwrap(), Vec::<String>::new());
    assert!(sushiscan::parse_chapter(empty, 3).unwrap().pages.is_empty());
    assert!(matches!(sushiscan::parse_manga_info("x", empty), Err(ProviderError::TitleNotFound)));
    assert_eq!(manga_origins::parse_chapter_urls(empty).unwrap(), Vec::<String>::new());
    assert!(manga_origins::parse_chapter(empty, 0).unwrap().pages.is_empty());
    assert!(matches!(manga_origins::parse_manga_info("x", empty), Err(ProviderError::TitleNotFound)));
    let mut walk = manga_origins::CatalogueWalk::new();
    assert!(walk.absorb_first_page(empty).is_ok());
    assert!(walk.absorb_response(empty).is_ok());
    assert!(walk.next_form().is_none());
}
