use manga_epub::epub::{cover_image_path, preamble_entries, EpubBook};
use manga_epub::files::{content_opf, nav, page, toc_ncx};

#[test]
fn preamble_starts_with_uncompressed_mimetype() {
    let entries = preamble_entries();
    assert_eq!(entries.len(), 4);
    assert_eq!(entries[0].path, "mimetype");
    assert_eq!(entries[0].text, "application/epub+zip");
    assert!(entries[0].stored);
    assert_eq!(entries[1].path, "META-INF/container.xml");
    assert_eq!(entries[2].path, "kte-css/stylehacks.css");
    assert_eq!(entries[3].path, "OEBPS/Text/style.css");
    assert!(entries[1..].iter().all(|e| !e.stored));
    assert_eq!(cover_image_path(), "OEBPS/Images/cover.jpg");
}

#[test]
fn pages_are_numbered_per_volume() {
    let mut book = EpubBook::new("kingdom", 1264, 1680);
    book.begin_volume();
    let first = book.add_page();
    let second = book.add_page();
    book.begin_volume();
    let third = book.add_page();
    assert_eq!(first.image_path, "OEBPS/Images/kingdom/volume-0001/kcc-0000-kcc.jpg");
    assert_eq!(first.xhtml_path, "OEBPS/Text/kingdom/volume-0001/kcc-0000-kcc.xhtml");
    assert_eq!(second.image_path, "OEBPS/Images/kingdom/volume-0001/kcc-0001-kcc.jpg");
    assert_eq!(third.image_path, "OEBPS/Images/kingdom/volume-0002/kcc-0000-kcc.jpg");
    assert_eq!(third.xhtml, page::generate("kcc-0000-kcc", 1264, 1680, "kingdom", "volume-0002"));
}

#[test]
fn finish_lists_every_page_and_volume_in_order() {
    let mut book = EpubBook::new("kingdom", 100, 200);
    book.begin_volume();
    book.add_page();
    book.add_page();
    book.begin_volume();
    book.add_page();
    let entries = book.finish("U1", "U2", "Kingdom", "mael", "fr-FR", "2024-01-01");
    assert_eq!(entries.len(), 3);
    assert_eq!(entries[0].path, "OEBPS/toc.ncx");
    assert_eq!(entries[1].path, "OEBPS/nav.xhtml");
    assert_eq!(entries[2].path, "OEBPS/content.opf");

    let toc = format!("{}{}", toc_ncx::generate_entry("kingdom", 1), toc_ncx::generate_entry("kingdom", 2));
    assert_eq!(entries[0].text, toc_ncx::generate("U1", "Kingdom", &toc));
    let items = format!("{}{}", nav::generate_entry("kingdom", 1), nav::generate_entry("kingdom", 2));
    assert_eq!(entries[1].text, nav::generate("Kingdom", &items, &items));

    let ids = [
        ("volume-0001", "kcc-0000-kcc"),
        ("volume-0001", "kcc-0001-kcc"),
        ("volume-0002", "kcc-0000-kcc"),
    ];
    let mut manifest = String::new();
    let mut spine = String::new();
    for (vol, name) in ids {
        let id = format!("page_Images_kingdom_{}_{}", vol, name);
        manifest.push_str(&content_opf::generate_manifest_entry(&id, "kingdom", vol, name));
        spine.push_str(&content_opf::generate_spine_entry(&id, None));
    }
    manifest.push_str(content_opf::generate_manifest_footer());
    assert_eq!(
        entries[2].text,
        content_opf::generate("Kingdom", "mael", "U1", "U2", "fr-FR", &manifest, &spine, "2024-01-01")
    );
}

#[test]
fn empty_book_has_empty_lists() {
    let book = EpubBook::new("t", 1, 1);
    let entries = book.finish("a", "b", "T", "c", "en", "d");
    assert!(entries[0].text.contains("<navMap>\n</navMap>"));
    assert!(entries[1].text.contains("<ol></ol>"));
    assert!(entries[2].text.contains("<spine page-progression-direction=\"rtl\" toc=\"ncx\">\n</spine>"));
}

#[test]
fn navigation_links_point_at_declared_first_pages() {
    let mut book = EpubBook::new("op", 10, 10);
    book.begin_volume();
    let first = book.add_page();
    let entries = book.finish("a", "b", "T", "c", "en", "d");
    let href = first.xhtml_path.strip_prefix("OEBPS/").unwrap();
    assert!(entries[1].text.contains(&format!("<a href=\"{}\">", href)));
    assert!(entries[0].text.contains(&format!("<content src=\"{}\"/>", href)));
    assert!(entries[2].text.contains(&format!("href=\"{}\"", href)));
}

#[test]
fn many_pages_get_distinct_paths() {
    let mut book = EpubBook::new("k", 1, 1);
    let mut seen = std::collections::HashSet::new();
    for _ in 0..3 {
        book.begin_volume();
        for _ in 0..120 {
            let files = book.add_page();
            assert!(seen.insert(files.image_path));
            assert!(seen.insert(files.xhtml_path));
        }
    }
}
