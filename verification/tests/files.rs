use manga_epub::files::content_opf::{self, SpineSpread};
use manga_epub::files::{container, nav, page, style, stylehacks, toc_ncx};

#[test]
fn manifest_entry_names_the_page_document() {
    let entry = content_opf::generate_manifest_entry("page_Images_kingdom_volume-0001_kcc-0000-kcc", "kingdom", "volume-0001", "kcc-0000-kcc");
    assert_eq!(
        entry,
        "<item id=\"page_Images_kingdom_volume-0001_kcc-0000-kcc\" href=\"Text/kingdom/volume-0001/kcc-0000-kcc.xhtml\" media-type=\"application/xhtml+xml\"/>\n"
    );
}

#[test]
fn manifest_footer_declares_the_fixed_files() {
    let footer = content_opf::generate_manifest_footer();
    assert!(footer.starts_with("\n<item id=\"nav\" href=\"nav.xhtml\" properties=\"nav\""));
    assert!(footer.contains("<item id=\"ncx\" href=\"toc.ncx\" media-type=\"application/x-dtbncx+xml\"/>"));
    assert!(footer.contains("<item id=\"css\" href=\"Text/style.css\" media-type=\"text/css\"/>"));
    assert!(footer.contains("<item id=\"cover\" href=\"Images/cover.jpg\" media-type=\"image/jpeg\" properties=\"cover-image\"/>"));
    assert!(footer.ends_with("<item id=\"id1\" href=\"../kte-css/stylehacks.css\" media-type=\"text/css\"/>"));
    assert_eq!(footer.matches('\n').count(), 5);
}

#[test]
fn spine_entry_without_spread() {
    assert_eq!(content_opf::generate_spine_entry("p1", None), "<itemref idref=\"p1\"/>\n");
}

#[test]
fn spine_entry_with_each_spread() {
    assert_eq!(
        content_opf::generate_spine_entry("p1", Some(SpineSpread::Left)),
        "<itemref idref=\"p1\" properties=\"page-spread-left\"/>\n"
    );
    assert_eq!(
        content_opf::generate_spine_entry("p2", Some(SpineSpread::Right)),
        "<itemref idref=\"p2\" properties=\"page-spread-right\"/>\n"
    );
    assert_eq!(
        content_opf::generate_spine_entry("p3", Some(SpineSpread::Center)),
        "<itemref idref=\"p3\" properties=\"rendition:page-spread-center\"/>\n"
    );
    assert_eq!(SpineSpread::Center.as_property(), "rendition:page-spread-center");
}

#[test]
fn package_document_places_every_field() {
    let opf = content_opf::generate("Kingdom", "mael", "U1", "U2", "fr-FR", "<M/>\n", "<S/>\n", "2024-01-01");
    let expected = format!(
        "<?xml version='1.0' encoding='utf-8'?>\
\n<package xmlns=\"http://www.idpf.org/2007/opf\" version=\"3.0\" unique-identifier=\"BookID\">\
\n<metadata xmlns:opf=\"http://www.idpf.org/2007/opf\" xmlns:dc=\"http://purl.org/dc/elements/1.1/\">\
\n<dc:title id=\"id\">{title}</dc:title>\
\n<dc:creator id=\"id-1\">{creator}</dc:creator>\
\n<dc:identifier>uuid:{uuid2}</dc:identifier>\
\n<dc:identifier id=\"BookID\">urn:uuid:{uuid}</dc:identifier>\
\n<dc:language>{lang}</dc:language>\
\n<meta property=\"dcterms:modified\">{modif_date}</meta>\
\n<meta refines=\"#id\" property=\"title-type\">main</meta>\
\n<meta refines=\"#id\" property=\"file-as\">{title}</meta>\
\n<meta name=\"cover\" content=\"cover\"/>\
\n<meta property=\"rendition:orientation\">portrait</meta>\
\n<meta property=\"rendition:spread\">landscape</meta>\
\n<meta property=\"rendition:layout\">pre-paginated</meta>\
\n<meta refines=\"#id-1\" property=\"role\" scheme=\"marc:relators\">aut</meta>\
\n<meta refines=\"#id-1\" property=\"file-as\">{creator}</meta>\
\n</metadata>\
\n<manifest>\
\n{manifest}</manifest>\
\n<spine page-progression-direction=\"rtl\" toc=\"ncx\">\
\n{spine}</spine>\
\n</package>",
        title = "Kingdom",
        creator = "mael",
        uuid = "U1",
        uuid2 = "U2",
        lang = "fr-FR",
        manifest = "<M/>\n",
        spine = "<S/>\n",
        modif_date = "2024-01-01",
    );
    assert_eq!(opf, expected);
}

#[test]
fn nav_entry_pads_the_volume_in_the_link_only() {
    assert_eq!(
        nav::generate_entry("kingdom", 7),
        "<li><a href=\"Text/kingdom/volume-0007/kcc-0000-kcc.xhtml\"><span>Volume 7</span></a></li>\n"
    );
    assert_eq!(
        nav::generate_entry("op", 12345),
        "<li><a href=\"Text/op/volume-12345/kcc-0000-kcc.xhtml\"><span>Volume 12345</span></a></li>\n"
    );
}

#[test]
fn nav_document_holds_both_lists() {
    let doc = nav::generate("Kingdom", "<li>a</li>", "<li>b</li>");
    assert!(doc.starts_with("<?xml version='1.0' encoding='utf-8'?>\n<html xmlns=\"http://www.w3.org/1999/xhtml\""));
    assert!(doc.contains("<head><title>Kingdom</title>"));
    assert!(doc.contains("<nav epub:type=\"toc\" id=\"toc\"><ol><li>a</li></ol></nav>\n"));
    assert!(doc.contains("<nav epub:type=\"page-list\"><ol><li>b</li></ol></nav>\n"));
    assert!(doc.ends_with("</div></div></body>\n</html>"));
}

#[test]
fn page_document_declares_the_viewport_and_image() {
    let doc = page::generate("kcc-0003-kcc", 1264, 1680, "kingdom", "volume-0002");
    let expected = format!(
        "<?xml version='1.0' encoding='utf-8'?>\
\n<html xmlns=\"http://www.w3.org/1999/xhtml\" xmlns:epub=\"http://www.idpf.org/2007/ops\">\
\n  <head>\
\n    <title>{name}</title>\
\n    <link href=\"../../style.css\" type=\"text/css\" rel=\"stylesheet\"/>\
\n    <meta name=\"viewport\" content=\"width={w}, height={h}\"/>\
\n    <meta http-equiv=\"Content-Type\" content=\"text/html; charset=utf-8\"/>\
\n    <link rel=\"stylesheet\" href=\"../../../../kte-css/stylehacks.css\"/>\
\n  </head>\
\n  <body style=\"background-color:#000000;\"><div style=\"text-align:center;top:0.0%;\"><span>\
\n    <img width=\"{w}\" height=\"{h}\" src=\"../../../Images/{tag}/{vol_str}/{name}.jpg\"/>\
\n  </span></div></body></html>",
        name = "kcc-0003-kcc",
        w = 1264,
        h = 1680,
        tag = "kingdom",
        vol_str = "volume-0002",
    );
    assert_eq!(doc, expected);
}

#[test]
fn toc_entry_numbers_the_play_order() {
    assert_eq!(
        toc_ncx::generate_entry("kingdom", 3),
        "<navPoint id=\"Text_kingdom_volume-0003\" playOrder=\"3\"><navLabel><text>Volume 3</text></navLabel><content src=\"Text/kingdom/volume-0003/kcc-0000-kcc.xhtml\"/></navPoint>\n"
    );
}

#[test]
fn ncx_document_holds_uid_title_and_points() {
    let doc = toc_ncx::generate("U1", "Kingdom", "<navPoint/>\n");
    assert!(doc.starts_with("<?xml version=\"1.0\" encoding=\"UTF-8\"?>\n<ncx version=\"2005-1\" xml:lang=\"en-US\""));
    assert!(doc.contains("<meta name=\"dtb:uid\" content=\"urn:uuid:U1\"/>\n"));
    assert!(doc.contains("<docTitle><text>Kingdom</text></docTitle>\n<navMap>\n<navPoint/>\n</navMap>\n</ncx>"));
}

#[test]
fn fixed_documents() {
    assert_eq!(
        container::generate(),
        "<?xml version=\"1.0\"?>\n<container version=\"1.0\" xmlns=\"urn:oasis:names:tc:opendocument:xmlns:container\">\n<rootfiles>\n<rootfile full-path=\"OEBPS/content.opf\" media-type=\"application/oebps-package+xml\"/>\n</rootfiles>\n</container>"
    );
    assert_eq!(stylehacks::generate(), "div#book-inner {\n\tmargin-top: 0;\n\tmargin-bottom: 0;\n}\n");
    assert_eq!(style::generate(), "@page {\nmargin: 0;\n}\nbody {\ndisplay: block;\nmargin: 0;\npadding: 0;\n}\n");
}
