use manga_epub::cbz::{cover_path, page_path, CbzArchive};

#[test]
fn cbz_paths_count_from_one() {
    assert_eq!(cover_path(), "000_cover.jpg");
    assert_eq!(page_path(1, 1), "0001_0001.jpg");
    assert_eq!(page_path(12, 345), "0012_0345.jpg");
    assert_eq!(page_path(1, 12345), "0001_12345.jpg");
}

#[test]
fn cbz_archive_numbers_pages_within_chapters() {
    let mut archive = CbzArchive::new();
    archive.begin_chapter();
    assert_eq!(archive.add_page(), "0001_0001.jpg");
    assert_eq!(archive.add_page(), "0001_0002.jpg");
    archive.begin_chapter();
    assert_eq!(archive.add_page(), "0002_0001.jpg");
}
