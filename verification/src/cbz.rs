//! Naming of the entries of a CBZ archive: the cover first, then the pages
//! of each chapter in order, numbered from 1 within their chapter.

use vstd::prelude::*;
use crate::decimal::{lemma_framed_numbers_unique, padded_decimal, push_padded_decimal};

verus! {

/// The archive path of the cover image; it sorts before every page.
pub open spec fn cbz_cover_path() -> Seq<char> {
    "000_cover.jpg"@
}

/// The archive path of page `page` (from 1) of chapter `chapter` (from 1).
pub open spec fn cbz_page_path(chapter: nat, page: nat) -> Seq<char> {
    padded_decimal(chapter, 4) + "_"@ + padded_decimal(page, 4) + ".jpg"@
}

/// Returns the archive path of the cover image.
pub fn cover_path() -> (res: &'static str)
    ensures
        res@ == cbz_cover_path(),
{
    "000_cover.jpg"
}

/// Renders the archive path of page `page` of chapter `chapter`, both counted from 1.
pub fn page_path(chapter: usize, page: usize) -> (res: String)
    ensures
        res@ == cbz_page_path(chapter as nat, page as nat),
{
    let mut out = String::new();
    push_padded_decimal(&mut out, chapter as u64, 4);
    out.append("_");
    push_padded_decimal(&mut out, page as u64, 4);
    out.append(".jpg");
    out
}

/// Different pages get different archive paths.
pub proof fn lemma_cbz_page_paths_distinct(c1: nat, p1: nat, c2: nat, p2: nat)
    requires
        (c1, p1) != (c2, p2),
    ensures
        cbz_page_path(c1, p1) != cbz_page_path(c2, p2),
{
    if cbz_page_path(c1, p1) == cbz_page_path(c2, p2) {
        reveal_strlit("_");
        reveal_strlit(".jpg");
        let empty = Seq::<char>::empty();
        assert(cbz_page_path(c1, p1) =~= empty + padded_decimal(c1, 4) + "_"@ + padded_decimal(p1, 4) + ".jpg"@);
        assert(cbz_page_path(c2, p2) =~= empty + padded_decimal(c2, 4) + "_"@ + padded_decimal(p2, 4) + ".jpg"@);
        assert("_"@[0] == '_');
        assert(".jpg"@[0] == '.');
        lemma_framed_numbers_unique(empty, "_"@, ".jpg"@, c1, p1, c2, p2);
    }
}

/// No page path is the cover path.
pub proof fn lemma_cbz_cover_distinct(c: nat, p: nat)
    ensures
        cbz_page_path(c, p) != cbz_cover_path(),
{
    reveal_strlit("000_cover.jpg");
    reveal_strlit("_");
    reveal_strlit(".jpg");
    crate::decimal::lemma_padded_decimal_denotes(c, 4);
    crate::decimal::lemma_padded_decimal_denotes(p, 4);
    let path = cbz_page_path(c, p);
    let a = padded_decimal(c, 4);
    let b = padded_decimal(p, 4);
    if path == cbz_cover_path() {
        assert(path.len() == 13);
        assert(a.len() >= 4);
        assert(b.len() >= 4);
        assert(a.len() == 4 && b.len() == 4);
        assert(path[5] == b[0]);
        assert(crate::decimal::is_digit(b[0]));
        assert(cbz_cover_path()[5] == 'o');
    }
}

/// A CBZ archive being filled chapter by chapter.
pub struct CbzArchive {
    chapters: Vec<usize>,
}

impl CbzArchive {
    /// The number of pages of each chapter opened so far, in order.
    pub closed spec fn page_counts(&self) -> Seq<usize> {
        self.chapters@
    }

    /// An archive with no chapter yet.
    pub fn new() -> (archive: CbzArchive)
        ensures
            archive.page_counts() == Seq::<usize>::empty(),
    {
        let archive = CbzArchive { chapters: Vec::new() };
        assert(archive.chapters@ =~= Seq::<usize>::empty());
        archive
    }

    /// Opens the next chapter.
    pub fn begin_chapter(&mut self)
        requires
            old(self).page_counts().len() + 1 < usize::MAX,
        ensures
            final(self).page_counts() == old(self).page_counts().push(0),
    {
        self.chapters.push(0);
    }

    /// Adds the next page to the current chapter and returns its archive path.
    pub fn add_page(&mut self) -> (path: String)
        requires
            old(self).page_counts().len() > 0,
            old(self).page_counts().last() + 1 < usize::MAX,
        ensures
            final(self).page_counts() == old(self).page_counts().update(
                old(self).page_counts().len() - 1,
                (old(self).page_counts().last() + 1) as usize,
            ),
            path@ == cbz_page_path(
                old(self).page_counts().len(),
                (old(self).page_counts().last() + 1) as nat,
            ),
    {
        let last = self.chapters.len() - 1;
        let page = self.chapters[last] + 1;
        self.chapters.set(last, page);
        page_path(last + 1, page)
    }
}

} // verus!
