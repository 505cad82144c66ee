//! Assembly of an EPUB package, one volume and one page at a time.
//!
//! The book is filled in the order in which its pages are produced: a volume
//! is opened, then each of its pages is added. Every page gets an image entry
//! and an XHTML entry in the archive, an item in the manifest and an item in
//! the spine; every volume gets a navigation point in the NCX table of
//! contents and a list item in both lists of the navigation document.

use vstd::prelude::*;
use crate::decimal::{lemma_framed_numbers_unique, padded_decimal, push_padded_decimal};
use crate::files::{container, content_opf, nav, page, style, stylehacks, toc_ncx};
use crate::files::content_opf::{manifest_entry, manifest_footer, package_document, spine_entry};
use crate::files::nav::{nav_document, nav_entry};
use crate::files::page::page_document;
use crate::files::toc_ncx::{ncx_document, toc_entry};
use crate::decimal::decimal;
use crate::links::{dir_path, lemma_page_references, page_dir, resolve_relative};

verus! {

/// The directory name of volume `v` (`volume-0001` for the first volume).
pub open spec fn volume_dir(v: nat) -> Seq<char> {
    "volume-"@ + padded_decimal(v, 4)
}

/// The base name of page `p` of a volume (`kcc-0000-kcc` for the first page).
pub open spec fn page_name(p: nat) -> Seq<char> {
    "kcc-"@ + padded_decimal(p, 4) + "-kcc"@
}

/// The manifest identifier of page `p` of volume `v`.
pub open spec fn page_id(tag: Seq<char>, v: nat, p: nat) -> Seq<char> {
    "page_Images_"@ + tag + "_"@ + volume_dir(v) + "_"@ + page_name(p)
}

/// The archive path of the image of page `p` of volume `v`.
pub open spec fn image_path(tag: Seq<char>, v: nat, p: nat) -> Seq<char> {
    "OEBPS/Images/"@ + tag + "/"@ + volume_dir(v) + "/"@ + page_name(p) + ".jpg"@
}

/// The archive path of the XHTML document of page `p` of volume `v`.
pub open spec fn xhtml_path(tag: Seq<char>, v: nat, p: nat) -> Seq<char> {
    "OEBPS/Text/"@ + tag + "/"@ + volume_dir(v) + "/"@ + page_name(p) + ".xhtml"@
}

/// The pages of volume `v` when it holds `count` pages, in order.
pub open spec fn volume_pages(v: nat, count: nat) -> Seq<(nat, nat)> {
    Seq::new(count, |p: int| (v, p as nat))
}

/// All pages of a book whose volumes hold `counts[0]`, `counts[1]`, ... pages:
/// pairs (volume number, page index), volumes numbered from 1 and pages from 0.
pub open spec fn page_sequence(counts: Seq<usize>) -> Seq<(nat, nat)>
    decreases counts.len(),
{
    if counts.len() == 0 {
        Seq::empty()
    } else {
        page_sequence(counts.drop_last()) + volume_pages(counts.len(), counts.last() as nat)
    }
}

/// The total number of pages of volumes holding `counts[0]`, `counts[1]`, ... pages.
pub open spec fn page_total(counts: Seq<usize>) -> nat
    decreases counts.len(),
{
    if counts.len() == 0 {
        0
    } else {
        page_total(counts.drop_last()) + counts.last() as nat
    }
}

/// Whether page `a` comes before page `b` in reading order.
pub open spec fn page_before(a: (nat, nat), b: (nat, nat)) -> bool {
    a.0 < b.0 || (a.0 == b.0 && a.1 < b.1)
}

/// Whether volume `v` (numbered from 1) exists and holds page `p` (numbered from 0).
pub open spec fn page_exists(counts: Seq<usize>, v: nat, p: nat) -> bool {
    1 <= v <= counts.len() && p < counts[v - 1]
}

/// The pages of a book are listed once each, in reading order: the page
/// sequence is strictly increasing in (volume, page) order, it holds exactly
/// the pages that exist, and its length is the total page count.
pub proof fn lemma_page_sequence_shape(counts: Seq<usize>)
    ensures
        page_sequence(counts).len() == page_total(counts),
        forall|i: int, j: int|
            0 <= i < j < page_sequence(counts).len() ==> page_before(
                #[trigger] page_sequence(counts)[i],
                #[trigger] page_sequence(counts)[j],
            ),
        forall|i: int|
            0 <= i < page_sequence(counts).len() ==> page_exists(
                counts,
                (#[trigger] page_sequence(counts)[i]).0,
                page_sequence(counts)[i].1,
            ),
        forall|v: nat, p: nat|
            page_exists(counts, v, p) ==> #[trigger] page_sequence(counts).contains((v, p)),
    decreases counts.len(),
{
    if counts.len() > 0 {
        let prev = counts.drop_last();
        lemma_page_sequence_shape(prev);
        let n = counts.len();
        let c = counts.last() as nat;
        let head = page_sequence(prev);
        let tail = volume_pages(n, c);
        let all = page_sequence(counts);
        assert(all == head + tail);
        assert forall|i: int| 0 <= i < all.len() implies page_exists(counts, (#[trigger] all[i]).0, all[i].1) by {
            if i < head.len() {
                assert(all[i] == head[i]);
                assert(page_exists(prev, head[i].0, head[i].1));
                assert(counts[head[i].0 - 1] == prev[head[i].0 - 1]);
            } else {
                assert(all[i] == tail[i - head.len()]);
            }
        }
        assert forall|i: int, j: int| 0 <= i < j < all.len() implies page_before(
            #[trigger] all[i],
            #[trigger] all[j],
        ) by {
            if j < head.len() {
                assert(all[i] == head[i]);
                assert(all[j] == head[j]);
            } else if i < head.len() {
                assert(all[i] == head[i]);
                assert(page_exists(prev, head[i].0, head[i].1));
                assert(all[j] == tail[j - head.len()]);
            } else {
                assert(all[i] == tail[i - head.len()]);
                assert(all[j] == tail[j - head.len()]);
            }
        }
        assert forall|v: nat, p: nat| page_exists(counts, v, p) implies #[trigger] all.contains((v, p)) by {
            if v < n {
                assert(page_exists(prev, v, p));
                assert(head.contains((v, p)));
                let k = choose|k: int| 0 <= k < head.len() && head[k] == (v, p);
                assert(all[k] == (v, p));
            } else {
                assert(tail[p as int] == (v, p));
                assert(all[head.len() + p as int] == (v, p));
            }
        }
    }
}

/// The location of the XHTML document of page `p` of volume `v`, relative to
/// the package document.
pub open spec fn page_href(tag: Seq<char>, v: nat, p: nat) -> Seq<char> {
    "Text/"@ + tag + "/"@ + volume_dir(v) + "/"@ + page_name(p) + ".xhtml"@
}

proof fn lemma_first_page_name()
    ensures
        page_name(0) == "kcc-0000-kcc"@,
{
    reveal_strlit("kcc-");
    reveal_strlit("-kcc");
    reveal_strlit("kcc-0000-kcc");
    assert(crate::decimal::decimal(0) =~= seq!['0']);
    assert(padded_decimal(0, 4) =~= seq!['0', '0', '0', '0']);
    assert(page_name(0) =~= "kcc-0000-kcc"@);
}

/// The navigation entries of a volume link to its first page, which the book
/// declares: when volume `v` holds a page, its first page is listed, the list
/// item of the navigation document and the navigation point of the NCX table
/// of contents both point at that page's location, the manifest declares every
/// page at its location, and that location, taken inside `OEBPS/`, is the
/// archive path of the page's XHTML document.
pub proof fn lemma_volume_links(counts: Seq<usize>, tag: Seq<char>, v: nat, p: nat)
    requires
        page_exists(counts, v, p),
    ensures
        page_sequence(counts).contains((v, 0)),
        page_sequence(counts).contains((v, p)),
        nav_entry(tag, v) == "<li><a href=\""@ + page_href(tag, v, 0) + "\"><span>Volume "@
            + crate::decimal::decimal(v) + "</span></a></li>\n"@,
        toc_entry(tag, v) == "<navPoint id=\"Text_"@ + tag + "_"@ + volume_dir(v) + "\" playOrder=\""@
            + crate::decimal::decimal(v) + "\"><navLabel><text>Volume "@ + crate::decimal::decimal(v)
            + "</text></navLabel><content src=\""@ + page_href(tag, v, 0) + "\"/></navPoint>\n"@,
        page_manifest_entry(tag, (v, p)) == "<item id=\""@ + page_id(tag, v, p) + "\" href=\""@
            + page_href(tag, v, p) + "\" media-type=\"application/xhtml+xml\"/>\n"@,
        xhtml_path(tag, v, p) == "OEBPS/"@ + page_href(tag, v, p),
{
    lemma_page_sequence_shape(counts);
    assert(page_exists(counts, v, 0));
    lemma_first_page_name();
    reveal_strlit("<li><a href=\"Text/");
    reveal_strlit("<li><a href=\"");
    reveal_strlit("Text/");
    reveal_strlit("/volume-");
    reveal_strlit("/");
    reveal_strlit("volume-");
    reveal_strlit("/kcc-0000-kcc.xhtml\"><span>Volume ");
    reveal_strlit("kcc-0000-kcc");
    reveal_strlit(".xhtml");
    reveal_strlit("\"><span>Volume ");
    let d = crate::decimal::decimal(v);
    let pd = padded_decimal(v, 4);
    assert("<li><a href=\"Text/"@ =~= "<li><a href=\""@ + "Text/"@);
    assert("/volume-"@ =~= "/"@ + "volume-"@);
    assert("/kcc-0000-kcc.xhtml\"><span>Volume "@ =~= "/"@ + "kcc-0000-kcc"@ + ".xhtml"@ + "\"><span>Volume "@);
    assert(nav_entry(tag, v) =~= "<li><a href=\""@ + page_href(tag, v, 0) + "\"><span>Volume "@ + d
        + "</span></a></li>\n"@);
    reveal_strlit("<navPoint id=\"Text_");
    reveal_strlit("_volume-");
    reveal_strlit("_");
    reveal_strlit("</text></navLabel><content src=\"Text/");
    reveal_strlit("</text></navLabel><content src=\"");
    reveal_strlit("/kcc-0000-kcc.xhtml\"/></navPoint>\n");
    reveal_strlit("\"/></navPoint>\n");
    assert("_volume-"@ =~= "_"@ + "volume-"@);
    assert("</text></navLabel><content src=\"Text/"@ =~= "</text></navLabel><content src=\""@ + "Text/"@);
    assert("/kcc-0000-kcc.xhtml\"/></navPoint>\n"@ =~= "/"@ + "kcc-0000-kcc"@ + ".xhtml"@ + "\"/></navPoint>\n"@);
    assert(toc_entry(tag, v) =~= "<navPoint id=\"Text_"@ + tag + "_"@ + volume_dir(v) + "\" playOrder=\""@ + d
        + "\"><navLabel><text>Volume "@ + d + "</text></navLabel><content src=\""@ + page_href(tag, v, 0)
        + "\"/></navPoint>\n"@);
    reveal_strlit("\" href=\"Text/");
    reveal_strlit("\" href=\"");
    reveal_strlit(".xhtml\" media-type=\"application/xhtml+xml\"/>\n");
    reveal_strlit("\" media-type=\"application/xhtml+xml\"/>\n");
    assert("\" href=\"Text/"@ =~= "\" href=\""@ + "Text/"@);
    assert(".xhtml\" media-type=\"application/xhtml+xml\"/>\n"@ =~= ".xhtml"@
        + "\" media-type=\"application/xhtml+xml\"/>\n"@);
    assert(page_manifest_entry(tag, (v, p)) =~= "<item id=\""@ + page_id(tag, v, p) + "\" href=\""@
        + page_href(tag, v, p) + "\" media-type=\"application/xhtml+xml\"/>\n"@);
    reveal_strlit("OEBPS/Text/");
    reveal_strlit("OEBPS/");
    assert("OEBPS/Text/"@ =~= "OEBPS/"@ + "Text/"@);
    assert(xhtml_path(tag, v, p) =~= "OEBPS/"@ + page_href(tag, v, p));
}

/// The manifest item of one page.
pub open spec fn page_manifest_entry(tag: Seq<char>, page: (nat, nat)) -> Seq<char> {
    manifest_entry(page_id(tag, page.0, page.1), tag, volume_dir(page.0), page_name(page.1))
}

/// The manifest items of the given pages, in order.
pub open spec fn manifest_items(tag: Seq<char>, pages: Seq<(nat, nat)>) -> Seq<char>
    decreases pages.len(),
{
    if pages.len() == 0 {
        Seq::empty()
    } else {
        manifest_items(tag, pages.drop_last()) + page_manifest_entry(tag, pages.last())
    }
}

/// The spine items of the given pages, in order and without spread placement.
pub open spec fn spine_items(tag: Seq<char>, pages: Seq<(nat, nat)>) -> Seq<char>
    decreases pages.len(),
{
    if pages.len() == 0 {
        Seq::empty()
    } else {
        spine_items(tag, pages.drop_last()) + spine_entry(
            page_id(tag, pages.last().0, pages.last().1),
            None,
        )
    }
}

/// The spine and the manifest of a list of pages are those of its parts
/// joined: listing `a` then `b` gives the items of `a` then those of `b`.
pub proof fn lemma_items_concat(tag: Seq<char>, a: Seq<(nat, nat)>, b: Seq<(nat, nat)>)
    ensures
        spine_items(tag, a + b) == spine_items(tag, a) + spine_items(tag, b),
        manifest_items(tag, a + b) == manifest_items(tag, a) + manifest_items(tag, b),
    decreases b.len(),
{
    if b.len() == 0 {
        assert(a + b =~= a);
        assert(spine_items(tag, a) + spine_items(tag, b) =~= spine_items(tag, a));
        assert(manifest_items(tag, a) + manifest_items(tag, b) =~= manifest_items(tag, a));
    } else {
        lemma_items_concat(tag, a, b.drop_last());
        assert((a + b).drop_last() =~= a + b.drop_last());
        assert((a + b).last() == b.last());
        assert(spine_items(tag, a + b) =~= spine_items(tag, a) + spine_items(tag, b));
        assert(manifest_items(tag, a + b) =~= manifest_items(tag, a) + manifest_items(tag, b));
    }
}

/// The spine and the manifest list every page once, in order: no page gives
/// no item, one page gives its own itemref (referring to its manifest
/// identifier) and its own manifest item, and for each `k` the items of page
/// `k` stand between those of the pages before it and those of the pages
/// after it.
pub proof fn lemma_items_list_every_page(tag: Seq<char>, pages: Seq<(nat, nat)>, k: int)
    requires
        0 <= k < pages.len(),
    ensures
        spine_items(tag, Seq::empty()) == Seq::<char>::empty(),
        manifest_items(tag, Seq::empty()) == Seq::<char>::empty(),
        spine_items(tag, seq![pages[k]]) == spine_entry(page_id(tag, pages[k].0, pages[k].1), None),
        manifest_items(tag, seq![pages[k]]) == page_manifest_entry(tag, pages[k]),
        spine_items(tag, pages) == spine_items(tag, pages.take(k)) + spine_entry(
            page_id(tag, pages[k].0, pages[k].1),
            None,
        ) + spine_items(tag, pages.skip(k + 1)),
        manifest_items(tag, pages) == manifest_items(tag, pages.take(k)) + page_manifest_entry(tag, pages[k])
            + manifest_items(tag, pages.skip(k + 1)),
{
    let one = seq![pages[k]];
    let none = Seq::<(nat, nat)>::empty();
    assert(spine_items(tag, none) == Seq::<char>::empty());
    assert(manifest_items(tag, none) == Seq::<char>::empty());
    assert(one.drop_last() =~= none);
    assert(one.last() == pages[k]);
    assert(Seq::<char>::empty() + spine_entry(page_id(tag, pages[k].0, pages[k].1), None) =~= spine_entry(
        page_id(tag, pages[k].0, pages[k].1),
        None,
    ));
    assert(Seq::<char>::empty() + page_manifest_entry(tag, pages[k]) =~= page_manifest_entry(tag, pages[k]));
    assert(spine_items(tag, one) =~= spine_entry(page_id(tag, pages[k].0, pages[k].1), None));
    assert(manifest_items(tag, one) =~= page_manifest_entry(tag, pages[k]));
    assert(pages =~= pages.take(k) + one + pages.skip(k + 1));
    lemma_items_concat(tag, pages.take(k) + one, pages.skip(k + 1));
    lemma_items_concat(tag, pages.take(k), one);
}

/// The NCX navigation points of volumes `1..=n`.
pub open spec fn toc_points(tag: Seq<char>, n: nat) -> Seq<char>
    decreases n,
{
    if n == 0 {
        Seq::empty()
    } else {
        toc_points(tag, (n - 1) as nat) + toc_entry(tag, n)
    }
}

/// The navigation list items of volumes `1..=n`.
pub open spec fn nav_items(tag: Seq<char>, n: nat) -> Seq<char>
    decreases n,
{
    if n == 0 {
        Seq::empty()
    } else {
        nav_items(tag, (n - 1) as nat) + nav_entry(tag, n)
    }
}

proof fn lemma_image_paths_distinct(tag: Seq<char>, v1: nat, p1: nat, v2: nat, p2: nat)
    requires
        image_path(tag, v1, p1) == image_path(tag, v2, p2),
    ensures
        v1 == v2 && p1 == p2,
{
    reveal_strlit("/");
    reveal_strlit("-kcc");
    let pre = "OEBPS/Images/"@ + tag + "/"@ + "volume-"@;
    let mid = "/"@ + "kcc-"@;
    let post = "-kcc"@ + ".jpg"@;
    assert(image_path(tag, v1, p1) =~= pre + padded_decimal(v1, 4) + mid + padded_decimal(p1, 4) + post);
    assert(image_path(tag, v2, p2) =~= pre + padded_decimal(v2, 4) + mid + padded_decimal(p2, 4) + post);
    assert(mid[0] == '/');
    assert(post[0] == '-');
    lemma_framed_numbers_unique(pre, mid, post, v1, p1, v2, p2);
}

proof fn lemma_xhtml_paths_distinct(tag: Seq<char>, v1: nat, p1: nat, v2: nat, p2: nat)
    requires
        xhtml_path(tag, v1, p1) == xhtml_path(tag, v2, p2),
    ensures
        v1 == v2 && p1 == p2,
{
    reveal_strlit("/");
    reveal_strlit("-kcc");
    let pre = "OEBPS/Text/"@ + tag + "/"@ + "volume-"@;
    let mid = "/"@ + "kcc-"@;
    let post = "-kcc"@ + ".xhtml"@;
    assert(xhtml_path(tag, v1, p1) =~= pre + padded_decimal(v1, 4) + mid + padded_decimal(p1, 4) + post);
    assert(xhtml_path(tag, v2, p2) =~= pre + padded_decimal(v2, 4) + mid + padded_decimal(p2, 4) + post);
    assert(mid[0] == '/');
    assert(post[0] == '-');
    lemma_framed_numbers_unique(pre, mid, post, v1, p1, v2, p2);
}

proof fn lemma_page_ids_distinct(tag: Seq<char>, v1: nat, p1: nat, v2: nat, p2: nat)
    requires
        page_id(tag, v1, p1) == page_id(tag, v2, p2),
    ensures
        v1 == v2 && p1 == p2,
{
    reveal_strlit("_");
    reveal_strlit("-kcc");
    let pre = "page_Images_"@ + tag + "_"@ + "volume-"@;
    let mid = "_"@ + "kcc-"@;
    let post = "-kcc"@;
    assert(page_id(tag, v1, p1) =~= pre + padded_decimal(v1, 4) + mid + padded_decimal(p1, 4) + post);
    assert(page_id(tag, v2, p2) =~= pre + padded_decimal(v2, 4) + mid + padded_decimal(p2, 4) + post);
    assert(mid[0] == '_');
    assert(post[0] == '-');
    lemma_framed_numbers_unique(pre, mid, post, v1, p1, v2, p2);
}

/// Two different pages of a book never share an archive path or a manifest
/// identifier: the image paths, the XHTML paths and the identifiers of pages
/// `(v1, p1)` and `(v2, p2)` differ whenever the pages differ.
pub proof fn lemma_page_files_distinct(tag: Seq<char>, v1: nat, p1: nat, v2: nat, p2: nat)
    requires
        (v1, p1) != (v2, p2),
    ensures
        image_path(tag, v1, p1) != image_path(tag, v2, p2),
        xhtml_path(tag, v1, p1) != xhtml_path(tag, v2, p2),
        page_id(tag, v1, p1) != page_id(tag, v2, p2),
{
    if image_path(tag, v1, p1) == image_path(tag, v2, p2) {
        lemma_image_paths_distinct(tag, v1, p1, v2, p2);
    }
    if xhtml_path(tag, v1, p1) == xhtml_path(tag, v2, p2) {
        lemma_xhtml_paths_distinct(tag, v1, p1, v2, p2);
    }
    if page_id(tag, v1, p1) == page_id(tag, v2, p2) {
        lemma_page_ids_distinct(tag, v1, p1, v2, p2);
    }
}

/// The files of one page: where its image goes, and its XHTML document.
pub struct PageFiles {
    pub image_path: String,
    pub xhtml_path: String,
    pub xhtml: String,
}

/// A text file of the archive. `stored` asks for it to be written without compression.
pub struct TextEntry {
    pub path: String,
    pub text: String,
    pub stored: bool,
}

/// An EPUB package being filled volume by volume.
pub struct EpubBook {
    tag: String,
    width: u32,
    height: u32,
    volumes: Vec<usize>,
    manifest: String,
    spine: String,
    toc: String,
    nav_toc: String,
    nav_pagelist: String,
}

impl EpubBook {
    /// The manga tag under which the pages are filed.
    pub closed spec fn book_tag(&self) -> Seq<char> {
        self.tag@
    }

    /// The page box, in pixels, that every page document declares.
    pub closed spec fn page_size(&self) -> (u32, u32) {
        (self.width, self.height)
    }

    /// The number of pages of each volume opened so far, in order.
    pub closed spec fn page_counts(&self) -> Seq<usize> {
        self.volumes@
    }

    /// The accumulated manifest, spine, table of contents and navigation
    /// lists describe exactly the volumes and pages added so far.
    pub closed spec fn well_formed(&self) -> bool {
        &&& self.manifest@ == manifest_items(self.tag@, page_sequence(self.volumes@))
        &&& self.spine@ == spine_items(self.tag@, page_sequence(self.volumes@))
        &&& self.toc@ == toc_points(self.tag@, self.volumes@.len())
        &&& self.nav_toc@ == nav_items(self.tag@, self.volumes@.len())
        &&& self.nav_pagelist@ == nav_items(self.tag@, self.volumes@.len())
    }

    /// An empty book whose pages are filed under `tag` and declare a `width` by `height` page box.
    pub fn new(tag: &str, width: u32, height: u32) -> (book: EpubBook)
        ensures
            book.well_formed(),
            book.book_tag() == tag@,
            book.page_size() == (width, height),
            book.page_counts() == Seq::<usize>::empty(),
    {
        let book = EpubBook {
            tag: String::from_str(tag),
            width,
            height,
            volumes: Vec::new(),
            manifest: String::new(),
            spine: String::new(),
            toc: String::new(),
            nav_toc: String::new(),
            nav_pagelist: String::new(),
        };
        assert(book.volumes@ =~= Seq::<usize>::empty());
        book
    }
}

/// The directory name of volume `v`.
pub fn volume_dir_string(v: usize) -> (res: String)
    ensures
        res@ == volume_dir(v as nat),
{
    let mut out = String::new();
    out.append("volume-");
    push_padded_decimal(&mut out, v as u64, 4);
    out
}

/// The base name of page `p` of a volume.
pub fn page_name_string(p: usize) -> (res: String)
    ensures
        res@ == page_name(p as nat),
{
    let mut out = String::new();
    out.append("kcc-");
    push_padded_decimal(&mut out, p as u64, 4);
    out.append("-kcc");
    out
}

pub(crate) proof fn lemma_page_sequence_open(counts: Seq<usize>)
    ensures
        page_sequence(counts.push(0)) == page_sequence(counts),
{
    assert(counts.push(0).drop_last() =~= counts);
    assert(volume_pages(counts.push(0).len(), 0) =~= Seq::<(nat, nat)>::empty());
    assert(page_sequence(counts) + Seq::<(nat, nat)>::empty() =~= page_sequence(counts));
}

pub(crate) proof fn lemma_page_sequence_grow(counts: Seq<usize>)
    requires
        counts.len() > 0,
        counts.last() < usize::MAX,
    ensures
        page_sequence(counts.update(counts.len() - 1, (counts.last() + 1) as usize))
            == page_sequence(counts).push((counts.len(), counts.last() as nat)),
{
    let grown = counts.update(counts.len() - 1, (counts.last() + 1) as usize);
    assert(grown.drop_last() =~= counts.drop_last());
    let n = counts.len();
    let c = counts.last() as nat;
    assert(volume_pages(n, c + 1) =~= volume_pages(n, c).push((n, c)));
    assert(page_sequence(counts.drop_last()) + volume_pages(n, c).push((n, c))
        =~= (page_sequence(counts.drop_last()) + volume_pages(n, c)).push((n, c)));
}

impl EpubBook {
    /// Opens the next volume: adds its navigation point to the table of
    /// contents and its list item to both navigation lists.
    pub fn begin_volume(&mut self)
        requires
            old(self).well_formed(),
            old(self).page_counts().len() + 1 < usize::MAX,
        ensures
            final(self).well_formed(),
            final(self).book_tag() == old(self).book_tag(),
            final(self).page_size() == old(self).page_size(),
            final(self).page_counts() == old(self).page_counts().push(0),
    {
        let vol_num = self.volumes.len() + 1;
        let toc_item = toc_ncx::generate_entry(self.tag.as_str(), vol_num);
        let nav_item = nav::generate_entry(self.tag.as_str(), vol_num);
        self.toc.append(toc_item.as_str());
        self.nav_toc.append(nav_item.as_str());
        self.nav_pagelist.append(nav_item.as_str());
        proof {
            lemma_page_sequence_open(self.volumes@);
        }
        self.volumes.push(0);
        proof {
            assert(toc_points(self.tag@, self.volumes@.len()) =~= old(self).toc@ + toc_item@);
            assert(nav_items(self.tag@, self.volumes@.len()) =~= old(self).nav_toc@ + nav_item@);
        }
    }

    /// Adds the next page to the current volume: records its manifest and
    /// spine items and returns where its image and XHTML document go, with
    /// the XHTML document itself.
    pub fn add_page(&mut self) -> (files: PageFiles)
        requires
            old(self).well_formed(),
            old(self).page_counts().len() > 0,
            old(self).page_counts().last() < usize::MAX,
        ensures
            final(self).well_formed(),
            final(self).book_tag() == old(self).book_tag(),
            final(self).page_size() == old(self).page_size(),
            final(self).page_counts() == old(self).page_counts().update(
                old(self).page_counts().len() - 1,
                (old(self).page_counts().last() + 1) as usize,
            ),
            ({
                let tag = old(self).book_tag();
                let v = old(self).page_counts().len();
                let p = old(self).page_counts().last() as nat;
                &&& files.image_path@ == image_path(tag, v, p)
                &&& files.xhtml_path@ == xhtml_path(tag, v, p)
                &&& files.xhtml@ == page_document(
                    page_name(p),
                    old(self).page_size().0 as nat,
                    old(self).page_size().1 as nat,
                    tag,
                    volume_dir(v),
                )
            }),
    {
        let last = self.volumes.len() - 1;
        let vol_num = self.volumes.len();
        let page_idx = self.volumes[last];
        let vol_str = volume_dir_string(vol_num);
        let name = page_name_string(page_idx);

        let mut image = String::new();
        image.append("OEBPS/Images/");
        image.append(self.tag.as_str());
        image.append("/");
        image.append(vol_str.as_str());
        image.append("/");
        image.append(name.as_str());
        image.append(".jpg");

        let mut xhtml_file = String::new();
        xhtml_file.append("OEBPS/Text/");
        xhtml_file.append(self.tag.as_str());
        xhtml_file.append("/");
        xhtml_file.append(vol_str.as_str());
        xhtml_file.append("/");
        xhtml_file.append(name.as_str());
        xhtml_file.append(".xhtml");

        let xhtml = page::generate(name.as_str(), self.width, self.height, self.tag.as_str(), vol_str.as_str());

        let mut xhtml_id = String::new();
        xhtml_id.append("page_Images_");
        xhtml_id.append(self.tag.as_str());
        xhtml_id.append("_");
        xhtml_id.append(vol_str.as_str());
        xhtml_id.append("_");
        xhtml_id.append(name.as_str());

        let item = content_opf::generate_manifest_entry(
            xhtml_id.as_str(),
            self.tag.as_str(),
            vol_str.as_str(),
            name.as_str(),
        );
        let itemref = content_opf::generate_spine_entry(xhtml_id.as_str(), None);
        self.manifest.append(item.as_str());
        self.spine.append(itemref.as_str());
        proof {
            lemma_page_sequence_grow(self.volumes@);
        }
        self.volumes.set(last, page_idx + 1);
        proof {
            let pages = page_sequence(old(self).volumes@);
            let page = (vol_num as nat, page_idx as nat);
            assert(self.volumes@ == old(self).volumes@.update(last as int, (page_idx + 1) as usize));
            assert(pages.push(page).drop_last() =~= pages);
            assert(xhtml_id@ =~= page_id(self.tag@, vol_num as nat, page_idx as nat));
            assert(image@ =~= image_path(self.tag@, vol_num as nat, page_idx as nat));
            assert(xhtml_file@ =~= xhtml_path(self.tag@, vol_num as nat, page_idx as nat));
        }
        PageFiles { image_path: image, xhtml_path: xhtml_file, xhtml }
    }
}

/// Where a reference sits in a document: the text before it, the reference
/// itself and the text after it.
pub type ReferencePlace = (Seq<char>, Seq<char>, Seq<char>);

/// Every reference of a page document names an entry of the book, resolved
/// from the directory of the document (the directory that, followed by the
/// page's file name, is the document's archive path): the style-sheet link
/// names `OEBPS/Text/style.css` and the Kobo style-hack link names
/// `kte-css/stylehacks.css`, the two style sheets of the archive's preamble,
/// and the image names the archive path of the page's image. Returned are
/// the places of the three references in the document.
#[verifier::spinoff_prover]
#[verifier::rlimit(60)]
pub proof fn lemma_page_document_links(tag: Seq<char>, v: nat, p: nat, w: nat, h: nat) -> (refs: (
    ReferencePlace,
    ReferencePlace,
    ReferencePlace,
))
    ensures
        dir_path(page_dir(tag, v)) + page_name(p) + ".xhtml"@ == xhtml_path(tag, v, p),
        ({
            let doc = page_document(page_name(p), w, h, tag, volume_dir(v));
            &&& doc == refs.0.0 + "<link href=\""@ + refs.0.1 + "\" type=\"text/css\" rel=\"stylesheet\"/>"@ + refs.0.2
            &&& !refs.0.1.contains('"')
            &&& resolve_relative(page_dir(tag, v), refs.0.1) == "OEBPS/Text/style.css"@
            &&& doc == refs.1.0 + "<link rel=\"stylesheet\" href=\""@ + refs.1.1 + "\"/>"@ + refs.1.2
            &&& !refs.1.1.contains('"')
            &&& resolve_relative(page_dir(tag, v), refs.1.1) == "kte-css/stylehacks.css"@
            &&& doc == refs.2.0 + " src=\""@ + refs.2.1 + "\"/>"@ + refs.2.2
            &&& resolve_relative(page_dir(tag, v), refs.2.1) == image_path(tag, v, p)
        }),
{
    lemma_page_references(tag, v, p);
    let name = page_name(p);
    let vol = volume_dir(v);
    let l1 = "<?xml version='1.0' encoding='utf-8'?>\n<html xmlns=\"http://www.w3.org/1999/xhtml\" xmlns:epub=\"http://www.idpf.org/2007/ops\">\n  <head>\n    <title>"@;
    let l2 = "</title>\n    <link href=\"../../style.css\" type=\"text/css\" rel=\"stylesheet\"/>\n    <meta name=\"viewport\" content=\"width="@;
    let l3 = ", height="@;
    let l4 = "\"/>\n    <meta http-equiv=\"Content-Type\" content=\"text/html; charset=utf-8\"/>\n    <link rel=\"stylesheet\" href=\"../../../../kte-css/stylehacks.css\"/>\n  </head>\n  <body style=\"background-color:#000000;\"><div style=\"text-align:center;top:0.0%;\"><span>\n    <img width=\""@;
    let l5 = "\" height=\""@;
    let l6 = "\" src=\"../../../Images/"@;
    let l7 = ".jpg\"/>\n  </span></div></body></html>"@;
    reveal_strlit("<?xml version='1.0' encoding='utf-8'?>\n<html xmlns=\"http://www.w3.org/1999/xhtml\" xmlns:epub=\"http://www.idpf.org/2007/ops\">\n  <head>\n    <title>");
    reveal_strlit("</title>\n    <link href=\"../../style.css\" type=\"text/css\" rel=\"stylesheet\"/>\n    <meta name=\"viewport\" content=\"width=");
    reveal_strlit("\"/>\n    <meta http-equiv=\"Content-Type\" content=\"text/html; charset=utf-8\"/>\n    <link rel=\"stylesheet\" href=\"../../../../kte-css/stylehacks.css\"/>\n  </head>\n  <body style=\"background-color:#000000;\"><div style=\"text-align:center;top:0.0%;\"><span>\n    <img width=\"");
    reveal_strlit("\" src=\"../../../Images/");
    reveal_strlit(".jpg\"/>\n  </span></div></body></html>");
    reveal_strlit("</title>\n    ");
    reveal_strlit("<link href=\"");
    reveal_strlit("../../style.css");
    reveal_strlit("\" type=\"text/css\" rel=\"stylesheet\"/>");
    reveal_strlit("\n    <meta name=\"viewport\" content=\"width=");
    reveal_strlit("\"/>\n    <meta http-equiv=\"Content-Type\" content=\"text/html; charset=utf-8\"/>\n    ");
    reveal_strlit("<link rel=\"stylesheet\" href=\"");
    reveal_strlit("../../../../kte-css/stylehacks.css");
    reveal_strlit("\"/>");
    reveal_strlit("\n  </head>\n  <body style=\"background-color:#000000;\"><div style=\"text-align:center;top:0.0%;\"><span>\n    <img width=\"");
    reveal_strlit("\"");
    reveal_strlit(" src=\"");
    reveal_strlit("../../../Images/");
    reveal_strlit(".jpg");
    reveal_strlit("\n  </span></div></body></html>");
    let style = "../../style.css"@;
    let hacks = "../../../../kte-css/stylehacks.css"@;
    let image = "../../../Images/"@ + tag + "/"@ + vol + "/"@ + name + ".jpg"@;
    let l2_tail = "\n    <meta name=\"viewport\" content=\"width="@;
    let l4_head = "\"/>\n    <meta http-equiv=\"Content-Type\" content=\"text/html; charset=utf-8\"/>\n    "@;
    let l4_tail = "\n  </head>\n  <body style=\"background-color:#000000;\"><div style=\"text-align:center;top:0.0%;\"><span>\n    <img width=\""@;
    let l7_tail = "\n  </span></div></body></html>"@;
    assert(l2 =~= "</title>\n    "@ + "<link href=\""@ + style + "\" type=\"text/css\" rel=\"stylesheet\"/>"@ + l2_tail);
    assert(l4 =~= l4_head + "<link rel=\"stylesheet\" href=\""@ + hacks + "\"/>"@ + l4_tail);
    assert(l6 =~= "\""@ + " src=\""@ + "../../../Images/"@);
    assert(l7 =~= ".jpg"@ + "\"/>"@ + l7_tail);
    let doc = page_document(name, w, h, tag, vol);
    let after_title = l1 + name;
    let middle = decimal(w) + l3 + decimal(h);
    let body = decimal(w) + l5 + decimal(h);
    let place = tag + "/"@ + vol + "/"@ + name;
    assert(doc =~= after_title + l2 + middle + l4 + body + l6 + place + l7);
    let style_place = (
        after_title + "</title>\n    "@,
        style,
        l2_tail + middle + l4 + body + l6 + place + l7,
    );
    let hacks_place = (after_title + l2 + middle + l4_head, hacks, l4_tail + body + l6 + place + l7);
    let image_place = (after_title + l2 + middle + l4 + body + "\""@, image, l7_tail);
    assert(doc =~= style_place.0 + "<link href=\""@ + style_place.1 + "\" type=\"text/css\" rel=\"stylesheet\"/>"@
        + style_place.2);
    assert(doc =~= hacks_place.0 + "<link rel=\"stylesheet\" href=\""@ + hacks_place.1 + "\"/>"@ + hacks_place.2);
    assert(image =~= "../../../Images/"@ + place + ".jpg"@);
    assert(doc =~= image_place.0 + " src=\""@ + image_place.1 + "\"/>"@ + image_place.2);
    assert(!style.contains('"'));
    assert(!hacks.contains('"'));
    (style_place, hacks_place, image_place)
}

/// The archive path of the cover image.
pub open spec fn cover_path() -> Seq<char> {
    "OEBPS/Images/cover.jpg"@
}

/// Returns the archive path of the cover image.
pub fn cover_image_path() -> (res: &'static str)
    ensures
        res@ == cover_path(),
{
    "OEBPS/Images/cover.jpg"
}

/// Whether `entry` is the file `path` with the contents `text`.
pub open spec fn text_entry_is(entry: TextEntry, path: Seq<char>, text: Seq<char>, stored: bool) -> bool {
    &&& entry.path@ == path
    &&& entry.text@ == text
    &&& entry.stored == stored
}

fn text_entry(path: &str, text: &str, stored: bool) -> (entry: TextEntry)
    ensures
        text_entry_is(entry, path@, text@, stored),
{
    TextEntry { path: String::from_str(path), text: String::from_str(text), stored }
}

/// The files that open the archive, in order: the uncompressed `mimetype`
/// first, then the container document and the two style sheets.
pub fn preamble_entries() -> (entries: Vec<TextEntry>)
    ensures
        entries.len() == 4,
        text_entry_is(entries[0], "mimetype"@, "application/epub+zip"@, true),
        text_entry_is(entries[1], "META-INF/container.xml"@, container::container_document(), false),
        text_entry_is(entries[2], "kte-css/stylehacks.css"@, stylehacks::stylehacks_sheet(), false),
        text_entry_is(entries[3], "OEBPS/Text/style.css"@, style::page_style_sheet(), false),
{
    let mut entries = Vec::new();
    entries.push(text_entry("mimetype", "application/epub+zip", true));
    entries.push(text_entry("META-INF/container.xml", container::generate(), false));
    entries.push(text_entry("kte-css/stylehacks.css", stylehacks::generate(), false));
    entries.push(text_entry("OEBPS/Text/style.css", style::generate(), false));
    entries
}

impl EpubBook {
    /// Closes the book: the NCX table of contents, the navigation document and
    /// the package document, in the order in which they go into the archive.
    pub fn finish(
        self,
        uuid: &str,
        uuid2: &str,
        title: &str,
        creator: &str,
        lang: &str,
        modif_date: &str,
    ) -> (entries: Vec<TextEntry>)
        requires
            self.well_formed(),
        ensures
            entries.len() == 3,
            ({
                let tag = self.book_tag();
                let n = self.page_counts().len();
                let pages = page_sequence(self.page_counts());
                &&& text_entry_is(entries[0], "OEBPS/toc.ncx"@, ncx_document(uuid@, title@, toc_points(tag, n)), false)
                &&& text_entry_is(
                    entries[1],
                    "OEBPS/nav.xhtml"@,
                    nav_document(title@, nav_items(tag, n), nav_items(tag, n)),
                    false,
                )
                &&& text_entry_is(
                    entries[2],
                    "OEBPS/content.opf"@,
                    package_document(
                        title@,
                        creator@,
                        uuid@,
                        uuid2@,
                        lang@,
                        manifest_items(tag, pages) + manifest_footer(),
                        spine_items(tag, pages),
                        modif_date@,
                    ),
                    false,
                )
            }),
    {
        let mut manifest = self.manifest;
        manifest.append(content_opf::generate_manifest_footer());
        let ncx = toc_ncx::generate(uuid, title, self.toc.as_str());
        let nav_doc = nav::generate(title, self.nav_toc.as_str(), self.nav_pagelist.as_str());
        let opf = content_opf::generate(
            title,
            creator,
            uuid,
            uuid2,
            lang,
            manifest.as_str(),
            self.spine.as_str(),
            modif_date,
        );
        let mut entries = Vec::new();
        entries.push(TextEntry { path: String::from_str("OEBPS/toc.ncx"), text: ncx, stored: false });
        entries.push(TextEntry { path: String::from_str("OEBPS/nav.xhtml"), text: nav_doc, stored: false });
        entries.push(TextEntry { path: String::from_str("OEBPS/content.opf"), text: opf, stored: false });
        entries
    }
}

} // verus!
