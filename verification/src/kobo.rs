//! Assembly of a Kobo-flavoured EPUB package: the same archive layout, page
//! names, manifest, spine and table of contents as `epub`, with numbered Kobo
//! spans in the navigation lists and page documents, fitted pages without
//! spread splitting, and portrait synthetic spreads.
//!
//! The spans of the table of contents are numbered 4, 6, 8, ... by volume;
//! those of the page list continue after a gap: for a book of `n` volumes,
//! `2n + 10`, `2n + 12`, ...; every page document uses the span `kobo.3.1`.

use vstd::prelude::*;
use crate::epub::{
    image_path, lemma_page_sequence_grow, lemma_page_sequence_open, manifest_items, page_id, page_name,
    page_name_string, page_sequence, spine_items, text_entry_is, toc_points, volume_dir, volume_dir_string,
    xhtml_path, PageFiles, TextEntry,
};
use crate::files::{content_opf, kobo, nav, toc_ncx};
use crate::files::content_opf::manifest_footer;
use crate::files::kobo::{kobo_nav_entry, kobo_package_document, kobo_page_document};
use crate::decimal::decimal;
use crate::links::{dir_path, lemma_page_references, page_dir, resolve_relative};
use crate::epub::ReferencePlace;
use crate::files::nav::nav_document;
use crate::files::toc_ncx::ncx_document;

verus! {

/// The Kobo span number of the table-of-contents item of volume `v` (from 1).
pub open spec fn toc_span_id(v: nat) -> nat {
    2 * v + 2
}

/// The Kobo span number of the page-list item of volume `v` (from 1) in a book of `total` volumes.
pub open spec fn pagelist_span_id(total: nat, v: nat) -> nat {
    2 * total + 2 * v + 8
}

/// The table-of-contents items of volumes `1..=n`.
pub open spec fn kobo_toc_items(tag: Seq<char>, n: nat) -> Seq<char>
    decreases n,
{
    if n == 0 {
        Seq::empty()
    } else {
        kobo_toc_items(tag, (n - 1) as nat) + kobo_nav_entry(tag, n, toc_span_id(n))
    }
}

/// The page-list items of volumes `1..=n` in a book of `total` volumes.
pub open spec fn kobo_pagelist_items(tag: Seq<char>, total: nat, n: nat) -> Seq<char>
    decreases n,
{
    if n == 0 {
        Seq::empty()
    } else {
        kobo_pagelist_items(tag, total, (n - 1) as nat) + kobo_nav_entry(tag, n, pagelist_span_id(total, n))
    }
}

/// The Kobo spans of a book never clash: for volumes `v1` and `v2` of a book
/// of `total` volumes, no table-of-contents span has the number of a
/// page-list span, different volumes get different numbers within each list,
/// and no navigation span has the number 3 of the page documents' span.
pub proof fn lemma_kobo_spans_distinct(total: nat, v1: nat, v2: nat)
    requires
        1 <= v1 <= total,
        1 <= v2 <= total,
    ensures
        toc_span_id(v1) != pagelist_span_id(total, v2),
        v1 != v2 ==> toc_span_id(v1) != toc_span_id(v2),
        v1 != v2 ==> pagelist_span_id(total, v1) != pagelist_span_id(total, v2),
        toc_span_id(v1) != 3,
        pagelist_span_id(total, v1) != 3,
{
}

/// A Kobo-flavoured EPUB package being filled volume by volume, for a book of a known number of volumes.
pub struct KoboBook {
    tag: String,
    width: u32,
    height: u32,
    total: usize,
    volumes: Vec<usize>,
    manifest: String,
    spine: String,
    toc: String,
    nav_toc: String,
    nav_pagelist: String,
}

impl KoboBook {
    /// The manga tag under which the pages are filed.
    pub closed spec fn book_tag(&self) -> Seq<char> {
        self.tag@
    }

    /// The page box, in pixels, that every page document declares.
    pub closed spec fn page_size(&self) -> (u32, u32) {
        (self.width, self.height)
    }

    /// The number of volumes the book will hold.
    pub closed spec fn volume_total(&self) -> nat {
        self.total as nat
    }

    /// The number of pages of each volume opened so far, in order.
    pub closed spec fn page_counts(&self) -> Seq<usize> {
        self.volumes@
    }

    /// The accumulated lists describe exactly the volumes and pages added so far.
    pub closed spec fn well_formed(&self) -> bool {
        &&& self.total <= usize::MAX / 8
        &&& self.volumes@.len() <= self.total
        &&& self.manifest@ == manifest_items(self.tag@, page_sequence(self.volumes@))
        &&& self.spine@ == spine_items(self.tag@, page_sequence(self.volumes@))
        &&& self.toc@ == toc_points(self.tag@, self.volumes@.len())
        &&& self.nav_toc@ == kobo_toc_items(self.tag@, self.volumes@.len())
        &&& self.nav_pagelist@ == kobo_pagelist_items(self.tag@, self.total as nat, self.volumes@.len())
    }

    /// An empty book of `volume_total` volumes whose pages are filed under
    /// `tag` and declare a `width` by `height` page box.
    pub fn new(tag: &str, width: u32, height: u32, volume_total: usize) -> (book: KoboBook)
        requires
            volume_total <= usize::MAX / 8,
        ensures
            book.well_formed(),
            book.book_tag() == tag@,
            book.page_size() == (width, height),
            book.volume_total() == volume_total,
            book.page_counts() == Seq::<usize>::empty(),
    {
        let book = KoboBook {
            tag: String::from_str(tag),
            width,
            height,
            total: volume_total,
            volumes: Vec::new(),
            manifest: String::new(),
            spine: String::new(),
            toc: String::new(),
            nav_toc: String::new(),
            nav_pagelist: String::new(),
        };
        assert(book.volumes@ =~= Seq::<usize>::empty());
        book
    }

    /// Opens the next volume: adds its navigation point to the table of
    /// contents and its items, with their Kobo spans, to both navigation lists.
    pub fn begin_volume(&mut self)
        requires
            old(self).well_formed(),
            old(self).page_counts().len() < old(self).volume_total(),
        ensures
            final(self).well_formed(),
            final(self).book_tag() == old(self).book_tag(),
            final(self).page_size() == old(self).page_size(),
            final(self).volume_total() == old(self).volume_total(),
            final(self).page_counts() == old(self).page_counts().push(0),
    {
        let vol_idx = self.volumes.len();
        let vol_num = vol_idx + 1;
        let toc_kobo_id = 4 + vol_idx * 2;
        let pagelist_kobo_id = 4 + self.total * 2 + 6 + vol_idx * 2;
        let toc_item = toc_ncx::generate_entry(self.tag.as_str(), vol_num);
        let toc_nav_item = kobo::generate_nav_entry(self.tag.as_str(), vol_num, toc_kobo_id);
        let pagelist_item = kobo::generate_nav_entry(self.tag.as_str(), vol_num, pagelist_kobo_id);
        self.toc.append(toc_item.as_str());
        self.nav_toc.append(toc_nav_item.as_str());
        self.nav_pagelist.append(pagelist_item.as_str());
        proof {
            lemma_page_sequence_open(self.volumes@);
        }
        self.volumes.push(0);
        proof {
            assert(toc_points(self.tag@, self.volumes@.len()) =~= old(self).toc@ + toc_item@);
            assert(kobo_toc_items(self.tag@, self.volumes@.len()) =~= old(self).nav_toc@ + toc_nav_item@);
            assert(kobo_pagelist_items(self.tag@, self.total as nat, self.volumes@.len()) =~= old(self).nav_pagelist@
                + pagelist_item@);
        }
    }

    /// Adds the next page to the current volume: records its manifest and
    /// spine items and returns where its image and XHTML document go, with
    /// the XHTML document itself.
    pub fn add_page(&mut self) -> (files: PageFiles)
        requires
            old(self).well_formed(),
            old(self).page_counts().len() > 0,
            old(self).page_counts().last() < usize::MAX,
        ensures
            final(self).well_formed(),
            final(self).book_tag() == old(self).book_tag(),
            final(self).page_size() == old(self).page_size(),
            final(self).volume_total() == old(self).volume_total(),
            final(self).page_counts() == old(self).page_counts().update(
                old(self).page_counts().len() - 1,
                (old(self).page_counts().last() + 1) as usize,
            ),
            ({
                let tag = old(self).book_tag();
                let v = old(self).page_counts().len();
                let p = old(self).page_counts().last() as nat;
                &&& files.image_path@ == image_path(tag, v, p)
                &&& files.xhtml_path@ == xhtml_path(tag, v, p)
                &&& files.xhtml@ == kobo_page_document(
                    page_name(p),
                    old(self).page_size().0 as nat,
                    old(self).page_size().1 as nat,
                    tag,
                    volume_dir(v),
                )
            }),
    {
        let last = self.volumes.len() - 1;
        let vol_num = self.volumes.len();
        let page_idx = self.volumes[last];
        let vol_str = volume_dir_string(vol_num);
        let name = page_name_string(page_idx);

        let mut image = String::new();
        image.append("OEBPS/Images/");
        image.append(self.tag.as_str());
        image.append("/");
        image.append(vol_str.as_str());
        image.append("/");
        image.append(name.as_str());
        image.append(".jpg");

        let mut xhtml_file = String::new();
        xhtml_file.append("OEBPS/Text/");
        xhtml_file.append(self.tag.as_str());
        xhtml_file.append("/");
        xhtml_file.append(vol_str.as_str());
        xhtml_file.append("/");
        xhtml_file.append(name.as_str());
        xhtml_file.append(".xhtml");

        let xhtml = kobo::generate_page(name.as_str(), self.width, self.height, self.tag.as_str(), vol_str.as_str());

        let mut xhtml_id = String::new();
        xhtml_id.append("page_Images_");
        xhtml_id.append(self.tag.as_str());
        xhtml_id.append("_");
        xhtml_id.append(vol_str.as_str());
        xhtml_id.append("_");
        xhtml_id.append(name.as_str());

        let item = content_opf::generate_manifest_entry(
            xhtml_id.as_str(),
            self.tag.as_str(),
            vol_str.as_str(),
            name.as_str(),
        );
        let itemref = content_opf::generate_spine_entry(xhtml_id.as_str(), None);
        self.manifest.append(item.as_str());
        self.spine.append(itemref.as_str());
        proof {
            lemma_page_sequence_grow(self.volumes@);
        }
        self.volumes.set(last, page_idx + 1);
        proof {
            let pages = page_sequence(old(self).volumes@);
            let page = (vol_num as nat, page_idx as nat);
            assert(self.volumes@ == old(self).volumes@.update(last as int, (page_idx + 1) as usize));
            assert(pages.push(page).drop_last() =~= pages);
            assert(xhtml_id@ =~= page_id(self.tag@, vol_num as nat, page_idx as nat));
            assert(image@ =~= image_path(self.tag@, vol_num as nat, page_idx as nat));
            assert(xhtml_file@ =~= xhtml_path(self.tag@, vol_num as nat, page_idx as nat));
        }
        PageFiles { image_path: image, xhtml_path: xhtml_file, xhtml }
    }

    /// Closes the book: the NCX table of contents, the navigation document and
    /// the package document, in the order in which they go into the archive.
    pub fn finish(
        self,
        uuid: &str,
        uuid2: &str,
        title: &str,
        creator: &str,
        lang: &str,
        modif_date: &str,
    ) -> (entries: Vec<TextEntry>)
        requires
            self.well_formed(),
        ensures
            entries.len() == 3,
            ({
                let tag = self.book_tag();
                let n = self.page_counts().len();
                let pages = page_sequence(self.page_counts());
                &&& text_entry_is(entries[0], "OEBPS/toc.ncx"@, ncx_document(uuid@, title@, toc_points(tag, n)), false)
                &&& text_entry_is(
                    entries[1],
                    "OEBPS/nav.xhtml"@,
                    nav_document(title@, kobo_toc_items(tag, n), kobo_pagelist_items(tag, self.volume_total(), n)),
                    false,
                )
                &&& text_entry_is(
                    entries[2],
                    "OEBPS/content.opf"@,
                    kobo_package_document(
                        title@,
                        creator@,
                        uuid@,
                        uuid2@,
                        lang@,
                        manifest_items(tag, pages) + manifest_footer(),
                        spine_items(tag, pages),
                        modif_date@,
                    ),
                    false,
                )
            }),
    {
        let mut manifest = self.manifest;
        manifest.append(content_opf::generate_manifest_footer());
        let ncx = toc_ncx::generate(uuid, title, self.toc.as_str());
        let nav_doc = nav::generate(title, self.nav_toc.as_str(), self.nav_pagelist.as_str());
        let opf = kobo::generate_package(
            title,
            creator,
            uuid,
            uuid2,
            lang,
            manifest.as_str(),
            self.spine.as_str(),
            modif_date,
        );
        let mut entries = Vec::new();
        entries.push(TextEntry { path: String::from_str("OEBPS/toc.ncx"), text: ncx, stored: false });
        entries.push(TextEntry { path: String::from_str("OEBPS/nav.xhtml"), text: nav_doc, stored: false });
        entries.push(TextEntry { path: String::from_str("OEBPS/content.opf"), text: opf, stored: false });
        entries
    }
}

/// Every reference of a Kobo page document names an entry of the book, resolved
/// from the directory of the document (the directory that, followed by the
/// page's file name, is the document's archive path): the style-sheet link
/// names `OEBPS/Text/style.css` and the Kobo style-hack link names
/// `kte-css/stylehacks.css`, the two style sheets of the archive's preamble,
/// and the image names the archive path of the page's image. Returned are
/// the places of the three references in the document.
#[verifier::spinoff_prover]
#[verifier::rlimit(60)]
pub proof fn lemma_kobo_page_document_links(tag: Seq<char>, v: nat, p: nat, w: nat, h: nat) -> (refs: (
    ReferencePlace,
    ReferencePlace,
    ReferencePlace,
))
    ensures
        dir_path(page_dir(tag, v)) + page_name(p) + ".xhtml"@ == xhtml_path(tag, v, p),
        ({
            let doc = kobo_page_document(page_name(p), w, h, tag, volume_dir(v));
            &&& doc == refs.0.0 + "<link href=\""@ + refs.0.1 + "\" type=\"text/css\" rel=\"stylesheet\"/>"@ + refs.0.2
            &&& !refs.0.1.contains('"')
            &&& resolve_relative(page_dir(tag, v), refs.0.1) == "OEBPS/Text/style.css"@
            &&& doc == refs.1.0 + "<link rel=\"stylesheet\" href=\""@ + refs.1.1 + "\"/>"@ + refs.1.2
            &&& !refs.1.1.contains('"')
            &&& resolve_relative(page_dir(tag, v), refs.1.1) == "kte-css/stylehacks.css"@
            &&& doc == refs.2.0 + " src=\""@ + refs.2.1 + "\"/>"@ + refs.2.2
            &&& resolve_relative(page_dir(tag, v), refs.2.1) == image_path(tag, v, p)
        }),
{
    lemma_page_references(tag, v, p);
    let name = page_name(p);
    let vol = volume_dir(v);
    let l1 = "<?xml version='1.0' encoding='utf-8'?>\n<html xmlns=\"http://www.w3.org/1999/xhtml\" xmlns:epub=\"http://www.idpf.org/2007/ops\">\n  <head>\n    <title>"@;
    let l2 = "</title>\n    <link href=\"../../style.css\" type=\"text/css\" rel=\"stylesheet\"/>\n    <meta name=\"viewport\" content=\"width="@;
    let l3 = ", height="@;
    let l4 = "\"/>\n    <meta http-equiv=\"Content-Type\" content=\"text/html; charset=utf-8\"/>\n    <link rel=\"stylesheet\" href=\"../../../../kte-css/stylehacks.css\"/>\n  </head>\n  <body style=\"background-color:#000000;\"><div style=\"text-align:center;top:0.0%;\"><span id=\"kobo.3.1\" class=\"koboSpan\"><img width=\""@;
    let l5 = "\" height=\""@;
    let l6 = "\" src=\"../../../Images/"@;
    let l7 = ".jpg\"/></span></div></body></html>"@;
    reveal_strlit("<?xml version='1.0' encoding='utf-8'?>\n<html xmlns=\"http://www.w3.org/1999/xhtml\" xmlns:epub=\"http://www.idpf.org/2007/ops\">\n  <head>\n    <title>");
    reveal_strlit("</title>\n    <link href=\"../../style.css\" type=\"text/css\" rel=\"stylesheet\"/>\n    <meta name=\"viewport\" content=\"width=");
    reveal_strlit("\"/>\n    <meta http-equiv=\"Content-Type\" content=\"text/html; charset=utf-8\"/>\n    <link rel=\"stylesheet\" href=\"../../../../kte-css/stylehacks.css\"/>\n  </head>\n  <body style=\"background-color:#000000;\"><div style=\"text-align:center;top:0.0%;\"><span id=\"kobo.3.1\" class=\"koboSpan\"><img width=\"");
    reveal_strlit("\" src=\"../../../Images/");
    reveal_strlit(".jpg\"/></span></div></body></html>");
    reveal_strlit("</title>\n    ");
    reveal_strlit("<link href=\"");
    reveal_strlit("../../style.css");
    reveal_strlit("\" type=\"text/css\" rel=\"stylesheet\"/>");
    reveal_strlit("\n    <meta name=\"viewport\" content=\"width=");
    reveal_strlit("\"/>\n    <meta http-equiv=\"Content-Type\" content=\"text/html; charset=utf-8\"/>\n    ");
    reveal_strlit("<link rel=\"stylesheet\" href=\"");
    reveal_strlit("../../../../kte-css/stylehacks.css");
    reveal_strlit("\"/>");
    reveal_strlit("\n  </head>\n  <body style=\"background-color:#000000;\"><div style=\"text-align:center;top:0.0%;\"><span id=\"kobo.3.1\" class=\"koboSpan\"><img width=\"");
    reveal_strlit("\"");
    reveal_strlit(" src=\"");
    reveal_strlit("../../../Images/");
    reveal_strlit(".jpg");
    reveal_strlit("</span></div></body></html>");
    let style = "../../style.css"@;
    let hacks = "../../../../kte-css/stylehacks.css"@;
    let image = "../../../Images/"@ + tag + "/"@ + vol + "/"@ + name + ".jpg"@;
    let l2_tail = "\n    <meta name=\"viewport\" content=\"width="@;
    let l4_head = "\"/>\n    <meta http-equiv=\"Content-Type\" content=\"text/html; charset=utf-8\"/>\n    "@;
    let l4_tail = "\n  </head>\n  <body style=\"background-color:#000000;\"><div style=\"text-align:center;top:0.0%;\"><span id=\"kobo.3.1\" class=\"koboSpan\"><img width=\""@;
    let l7_tail = "</span></div></body></html>"@;
    assert(l2 =~= "</title>\n    "@ + "<link href=\""@ + style + "\" type=\"text/css\" rel=\"stylesheet\"/>"@ + l2_tail);
    assert(l4 =~= l4_head + "<link rel=\"stylesheet\" href=\""@ + hacks + "\"/>"@ + l4_tail);
    assert(l6 =~= "\""@ + " src=\""@ + "../../../Images/"@);
    assert(l7 =~= ".jpg"@ + "\"/>"@ + l7_tail);
    let doc = kobo_page_document(name, w, h, tag, vol);
    let after_title = l1 + name;
    let middle = decimal(w) + l3 + decimal(h);
    let body = decimal(w) + l5 + decimal(h);
    let place = tag + "/"@ + vol + "/"@ + name;
    assert(doc =~= after_title + l2 + middle + l4 + body + l6 + place + l7);
    let style_place = (
        after_title + "</title>\n    "@,
        style,
        l2_tail + middle + l4 + body + l6 + place + l7,
    );
    let hacks_place = (after_title + l2 + middle + l4_head, hacks, l4_tail + body + l6 + place + l7);
    let image_place = (after_title + l2 + middle + l4 + body + "\""@, image, l7_tail);
    assert(doc =~= style_place.0 + "<link href=\""@ + style_place.1 + "\" type=\"text/css\" rel=\"stylesheet\"/>"@
        + style_place.2);
    assert(doc =~= hacks_place.0 + "<link rel=\"stylesheet\" href=\""@ + hacks_place.1 + "\"/>"@ + hacks_place.2);
    assert(image =~= "../../../Images/"@ + place + ".jpg"@);
    assert(doc =~= image_place.0 + " src=\""@ + image_place.1 + "\"/>"@ + image_place.2);
    assert(!style.contains('"'));
    assert(!hacks.contains('"'));
    (style_place, hacks_place, image_place)
}

} // verus!
