//! The Kobo-flavoured variants of the navigation list items, the page
//! documents and the package document: Kobo readers find their place in a
//! book through `koboSpan` elements with numbered identifiers.

use vstd::prelude::*;
use crate::decimal::{decimal, padded_decimal, push_decimal, push_padded_decimal};

verus! {

/// The list item that links volume `vol_num` to its first page, its label
/// wrapped in the Kobo span numbered `kobo_id`.
pub open spec fn kobo_nav_entry(tag: Seq<char>, vol_num: nat, kobo_id: nat) -> Seq<char> {
    "<li><a href=\"Text/"@ + tag + "/volume-"@ + padded_decimal(vol_num, 4)
        + "/kcc-0000-kcc.xhtml\"><span class=\"koboSpan\" id=\"kobo."@ + decimal(kobo_id)
        + ".1\">Volume "@ + decimal(vol_num) + "</span></a></li>\n"@
}

/// Renders the navigation list item of volume `vol_num` with Kobo span `kobo_id`.
pub fn generate_nav_entry(tag: &str, vol_num: usize, kobo_id: usize) -> (res: String)
    ensures
        res@ == kobo_nav_entry(tag@, vol_num as nat, kobo_id as nat),
{
    let mut out = String::new();
    out.append("<li><a href=\"Text/");
    out.append(tag);
    out.append("/volume-");
    push_padded_decimal(&mut out, vol_num as u64, 4);
    out.append("/kcc-0000-kcc.xhtml\"><span class=\"koboSpan\" id=\"kobo.");
    push_decimal(&mut out, kobo_id as u64);
    out.append(".1\">Volume ");
    push_decimal(&mut out, vol_num as u64);
    out.append("</span></a></li>\n");
    out
}

/// The XHTML page that shows the image `name` of volume `vol_str` inside the
/// Kobo span `kobo.3.1`, with a viewport and an image box of `w` by `h` pixels.
pub open spec fn kobo_page_document(name: Seq<char>, w: nat, h: nat, tag: Seq<char>, vol_str: Seq<char>) -> Seq<char> {
    "<?xml version='1.0' encoding='utf-8'?>\n<html xmlns=\"http://www.w3.org/1999/xhtml\" xmlns:epub=\"http://www.idpf.org/2007/ops\">\n  <head>\n    <title>"@
        + name
        + "</title>\n    <link href=\"../../style.css\" type=\"text/css\" rel=\"stylesheet\"/>\n    <meta name=\"viewport\" content=\"width="@
        + decimal(w) + ", height="@ + decimal(h)
        + "\"/>\n    <meta http-equiv=\"Content-Type\" content=\"text/html; charset=utf-8\"/>\n    <link rel=\"stylesheet\" href=\"../../../../kte-css/stylehacks.css\"/>\n  </head>\n  <body style=\"background-color:#000000;\"><div style=\"text-align:center;top:0.0%;\"><span id=\"kobo.3.1\" class=\"koboSpan\"><img width=\""@
        + decimal(w) + "\" height=\""@ + decimal(h) + "\" src=\"../../../Images/"@ + tag + "/"@
        + vol_str + "/"@ + name + ".jpg\"/></span></div></body></html>"@
}

/// Renders the Kobo XHTML page of one image.
pub fn generate_page(name: &str, w: u32, h: u32, tag: &str, vol_str: &str) -> (res: String)
    ensures
        res@ == kobo_page_document(name@, w as nat, h as nat, tag@, vol_str@),
{
    let mut out = String::new();
    out.append("<?xml version='1.0' encoding='utf-8'?>\n<html xmlns=\"http://www.w3.org/1999/xhtml\" xmlns:epub=\"http://www.idpf.org/2007/ops\">\n  <head>\n    <title>");
    out.append(name);
    out.append("</title>\n    <link href=\"../../style.css\" type=\"text/css\" rel=\"stylesheet\"/>\n    <meta name=\"viewport\" content=\"width=");
    push_decimal(&mut out, w as u64);
    out.append(", height=");
    push_decimal(&mut out, h as u64);
    out.append("\"/>\n    <meta http-equiv=\"Content-Type\" content=\"text/html; charset=utf-8\"/>\n    <link rel=\"stylesheet\" href=\"../../../../kte-css/stylehacks.css\"/>\n  </head>\n  <body style=\"background-color:#000000;\"><div style=\"text-align:center;top:0.0%;\"><span id=\"kobo.3.1\" class=\"koboSpan\"><img width=\"");
    push_decimal(&mut out, w as u64);
    out.append("\" height=\"");
    push_decimal(&mut out, h as u64);
    out.append("\" src=\"../../../Images/");
    out.append(tag);
    out.append("/");
    out.append(vol_str);
    out.append("/");
    out.append(name);
    out.append(".jpg\"/></span></div></body></html>");
    out
}

/// The package document of a Kobo book: as the regular one, but with portrait synthetic spreads.
pub open spec fn kobo_package_document(
    title: Seq<char>,
    creator: Seq<char>,
    uuid: Seq<char>,
    uuid2: Seq<char>,
    lang: Seq<char>,
    manifest: Seq<char>,
    spine: Seq<char>,
    modif_date: Seq<char>,
) -> Seq<char> {
    "<?xml version='1.0' encoding='utf-8'?>\n<package xmlns=\"http://www.idpf.org/2007/opf\" version=\"3.0\" unique-identifier=\"BookID\">\n<metadata xmlns:opf=\"http://www.idpf.org/2007/opf\" xmlns:dc=\"http://purl.org/dc/elements/1.1/\">\n<dc:title id=\"id\">"@
        + title + "</dc:title>\n<dc:creator id=\"id-1\">"@ + creator
        + "</dc:creator>\n<dc:identifier>uuid:"@ + uuid2
        + "</dc:identifier>\n<dc:identifier id=\"BookID\">urn:uuid:"@ + uuid
        + "</dc:identifier>\n<dc:language>"@ + lang
        + "</dc:language>\n<meta property=\"dcterms:modified\">"@ + modif_date
        + "</meta>\n<meta refines=\"#id\" property=\"title-type\">main</meta>\n<meta refines=\"#id\" property=\"file-as\">"@
        + title
        + "</meta>\n<meta name=\"cover\" content=\"cover\"/>\n<meta property=\"rendition:orientation\">portrait</meta>\n<meta property=\"rendition:spread\">portrait</meta>\n<meta property=\"rendition:layout\">pre-paginated</meta>\n<meta refines=\"#id-1\" property=\"role\" scheme=\"marc:relators\">aut</meta>\n<meta refines=\"#id-1\" property=\"file-as\">"@
        + creator + "</meta>\n</metadata>\n<manifest>\n"@ + manifest
        + "</manifest>\n<spine page-progression-direction=\"rtl\" toc=\"ncx\">\n"@ + spine
        + "</spine>\n</package>"@
}

/// Renders the package document of a Kobo book.
pub fn generate_package(
    title: &str,
    creator: &str,
    uuid: &str,
    uuid2: &str,
    lang: &str,
    manifest: &str,
    spine: &str,
    modif_date: &str,
) -> (res: String)
    ensures
        res@ == kobo_package_document(title@, creator@, uuid@, uuid2@, lang@, manifest@, spine@, modif_date@),
{
    let mut out = String::new();
    out.append("<?xml version='1.0' encoding='utf-8'?>\n<package xmlns=\"http://www.idpf.org/2007/opf\" version=\"3.0\" unique-identifier=\"BookID\">\n<metadata xmlns:opf=\"http://www.idpf.org/2007/opf\" xmlns:dc=\"http://purl.org/dc/elements/1.1/\">\n<dc:title id=\"id\">");
    out.append(title);
    out.append("</dc:title>\n<dc:creator id=\"id-1\">");
    out.append(creator);
    out.append("</dc:creator>\n<dc:identifier>uuid:");
    out.append(uuid2);
    out.append("</dc:identifier>\n<dc:identifier id=\"BookID\">urn:uuid:");
    out.append(uuid);
    out.append("</dc:identifier>\n<dc:language>");
    out.append(lang);
    out.append("</dc:language>\n<meta property=\"dcterms:modified\">");
    out.append(modif_date);
    out.append("</meta>\n<meta refines=\"#id\" property=\"title-type\">main</meta>\n<meta refines=\"#id\" property=\"file-as\">");
    out.append(title);
    out.append("</meta>\n<meta name=\"cover\" content=\"cover\"/>\n<meta property=\"rendition:orientation\">portrait</meta>\n<meta property=\"rendition:spread\">portrait</meta>\n<meta property=\"rendition:layout\">pre-paginated</meta>\n<meta refines=\"#id-1\" property=\"role\" scheme=\"marc:relators\">aut</meta>\n<meta refines=\"#id-1\" property=\"file-as\">");
    out.append(creator);
    out.append("</meta>\n</metadata>\n<manifest>\n");
    out.append(manifest);
    out.append("</manifest>\n<spine page-progression-direction=\"rtl\" toc=\"ncx\">\n");
    out.append(spine);
    out.append("</spine>\n</package>");
    out
}

} // verus!
