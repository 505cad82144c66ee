//! `content.opf`: the package document (metadata, manifest and spine).

use vstd::prelude::*;

verus! {

/// The manifest item that declares the XHTML page `name` of volume `vol_str`.
pub open spec fn manifest_entry(xhtml_id: Seq<char>, tag: Seq<char>, vol_str: Seq<char>, name: Seq<char>) -> Seq<char> {
    "<item id=\""@ + xhtml_id + "\" href=\"Text/"@ + tag + "/"@ + vol_str + "/"@ + name
        + ".xhtml\" media-type=\"application/xhtml+xml\"/>\n"@
}

/// Renders the manifest item of one page.
pub fn generate_manifest_entry(xhtml_id: &str, tag: &str, vol_str: &str, name: &str) -> (res: String)
    ensures
        res@ == manifest_entry(xhtml_id@, tag@, vol_str@, name@),
{
    let mut out = String::new();
    out.append("<item id=\"");
    out.append(xhtml_id);
    out.append("\" href=\"Text/");
    out.append(tag);
    out.append("/");
    out.append(vol_str);
    out.append("/");
    out.append(name);
    out.append(".xhtml\" media-type=\"application/xhtml+xml\"/>\n");
    out
}

/// The fixed tail of the manifest: the navigation document, the NCX table of
/// contents, the style sheets and the cover image.
pub open spec fn manifest_footer() -> Seq<char> {
    "\n<item id=\"nav\" href=\"nav.xhtml\" properties=\"nav\" media-type=\"application/xhtml+xml\"/>\n<item id=\"ncx\" href=\"toc.ncx\" media-type=\"application/x-dtbncx+xml\"/>\n<item id=\"css\" href=\"Text/style.css\" media-type=\"text/css\"/>\n<item id=\"cover\" href=\"Images/cover.jpg\" media-type=\"image/jpeg\" properties=\"cover-image\"/>\n<item id=\"id1\" href=\"../kte-css/stylehacks.css\" media-type=\"text/css\"/>"@
}

/// Returns the fixed tail of the manifest.
pub fn generate_manifest_footer() -> (res: &'static str)
    ensures
        res@ == manifest_footer(),
{
    "\n<item id=\"nav\" href=\"nav.xhtml\" properties=\"nav\" media-type=\"application/xhtml+xml\"/>\n<item id=\"ncx\" href=\"toc.ncx\" media-type=\"application/x-dtbncx+xml\"/>\n<item id=\"css\" href=\"Text/style.css\" media-type=\"text/css\"/>\n<item id=\"cover\" href=\"Images/cover.jpg\" media-type=\"image/jpeg\" properties=\"cover-image\"/>\n<item id=\"id1\" href=\"../kte-css/stylehacks.css\" media-type=\"text/css\"/>"
}

/// How a page is placed in a synthetic spread.
pub enum SpineSpread {
    Left,
    Right,
    Center,
}

/// The `properties` value of a spine item placed as `spread`.
pub open spec fn spread_property(spread: SpineSpread) -> Seq<char> {
    match spread {
        SpineSpread::Left => "page-spread-left"@,
        SpineSpread::Right => "page-spread-right"@,
        SpineSpread::Center => "rendition:page-spread-center"@,
    }
}

impl SpineSpread {
    /// The `properties` value of a spine item placed this way.
    pub fn as_property(&self) -> (res: &'static str)
        ensures
            res@ == spread_property(*self),
    {
        match self {
            SpineSpread::Left => "page-spread-left",
            SpineSpread::Right => "page-spread-right",
            SpineSpread::Center => "rendition:page-spread-center",
        }
    }
}

/// The spine item that refers to the manifest item `xhtml_id`, with its spread placement if any.
pub open spec fn spine_entry(xhtml_id: Seq<char>, spread: Option<SpineSpread>) -> Seq<char> {
    match spread {
        Some(spread) => "<itemref idref=\""@ + xhtml_id + "\" properties=\""@ + spread_property(spread) + "\"/>\n"@,
        None => "<itemref idref=\""@ + xhtml_id + "\"/>\n"@,
    }
}

/// Renders the spine item that refers to the manifest item `xhtml_id`.
pub fn generate_spine_entry(xhtml_id: &str, spread: Option<SpineSpread>) -> (res: String)
    ensures
        res@ == spine_entry(xhtml_id@, spread),
{
    match spread {
        Some(spread) => {
            let mut out = String::new();
            out.append("<itemref idref=\"");
            out.append(xhtml_id);
            out.append("\" properties=\"");
            out.append(spread.as_property());
            out.append("\"/>\n");
            out
        },
        None => {
            let mut out = String::new();
            out.append("<itemref idref=\"");
            out.append(xhtml_id);
            out.append("\"/>\n");
            out
        },
    }
}

/// The package document of the book.
pub open spec fn package_document(
    title: Seq<char>,
    creator: Seq<char>,
    uuid: Seq<char>,
    uuid2: Seq<char>,
    lang: Seq<char>,
    manifest: Seq<char>,
    spine: Seq<char>,
    modif_date: Seq<char>,
) -> Seq<char> {
    "<?xml version='1.0' encoding='utf-8'?>\n<package xmlns=\"http://www.idpf.org/2007/opf\" version=\"3.0\" unique-identifier=\"BookID\">\n<metadata xmlns:opf=\"http://www.idpf.org/2007/opf\" xmlns:dc=\"http://purl.org/dc/elements/1.1/\">\n<dc:title id=\"id\">"@
        + title + "</dc:title>\n<dc:creator id=\"id-1\">"@ + creator
        + "</dc:creator>\n<dc:identifier>uuid:"@ + uuid2
        + "</dc:identifier>\n<dc:identifier id=\"BookID\">urn:uuid:"@ + uuid
        + "</dc:identifier>\n<dc:language>"@ + lang
        + "</dc:language>\n<meta property=\"dcterms:modified\">"@ + modif_date
        + "</meta>\n<meta refines=\"#id\" property=\"title-type\">main</meta>\n<meta refines=\"#id\" property=\"file-as\">"@
        + title
        + "</meta>\n<meta name=\"cover\" content=\"cover\"/>\n<meta property=\"rendition:orientation\">portrait</meta>\n<meta property=\"rendition:spread\">landscape</meta>\n<meta property=\"rendition:layout\">pre-paginated</meta>\n<meta refines=\"#id-1\" property=\"role\" scheme=\"marc:relators\">aut</meta>\n<meta refines=\"#id-1\" property=\"file-as\">"@
        + creator + "</meta>\n</metadata>\n<manifest>\n"@ + manifest
        + "</manifest>\n<spine page-progression-direction=\"rtl\" toc=\"ncx\">\n"@ + spine
        + "</spine>\n</package>"@
}

/// Renders the package document: the book's metadata (title and creator, both
/// identifiers, language, modification date, fixed-layout right-to-left
/// rendition), then the given manifest items and spine items.
pub fn generate(
    title: &str,
    creator: &str,
    uuid: &str,
    uuid2: &str,
    lang: &str,
    manifest: &str,
    spine: &str,
    modif_date: &str,
) -> (res: String)
    ensures
        res@ == package_document(title@, creator@, uuid@, uuid2@, lang@, manifest@, spine@, modif_date@),
{
    let mut out = String::new();
    out.append("<?xml version='1.0' encoding='utf-8'?>\n<package xmlns=\"http://www.idpf.org/2007/opf\" version=\"3.0\" unique-identifier=\"BookID\">\n<metadata xmlns:opf=\"http://www.idpf.org/2007/opf\" xmlns:dc=\"http://purl.org/dc/elements/1.1/\">\n<dc:title id=\"id\">");
    out.append(title);
    out.append("</dc:title>\n<dc:creator id=\"id-1\">");
    out.append(creator);
    out.append("</dc:creator>\n<dc:identifier>uuid:");
    out.append(uuid2);
    out.append("</dc:identifier>\n<dc:identifier id=\"BookID\">urn:uuid:");
    out.append(uuid);
    out.append("</dc:identifier>\n<dc:language>");
    out.append(lang);
    out.append("</dc:language>\n<meta property=\"dcterms:modified\">");
    out.append(modif_date);
    out.append("</meta>\n<meta refines=\"#id\" property=\"title-type\">main</meta>\n<meta refines=\"#id\" property=\"file-as\">");
    out.append(title);
    out.append("</meta>\n<meta name=\"cover\" content=\"cover\"/>\n<meta property=\"rendition:orientation\">portrait</meta>\n<meta property=\"rendition:spread\">landscape</meta>\n<meta property=\"rendition:layout\">pre-paginated</meta>\n<meta refines=\"#id-1\" property=\"role\" scheme=\"marc:relators\">aut</meta>\n<meta refines=\"#id-1\" property=\"file-as\">");
    out.append(creator);
    out.append("</meta>\n</metadata>\n<manifest>\n");
    out.append(manifest);
    out.append("</manifest>\n<spine page-progression-direction=\"rtl\" toc=\"ncx\">\n");
    out.append(spine);
    out.append("</spine>\n</package>");
    out
}

} // verus!
