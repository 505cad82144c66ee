//! `toc.ncx`: the EPUB 2 table of contents.

use vstd::prelude::*;
use crate::decimal::{decimal, padded_decimal, push_decimal, push_padded_decimal};

verus! {

/// The navigation point of volume `vol_num`, played in volume order.
pub open spec fn toc_entry(tag: Seq<char>, vol_num: nat) -> Seq<char> {
    "<navPoint id=\"Text_"@ + tag + "_volume-"@ + padded_decimal(vol_num, 4)
        + "\" playOrder=\""@ + decimal(vol_num) + "\"><navLabel><text>Volume "@
        + decimal(vol_num) + "</text></navLabel><content src=\"Text/"@ + tag + "/volume-"@
        + padded_decimal(vol_num, 4) + "/kcc-0000-kcc.xhtml\"/></navPoint>\n"@
}

/// Renders the navigation point of volume `vol_num`.
pub fn generate_entry(tag: &str, vol_num: usize) -> (res: String)
    ensures
        res@ == toc_entry(tag@, vol_num as nat),
{
    let mut out = String::new();
    out.append("<navPoint id=\"Text_");
    out.append(tag);
    out.append("_volume-");
    push_padded_decimal(&mut out, vol_num as u64, 4);
    out.append("\" playOrder=\"");
    push_decimal(&mut out, vol_num as u64);
    out.append("\"><navLabel><text>Volume ");
    push_decimal(&mut out, vol_num as u64);
    out.append("</text></navLabel><content src=\"Text/");
    out.append(tag);
    out.append("/volume-");
    push_padded_decimal(&mut out, vol_num as u64, 4);
    out.append("/kcc-0000-kcc.xhtml\"/></navPoint>\n");
    out
}

/// The NCX document with the given navigation points.
pub open spec fn ncx_document(uuid: Seq<char>, title: Seq<char>, toc: Seq<char>) -> Seq<char> {
    "<?xml version=\"1.0\" encoding=\"UTF-8\"?>\n<ncx version=\"2005-1\" xml:lang=\"en-US\" xmlns=\"http://www.daisy.org/z3986/2005/ncx/\">\n<head>\n<meta name=\"dtb:uid\" content=\"urn:uuid:"@
        + uuid
        + "\"/>\n<meta name=\"dtb:depth\" content=\"1\"/>\n<meta name=\"dtb:totalPageCount\" content=\"0\"/>\n<meta name=\"dtb:maxPageNumber\" content=\"0\"/>\n<meta name=\"generated\" content=\"true\"/>\n</head>\n<docTitle><text>"@
        + title + "</text></docTitle>\n<navMap>\n"@ + toc + "</navMap>\n</ncx>"@
}

/// Renders the NCX document.
pub fn generate(uuid: &str, title: &str, toc: &str) -> (res: String)
    ensures
        res@ == ncx_document(uuid@, title@, toc@),
{
    let mut out = String::new();
    out.append("<?xml version=\"1.0\" encoding=\"UTF-8\"?>\n<ncx version=\"2005-1\" xml:lang=\"en-US\" xmlns=\"http://www.daisy.org/z3986/2005/ncx/\">\n<head>\n<meta name=\"dtb:uid\" content=\"urn:uuid:");
    out.append(uuid);
    out.append("\"/>\n<meta name=\"dtb:depth\" content=\"1\"/>\n<meta name=\"dtb:totalPageCount\" content=\"0\"/>\n<meta name=\"dtb:maxPageNumber\" content=\"0\"/>\n<meta name=\"generated\" content=\"true\"/>\n</head>\n<docTitle><text>");
    out.append(title);
    out.append("</text></docTitle>\n<navMap>\n");
    out.append(toc);
    out.append("</navMap>\n</ncx>");
    out
}

} // verus!
