//! `nav.xhtml`: the EPUB 3 navigation document.

use vstd::prelude::*;
use crate::decimal::{decimal, padded_decimal, push_decimal, push_padded_decimal};

verus! {

/// The list item that links volume `vol_num` to its first page.
pub open spec fn nav_entry(tag: Seq<char>, vol_num: nat) -> Seq<char> {
    "<li><a href=\"Text/"@ + tag + "/volume-"@ + padded_decimal(vol_num, 4)
        + "/kcc-0000-kcc.xhtml\"><span>Volume "@ + decimal(vol_num) + "</span></a></li>\n"@
}

/// Renders the navigation list item of volume `vol_num`.
pub fn generate_entry(tag: &str, vol_num: usize) -> (res: String)
    ensures
        res@ == nav_entry(tag@, vol_num as nat),
{
    let mut out = String::new();
    out.append("<li><a href=\"Text/");
    out.append(tag);
    out.append("/volume-");
    push_padded_decimal(&mut out, vol_num as u64, 4);
    out.append("/kcc-0000-kcc.xhtml\"><span>Volume ");
    push_decimal(&mut out, vol_num as u64);
    out.append("</span></a></li>\n");
    out
}

/// The navigation document with the given table of contents and page list items.
pub open spec fn nav_document(title: Seq<char>, nav_toc: Seq<char>, nav_pagelist: Seq<char>) -> Seq<char> {
    "<?xml version='1.0' encoding='utf-8'?>\n<html xmlns=\"http://www.w3.org/1999/xhtml\" xmlns:epub=\"http://www.idpf.org/2007/ops\">\n<head><title>"@
        + title
        + "</title>\n<meta http-equiv=\"Content-Type\" content=\"text/html; charset=utf-8\"/>\n<link rel=\"stylesheet\" href=\"../kte-css/stylehacks.css\"/>\n</head>\n<body><div id=\"book-columns\"><div id=\"book-inner\">\n<nav epub:type=\"toc\" id=\"toc\"><ol>"@
        + nav_toc + "</ol></nav>\n<nav epub:type=\"page-list\"><ol>"@ + nav_pagelist
        + "</ol></nav>\n</div></div></body>\n</html>"@
}

/// Renders the navigation document.
pub fn generate(title: &str, nav_toc: &str, nav_pagelist: &str) -> (res: String)
    ensures
        res@ == nav_document(title@, nav_toc@, nav_pagelist@),
{
    let mut out = String::new();
    out.append("<?xml version='1.0' encoding='utf-8'?>\n<html xmlns=\"http://www.w3.org/1999/xhtml\" xmlns:epub=\"http://www.idpf.org/2007/ops\">\n<head><title>");
    out.append(title);
    out.append("</title>\n<meta http-equiv=\"Content-Type\" content=\"text/html; charset=utf-8\"/>\n<link rel=\"stylesheet\" href=\"../kte-css/stylehacks.css\"/>\n</head>\n<body><div id=\"book-columns\"><div id=\"book-inner\">\n<nav epub:type=\"toc\" id=\"toc\"><ol>");
    out.append(nav_toc);
    out.append("</ol></nav>\n<nav epub:type=\"page-list\"><ol>");
    out.append(nav_pagelist);
    out.append("</ol></nav>\n</div></div></body>\n</html>");
    out
}

} // verus!
