//! The XHTML document that shows one page image.

use vstd::prelude::*;
use crate::decimal::{decimal, push_decimal};

verus! {

/// The XHTML page that shows the image `name` of volume `vol_str`, with a
/// viewport and an image box of `w` by `h` pixels.
pub open spec fn page_document(name: Seq<char>, w: nat, h: nat, tag: Seq<char>, vol_str: Seq<char>) -> Seq<char> {
    "<?xml version='1.0' encoding='utf-8'?>\n<html xmlns=\"http://www.w3.org/1999/xhtml\" xmlns:epub=\"http://www.idpf.org/2007/ops\">\n  <head>\n    <title>"@
        + name
        + "</title>\n    <link href=\"../../style.css\" type=\"text/css\" rel=\"stylesheet\"/>\n    <meta name=\"viewport\" content=\"width="@
        + decimal(w) + ", height="@ + decimal(h)
        + "\"/>\n    <meta http-equiv=\"Content-Type\" content=\"text/html; charset=utf-8\"/>\n    <link rel=\"stylesheet\" href=\"../../../../kte-css/stylehacks.css\"/>\n  </head>\n  <body style=\"background-color:#000000;\"><div style=\"text-align:center;top:0.0%;\"><span>\n    <img width=\""@
        + decimal(w) + "\" height=\""@ + decimal(h) + "\" src=\"../../../Images/"@
        + tag + "/"@ + vol_str + "/"@ + name + ".jpg\"/>\n  </span></div></body></html>"@
}

/// Renders the XHTML page of one image.
pub fn generate(name: &str, w: u32, h: u32, tag: &str, vol_str: &str) -> (res: String)
    ensures
        res@ == page_document(name@, w as nat, h as nat, tag@, vol_str@),
{
    let mut out = String::new();
    out.append("<?xml version='1.0' encoding='utf-8'?>\n<html xmlns=\"http://www.w3.org/1999/xhtml\" xmlns:epub=\"http://www.idpf.org/2007/ops\">\n  <head>\n    <title>");
    out.append(name);
    out.append("</title>\n    <link href=\"../../style.css\" type=\"text/css\" rel=\"stylesheet\"/>\n    <meta name=\"viewport\" content=\"width=");
    push_decimal(&mut out, w as u64);
    out.append(", height=");
    push_decimal(&mut out, h as u64);
    out.append("\"/>\n    <meta http-equiv=\"Content-Type\" content=\"text/html; charset=utf-8\"/>\n    <link rel=\"stylesheet\" href=\"../../../../kte-css/stylehacks.css\"/>\n  </head>\n  <body style=\"background-color:#000000;\"><div style=\"text-align:center;top:0.0%;\"><span>\n    <img width=\"");
    push_decimal(&mut out, w as u64);
    out.append("\" height=\"");
    push_decimal(&mut out, h as u64);
    out.append("\" src=\"../../../Images/");
    out.append(tag);
    out.append("/");
    out.append(vol_str);
    out.append("/");
    out.append(name);
    out.append(".jpg\"/>\n  </span></div></body></html>");
    out
}

} // verus!
