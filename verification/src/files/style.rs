//! `OEBPS/Text/style.css`: full-bleed pages without margins or padding.

use vstd::prelude::*;

verus! {

/// The page style sheet: no page margin, and a block body without margin or padding.
pub open spec fn page_style_sheet() -> Seq<char> {
    "@page {\nmargin: 0;\n}\nbody {\ndisplay: block;\nmargin: 0;\npadding: 0;\n}\n"@
}

/// Returns the page style sheet.
pub fn generate() -> (res: &'static str)
    ensures
        res@ == page_style_sheet(),
{
    "@page {\nmargin: 0;\n}\nbody {\ndisplay: block;\nmargin: 0;\npadding: 0;\n}\n"
}

} // verus!
