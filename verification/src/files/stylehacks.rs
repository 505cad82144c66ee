//! `kte-css/stylehacks.css`: removes the vertical margins of the book body.

use vstd::prelude::*;

verus! {

/// The style sheet that removes the top and bottom margins of `div#book-inner`.
pub open spec fn stylehacks_sheet() -> Seq<char> {
    "div#book-inner {\n\tmargin-top: 0;\n\tmargin-bottom: 0;\n}\n"@
}

/// Returns the margin style sheet.
pub fn generate() -> (res: &'static str)
    ensures
        res@ == stylehacks_sheet(),
{
    "div#book-inner {\n\tmargin-top: 0;\n\tmargin-bottom: 0;\n}\n"
}

} // verus!
