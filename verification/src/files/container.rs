//! `META-INF/container.xml`: points reading systems at the package document.

use vstd::prelude::*;

verus! {

/// The container document, whose single root file is `OEBPS/content.opf`.
pub open spec fn container_document() -> Seq<char> {
    "<?xml version=\"1.0\"?>\n<container version=\"1.0\" xmlns=\"urn:oasis:names:tc:opendocument:xmlns:container\">\n<rootfiles>\n<rootfile full-path=\"OEBPS/content.opf\" media-type=\"application/oebps-package+xml\"/>\n</rootfiles>\n</container>"@
}

/// Returns the container document.
pub fn generate() -> (res: &'static str)
    ensures
        res@ == container_document(),
{
    "<?xml version=\"1.0\"?>\n<container version=\"1.0\" xmlns=\"urn:oasis:names:tc:opendocument:xmlns:container\">\n<rootfiles>\n<rootfile full-path=\"OEBPS/content.opf\" media-type=\"application/oebps-package+xml\"/>\n</rootfiles>\n</container>"
}

} // verus!
