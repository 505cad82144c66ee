//! Building manga e-books: the text files of an EPUB package, the naming of
//! archive entries, the page layout of scanned pages and the extraction of
//! catalogue data from the pages of the supported scanlation sites.

pub mod cbz;
pub mod decimal;
pub mod epub;
pub mod files;
pub mod kobo;
pub mod links;
pub mod pages;
pub mod provider;
pub mod retry;
pub mod text;
