//! The text files of an EPUB package.

pub mod content_opf;
pub mod kobo;
pub mod nav;
pub mod page;
pub mod toc_ncx;
pub mod container;
pub mod style;
pub mod stylehacks;
