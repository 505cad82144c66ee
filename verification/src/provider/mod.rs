//! Catalogue data of the supported sites, and its extraction from their pages.

pub mod base;
pub mod html;
pub mod manga_origins;
pub mod sushiscan;

pub use base::{Chapter, MangaInfo, ProviderError, TMangaInfo};
