//! What the library knows of a manga and of its chapters.

use vstd::prelude::*;

verus! {

/// A manga of a site's catalogue.
pub struct MangaInfo {
    /// The identifier of the manga in the site's URLs.
    pub tag: String,
    pub name: String,
    pub cover_url: String,
    pub chapter_count: usize,
}

/// The page images of one chapter, by URL and in reading order.
#[derive(Clone)]
pub struct Chapter {
    pub pages: Vec<String>,
    /// The position of the chapter in the site's chapter list, from 0.
    pub chapter_number: usize,
}

impl View for MangaInfo {
    type V = (Seq<char>, Seq<char>, Seq<char>, nat);

    /// (tag, name, cover URL, chapter count).
    open spec fn view(&self) -> Self::V {
        (self.tag@, self.name@, self.cover_url@, self.chapter_count as nat)
    }
}

impl View for Chapter {
    type V = (Seq<Seq<char>>, nat);

    /// (page URLs, chapter number).
    open spec fn view(&self) -> Self::V {
        (self.pages@.map_values(|s: String| s@), self.chapter_number as nat)
    }
}

/// Why the data of a manga could not be read from a page of its site.
#[derive(Debug, PartialEq, Eq, Structural, Clone, Copy)]
pub enum ProviderError {
    /// The page holds no title for the manga.
    TitleNotFound,
    /// The page holds no cover image for the manga.
    CoverNotFound,
    /// A CSS selector of the library could not be parsed.
    InvalidSelector,
}

/// The view of the outcome of reading a manga description.
pub open spec fn info_result_view(r: Result<MangaInfo, ProviderError>) -> Result<(Seq<char>, Seq<char>, Seq<char>, nat), ProviderError> {
    match r {
        Ok(m) => Ok(m@),
        Err(e) => Err(e),
    }
}

/// Read access to the description of a manga.
pub trait TMangaInfo: Send + Sync {
    fn tag(&self) -> &str;

    fn name(&self) -> &str;

    fn cover_url(&self) -> &str;
}

impl TMangaInfo for MangaInfo {
    fn tag(&self) -> (res: &str)
        ensures
            res@ == self.tag@,
    {
        self.tag.as_str()
    }

    fn name(&self) -> (res: &str)
        ensures
            res@ == self.name@,
    {
        self.name.as_str()
    }

    fn cover_url(&self) -> (res: &str)
        ensures
            res@ == self.cover_url@,
    {
        self.cover_url.as_str()
    }
}

} // verus!
