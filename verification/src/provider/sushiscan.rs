//! SushiScan: catalogue pages, manga pages and chapter pages.

use vstd::prelude::*;
use crate::decimal::{decimal, push_decimal};
use crate::provider::base::{info_result_view, Chapter, MangaInfo, ProviderError};
use crate::provider::html::{
    attr_value, collect_present, element_attr, elements_view, document_selection, or_empty,
    present_values, parse_document, select, selector_accepted_from, strings_view, ElementView,
    HtmlElement,
};
use crate::text::{second_last_segment, second_last_segment_of};

verus! {

/// A SushiScan site, by its base URL.
pub struct SushiScan {
    url: String,
}

/// The page of manga `tag`.
pub open spec fn manga_page_url(base: Seq<char>, tag: Seq<char>) -> Seq<char> {
    base + "/catalogue/"@ + tag + "/"@
}

/// Page `page` of the catalogue.
pub open spec fn catalogue_page_url(base: Seq<char>, page: nat) -> Seq<char> {
    base + "/catalogue/"@ + "?page="@ + decimal(page)
}

/// The page that lists the chapters of manga `tag`.
pub open spec fn chapter_list_url(base: Seq<char>, tag: Seq<char>) -> Seq<char> {
    base + "/catalogue/"@ + tag
}

/// The manga `tag` as its page describes it, from the elements selected there:
/// the title is the inner HTML of the first `.entry-title`; the chapter count
/// is the number of child elements of the first `#chapterlist>ul` (0 when
/// there is none); the cover is the `src` of the first `.seriestucontl img`
/// (empty when it has none). A page without title or without cover image
/// describes no manga.
pub open spec fn manga_info_of(
    tag: Seq<char>,
    titles: Seq<ElementView>,
    chapter_lists: Seq<ElementView>,
    covers: Seq<ElementView>,
) -> Result<(Seq<char>, Seq<char>, Seq<char>, nat), ProviderError> {
    if titles.len() == 0 {
        Err(ProviderError::TitleNotFound)
    } else if covers.len() == 0 {
        Err(ProviderError::CoverNotFound)
    } else {
        let count = if chapter_lists.len() > 0 { chapter_lists[0].2 } else { 0 };
        Ok((tag, titles[0].0, or_empty(attr_value(covers[0], 0)), count))
    }
}

/// The manga tags that the catalogue links name: of each link's `href` (empty
/// when it has none), the segment before its last `/`.
pub open spec fn catalogue_tags_of(links: Seq<ElementView>) -> Seq<Seq<char>> {
    links.map_values(|l: ElementView| second_last_segment(or_empty(attr_value(l, 0))))
}

impl SushiScan {
    /// The base URL of the site.
    pub closed spec fn base_url(&self) -> Seq<char> {
        self.url@
    }

    /// The site at `url`.
    pub fn new(url: &str) -> (site: SushiScan)
        ensures
            site.base_url() == url@,
    {
        SushiScan { url: String::from_str(url) }
    }

    /// The URL of the page of manga `tag`.
    pub fn manga_info_url(&self, tag: &str) -> (res: String)
        ensures
            res@ == manga_page_url(self.base_url(), tag@),
    {
        let mut out = String::from_str(self.url.as_str());
        out.append("/catalogue/");
        out.append(tag);
        out.append("/");
        out
    }

    /// The URL of page `page` of the catalogue.
    pub fn catalogue_page_url(&self, page: usize) -> (res: String)
        ensures
            res@ == catalogue_page_url(self.base_url(), page as nat),
    {
        let mut out = String::from_str(self.url.as_str());
        out.append("/catalogue/");
        out.append("?page=");
        push_decimal(&mut out, page as u64);
        out
    }

    /// The URL of the page that lists the chapters of manga `tag`.
    pub fn chapters_url(&self, tag: &str) -> (res: String)
        ensures
            res@ == chapter_list_url(self.base_url(), tag@),
    {
        let mut out = String::from_str(self.url.as_str());
        out.append("/catalogue/");
        out.append(tag);
        out
    }
}

/// Reads the description of manga `tag` from the elements selected on its page.
pub fn manga_info_from(
    tag: &str,
    titles: &Vec<HtmlElement>,
    chapter_lists: &Vec<HtmlElement>,
    covers: &Vec<HtmlElement>,
) -> (res: Result<MangaInfo, ProviderError>)
    ensures
        info_result_view(res) == manga_info_of(
            tag@,
            elements_view(titles@),
            elements_view(chapter_lists@),
            elements_view(covers@),
        ),
{
    if titles.len() == 0 {
        return Err(ProviderError::TitleNotFound);
    }
    let name = String::from_str(titles[0].inner_html.as_str());
    let chapter_count = if chapter_lists.len() > 0 { chapter_lists[0].child_elements } else { 0 };
    if covers.len() == 0 {
        return Err(ProviderError::CoverNotFound);
    }
    let cover_url = match element_attr(&covers[0], 0) {
        Some(src) => String::from_str(src),
        None => String::new(),
    };
    Ok(MangaInfo { tag: String::from_str(tag), name, cover_url, chapter_count })
}

/// Reads the description of manga `tag` from the HTML of its page.
pub fn parse_manga_info(tag: &str, body: &str) -> (res: Result<MangaInfo, ProviderError>)
    ensures
        document_selection(body@, ".entry-title"@, seq![]) is Some,
        document_selection(body@, "#chapterlist>ul"@, seq![]) is Some,
        document_selection(body@, ".seriestucontl img"@, seq!["src"@]) is Some,
        info_result_view(res) == match (
            document_selection(body@, ".entry-title"@, seq![]),
            document_selection(body@, "#chapterlist>ul"@, seq![]),
            document_selection(body@, ".seriestucontl img"@, seq!["src"@]),
        ) {
            (Some(titles), Some(lists), Some(covers)) => manga_info_of(tag@, titles, lists, covers),
            _ => Err(ProviderError::InvalidSelector),
        },
{
    let no_attributes: [&str; 0] = [];
    let src: [&str; 1] = ["src"];
    let document = parse_document(body);
    proof {
        reveal_strlit(".entry-title");
        reveal_strlit("#chapterlist>ul");
        reveal_strlit(".seriestucontl img");
        reveal_with_fuel(selector_accepted_from, 19);
    }
    let titles = select(&document, ".entry-title", &no_attributes);
    let chapter_lists = select(&document, "#chapterlist>ul", &no_attributes);
    let covers = select(&document, ".seriestucontl img", &src);
    assert(no_attributes@.map_values(|n: &str| n@) =~= seq![]);
    assert(src@.map_values(|n: &str| n@) =~= seq!["src"@]);
    match (titles, chapter_lists, covers) {
        (Some(titles), Some(chapter_lists), Some(covers)) => manga_info_from(tag, &titles, &chapter_lists, &covers),
        _ => Err(ProviderError::InvalidSelector),
    }
}

/// Reads the manga tags named by the links selected on a catalogue page.
pub fn catalogue_tags_from(links: &Vec<HtmlElement>) -> (tags: Vec<String>)
    ensures
        strings_view(tags@) == catalogue_tags_of(elements_view(links@)),
{
    let mut tags: Vec<String> = Vec::new();
    let mut i: usize = 0;
    while i < links.len()
        invariant
            i <= links.len(),
            strings_view(tags@) == catalogue_tags_of(elements_view(links@.take(i as int))),
        decreases links.len() - i,
    {
        let href = match element_attr(&links[i], 0) {
            Some(href) => href,
            None => {
                proof { reveal_strlit(""); }
                ""
            },
        };
        assert(href@ == or_empty(attr_value(links@[i as int]@, 0)));
        let tag = second_last_segment_of(href);
        tags.push(String::from_str(tag));
        proof {
            assert(elements_view(links@.take(i + 1)) =~= elements_view(links@.take(i as int)).push(links@[i as int]@));
            assert(catalogue_tags_of(elements_view(links@.take(i + 1))) =~= catalogue_tags_of(
                elements_view(links@.take(i as int)),
            ).push(second_last_segment(or_empty(attr_value(links@[i as int]@, 0)))));
            assert(strings_view(tags@) =~= catalogue_tags_of(elements_view(links@.take(i + 1))));
        }
        i = i + 1;
    }
    assert(links@.take(links.len() as int) =~= links@);
    tags
}

/// Reads the manga tags listed on a catalogue page (`.listupd>div>div>a` links).
/// An empty list marks the end of the catalogue.
pub fn parse_catalogue_page(body: &str) -> (res: Result<Vec<String>, ProviderError>)
    ensures
        document_selection(body@, ".listupd>div>div>a"@, seq!["href"@]) is Some,
        match document_selection(body@, ".listupd>div>div>a"@, seq!["href"@]) {
            Some(links) => res matches Ok(tags) && strings_view(tags@) == catalogue_tags_of(links),
            None => res == Err::<Vec<String>, ProviderError>(ProviderError::InvalidSelector),
        },
{
    let href: [&str; 1] = ["href"];
    let document = parse_document(body);
    proof {
        reveal_strlit(".listupd>div>div>a");
        reveal_with_fuel(selector_accepted_from, 19);
    }
    let links = select(&document, ".listupd>div>div>a", &href);
    assert(href@.map_values(|n: &str| n@) =~= seq!["href"@]);
    match links {
        Some(links) => Ok(catalogue_tags_from(&links)),
        None => Err(ProviderError::InvalidSelector),
    }
}

/// Reads the chapter URLs of a manga, in the order of its chapter list
/// (`#chapterlist ul li a` links that have an `href`).
pub fn parse_chapter_urls(body: &str) -> (res: Result<Vec<String>, ProviderError>)
    ensures
        document_selection(body@, "#chapterlist ul li a"@, seq!["href"@]) is Some,
        match document_selection(body@, "#chapterlist ul li a"@, seq!["href"@]) {
            Some(links) => res matches Ok(urls) && strings_view(urls@) == present_values(links, 0),
            None => res == Err::<Vec<String>, ProviderError>(ProviderError::InvalidSelector),
        },
{
    let href: [&str; 1] = ["href"];
    let document = parse_document(body);
    proof {
        reveal_strlit("#chapterlist ul li a");
        reveal_with_fuel(selector_accepted_from, 21);
    }
    let links = select(&document, "#chapterlist ul li a", &href);
    assert(href@.map_values(|n: &str| n@) =~= seq!["href"@]);
    match links {
        Some(links) => Ok(collect_present(&links, 0)),
        None => Err(ProviderError::InvalidSelector),
    }
}

/// Reads chapter `number` from the HTML of its reader page: the `src` of each
/// `#readerarea>p>img` that has one, in order.
pub fn parse_chapter(body: &str, number: usize) -> (res: Result<Chapter, ProviderError>)
    ensures
        document_selection(body@, "#readerarea>p>img"@, seq!["src"@]) is Some,
        match document_selection(body@, "#readerarea>p>img"@, seq!["src"@]) {
            Some(images) => res matches Ok(chapter) && chapter@ == (present_values(images, 0), number as nat),
            None => res is Err && res->Err_0 == ProviderError::InvalidSelector,
        },
{
    let src: [&str; 1] = ["src"];
    let document = parse_document(body);
    proof {
        reveal_strlit("#readerarea>p>img");
        reveal_with_fuel(selector_accepted_from, 18);
    }
    let images = select(&document, "#readerarea>p>img", &src);
    assert(src@.map_values(|n: &str| n@) =~= seq!["src"@]);
    match images {
        Some(images) => {
            let pages = collect_present(&images, 0);
            let chapter = Chapter { pages, chapter_number: number };
            assert(chapter@.0 =~= strings_view(chapter.pages@));
            Ok(chapter)
        },
        None => Err(ProviderError::InvalidSelector),
    }
}

/// The walk through the catalogue pages of a site, from page 1 until a page
/// lists no manga, collecting the tags of every page in order.
pub struct CatalogueWalk {
    tags: Vec<String>,
    page: usize,
    finished: bool,
}

impl CatalogueWalk {
    /// The tags collected so far.
    pub closed spec fn collected(&self) -> Seq<Seq<char>> {
        strings_view(self.tags@)
    }

    /// The catalogue page to fetch next.
    pub closed spec fn next_page(&self) -> nat {
        self.page as nat
    }

    /// Whether a page without manga has been met.
    pub closed spec fn is_finished(&self) -> bool {
        self.finished
    }

    /// A walk that starts at page 1.
    pub fn new() -> (walk: CatalogueWalk)
        ensures
            walk.collected() == Seq::<Seq<char>>::empty(),
            walk.next_page() == 1,
            !walk.is_finished(),
    {
        let walk = CatalogueWalk { tags: Vec::new(), page: 1, finished: false };
        assert(walk.collected() =~= Seq::<Seq<char>>::empty());
        walk
    }

    /// The URL of the next catalogue page of `site`, or `None` once the walk is over.
    pub fn next_url(&self, site: &SushiScan) -> (res: Option<String>)
        ensures
            match res {
                Some(url) => !self.is_finished() && url@ == catalogue_page_url(site.base_url(), self.next_page()),
                None => self.is_finished(),
            },
    {
        if self.finished {
            None
        } else {
            Some(site.catalogue_page_url(self.page))
        }
    }

    /// Takes in the tags read from the current page: an empty page ends the
    /// walk; otherwise its tags are appended and the walk moves to the next page.
    pub fn absorb(&mut self, page_tags: Vec<String>)
        requires
            !old(self).is_finished(),
            old(self).next_page() < usize::MAX,
        ensures
            page_tags@.len() == 0 ==> {
                &&& final(self).is_finished()
                &&& final(self).collected() == old(self).collected()
                &&& final(self).next_page() == old(self).next_page()
            },
            page_tags@.len() > 0 ==> {
                &&& !final(self).is_finished()
                &&& final(self).collected() == old(self).collected() + strings_view(page_tags@)
                &&& final(self).next_page() == old(self).next_page() + 1
            },
    {
        if page_tags.len() == 0 {
            self.finished = true;
        } else {
            let mut page_tags = page_tags;
            let ghost added = strings_view(page_tags@);
            self.tags.append(&mut page_tags);
            assert(strings_view(self.tags@) =~= strings_view(old(self).tags@) + added);
            self.page = self.page + 1;
        }
    }

    /// The page to fetch next.
    pub fn next_page_number(&self) -> (page: usize)
        ensures
            page == self.next_page(),
    {
        self.page
    }

    /// The collected tags, once the walk is over.
    pub fn into_tags(self) -> (tags: Vec<String>)
        ensures
            strings_view(tags@) == self.collected(),
    {
        self.tags
    }
}

} // verus!
