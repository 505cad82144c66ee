//! MangaOrigins: the catalogue (its first page and the pages loaded through
//! the site's AJAX endpoint), manga pages and chapter pages.

use vstd::prelude::*;
use crate::decimal::{decimal, push_decimal};
use crate::provider::base::{info_result_view, Chapter, MangaInfo, ProviderError};
use crate::provider::html::{
    attr_value, collect_present, document_selection, element_attr, elements_view, fragment_selection,
    or_empty, present_values, parse_document, parse_fragment, select, selector_accepted_from,
    strings_view, ElementView, HtmlElement,
};
use crate::text::{after_last, is_blank, last_segment, trim, trim_end_char, trim_end_matches_char, trimmed};

verus! {

/// A MangaOrigins site, by its base URL.
pub struct MangaOrigins {
    url: String,
}

/// The page of manga `tag`, which also lists its chapters.
pub open spec fn manga_page_url(base: Seq<char>, tag: Seq<char>) -> Seq<char> {
    base + "/oeuvre/"@ + tag + "/"@
}

/// The first page of the catalogue.
pub open spec fn catalogue_url(base: Seq<char>) -> Seq<char> {
    base + "/catalogues/"@
}

/// The AJAX endpoint that serves the further catalogue pages.
pub open spec fn ajax_url(base: Seq<char>) -> Seq<char> {
    base + "/wp-admin/admin-ajax.php"@
}

/// The form body that asks the AJAX endpoint for catalogue page `page`: the
/// `madara_load_more` action over the archive of published manga, latest
/// update first, as `key=value` pairs joined by `&` (not URL-encoded).
pub open spec fn ajax_form(page: nat) -> Seq<char> {
    "action=madara_load_more&page="@ + decimal(page)
        + "&template=madara-core/content/content-archive&vars[paged]=1&vars[orderby]=meta_value_num&vars[template]=archive&vars[sidebar]=full&vars[post_type]=wp-manga&vars[post_status]=publish&vars[meta_key]=_latest_update&vars[order]=desc&vars[meta_query][relation]=AND&vars[manga_archives_item_layout]=big_thumbnail&vars[manga_archives_item_columns]=0"@
}

/// The tag that a catalogue link names: the last segment of its `href`
/// (empty when it has none) once trailing slashes are removed.
pub open spec fn link_tag(link: ElementView) -> Seq<char> {
    after_last(trim_end_char(or_empty(attr_value(link, 0)), '/'), '/')
}

/// `tags` extended, link by link, with each link's tag that is not empty and not yet listed.
pub open spec fn add_tags(tags: Seq<Seq<char>>, links: Seq<ElementView>) -> Seq<Seq<char>>
    decreases links.len(),
{
    if links.len() == 0 {
        tags
    } else {
        let before = add_tags(tags, links.drop_last());
        let tag = link_tag(links.last());
        if tag.len() > 0 && !before.contains(tag) {
            before.push(tag)
        } else {
            before
        }
    }
}

/// Whether the tags are all non-empty and pairwise different.
pub open spec fn distinct_tags(tags: Seq<Seq<char>>) -> bool {
    &&& forall|i: int| 0 <= i < tags.len() ==> (#[trigger] tags[i]).len() > 0
    &&& forall|i: int, j: int| 0 <= i < j < tags.len() ==> #[trigger] tags[i] != #[trigger] tags[j]
}

/// Extending a tag list keeps what it held, in place, keeps its tags
/// non-empty and pairwise different, and ends up listing the tag of every
/// link whose tag is not empty.
pub proof fn lemma_add_tags(tags: Seq<Seq<char>>, links: Seq<ElementView>)
    requires
        distinct_tags(tags),
    ensures
        distinct_tags(add_tags(tags, links)),
        add_tags(tags, links).len() >= tags.len(),
        add_tags(tags, links).take(tags.len() as int) == tags,
        forall|k: int| 0 <= k < links.len() && link_tag(#[trigger] links[k]).len() > 0
            ==> add_tags(tags, links).contains(link_tag(links[k])),
        forall|t: Seq<char>| tags.contains(t) ==> add_tags(tags, links).contains(t),
    decreases links.len(),
{
    if links.len() > 0 {
        let prev = links.drop_last();
        lemma_add_tags(tags, prev);
        let before = add_tags(tags, prev);
        let tag = link_tag(links.last());
        let after = add_tags(tags, links);
        if tag.len() > 0 && !before.contains(tag) {
            assert(after == before.push(tag));
            assert forall|i: int, j: int| 0 <= i < j < after.len() implies #[trigger] after[i] != #[trigger] after[j] by {
                if j == after.len() - 1 {
                    assert(after[i] == before[i]);
                    if after[i] == tag {
                        assert(before.contains(tag));
                    }
                } else {
                    assert(after[i] == before[i]);
                    assert(after[j] == before[j]);
                }
            }
            assert(after.take(tags.len() as int) =~= before.take(tags.len() as int));
            assert forall|t: Seq<char>| before.contains(t) implies after.contains(t) by {
                let k = choose|k: int| 0 <= k < before.len() && before[k] == t;
                assert(after[k] == t);
            }
            assert(after[before.len() as int] == tag);
        }
        assert forall|k: int| 0 <= k < links.len() && link_tag(#[trigger] links[k]).len() > 0 implies after.contains(
            link_tag(links[k]),
        ) by {
            if k < links.len() - 1 {
                assert(links[k] == prev[k]);
            }
        }
    }
}

/// The manga `tag` as its page describes it, from the elements selected there:
/// the title is the trimmed inner HTML of the first `.post-title>h1`; the
/// chapter count is the number of `.ori-chl-row` rows; the cover is the
/// `data-src`, else the `src`, of the first `.ori-sr-cover img` (empty when it
/// has neither or there is none). A page without title describes no manga.
pub open spec fn manga_info_of(
    tag: Seq<char>,
    titles: Seq<ElementView>,
    chapter_rows: Seq<ElementView>,
    covers: Seq<ElementView>,
) -> Result<(Seq<char>, Seq<char>, Seq<char>, nat), ProviderError> {
    if titles.len() == 0 {
        Err(ProviderError::TitleNotFound)
    } else {
        let cover = if covers.len() > 0 { image_source(covers[0]) } else { Seq::empty() };
        Ok((tag, trimmed(titles[0].0), cover, chapter_rows.len()))
    }
}

/// The source of an image element that was asked for `data-src` then `src`:
/// its `data-src`, else its `src`, else the empty text.
pub open spec fn image_source(image: ElementView) -> Seq<char> {
    match attr_value(image, 0) {
        Some(v) => v,
        None => or_empty(attr_value(image, 1)),
    }
}

/// The list URL of a chapter link: its `href` without trailing slashes, followed by `?style=list`.
pub open spec fn chapter_list_style_url(href: Seq<char>) -> Seq<char> {
    trim_end_char(href, '/') + "?style=list"@
}

/// The chapter URLs, oldest first, from the chapter links of a manga page
/// (listed newest first): of each link that has an `href`, its list URL.
pub open spec fn chapter_urls_of(links: Seq<ElementView>) -> Seq<Seq<char>> {
    present_values(links, 0).map_values(|h: Seq<char>| chapter_list_style_url(h)).reverse()
}

impl MangaOrigins {
    /// The base URL of the site.
    pub closed spec fn base_url(&self) -> Seq<char> {
        self.url@
    }

    /// The site at `url`.
    pub fn new(url: &str) -> (site: MangaOrigins)
        ensures
            site.base_url() == url@,
    {
        MangaOrigins { url: String::from_str(url) }
    }

    /// The URL of the page of manga `tag`.
    pub fn manga_info_url(&self, tag: &str) -> (res: String)
        ensures
            res@ == manga_page_url(self.base_url(), tag@),
    {
        let mut out = String::from_str(self.url.as_str());
        out.append("/oeuvre/");
        out.append(tag);
        out.append("/");
        out
    }

    /// The URL of the first page of the catalogue.
    pub fn catalogue_url(&self) -> (res: String)
        ensures
            res@ == catalogue_url(self.base_url()),
    {
        let mut out = String::from_str(self.url.as_str());
        out.append("/catalogues/");
        out
    }

    /// The URL of the AJAX endpoint.
    pub fn ajax_url(&self) -> (res: String)
        ensures
            res@ == ajax_url(self.base_url()),
    {
        let mut out = String::from_str(self.url.as_str());
        out.append("/wp-admin/admin-ajax.php");
        out
    }
}

/// The form body that asks for catalogue page `page`.
pub fn ajax_form_body(page: u32) -> (res: String)
    ensures
        res@ == ajax_form(page as nat),
{
    let mut out = String::new();
    out.append("action=madara_load_more&page=");
    push_decimal(&mut out, page as u64);
    out.append("&template=madara-core/content/content-archive&vars[paged]=1&vars[orderby]=meta_value_num&vars[template]=archive&vars[sidebar]=full&vars[post_type]=wp-manga&vars[post_status]=publish&vars[meta_key]=_latest_update&vars[order]=desc&vars[meta_query][relation]=AND&vars[manga_archives_item_layout]=big_thumbnail&vars[manga_archives_item_columns]=0");
    out
}

fn contains_string(tags: &Vec<String>, tag: &String) -> (res: bool)
    ensures
        res == strings_view(tags@).contains(tag@),
{
    let mut i: usize = 0;
    while i < tags.len()
        invariant
            i <= tags.len(),
            forall|j: int| 0 <= j < i ==> tags@[j]@ != tag@,
        decreases tags.len() - i,
    {
        if tags[i].eq(tag) {
            assert(strings_view(tags@)[i as int] == tag@);
            return true;
        }
        i = i + 1;
    }
    proof {
        if strings_view(tags@).contains(tag@) {
            let k = choose|k: int| 0 <= k < strings_view(tags@).len() && strings_view(tags@)[k] == tag@;
            assert(tags@[k]@ == tag@);
        }
    }
    false
}

/// Adds to `tags` the tag of each catalogue link that is not empty and not yet listed.
pub fn extract_tags(links: &Vec<HtmlElement>, tags: &mut Vec<String>)
    ensures
        strings_view(final(tags)@) == add_tags(strings_view(old(tags)@), elements_view(links@)),
{
    let mut i: usize = 0;
    while i < links.len()
        invariant
            i <= links.len(),
            strings_view(tags@) == add_tags(strings_view(old(tags)@), elements_view(links@.take(i as int))),
        decreases links.len() - i,
    {
        let href = match element_attr(&links[i], 0) {
            Some(href) => href,
            None => {
                proof { reveal_strlit(""); }
                ""
            },
        };
        assert(href@ == or_empty(attr_value(links@[i as int]@, 0)));
        let tag = String::from_str(last_segment(trim_end_matches_char(href, '/')));
        let ghost before = strings_view(tags@);
        if !tag.as_str().is_empty() && !contains_string(tags, &tag) {
            tags.push(tag);
            assert(strings_view(tags@) =~= before.push(tag@));
        }
        proof {
            let taken = elements_view(links@.take(i + 1));
            assert(taken.drop_last() =~= elements_view(links@.take(i as int)));
            assert(taken.last() == links@[i as int]@);
        }
        i = i + 1;
    }
    assert(links@.take(links.len() as int) =~= links@);
}

fn image_source_of(image: &HtmlElement) -> (res: String)
    ensures
        res@ == image_source(image@),
{
    match element_attr(image, 0) {
        Some(v) => String::from_str(v),
        None => match element_attr(image, 1) {
            Some(v) => String::from_str(v),
            None => String::new(),
        },
    }
}

/// Reads the description of manga `tag` from the elements selected on its page.
pub fn manga_info_from(
    tag: &str,
    titles: &Vec<HtmlElement>,
    chapter_rows: &Vec<HtmlElement>,
    covers: &Vec<HtmlElement>,
) -> (res: Result<MangaInfo, ProviderError>)
    ensures
        info_result_view(res) == manga_info_of(
            tag@,
            elements_view(titles@),
            elements_view(chapter_rows@),
            elements_view(covers@),
        ),
{
    if titles.len() == 0 {
        return Err(ProviderError::TitleNotFound);
    }
    let name = String::from_str(trim(titles[0].inner_html.as_str()));
    let chapter_count = chapter_rows.len();
    let cover_url = if covers.len() > 0 { image_source_of(&covers[0]) } else { String::new() };
    Ok(MangaInfo { tag: String::from_str(tag), name, cover_url, chapter_count })
}

/// Reads the description of manga `tag` from the HTML of its page.
pub fn parse_manga_info(tag: &str, body: &str) -> (res: Result<MangaInfo, ProviderError>)
    ensures
        document_selection(body@, ".post-title>h1"@, seq![]) is Some,
        document_selection(body@, ".ori-chl-row"@, seq![]) is Some,
        document_selection(body@, ".ori-sr-cover img"@, seq!["data-src"@, "src"@]) is Some,
        info_result_view(res) == match (
            document_selection(body@, ".post-title>h1"@, seq![]),
            document_selection(body@, ".ori-chl-row"@, seq![]),
            document_selection(body@, ".ori-sr-cover img"@, seq!["data-src"@, "src"@]),
        ) {
            (Some(titles), Some(rows), Some(covers)) => manga_info_of(tag@, titles, rows, covers),
            _ => Err(ProviderError::InvalidSelector),
        },
{
    let no_attributes: [&str; 0] = [];
    let sources: [&str; 2] = ["data-src", "src"];
    let document = parse_document(body);
    proof {
        reveal_strlit(".post-title>h1");
        reveal_strlit(".ori-chl-row");
        reveal_strlit(".ori-sr-cover img");
        reveal_with_fuel(selector_accepted_from, 18);
    }
    let titles = select(&document, ".post-title>h1", &no_attributes);
    let chapter_rows = select(&document, ".ori-chl-row", &no_attributes);
    let covers = select(&document, ".ori-sr-cover img", &sources);
    assert(no_attributes@.map_values(|n: &str| n@) =~= seq![]);
    assert(sources@.map_values(|n: &str| n@) =~= seq!["data-src"@, "src"@]);
    match (titles, chapter_rows, covers) {
        (Some(titles), Some(chapter_rows), Some(covers)) => manga_info_from(tag, &titles, &chapter_rows, &covers),
        _ => Err(ProviderError::InvalidSelector),
    }
}

/// The chapter URLs, oldest first, from the chapter links of a manga page.
pub fn chapter_urls_from(links: &Vec<HtmlElement>) -> (urls: Vec<String>)
    ensures
        strings_view(urls@) == chapter_urls_of(elements_view(links@)),
{
    let hrefs = collect_present(links, 0);
    let ghost listed = strings_view(hrefs@).map_values(|h: Seq<char>| chapter_list_style_url(h));
    let mut urls: Vec<String> = Vec::new();
    let mut i: usize = hrefs.len();
    while i > 0
        invariant
            i <= hrefs.len(),
            listed == strings_view(hrefs@).map_values(|h: Seq<char>| chapter_list_style_url(h)),
            strings_view(urls@) == listed.subrange(i as int, listed.len() as int).reverse(),
        decreases i,
    {
        i = i - 1;
        let mut url = String::from_str(trim_end_matches_char(hrefs[i].as_str(), '/'));
        url.append("?style=list");
        let ghost before = strings_view(urls@);
        urls.push(url);
        proof {
            assert(listed[i as int] == chapter_list_style_url(hrefs@[i as int]@));
            assert(listed.subrange(i as int, listed.len() as int).reverse() =~= listed.subrange(
                (i + 1) as int,
                listed.len() as int,
            ).reverse().push(listed[i as int]));
            assert(strings_view(urls@) =~= before.push(url@));
        }
    }
    assert(listed.subrange(0, listed.len() as int) =~= listed);
    urls
}

/// The chapter URLs come oldest first: of the `n` chapter links that have an
/// `href` (listed newest first on the page), the `i`-th URL is the list URL of
/// the `(n - 1 - i)`-th link, so that there is exactly one URL per such link.
pub proof fn lemma_chapter_urls_oldest_first(links: Seq<ElementView>)
    ensures
        chapter_urls_of(links).len() == present_values(links, 0).len(),
        forall|i: int| 0 <= i < chapter_urls_of(links).len() ==> #[trigger] chapter_urls_of(links)[i]
            == chapter_list_style_url(present_values(links, 0)[present_values(links, 0).len() - 1 - i]),
{
}

/// Reads the chapter URLs of a manga, oldest first, from the HTML of its page
/// (`.ori-chl-row a.ori-chl-corps` links, listed newest first).
pub fn parse_chapter_urls(body: &str) -> (res: Result<Vec<String>, ProviderError>)
    ensures
        document_selection(body@, ".ori-chl-row a.ori-chl-corps"@, seq!["href"@]) is Some,
        match document_selection(body@, ".ori-chl-row a.ori-chl-corps"@, seq!["href"@]) {
            Some(links) => res matches Ok(urls) && strings_view(urls@) == chapter_urls_of(links),
            None => res == Err::<Vec<String>, ProviderError>(ProviderError::InvalidSelector),
        },
{
    let href: [&str; 1] = ["href"];
    let document = parse_document(body);
    proof {
        reveal_strlit(".ori-chl-row a.ori-chl-corps");
        reveal_with_fuel(selector_accepted_from, 29);
    }
    let links = select(&document, ".ori-chl-row a.ori-chl-corps", &href);
    assert(href@.map_values(|n: &str| n@) =~= seq!["href"@]);
    match links {
        Some(links) => Ok(chapter_urls_from(&links)),
        None => Err(ProviderError::InvalidSelector),
    }
}

/// The page sources of a chapter: of each image, its `data-src`, else its `src`, else the empty text.
pub open spec fn chapter_pages_of(images: Seq<ElementView>) -> Seq<Seq<char>> {
    images.map_values(|i: ElementView| image_source(i))
}

/// A chapter has one page per selected image, in order: the `k`-th page is
/// the source of the `k`-th image.
pub proof fn lemma_chapter_pages_one_per_image(images: Seq<ElementView>)
    ensures
        chapter_pages_of(images).len() == images.len(),
        forall|k: int| 0 <= k < images.len() ==> #[trigger] chapter_pages_of(images)[k] == image_source(images[k]),
{
}

/// Reads chapter `number` from the HTML of its reader page: the source of
/// each `.reading-content img`, in order.
pub fn parse_chapter(body: &str, number: usize) -> (res: Result<Chapter, ProviderError>)
    ensures
        document_selection(body@, ".reading-content img"@, seq!["data-src"@, "src"@]) is Some,
        match document_selection(body@, ".reading-content img"@, seq!["data-src"@, "src"@]) {
            Some(images) => res matches Ok(chapter) && chapter@ == (chapter_pages_of(images), number as nat),
            None => res is Err && res->Err_0 == ProviderError::InvalidSelector,
        },
{
    let sources: [&str; 2] = ["data-src", "src"];
    let document = parse_document(body);
    proof {
        reveal_strlit(".reading-content img");
        reveal_with_fuel(selector_accepted_from, 21);
    }
    let images = select(&document, ".reading-content img", &sources);
    assert(sources@.map_values(|n: &str| n@) =~= seq!["data-src"@, "src"@]);
    match images {
        Some(images) => {
            let mut pages: Vec<String> = Vec::new();
            let mut i: usize = 0;
            while i < images.len()
                invariant
                    i <= images.len(),
                    strings_view(pages@) == chapter_pages_of(elements_view(images@.take(i as int))),
                decreases images.len() - i,
            {
                let ghost before = strings_view(pages@);
                let source = image_source_of(&images[i]);
                pages.push(source);
                proof {
                    assert(strings_view(pages@) =~= before.push(source@));
                    assert(chapter_pages_of(elements_view(images@.take(i + 1))) =~= chapter_pages_of(
                        elements_view(images@.take(i as int)),
                    ).push(image_source(images@[i as int]@)));
                    assert(elements_view(images@.take(i + 1)) =~= elements_view(images@.take(i as int)).push(
                        images@[i as int]@,
                    ));
                    assert(strings_view(pages@) =~= chapter_pages_of(elements_view(images@.take(i + 1))));
                }
                i = i + 1;
            }
            assert(images@.take(images.len() as int) =~= images@);
            let chapter = Chapter { pages, chapter_number: number };
            assert(chapter@.0 =~= strings_view(chapter.pages@));
            Ok(chapter)
        },
        None => Err(ProviderError::InvalidSelector),
    }
}

/// The walk through the catalogue: the first page, then the pages served by
/// the AJAX endpoint from page 1 on, until a response is blank or brings no
/// new tag. Tags are collected once each, in the order first met.
pub struct CatalogueWalk {
    tags: Vec<String>,
    page: u32,
    finished: bool,
}

impl CatalogueWalk {
    /// The tags collected so far.
    pub closed spec fn collected(&self) -> Seq<Seq<char>> {
        strings_view(self.tags@)
    }

    /// The AJAX catalogue page to ask for next.
    pub closed spec fn next_page(&self) -> nat {
        self.page as nat
    }

    /// Whether the walk is over.
    pub closed spec fn is_finished(&self) -> bool {
        self.finished
    }

    /// A walk that has collected nothing yet and will ask for AJAX page 1.
    pub fn new() -> (walk: CatalogueWalk)
        ensures
            walk.collected() == Seq::<Seq<char>>::empty(),
            walk.next_page() == 1,
            !walk.is_finished(),
    {
        let walk = CatalogueWalk { tags: Vec::new(), page: 1, finished: false };
        assert(walk.collected() =~= Seq::<Seq<char>>::empty());
        walk
    }

    /// Takes in the first catalogue page (its `.item-thumb a` links).
    pub fn absorb_first_page(&mut self, body: &str) -> (res: Result<(), ProviderError>)
        ensures
            document_selection(body@, ".item-thumb a"@, seq!["href"@]) is Some,
            final(self).next_page() == old(self).next_page(),
            final(self).is_finished() == old(self).is_finished(),
            match document_selection(body@, ".item-thumb a"@, seq!["href"@]) {
                Some(links) => res is Ok && final(self).collected() == add_tags(old(self).collected(), links),
                None => res is Err && res->Err_0 == ProviderError::InvalidSelector && final(self).collected()
                    == old(self).collected(),
            },
    {
        let href: [&str; 1] = ["href"];
        let document = parse_document(body);
        proof {
            reveal_strlit(".item-thumb a");
            reveal_with_fuel(selector_accepted_from, 14);
        }
        let links = select(&document, ".item-thumb a", &href);
        assert(href@.map_values(|n: &str| n@) =~= seq!["href"@]);
        match links {
            Some(links) => {
                extract_tags(&links, &mut self.tags);
                Ok(())
            },
            None => Err(ProviderError::InvalidSelector),
        }
    }

    /// The form body of the next AJAX request, or `None` once the walk is over.
    pub fn next_form(&self) -> (res: Option<String>)
        ensures
            match res {
                Some(form) => !self.is_finished() && form@ == ajax_form(self.next_page()),
                None => self.is_finished(),
            },
    {
        if self.finished {
            None
        } else {
            Some(ajax_form_body(self.page))
        }
    }

    /// Takes in the HTML fragment that the AJAX endpoint answered: a blank
    /// answer, or one that brings no new tag, ends the walk; otherwise its new
    /// tags are collected and the walk moves to the next page.
    pub fn absorb_response(&mut self, html: &str) -> (res: Result<(), ProviderError>)
        requires
            !old(self).is_finished(),
            old(self).next_page() < u32::MAX,
        ensures
            trimmed(html@).len() > 0 ==> fragment_selection(html@, ".item-thumb a"@, seq!["href"@]) is Some,
            trimmed(html@).len() == 0 ==> {
                &&& res is Ok
                &&& final(self).is_finished()
                &&& final(self).collected() == old(self).collected()
            },
            trimmed(html@).len() > 0 ==> match fragment_selection(html@, ".item-thumb a"@, seq!["href"@]) {
                Some(links) => {
                    let grown = add_tags(old(self).collected(), links);
                    &&& res is Ok
                    &&& final(self).collected() == grown
                    &&& final(self).is_finished() == (grown.len() == old(self).collected().len())
                    &&& final(self).next_page() == if grown.len() == old(self).collected().len() {
                        old(self).next_page()
                    } else {
                        old(self).next_page() + 1
                    }
                },
                None => {
                    &&& res is Err && res->Err_0 == ProviderError::InvalidSelector
                    &&& final(self).is_finished()
                    &&& final(self).collected() == old(self).collected()
                },
            },
    {
        if is_blank(html) {
            self.finished = true;
            return Ok(());
        }
        let href: [&str; 1] = ["href"];
        proof {
            reveal_strlit(".item-thumb a");
            reveal_with_fuel(selector_accepted_from, 14);
        }
        let links = select(&parse_fragment(html), ".item-thumb a", &href);
        assert(href@.map_values(|n: &str| n@) =~= seq!["href"@]);
        match links {
            Some(links) => {
                let before = self.tags.len();
                extract_tags(&links, &mut self.tags);
                if self.tags.len() == before {
                    self.finished = true;
                } else {
                    self.page = self.page + 1;
                }
                Ok(())
            },
            None => {
                self.finished = true;
                Err(ProviderError::InvalidSelector)
            },
        }
    }

    /// The page to fetch next.
    pub fn next_page_number(&self) -> (page: u32)
        ensures
            page == self.next_page(),
    {
        self.page
    }

    /// The collected tags.
    pub fn into_tags(self) -> (tags: Vec<String>)
        ensures
            strings_view(tags@) == self.collected(),
    {
        self.tags
    }
}

} // verus!
