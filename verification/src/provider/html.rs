//! Selecting elements of an HTML page with CSS selectors.

use vstd::prelude::*;

verus! {

/// What the library reads of a selected element: its inner HTML, the values
/// of the attributes it was asked for (in the order asked, `None` where the
/// element lacks one), and the number of its child elements.
pub struct HtmlElement {
    pub inner_html: String,
    pub attributes: Vec<Option<String>>,
    pub child_elements: usize,
}

/// The view of an optional attribute value.
pub open spec fn attribute_view(a: Option<String>) -> Option<Seq<char>> {
    match a {
        Some(v) => Some(v@),
        None => None,
    }
}

impl View for HtmlElement {
    type V = (Seq<char>, Seq<Option<Seq<char>>>, nat);

    open spec fn view(&self) -> Self::V {
        (self.inner_html@, self.attributes@.map_values(|a: Option<String>| attribute_view(a)), self.child_elements as nat)
    }
}

/// The view of a list of selected elements.
pub open spec fn elements_view(elements: Seq<HtmlElement>) -> Seq<(Seq<char>, Seq<Option<Seq<char>>>, nat)> {
    elements.map_values(|e: HtmlElement| e@)
}

/// The view of a list of attribute names.
pub open spec fn names_view(names: Seq<&str>) -> Seq<Seq<char>> {
    names.map_values(|n: &str| n@)
}

#[verifier::external_type_specification]
#[verifier::external_body]
pub struct ExHtml(scraper::Html);

/// The elements that `scraper` selects with the selector `selector` (parsed
/// by `Selector::parse`) in the tree that `Html::parse_fragment` (when
/// `fragment`) or `Html::parse_document` builds of `html`, in document order,
/// each with its inner HTML, the values of the attributes `attributes` and its
/// number of child elements; `None` where the selector does not parse.
pub uninterp spec fn html_selection(
    html: Seq<char>,
    fragment: bool,
    selector: Seq<char>,
    attributes: Seq<Seq<char>>,
) -> Option<Seq<(Seq<char>, Seq<Option<Seq<char>>>, nat)>>;

/// The elements selected in the document parsed from `html`.
pub open spec fn document_selection(
    html: Seq<char>,
    selector: Seq<char>,
    attributes: Seq<Seq<char>>,
) -> Option<Seq<(Seq<char>, Seq<Option<Seq<char>>>, nat)>> {
    html_selection(html, false, selector, attributes)
}

/// The elements selected in the fragment parsed from `html`.
pub open spec fn fragment_selection(
    html: Seq<char>,
    selector: Seq<char>,
    attributes: Seq<Seq<char>>,
) -> Option<Seq<(Seq<char>, Seq<Option<Seq<char>>>, nat)>> {
    html_selection(html, true, selector, attributes)
}

/// The view of an optional list of elements.
pub open spec fn selection_view(res: Option<Vec<HtmlElement>>) -> Option<Seq<(Seq<char>, Seq<Option<Seq<char>>>, nat)>> {
    match res {
        Some(elements) => Some(elements_view(elements@)),
        None => None,
    }
}

/// A parsed HTML tree, with the text it was parsed from and whether it was
/// parsed as a fragment.
pub struct HtmlPage {
    tree: scraper::Html,
    origin: Ghost<(Seq<char>, bool)>,
}

impl HtmlPage {
    /// The text the tree was parsed from.
    pub closed spec fn source(&self) -> Seq<char> {
        self.origin@.0
    }

    /// Whether the text was parsed as a fragment rather than a document.
    pub closed spec fn is_fragment(&self) -> bool {
        self.origin@.1
    }
}

/// Parses `html` as a whole document with `scraper::Html::parse_document`.
#[verifier::external_body]
pub(crate) fn parse_document(html: &str) -> (page: HtmlPage)
    ensures
        page.source() == html@,
        !page.is_fragment(),
{
    HtmlPage { tree: scraper::Html::parse_document(html), origin: Ghost((html@, false)) }
}

/// Parses `html` as a fragment with `scraper::Html::parse_fragment`.
#[verifier::external_body]
pub(crate) fn parse_fragment(html: &str) -> (page: HtmlPage)
    ensures
        page.source() == html@,
        page.is_fragment(),
{
    HtmlPage { tree: scraper::Html::parse_fragment(html), origin: Ghost((html@, true)) }
}

/// How far a reading of a selector has got: at the start of a compound
/// selector, just after a `.` or a `#`, or inside a name.
pub enum SelectorScan {
    Start,
    AfterMark,
    InName,
}

/// Whether `c` is an ASCII letter.
pub open spec fn is_ascii_letter(c: char) -> bool {
    ('a' <= c && c <= 'z') || ('A' <= c && c <= 'Z')
}

/// Whether `c` may go on a name: an ASCII letter or digit, `-` or `_`.
pub open spec fn is_name_char(c: char) -> bool {
    is_ascii_letter(c) || ('0' <= c && c <= '9') || c == '-' || c == '_'
}

/// Where reading `c` in `state` leads, or `None` where `c` cannot come there.
pub open spec fn selector_step(state: SelectorScan, c: char) -> Option<SelectorScan> {
    match state {
        SelectorScan::Start => if is_ascii_letter(c) {
            Some(SelectorScan::InName)
        } else if c == '.' || c == '#' {
            Some(SelectorScan::AfterMark)
        } else {
            None
        },
        SelectorScan::AfterMark => if is_ascii_letter(c) {
            Some(SelectorScan::InName)
        } else {
            None
        },
        SelectorScan::InName => if is_name_char(c) {
            Some(SelectorScan::InName)
        } else if c == '.' || c == '#' {
            Some(SelectorScan::AfterMark)
        } else if c == ' ' || c == '>' {
            Some(SelectorScan::Start)
        } else {
            None
        },
    }
}

/// Whether the rest of `s` from index `i` on, read from `state`, ends inside a name.
pub open spec fn selector_accepted_from(s: Seq<char>, i: nat, state: SelectorScan) -> bool
    decreases s.len() - i,
{
    if i >= s.len() {
        state is InName
    } else {
        match selector_step(state, s[i as int]) {
            Some(next) => selector_accepted_from(s, i + 1, next),
            None => false,
        }
    }
}

/// Whether `s` is a simple CSS selector: type (`img`), class (`.name`) and id
/// (`#name`) selectors, written together for a compound selector and joined
/// by the descendant (one space) and child (`>`) combinators; each name
/// starts with an ASCII letter and goes on with ASCII letters, digits, `-`
/// and `_`.
pub open spec fn simple_selector(s: Seq<char>) -> bool {
    selector_accepted_from(s, 0, SelectorScan::Start)
}

/// Selects with `scraper::Html::select` the elements that match `selector`,
/// parsed by `scraper::Selector::parse`, reading of each its inner HTML
/// (`ElementRef::inner_html`), the attributes `attributes` (`ElementRef::attr`)
/// and its number of child elements (`ElementRef::child_elements`). Claims
/// the outcome that `html_selection` names for how the tree was parsed, and
/// that a simple selector parses: the CSS selector grammar that
/// `Selector::parse` implements accepts type, class and id selectors with
/// such names, and the descendant and child combinators.
#[verifier::external_body]
pub(crate) fn select(page: &HtmlPage, selector: &str, attributes: &[&str]) -> (res: Option<Vec<HtmlElement>>)
    ensures
        selection_view(res) == html_selection(page.source(), page.is_fragment(), selector@, names_view(attributes@)),
        simple_selector(selector@) ==> res is Some,
{
    let selector = scraper::Selector::parse(selector).ok()?;
    Some(page.tree.select(&selector).map(|element| HtmlElement {
        inner_html: element.inner_html(),
        attributes: attributes.iter().map(|name| element.attr(name).map(|v| v.to_string())).collect(),
        child_elements: element.child_elements().count(),
    }).collect())
}

/// The view of a selected element.
pub type ElementView = (Seq<char>, Seq<Option<Seq<char>>>, nat);

/// The value of the `k`-th requested attribute of an element, if it has it.
pub open spec fn attr_value(e: ElementView, k: int) -> Option<Seq<char>> {
    if 0 <= k < e.1.len() {
        e.1[k]
    } else {
        None
    }
}

/// The text of an optional value, or the empty text.
pub open spec fn or_empty(o: Option<Seq<char>>) -> Seq<char> {
    match o {
        Some(v) => v,
        None => Seq::empty(),
    }
}

/// The values of the `k`-th requested attribute of the elements that have it, in order.
pub open spec fn present_values(elements: Seq<ElementView>, k: int) -> Seq<Seq<char>>
    decreases elements.len(),
{
    if elements.len() == 0 {
        Seq::empty()
    } else {
        let rest = present_values(elements.drop_last(), k);
        match attr_value(elements.last(), k) {
            Some(v) => rest.push(v),
            None => rest,
        }
    }
}

/// The view of a list of strings.
pub open spec fn strings_view(v: Seq<String>) -> Seq<Seq<char>> {
    v.map_values(|s: String| s@)
}

/// The value of the `k`-th requested attribute of `e`, if it has it.
pub fn element_attr(e: &HtmlElement, k: usize) -> (res: Option<&str>)
    ensures
        match res {
            Some(v) => attr_value(e@, k as int) == Some(v@),
            None => attr_value(e@, k as int) is None,
        },
{
    if k < e.attributes.len() {
        match &e.attributes[k] {
            Some(v) => Some(v.as_str()),
            None => None,
        }
    } else {
        None
    }
}

/// The values of the `k`-th requested attribute of the elements that have it, in order.
pub fn collect_present(elements: &Vec<HtmlElement>, k: usize) -> (res: Vec<String>)
    ensures
        strings_view(res@) == present_values(elements_view(elements@), k as int),
{
    let mut res: Vec<String> = Vec::new();
    let mut i: usize = 0;
    while i < elements.len()
        invariant
            i <= elements.len(),
            strings_view(res@) == present_values(elements_view(elements@.take(i as int)), k as int),
        decreases elements.len() - i,
    {
        let ghost before = res@;
        match element_attr(&elements[i], k) {
            Some(v) => res.push(String::from_str(v)),
            None => {},
        }
        proof {
            let taken = elements_view(elements@.take(i + 1));
            assert(taken.drop_last() =~= elements_view(elements@.take(i as int)));
            assert(taken.last() == elements@[i as int]@);
            assert(strings_view(res@) =~= present_values(taken, k as int));
        }
        i = i + 1;
    }
    assert(elements@.take(elements.len() as int) =~= elements@);
    res
}

} // verus!
