//! Queries on HTML documents, answered by the `scraper` crate.
//!
//! Nothing here is proved: each function hands a document and CSS selectors
//! to `scraper` and gives back plain strings. What `scraper` answers is a
//! function of the texts it is given, and the contracts name that answer so
//! that callers can speak of it.

use vstd::prelude::*;

verus! {

/// For every element of the HTML document `html` that the CSS selector
/// group `selector` matches, in document order, the value of its attribute
/// `attr`, or `None` where it has no such attribute. Empty where `selector`
/// is not a valid selector group.
pub uninterp spec fn all_attrs(html: Seq<char>, selector: Seq<char>, attr: Seq<char>) -> Seq<
    Option<Seq<char>>,
>;

/// For every element of the HTML document `html` that the selector group
/// `outer` matches, in document order: the value of the attribute `attr` on
/// its first descendant that the selector group `inner` matches, or `None`
/// where it has no such descendant or that descendant has no such
/// attribute. Empty where either selector group is invalid.
pub uninterp spec fn nested_attrs(
    html: Seq<char>,
    outer: Seq<char>,
    inner: Seq<char>,
    attr: Seq<char>,
) -> Seq<Option<Seq<char>>>;

/// For every element of the HTML document `html` that the selector group
/// `outer` matches, in document order: the text inside its first descendant
/// that the selector group `inner` matches, all text nodes joined in
/// document order, or `None` where it has no such descendant. Empty where
/// either selector group is invalid.
pub uninterp spec fn nested_texts(html: Seq<char>, outer: Seq<char>, inner: Seq<char>) -> Seq<
    Option<Seq<char>>,
>;

/// The serialized content (inner HTML) of every element of the HTML document
/// `html` that the CSS selector group `selector` matches, in document order.
/// Empty where `selector` is not a valid selector group.
pub uninterp spec fn all_inner_html(html: Seq<char>, selector: Seq<char>) -> Seq<Seq<char>>;

/// The first entry of a list of optional texts; `None` where the list is
/// empty.
pub open spec fn first_listed(list: Seq<Option<Seq<char>>>) -> Option<Seq<char>> {
    if list.len() > 0 {
        list[0]
    } else {
        None
    }
}

/// `scraper::Selector::parse`, `scraper::Html::parse_document`,
/// `Html::select` and `Element::attr`: parses `html` as a document and reads
/// the attribute `attr` of each element that `selector` matches. The
/// contract only names the answer.
#[verifier::external_body]
pub(crate) fn select_all_attr(html: &str, selector: &str, attr: &str) -> (r: Vec<Option<String>>)
    ensures
        r.deep_view() == all_attrs(html@, selector@, attr@),
{
    let Ok(sel) = scraper::Selector::parse(selector) else {
        return Vec::new();
    };
    let doc = scraper::Html::parse_document(html);
    doc.select(&sel).map(|e| e.value().attr(attr).map(|v| v.to_string())).collect()
}

/// `scraper::Selector::parse`, `scraper::Html::parse_document`,
/// `Html::select`, `ElementRef::select` and `Element::attr`: parses `html`
/// as a document and, for each element that `outer` matches, reads the
/// attribute `attr` of its first descendant that `inner` matches. The
/// contract only names the answer.
#[verifier::external_body]
pub(crate) fn select_nested_attr(html: &str, outer: &str, inner: &str, attr: &str) -> (r: Vec<
    Option<String>,
>)
    ensures
        r.deep_view() == nested_attrs(html@, outer@, inner@, attr@),
{
    let (Ok(o), Ok(i)) = (scraper::Selector::parse(outer), scraper::Selector::parse(inner)) else {
        return Vec::new();
    };
    let doc = scraper::Html::parse_document(html);
    doc.select(&o).map(
        |e| e.select(&i).next().and_then(|n| n.value().attr(attr)).map(|v| v.to_string()),
    ).collect()
}

/// `scraper::Selector::parse`, `scraper::Html::parse_document`,
/// `Html::select`, `ElementRef::select` and `ElementRef::text`: parses
/// `html` as a document and, for each element that `outer` matches, joins
/// the text nodes of its first descendant that `inner` matches. The contract
/// only names the answer.
#[verifier::external_body]
pub(crate) fn select_nested_text(html: &str, outer: &str, inner: &str) -> (r: Vec<Option<String>>)
    ensures
        r.deep_view() == nested_texts(html@, outer@, inner@),
{
    let (Ok(o), Ok(i)) = (scraper::Selector::parse(outer), scraper::Selector::parse(inner)) else {
        return Vec::new();
    };
    let doc = scraper::Html::parse_document(html);
    doc.select(&o).map(|e| e.select(&i).next().map(|n| n.text().collect::<String>())).collect()
}

/// `scraper::Selector::parse`, `scraper::Html::parse_document`,
/// `Html::select` and `ElementRef::inner_html`: parses `html` as a document
/// and serializes the content of each element that `selector` matches. The
/// contract only names the answer.
#[verifier::external_body]
pub(crate) fn select_all_inner_html(html: &str, selector: &str) -> (r: Vec<String>)
    ensures
        r.deep_view() == all_inner_html(html@, selector@),
{
    let Ok(sel) = scraper::Selector::parse(selector) else {
        return Vec::new();
    };
    scraper::Html::parse_document(html).select(&sel).map(|e| e.inner_html()).collect()
}

/// The first entry of a list of optional texts.
pub fn first_of_list(list: Vec<Option<String>>) -> (r: Option<String>)
    ensures
        r.deep_view() == first_listed(list.deep_view()),
{
    let mut list = list;
    if list.len() > 0 {
        list.swap_remove(0)
    } else {
        None
    }
}

} // verus!
