//! A parsed page, and the two ways of reading it: an attribute of the first
//! element a selector picks, and the text under that element.

use vstd::prelude::*;
use crate::text::{opt_view, views};

verus! {

#[verifier::external_type_specification]
#[verifier::external_body]
pub struct ExHtml(scraper::Html);

/// The attribute `attr` of the first element that the CSS selector `selector`
/// picks in the page parsed from `source`; `None` where no element matches, the
/// selector does not parse, or the first match has no such attribute.
pub uninterp spec fn attr_of(source: Seq<char>, selector: Seq<char>, attr: Seq<char>) -> Option<
    Seq<char>,
>;

/// The text nodes, in document order, under the first element that the CSS
/// selector `selector` picks in the page parsed from `source`; `None` where no
/// element matches or the selector does not parse.
pub uninterp spec fn text_nodes_of(source: Seq<char>, selector: Seq<char>) -> Option<
    Seq<Seq<char>>,
>;

/// A page: its markup, and the document tree parsed from it. The fields are
/// private, so the tree is always the one that `Document::parse` built from the
/// markup, and what is read from it is a function of the markup.
pub struct Document {
    source: String,
    html: scraper::Html,
}

impl View for Document {
    type V = Seq<char>;

    /// The markup the page was parsed from; the tree is a function of it.
    closed spec fn view(&self) -> Seq<char> {
        self.source@
    }
}

/// Relies on `scraper::Html::parse_document`: the document tree of `source`.
#[verifier::external_body]
fn parse_html(source: &str) -> scraper::Html {
    scraper::Html::parse_document(source)
}

/// Relies on scraper's `Selector::parse`, `Html::select` and `Element::attr`:
/// the attribute `attr` of the first element that `selector` picks.
#[verifier::external_body]
pub(crate) fn first_attr(doc: &Document, selector: &str, attr: &str) -> (r: Option<String>)
    ensures
        opt_view(r) == attr_of(doc@, selector@, attr@),
{
    let selector = scraper::Selector::parse(selector).ok()?;
    let element = doc.html.select(&selector).next()?;
    element.value().attr(attr).map(|v| v.to_string())
}

/// Relies on scraper's `Selector::parse`, `Html::select` and `ElementRef::text`:
/// the text nodes under the first element that `selector` picks.
#[verifier::external_body]
pub(crate) fn first_text_nodes(doc: &Document, selector: &str) -> (r: Option<Vec<String>>)
    ensures
        match r {
            Some(v) => text_nodes_of(doc@, selector@) == Some(views(v@)),
            None => text_nodes_of(doc@, selector@) is None,
        },
{
    let selector = scraper::Selector::parse(selector).ok()?;
    let element = doc.html.select(&selector).next()?;
    Some(element.text().map(|t| t.to_string()).collect())
}

impl Document {
    /// Parses the markup of a landing page.
    pub fn parse(source: &str) -> (r: Document)
        ensures
            r@ == source@,
    {
        Document { source: source.to_owned(), html: parse_html(source) }
    }
}

} // verus!
