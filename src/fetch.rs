//! The field rules: how each metadata value is read from a page and cleaned up.

use vstd::prelude::*;
use crate::page::{attr_of, first_attr, first_text_nodes, text_nodes_of, Document};
use crate::text::{
    after_last, after_last_char, after_last_pair, after_last_pair_chars, before_first,
    before_first_char, chars_of, contains_char, join, join_chars, opt_view, strip_last,
    push_all, strip_last_char, string_of, trim, trim_chars, views, year_part, year_part_chars,
};

verus! {

/// A field that every record must have.
#[derive(Clone, Copy, Debug, PartialEq, Eq, Structural)]
pub enum Field {
    Title,
    Author,
    Journal,
    Year,
}

/// A page element that the rules take to be always present.
#[derive(Clone, Copy, Debug, PartialEq, Eq, Structural)]
pub enum Block {
    /// The copyright notice, `p[class="copyright"]`, which names the publisher.
    Copyright,
    /// The citation summary, `span[class="cit"]`, which gives the pages.
    CitationSummary,
}

/// Why no record could be read from a page.
#[derive(Clone, Copy, Debug, PartialEq, Eq, Structural)]
pub enum FetchError {
    /// The page has no value for a required field.
    MissingRequiredField(Field),
    /// An element that the rules rely on is not on the page.
    StructureAssumptionViolated(Block),
}

/// The selector of the `<meta>` elements named `key`.
pub open spec fn meta_selector(key: Seq<char>) -> Seq<char> {
    "meta[name=\""@ + key + "\"]"@
}

/// The `content` of the first `<meta>` element named `key` on the page `src`.
pub open spec fn meta(src: Seq<char>, key: &str) -> Option<Seq<char>> {
    attr_of(src, meta_selector(key@), "content"@)
}

/// Authors as the page lists them, without one trailing `;`.
pub open spec fn authors_of(raw: Seq<char>) -> Seq<char> {
    strip_last(raw, ';')
}

/// The year of a date. Where it holds a `/`: the first `/`-separated part that
/// is four digits, as in `YYYY/MM/DD` or `MM/DD/YYYY`, or the last part where
/// none is. Else the first ` `-separated part, as in `YYYY Mon DD`.
pub open spec fn year_of(raw: Seq<char>) -> Seq<char> {
    if raw.contains('/') {
        match year_part(raw) {
            Some(y) => y,
            None => after_last(raw, '/'),
        }
    } else {
        before_first(raw, ' ')
    }
}

/// The publisher named by a copyright notice with text nodes `nodes`: the
/// trimmed text after the last `by` of the space-joined, trimmed text.
pub open spec fn publisher_of(nodes: Seq<Seq<char>>) -> Seq<char> {
    trim(after_last_pair(trim(join(nodes, seq![' '])), 'b', 'y'))
}

/// The pages given by a citation summary with text nodes `nodes`: the part
/// after its last `:`, without one trailing `.`, where that holds a `-`.
pub open spec fn pages_of(nodes: Seq<Seq<char>>) -> Option<Seq<char>> {
    let t = join(nodes, Seq::empty());
    let p = strip_last(after_last(t, ':'), '.');
    if t.len() > 0 && p.contains('-') {
        Some(p)
    } else {
        None
    }
}

/// The authors that the page `src` gives.
pub open spec fn author_from(src: Seq<char>) -> Option<Seq<char>> {
    match meta(src, "citation_authors") {
        Some(a) => Some(authors_of(a)),
        None => None,
    }
}

/// The year that the page `src` gives.
pub open spec fn year_from(src: Seq<char>) -> Option<Seq<char>> {
    match meta(src, "citation_date") {
        Some(d) => Some(year_of(d)),
        None => None,
    }
}

/// The text nodes of the copyright notice of the page `src`.
pub open spec fn copyright_nodes(src: Seq<char>) -> Option<Seq<Seq<char>>> {
    text_nodes_of(src, "p[class=\"copyright\"]"@)
}

/// The text nodes of the citation summary of the page `src`.
pub open spec fn summary_nodes(src: Seq<char>) -> Option<Seq<Seq<char>>> {
    text_nodes_of(src, "span[class=\"cit\"]"@)
}

/// Reads the `content` of the first `<meta>` element named `key`.
pub fn fetch_citation_key(key: &str, doc: &Document) -> (r: Option<String>)
    ensures
        opt_view(r) == meta(doc@, key),
{
    let mut selector = chars_of("meta[name=\"");
    push_all(&mut selector, &chars_of(key));
    push_all(&mut selector, &chars_of("\"]"));
    let selector = string_of(&selector);
    first_attr(doc, selector.as_str(), "content")
}

/// The title: the `content` of the `citation_title` meta element.
pub fn fetch_title(doc: &Document) -> (r: Option<String>)
    ensures
        opt_view(r) == meta(doc@, "citation_title"),
{
    fetch_citation_key("citation_title", doc)
}

/// Drops one trailing `;` from a list of authors.
pub fn clean_authors(raw: &str) -> (r: String)
    ensures
        r@ == authors_of(raw@),
{
    let c = chars_of(raw);
    string_of(&strip_last_char(&c, ';'))
}

/// The authors: the `citation_authors` meta element, without one trailing `;`.
pub fn fetch_author(doc: &Document) -> (r: Option<String>)
    ensures
        opt_view(r) == author_from(doc@),
{
    match fetch_citation_key("citation_authors", doc) {
        Some(a) => Some(clean_authors(a.as_str())),
        None => None,
    }
}

/// The year of a date written `YYYY/MM/DD`, `MM/DD/YYYY` or `YYYY Mon DD`.
pub fn normalize_year(raw: &str) -> (r: String)
    ensures
        r@ == year_of(raw@),
{
    let c = chars_of(raw);
    if contains_char(&c, '/') {
        match year_part_chars(&c) {
            Some(y) => string_of(&y),
            None => string_of(&after_last_char(&c, '/')),
        }
    } else {
        string_of(&before_first_char(&c, ' '))
    }
}

/// The year: the `citation_date` meta element, reduced to its year; an error
/// where the page has no date.
pub fn fetch_year(doc: &Document) -> (r: Result<String, FetchError>)
    ensures
        match year_from(doc@) {
            Some(y) => r matches Ok(s) && s@ == y,
            None => r == Err::<String, FetchError>(FetchError::MissingRequiredField(Field::Year)),
        },
{
    match fetch_citation_key("citation_date", doc) {
        Some(d) => Ok(normalize_year(d.as_str())),
        None => Err(FetchError::MissingRequiredField(Field::Year)),
    }
}

/// The journal: the `content` of the `citation_journal_title` meta element.
pub fn fetch_journal(doc: &Document) -> (r: Option<String>)
    ensures
        opt_view(r) == meta(doc@, "citation_journal_title"),
{
    fetch_citation_key("citation_journal_title", doc)
}

/// The volume: the `content` of the `citation_volume` meta element.
pub fn fetch_volume(doc: &Document) -> (r: Option<String>)
    ensures
        opt_view(r) == meta(doc@, "citation_volume"),
{
    fetch_citation_key("citation_volume", doc)
}

/// The DOI: the `content` of the `citation_doi` meta element.
pub fn fetch_doi(doc: &Document) -> (r: Option<String>)
    ensures
        opt_view(r) == meta(doc@, "citation_doi"),
{
    fetch_citation_key("citation_doi", doc)
}

/// The issue number: the `content` of the `citation_issue` meta element.
pub fn fetch_number(doc: &Document) -> (r: Option<String>)
    ensures
        opt_view(r) == meta(doc@, "citation_issue"),
{
    fetch_citation_key("citation_issue", doc)
}

/// The publisher named by a copyright notice, given its text nodes.
pub fn parse_publisher(nodes: &Vec<String>) -> (r: String)
    ensures
        r@ == publisher_of(views(nodes@)),
{
    let space = vec![' '];
    let joined = join_chars(nodes, &space);
    proof {
        assert(space@ =~= seq![' ']);
    }
    let t = trim_chars(&joined);
    let after = after_last_pair_chars(&t, 'b', 'y');
    string_of(&trim_chars(&after))
}

/// The publisher, read from the copyright notice; an error where the page has none.
pub fn fetch_publisher(doc: &Document) -> (r: Result<String, FetchError>)
    ensures
        match copyright_nodes(doc@) {
            Some(n) => r matches Ok(p) && p@ == publisher_of(n),
            None => r == Err::<String, FetchError>(
                FetchError::StructureAssumptionViolated(Block::Copyright),
            ),
        },
{
    match first_text_nodes(doc, "p[class=\"copyright\"]") {
        Some(nodes) => Ok(parse_publisher(&nodes)),
        None => Err(FetchError::StructureAssumptionViolated(Block::Copyright)),
    }
}

/// Whether `page` reads as a page range: it holds a `-`.
pub fn check_page(page: &str) -> (r: bool)
    ensures
        r == page@.contains('-'),
{
    contains_char(&chars_of(page), '-')
}

/// The pages given by a citation summary, given its text nodes; `None` where the
/// summary is empty or names no range.
pub fn parse_pages(nodes: &Vec<String>) -> (r: Option<String>)
    ensures
        opt_view(r) == pages_of(views(nodes@)),
{
    let empty: Vec<char> = Vec::new();
    let t = join_chars(nodes, &empty);
    proof {
        assert(empty@ =~= Seq::<char>::empty());
    }
    if t.len() == 0 {
        return None;
    }
    let page = string_of(&strip_last_char(&after_last_char(&t, ':'), '.'));
    if check_page(page.as_str()) {
        Some(page)
    } else {
        None
    }
}

/// The pages, read from the citation summary; an error where the page has none.
pub fn fetch_page(doc: &Document) -> (r: Result<Option<String>, FetchError>)
    ensures
        match summary_nodes(doc@) {
            Some(n) => r matches Ok(p) && opt_view(p) == pages_of(n),
            None => r == Err::<Option<String>, FetchError>(
                FetchError::StructureAssumptionViolated(Block::CitationSummary),
            ),
        },
{
    match first_text_nodes(doc, "span[class=\"cit\"]") {
        Some(nodes) => Ok(parse_pages(&nodes)),
        None => Err(FetchError::StructureAssumptionViolated(Block::CitationSummary)),
    }
}

} // verus!
