//! Finding an article's landing page through the site's search.

use vstd::prelude::*;
use crate::page::{attr_of, first_attr, Document};
use crate::text::{chars_of, opt_view, push_all, string_of};

verus! {

/// The address of the site that is searched.
pub open spec fn base_url() -> Seq<char> {
    "https://pubmed.ncbi.nlm.nih.gov"@
}

/// The address of the search for `title`.
pub fn search_url(title: &str) -> (r: String)
    ensures
        r@ == base_url() + "/?term="@ + title@,
{
    let mut url = chars_of("https://pubmed.ncbi.nlm.nih.gov");
    push_all(&mut url, &chars_of("/?term="));
    push_all(&mut url, &chars_of(title));
    string_of(&url)
}

/// The address of the first result on a search page: the site's address
/// followed by the `href` of the first `a[class="docsum-title"]` link; `None`
/// where the page has no such link.
pub fn fetch_paper_url(doc: &Document) -> (r: Option<String>)
    ensures
        opt_view(r) == match attr_of(doc@, "a[class=\"docsum-title\"]"@, "href"@) {
            Some(h) => Some(base_url() + h),
            None => None,
        },
{
    match first_attr(doc, "a[class=\"docsum-title\"]", "href") {
        Some(href) => {
            let mut url = chars_of("https://pubmed.ncbi.nlm.nih.gov");
            push_all(&mut url, &chars_of(href.as_str()));
            Some(string_of(&url))
        },
        None => None,
    }
}

} // verus!
