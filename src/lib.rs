//! Extraction of bibliographic metadata from an article landing page, and its
//! rendering as a BibTeX entry.

pub mod text;
pub mod page;
pub mod fetch;
pub mod bibtex;
pub mod search;
