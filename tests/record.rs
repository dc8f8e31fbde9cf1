use pubmed_bib::bibtex::Bibtex;
use pubmed_bib::fetch::{Block, FetchError, Field};
use pubmed_bib::page::Document;

fn with_optional(
    author: &str,
    year: &str,
    title: &str,
    optional: [Option<&str>; 5],
) -> Bibtex {
    let [volume, number, pages, publisher, doi] = optional.map(|o| o.map(|v| v.to_string()));
    Bibtex::from_fields(
        title.to_string(),
        author.to_string(),
        "Genome research".to_string(),
        year.to_string(),
        volume,
        number,
        pages,
        publisher,
        doi,
    )
}

fn record(author: &str, year: &str, title: &str) -> Bibtex {
    with_optional(author, year, title, [None; 5])
}

fn full_record() -> Bibtex {
    with_optional(
        "Uhrig, Sebastian;Ellermann, Julia",
        "2021",
        "Accurate and efficient",
        [
            Some("31"),
            Some("3"),
            Some("448-460"),
            Some("Cold Spring Harbor Lab"),
            Some("10.1101/gr.257246.119"),
        ],
    )
}

fn page(metas: &[(&str, &str)], summary: Option<&str>, copyright: Option<&str>) -> Document {
    let mut s = String::from("<html><head>");
    for (name, content) in metas {
        s.push_str(&format!(r#"<meta name="{}" content="{}">"#, name, content));
    }
    s.push_str("</head><body>");
    if let Some(t) = summary {
        s.push_str(&format!(r#"<span class="cit">{}</span>"#, t));
    }
    if let Some(t) = copyright {
        s.push_str(&format!(r#"<p class="copyright">{}</p>"#, t));
    }
    s.push_str("</body></html>");
    Document::parse(&s)
}

const REQUIRED: [(&str, &str); 4] = [
    ("citation_title", "T"),
    ("citation_authors", "Smith;"),
    ("citation_date", "2020/01/01"),
    ("citation_journal_title", "J"),
];

#[test]
fn author_join() {
    let b = record("Smith, J.; Doe, A.", "2021", "Title");
    assert!(b.fmt().contains("\n  author = {Smith, J. and Doe, A.},\n"));
}

#[test]
fn author_join_drops_only_spaces_after_semicolon() {
    let b = record("A;\t\u{a0} B ;C", "2021", "Title");
    assert!(b.fmt().contains("\n  author = {A and \t\u{a0} B  and C},\n"));
    let b = record("A;   B", "2021", "Title");
    assert!(b.fmt().contains("\n  author = {A and B},\n"));
}

#[test]
fn record_type_is_article_without_month() {
    let b = full_record();
    assert_eq!(b.btype(), "article");
    assert_eq!(b.month(), &None);
    assert_eq!(b.volume(), &Some("31".to_string()));
    assert_eq!(b.number(), &Some("3".to_string()));
    assert_eq!(b.doi(), &Some("10.1101/gr.257246.119".to_string()));
}

#[test]
fn author_join_replaces_each_semicolon() {
    let b = record("A;B;C", "2021", "Title");
    assert!(b.fmt().contains("  author = {A and B and C},\n"));
}

#[test]
fn cite_key_scenario() {
    let b = record(
        "Uhrig, Sebastian; Ellermann, Julia",
        "2021",
        "Accurate and efficient detection of gene fusions",
    );
    assert_eq!(b.cite_key(), "uhrig,2021accurate");
    assert_eq!(b.cite_key(), b.cite_key());
}

#[test]
fn cite_key_ignores_other_fields() {
    let a = record("Uhrig, Sebastian", "2021", "Accurate and efficient");
    let b = full_record();
    assert_eq!(a.cite_key(), b.cite_key());
}

#[test]
fn cite_key_lowercases_and_skips_leading_space() {
    let b = record("  \u{a0}DOE\u{3000}John", " 1999 Jan", "\tÉtude Des");
    assert_eq!(b.cite_key(), "doe1999étude");
}

#[test]
fn cite_key_of_blank_fields_is_empty() {
    let b = record(" ", "", "\n");
    assert_eq!(b.cite_key(), "");
}

#[test]
fn format_twice_is_identical() {
    let b = full_record();
    assert_eq!(b.fmt(), b.fmt());
}

#[test]
fn format_full_record_in_field_order() {
    let expected = "@article{uhrig,2021accurate,\n\
                    \x20 title = {Accurate and efficient},\n\
                    \x20 author = {Uhrig, Sebastian and Ellermann, Julia},\n\
                    \x20 journal = {Genome research},\n\
                    \x20 volume = {31},\n\
                    \x20 number = {3},\n\
                    \x20 pages = {448-460},\n\
                    \x20 year = {2021},\n\
                    \x20 publisher = {Cold Spring Harbor Lab},\n\
                    \x20 doi = {10.1101/gr.257246.119},\n\
                    }\n";
    assert_eq!(full_record().fmt(), expected);
}

#[test]
fn absent_optional_fields_have_no_line() {
    let out = record("Smith", "2020", "T").fmt();
    for key in ["volume", "number", "pages", "publisher", "doi"] {
        assert!(!out.lines().any(|l| l.trim_start().starts_with(&format!("{} =", key))));
    }
    assert_eq!(
        out,
        "@article{smith2020t,\n  title = {T},\n  author = {Smith},\n  journal = {Genome research},\n  year = {2020},\n}\n"
    );
}

#[test]
fn each_optional_field_alone() {
    let b = with_optional("Smith", "2020", "T", [None, None, Some("1-5"), None, None]);
    let out = b.fmt();
    assert!(out.contains("  pages = {1-5},\n  year = {2020},\n"));
    assert!(!out.contains("volume"));
    let b = with_optional("Smith", "2020", "T", [None, None, None, None, Some("10.1/x")]);
    let out = b.fmt();
    assert!(out.contains("  year = {2020},\n  doi = {10.1/x},\n}\n"));
}

#[test]
fn end_to_end_scenario() {
    let doc = page(&REQUIRED, Some("2020 Jan;1(1):1-5."), Some("Copyright 2020 by Pub Co."));
    let b = Bibtex::new(&doc).unwrap();
    assert_eq!(b.title(), "T");
    assert_eq!(b.author(), "Smith");
    assert_eq!(b.journal(), "J");
    assert_eq!(b.year(), "2020");
    assert_eq!(b.pages(), &Some("1-5".to_string()));
    assert_eq!(b.publisher(), &Some("Pub Co.".to_string()));
    assert_eq!(b.volume(), &None);
    assert_eq!(b.number(), &None);
    assert_eq!(b.doi(), &None);
    assert_eq!(b.month(), &None);
    assert_eq!(
        b.fmt(),
        "@article{smith2020t,\n  title = {T},\n  author = {Smith},\n  journal = {J},\n  pages = {1-5},\n  year = {2020},\n  publisher = {Pub Co.},\n}\n"
    );
}

#[test]
fn end_to_end_with_month_day_year_date() {
    let metas = [
        ("citation_title", "T"),
        ("citation_authors", "Smith;"),
        ("citation_date", "01/01/2020"),
        ("citation_journal_title", "J"),
    ];
    let doc = page(&metas, Some("2020 Jan;1(1):1-5."), Some("Copyright 2020 by Pub Co."));
    let out = Bibtex::new(&doc).unwrap().fmt();
    assert_eq!(
        out,
        "@article{smith2020t,\n  title = {T},\n  author = {Smith},\n  journal = {J},\n  pages = {1-5},\n  year = {2020},\n  publisher = {Pub Co.},\n}\n"
    );
}

#[test]
fn missing_required_fields() {
    for (i, field) in [Field::Title, Field::Author, Field::Year, Field::Journal]
        .into_iter()
        .enumerate()
    {
        let metas: Vec<(&str, &str)> = REQUIRED
            .iter()
            .enumerate()
            .filter(|(j, _)| *j != i)
            .map(|(_, m)| *m)
            .collect();
        let doc = page(&metas, Some("2020 Jan;1(1):1-5."), Some("Copyright 2020 by Pub Co."));
        assert_eq!(
            Bibtex::new(&doc).unwrap_err(),
            FetchError::MissingRequiredField(field)
        );
    }
}

#[test]
fn missing_summary_block() {
    let doc = page(&REQUIRED, None, Some("Copyright 2020 by Pub Co."));
    assert_eq!(
        Bibtex::new(&doc).unwrap_err(),
        FetchError::StructureAssumptionViolated(Block::CitationSummary)
    );
}

#[test]
fn missing_copyright_block() {
    let doc = page(&REQUIRED, Some("2020 Jan;1(1):1-5."), None);
    assert_eq!(
        Bibtex::new(&doc).unwrap_err(),
        FetchError::StructureAssumptionViolated(Block::Copyright)
    );
}

#[test]
fn malformed_pages_are_omitted() {
    let doc = page(&REQUIRED, Some("2020 Jan;1(1)."), Some("Copyright 2020 by Pub Co."));
    let b = Bibtex::new(&doc).unwrap();
    assert_eq!(b.pages(), &None);
    assert!(!b.fmt().contains("pages"));
}
