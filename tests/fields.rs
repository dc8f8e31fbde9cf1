use pubmed_bib::fetch::{
    clean_authors, fetch_author, fetch_citation_key, fetch_doi, fetch_journal, fetch_number,
    fetch_page, fetch_publisher, fetch_title, fetch_volume, fetch_year, normalize_year,
    parse_pages, parse_publisher, Block, FetchError, Field,
};
use pubmed_bib::page::Document;

fn strings(parts: &[&str]) -> Vec<String> {
    parts.iter().map(|p| p.to_string()).collect()
}

const PAGE: &str = r#"<html><head>
<meta name="citation_title" content="Accurate and efficient detection of gene fusions">
<meta name="citation_authors" content="Uhrig, Sebastian;Ellermann, Julia;">
<meta name="citation_date" content="01/15/2021">
<meta name="citation_journal_title" content="Genome research">
<meta name="citation_volume" content="31">
<meta name="citation_issue" content="3">
<meta name="citation_doi" content="10.1101/gr.257246.119">
</head><body>
<span class="cit">2021 Mar;31(3):448-460.</span>
<p class="copyright">Copyright © 2021 <b>by</b> Cold Spring Harbor Laboratory Press.</p>
</body></html>"#;

#[test]
fn year_from_space_separated_date() {
    assert_eq!(normalize_year("2021 Mar 15"), "2021");
}

#[test]
fn year_from_slash_date_is_four_digit_part() {
    assert_eq!(normalize_year("2021/03/15"), "2021");
    assert_eq!(normalize_year("2020/01/01"), "2020");
    assert_eq!(normalize_year("03/15/2021"), "2021");
}

#[test]
fn year_from_slash_date_without_four_digits_is_last_part() {
    assert_eq!(normalize_year("15/03/21"), "21");
    assert_eq!(normalize_year("2021a/03"), "03");
    assert_eq!(normalize_year("03/"), "");
}

#[test]
fn year_without_separator_is_whole_value() {
    assert_eq!(normalize_year("2021"), "2021");
    assert_eq!(normalize_year(""), "");
}

#[test]
fn pages_after_last_colon() {
    assert_eq!(
        parse_pages(&strings(&["2021 Mar;31(3):448-460."])),
        Some("448-460".to_string())
    );
}

#[test]
fn pages_without_hyphen_are_absent() {
    assert_eq!(parse_pages(&strings(&["2021 Mar;31(3)."])), None);
}

#[test]
fn pages_of_empty_summary_are_absent() {
    assert_eq!(parse_pages(&strings(&[])), None);
    assert_eq!(parse_pages(&strings(&["", ""])), None);
}

#[test]
fn pages_joined_without_separator() {
    assert_eq!(
        parse_pages(&strings(&["2021 Mar;31(3):", "448-", "460."])),
        Some("448-460".to_string())
    );
}

#[test]
fn pages_lose_one_trailing_period_only() {
    assert_eq!(parse_pages(&strings(&["1:5-9.."])), Some("5-9.".to_string()));
}

#[test]
fn publisher_after_last_by() {
    assert_eq!(
        parse_publisher(&strings(&["Copyright 2020 by Pub Co."])),
        "Pub Co."
    );
    assert_eq!(
        parse_publisher(&strings(&["Made by hand, published ", "by", " Nearby Press "])),
        "Press"
    );
    assert_eq!(
        parse_publisher(&strings(&["Made by hand, published ", "by", " Cold Press "])),
        "Cold Press"
    );
}

#[test]
fn publisher_nodes_joined_with_spaces_and_trimmed() {
    assert_eq!(
        parse_publisher(&strings(&["\u{3000}Copyright", "by\u{a0}", "Lab\n"])),
        "Lab"
    );
}

#[test]
fn publisher_without_by_is_whole_text() {
    assert_eq!(parse_publisher(&strings(&["  Some Press  "])), "Some Press");
}

#[test]
fn authors_lose_one_trailing_semicolon() {
    assert_eq!(clean_authors("Smith;"), "Smith");
    assert_eq!(clean_authors("Smith;;"), "Smith;");
    assert_eq!(clean_authors("Smith; Doe"), "Smith; Doe");
}

#[test]
fn meta_lookup_reads_content() {
    let doc = Document::parse(PAGE);
    assert_eq!(
        fetch_citation_key("citation_journal_title", &doc),
        Some("Genome research".to_string())
    );
    assert_eq!(fetch_citation_key("citation_isbn", &doc), None);
}

#[test]
fn named_field_lookups() {
    let doc = Document::parse(PAGE);
    assert_eq!(
        fetch_title(&doc),
        Some("Accurate and efficient detection of gene fusions".to_string())
    );
    assert_eq!(
        fetch_author(&doc),
        Some("Uhrig, Sebastian;Ellermann, Julia".to_string())
    );
    assert_eq!(fetch_year(&doc), Ok("2021".to_string()));
    assert_eq!(fetch_journal(&doc), Some("Genome research".to_string()));
    assert_eq!(fetch_volume(&doc), Some("31".to_string()));
    assert_eq!(fetch_number(&doc), Some("3".to_string()));
    assert_eq!(fetch_doi(&doc), Some("10.1101/gr.257246.119".to_string()));
    assert_eq!(fetch_page(&doc), Ok(Some("448-460".to_string())));
    assert_eq!(
        fetch_publisher(&doc),
        Ok("Cold Spring Harbor Laboratory Press.".to_string())
    );
}

#[test]
fn missing_blocks_are_errors() {
    let doc = Document::parse("<html><head></head><body><p>nothing</p></body></html>");
    assert_eq!(fetch_title(&doc), None);
    assert_eq!(
        fetch_year(&doc),
        Err(FetchError::MissingRequiredField(Field::Year))
    );
    assert_eq!(
        fetch_page(&doc),
        Err(FetchError::StructureAssumptionViolated(Block::CitationSummary))
    );
    assert_eq!(
        fetch_publisher(&doc),
        Err(FetchError::StructureAssumptionViolated(Block::Copyright))
    );
}

#[test]
fn meta_without_content_is_absent() {
    let doc = Document::parse(r#"<html><head><meta name="citation_doi"></head></html>"#);
    assert_eq!(fetch_doi(&doc), None);
}

#[test]
fn first_matching_meta_wins() {
    let doc = Document::parse(
        r#"<html><head><meta name="citation_volume" content="1"><meta name="citation_volume" content="2"></head></html>"#,
    );
    assert_eq!(fetch_volume(&doc), Some("1".to_string()));
}

#[test]
fn search_url_for_title() {
    assert_eq!(
        pubmed_bib::search::search_url("gene fusions"),
        "https://pubmed.ncbi.nlm.nih.gov/?term=gene fusions"
    );
}

#[test]
fn first_search_result_link() {
    let doc = Document::parse(
        r#"<html><body><a class="other" href="/1/">x</a><a class="docsum-title" href="/35918585/">This is a <b>test</b></a><a class="docsum-title" href="/2/">y</a></body></html>"#,
    );
    assert_eq!(
        pubmed_bib::search::fetch_paper_url(&doc),
        Some("https://pubmed.ncbi.nlm.nih.gov/35918585/".to_string())
    );
}

#[test]
fn search_page_without_results() {
    let doc = Document::parse("<html><body><p>No results</p></body></html>");
    assert_eq!(pubmed_bib::search::fetch_paper_url(&doc), None);
}

#[test]
fn page_range_needs_hyphen() {
    assert!(pubmed_bib::fetch::check_page("448-460"));
    assert!(!pubmed_bib::fetch::check_page("31(3)"));
    assert!(!pubmed_bib::fetch::check_page(""));
}
