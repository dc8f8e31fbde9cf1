//! The citation record: built from a page, keyed, and rendered as a BibTeX entry.

use vstd::prelude::*;
use crate::fetch::{
    author_from, copyright_nodes, fetch_author, fetch_doi, fetch_journal, fetch_number, fetch_page,
    fetch_publisher, fetch_title, fetch_volume, fetch_year, meta, pages_of, publisher_of,
    summary_nodes, year_from, Block, Field, FetchError,
};
use crate::page::Document;
use crate::text::{
    chars_of, first_word, first_word_chars, opt_view, push_all, replace_separator,
    replace_separator_chars, string_of,
};

verus! {

/// What `str::to_lowercase` makes of `s`.
pub uninterp spec fn lower_of(s: Seq<char>) -> Seq<char>;

/// Relies on `str::to_lowercase`: the lower-case form, a function of the characters alone.
#[verifier::external_body]
fn lowercase(s: &str) -> (r: String)
    ensures
        r@ == lower_of(s@),
{
    s.to_lowercase()
}

/// A citation record of type `article`. The required fields are plain strings;
/// an optional field that the page does not give is `None`. The month is
/// reserved: no rule reads one, and it is always absent.
#[derive(Debug)]
pub struct Bibtex {
    btype: String,
    title: String,
    author: String,
    journal: String,
    year: String,
    volume: Option<String>,
    number: Option<String>,
    pages: Option<String>,
    publisher: Option<String>,
    doi: Option<String>,
    month: Option<String>,
}

/// The text of a record's fields.
pub struct BibtexView {
    pub title: Seq<char>,
    /// The authors, separated by `;`.
    pub author: Seq<char>,
    pub journal: Seq<char>,
    pub year: Seq<char>,
    pub volume: Option<Seq<char>>,
    pub number: Option<Seq<char>>,
    pub pages: Option<Seq<char>>,
    pub publisher: Option<Seq<char>>,
    pub doi: Option<Seq<char>>,
}

impl View for Bibtex {
    type V = BibtexView;

    closed spec fn view(&self) -> BibtexView {
        BibtexView {
            title: self.title@,
            author: self.author@,
            journal: self.journal@,
            year: self.year@,
            volume: opt_view(self.volume),
            number: opt_view(self.number),
            pages: opt_view(self.pages),
            publisher: opt_view(self.publisher),
            doi: opt_view(self.doi),
        }
    }
}

/// The separator that stands for each `;` of the authors in an entry.
pub open spec fn and_sep() -> Seq<char> {
    seq![' ', 'a', 'n', 'd', ' ']
}

/// The citation key: the lower-cased first words of the authors, the year and
/// the title, in that order.
pub open spec fn cite_key_of(b: BibtexView) -> Seq<char> {
    lower_of(first_word(b.author) + first_word(b.year) + first_word(b.title))
}

/// The line `  key = {value},`.
pub open spec fn field_line(key: Seq<char>, value: Seq<char>) -> Seq<char> {
    "  "@ + key + " = {"@ + value + "},\n"@
}

/// The lines of `fields`, in order.
pub open spec fn lines(fields: Seq<(Seq<char>, Seq<char>)>) -> Seq<char>
    decreases fields.len(),
{
    if fields.len() == 0 {
        Seq::empty()
    } else {
        lines(fields.drop_last()) + field_line(fields.last().0, fields.last().1)
    }
}

/// The field `key` where `value` is present; nothing where it is absent.
pub open spec fn optional_field(key: Seq<char>, value: Option<Seq<char>>) -> Seq<
    (Seq<char>, Seq<char>),
> {
    match value {
        Some(v) => seq![(key, v)],
        None => Seq::empty(),
    }
}

/// The authors as an entry lists them: each `;`, with the spaces (U+0020)
/// right after it, becomes ` and `; other white space stays.
pub open spec fn author_list(author: Seq<char>) -> Seq<char> {
    replace_separator(author, ';', and_sep())
}

/// The fields of an entry, keys and values, in the order they are written.
pub open spec fn fields_of(b: BibtexView) -> Seq<(Seq<char>, Seq<char>)> {
    seq![("title"@, b.title), ("author"@, author_list(b.author)), ("journal"@, b.journal)]
        + optional_field("volume"@, b.volume) + optional_field("number"@, b.number)
        + optional_field("pages"@, b.pages) + seq![("year"@, b.year)] + optional_field(
        "publisher"@,
        b.publisher,
    ) + optional_field("doi"@, b.doi)
}

/// The entry for `b`: its opening line, its field lines, and the closing brace.
pub open spec fn render(b: BibtexView) -> Seq<char> {
    "@"@ + "article"@ + "{"@ + cite_key_of(b) + ",\n"@ + lines(fields_of(b)) + "}\n"@
}

/// The first reason, in the order the fields are read, why no record can be
/// read from the page `src`; `None` where one can.
pub open spec fn extraction_error(src: Seq<char>) -> Option<FetchError> {
    if meta(src, "citation_title") is None {
        Some(FetchError::MissingRequiredField(Field::Title))
    } else if meta(src, "citation_authors") is None {
        Some(FetchError::MissingRequiredField(Field::Author))
    } else if meta(src, "citation_date") is None {
        Some(FetchError::MissingRequiredField(Field::Year))
    } else if meta(src, "citation_journal_title") is None {
        Some(FetchError::MissingRequiredField(Field::Journal))
    } else if summary_nodes(src) is None {
        Some(FetchError::StructureAssumptionViolated(Block::CitationSummary))
    } else if copyright_nodes(src) is None {
        Some(FetchError::StructureAssumptionViolated(Block::Copyright))
    } else {
        None
    }
}

/// `b` holds what the rules read from the page `src`.
pub open spec fn extracted_from(b: BibtexView, src: Seq<char>) -> bool {
    &&& meta(src, "citation_title") == Some(b.title)
    &&& author_from(src) == Some(b.author)
    &&& year_from(src) == Some(b.year)
    &&& meta(src, "citation_journal_title") == Some(b.journal)
    &&& b.volume == meta(src, "citation_volume")
    &&& b.number == meta(src, "citation_issue")
    &&& b.pages == pages_of(summary_nodes(src)->0)
    &&& b.publisher == Some(publisher_of(copyright_nodes(src)->0))
    &&& b.doi == meta(src, "citation_doi")
}

/// Some field of `fields` has the key `key`.
pub open spec fn has_key(fields: Seq<(Seq<char>, Seq<char>)>, key: Seq<char>) -> bool {
    exists|i: int| 0 <= i < fields.len() && #[trigger] fields[i].0 == key
}

/// Formatting depends on the text of the fields alone: two records with the
/// same content, among them one record formatted twice, give the same entry.
pub proof fn lemma_format_deterministic(a: Bibtex, b: Bibtex)
    requires
        a@ == b@,
    ensures
        render(a@) == render(b@),
{
}

/// The citation key depends on the authors, the year and the title alone.
pub proof fn lemma_cite_key_depends_on_three_fields(a: BibtexView, b: BibtexView)
    requires
        a.author == b.author,
        a.year == b.year,
        a.title == b.title,
    ensures
        cite_key_of(a) == cite_key_of(b),
{
}

/// An optional field that is absent has no line in the entry: the entry is its
/// opening line, a line for each of `fields_of(b)` and the closing brace, and
/// none of those fields carries the absent key.
pub proof fn lemma_absent_field_omitted(b: BibtexView)
    ensures
        render(b) == "@article{"@ + cite_key_of(b) + ",\n"@ + lines(fields_of(b)) + "}\n"@,
        b.volume is None ==> !has_key(fields_of(b), "volume"@),
        b.number is None ==> !has_key(fields_of(b), "number"@),
        b.pages is None ==> !has_key(fields_of(b), "pages"@),
        b.publisher is None ==> !has_key(fields_of(b), "publisher"@),
        b.doi is None ==> !has_key(fields_of(b), "doi"@),
{
    reveal_strlit("@");
    reveal_strlit("article");
    reveal_strlit("{");
    reveal_strlit("@article{");
    assert("@"@ + "article"@ + "{"@ =~= "@article{"@);
    reveal_strlit("title");
    reveal_strlit("author");
    reveal_strlit("journal");
    reveal_strlit("volume");
    reveal_strlit("number");
    reveal_strlit("pages");
    reveal_strlit("year");
    reveal_strlit("publisher");
    reveal_strlit("doi");
    let f = fields_of(b);
    assert forall|i: int| 0 <= i < f.len() implies {
        let k = #[trigger] f[i].0;
        &&& (b.volume is None ==> k != "volume"@)
        &&& (b.number is None ==> k != "number"@)
        &&& (b.pages is None ==> k != "pages"@)
        &&& (b.publisher is None ==> k != "publisher"@)
        &&& (b.doi is None ==> k != "doi"@)
    } by {
        let k = f[i].0;
        assert(k == "title"@ || k == "author"@ || k == "journal"@ || k == "year"@ || (k
            == "volume"@ && b.volume is Some) || (k == "number"@ && b.number is Some) || (k
            == "pages"@ && b.pages is Some) || (k == "publisher"@ && b.publisher is Some) || (k
            == "doi"@ && b.doi is Some));
        assert("volume"@[0] != "number"@[0]);
        assert("pages"@[0] != "title"@[0]);
        assert("year"@[0] != "doi"@[0]);
    }
}

/// Appends the line `  key = {value},` to `out`, whose text is the entry so far.
fn push_field(
    out: &mut Vec<char>,
    key: &str,
    value: &Vec<char>,
    Ghost(head): Ghost<Seq<char>>,
    Ghost(fields): Ghost<Seq<(Seq<char>, Seq<char>)>>,
)
    requires
        old(out)@ == head + lines(fields),
    ensures
        final(out)@ == head + lines(fields.push((key@, value@))),
{
    push_all(out, &chars_of("  "));
    push_all(out, &chars_of(key));
    push_all(out, &chars_of(" = {"));
    push_all(out, value);
    push_all(out, &chars_of("},\n"));
    proof {
        let next = fields.push((key@, value@));
        assert(next.drop_last() =~= fields);
        assert(out@ =~= head + lines(next));
    }
}

/// Appends the line for `key` to `out` where `value` is present.
fn push_optional(
    out: &mut Vec<char>,
    key: &str,
    value: &Option<String>,
    Ghost(head): Ghost<Seq<char>>,
    Ghost(fields): Ghost<Seq<(Seq<char>, Seq<char>)>>,
)
    requires
        old(out)@ == head + lines(fields),
    ensures
        final(out)@ == head + lines(fields + optional_field(key@, opt_view(*value))),
{
    match value {
        Some(v) => {
            let c = chars_of(v.as_str());
            push_field(out, key, &c, Ghost(head), Ghost(fields));
            proof {
                assert(fields + optional_field(key@, opt_view(*value)) =~= fields.push(
                    (key@, v@),
                ));
            }
        },
        None => {
            proof {
                assert(fields + optional_field(key@, opt_view(*value)) =~= fields);
            }
        },
    }
}

impl Bibtex {
    #[verifier::type_invariant]
    spec fn inv(self) -> bool {
        &&& self.btype@ == "article"@
        &&& self.month is None
    }

    /// A record of type `article` with the given fields and no month.
    pub fn from_fields(
        title: String,
        author: String,
        journal: String,
        year: String,
        volume: Option<String>,
        number: Option<String>,
        pages: Option<String>,
        publisher: Option<String>,
        doi: Option<String>,
    ) -> (r: Bibtex)
        ensures
            r@ == (BibtexView {
                title: title@,
                author: author@,
                journal: journal@,
                year: year@,
                volume: opt_view(volume),
                number: opt_view(number),
                pages: opt_view(pages),
                publisher: opt_view(publisher),
                doi: opt_view(doi),
            }),
    {
        Bibtex {
            btype: "article".to_owned(),
            title,
            author,
            journal,
            year,
            volume,
            number,
            pages,
            publisher,
            doi,
            month: None,
        }
    }

    /// Reads a record from a page; an error where a required field or an
    /// element the rules rely on is missing.
    pub fn new(doc: &Document) -> (r: Result<Bibtex, FetchError>)
        ensures
            match extraction_error(doc@) {
                Some(e) => r matches Err(x) && x == e,
                None => r matches Ok(b) && extracted_from(b@, doc@),
            },
    {
        let title = match fetch_title(doc) {
            Some(t) => t,
            None => return Err(FetchError::MissingRequiredField(Field::Title)),
        };
        let author = match fetch_author(doc) {
            Some(a) => a,
            None => return Err(FetchError::MissingRequiredField(Field::Author)),
        };
        let year = match fetch_year(doc) {
            Ok(y) => y,
            Err(e) => return Err(e),
        };
        let journal = match fetch_journal(doc) {
            Some(j) => j,
            None => return Err(FetchError::MissingRequiredField(Field::Journal)),
        };
        let volume = fetch_volume(doc);
        let number = fetch_number(doc);
        let pages = match fetch_page(doc) {
            Ok(p) => p,
            Err(e) => return Err(e),
        };
        let publisher = match fetch_publisher(doc) {
            Ok(p) => p,
            Err(e) => return Err(e),
        };
        let doi = fetch_doi(doc);
        Ok(
            Bibtex::from_fields(
                title,
                author,
                journal,
                year,
                volume,
                number,
                pages,
                Some(publisher),
                doi,
            ),
        )
    }

    /// The entry type, which is always `article`.
    pub fn btype(&self) -> (r: &String)
        ensures
            r@ == "article"@,
    {
        proof {
            use_type_invariant(self);
        }
        &self.btype
    }

    pub fn title(&self) -> (r: &String)
        ensures
            r@ == self@.title,
    {
        &self.title
    }

    /// The authors, separated by `;`.
    pub fn author(&self) -> (r: &String)
        ensures
            r@ == self@.author,
    {
        &self.author
    }

    pub fn journal(&self) -> (r: &String)
        ensures
            r@ == self@.journal,
    {
        &self.journal
    }

    pub fn year(&self) -> (r: &String)
        ensures
            r@ == self@.year,
    {
        &self.year
    }

    pub fn volume(&self) -> (r: &Option<String>)
        ensures
            opt_view(*r) == self@.volume,
    {
        &self.volume
    }

    pub fn number(&self) -> (r: &Option<String>)
        ensures
            opt_view(*r) == self@.number,
    {
        &self.number
    }

    pub fn pages(&self) -> (r: &Option<String>)
        ensures
            opt_view(*r) == self@.pages,
    {
        &self.pages
    }

    pub fn publisher(&self) -> (r: &Option<String>)
        ensures
            opt_view(*r) == self@.publisher,
    {
        &self.publisher
    }

    pub fn doi(&self) -> (r: &Option<String>)
        ensures
            opt_view(*r) == self@.doi,
    {
        &self.doi
    }

    /// The month, which no rule reads yet: always absent.
    pub fn month(&self) -> (r: &Option<String>)
        ensures
            r is None,
    {
        proof {
            use_type_invariant(self);
        }
        &self.month
    }

    /// The citation key of the record.
    pub fn cite_key(&self) -> (r: String)
        ensures
            r@ == cite_key_of(self@),
    {
        let mut key = first_word_chars(&chars_of(self.author.as_str()));
        push_all(&mut key, &first_word_chars(&chars_of(self.year.as_str())));
        push_all(&mut key, &first_word_chars(&chars_of(self.title.as_str())));
        let joined = string_of(&key);
        lowercase(joined.as_str())
    }

    /// The record as a BibTeX entry: opening line, one line per field present, in
    /// the order title, author, journal, volume, number, pages, year, publisher,
    /// doi, and the closing brace.
    pub fn fmt(&self) -> (r: String)
        ensures
            r@ == render(self@),
    {
        proof {
            use_type_invariant(self);
        }
        let mut out = chars_of("@");
        push_all(&mut out, &chars_of(self.btype.as_str()));
        push_all(&mut out, &chars_of("{"));
        let key = self.cite_key();
        push_all(&mut out, &chars_of(key.as_str()));
        push_all(&mut out, &chars_of(",\n"));
        let ghost head = out@;
        let ghost mut fields: Seq<(Seq<char>, Seq<char>)> = Seq::empty();
        proof {
            assert(out@ =~= head + lines(fields));
        }
        push_field(&mut out, "title", &chars_of(self.title.as_str()), Ghost(head), Ghost(fields));
        proof {
            fields = fields.push(("title"@, self.title@));
        }
        let sep = vec![' ', 'a', 'n', 'd', ' '];
        proof {
            assert(sep@ =~= and_sep());
        }
        let author = replace_separator_chars(&chars_of(self.author.as_str()), ';', &sep);
        push_field(&mut out, "author", &author, Ghost(head), Ghost(fields));
        proof {
            fields = fields.push(("author"@, author@));
        }
        push_field(
            &mut out,
            "journal",
            &chars_of(self.journal.as_str()),
            Ghost(head),
            Ghost(fields),
        );
        proof {
            fields = fields.push(("journal"@, self.journal@));
        }
        push_optional(&mut out, "volume", &self.volume, Ghost(head), Ghost(fields));
        proof {
            fields = fields + optional_field("volume"@, opt_view(self.volume));
        }
        push_optional(&mut out, "number", &self.number, Ghost(head), Ghost(fields));
        proof {
            fields = fields + optional_field("number"@, opt_view(self.number));
        }
        push_optional(&mut out, "pages", &self.pages, Ghost(head), Ghost(fields));
        proof {
            fields = fields + optional_field("pages"@, opt_view(self.pages));
        }
        push_field(&mut out, "year", &chars_of(self.year.as_str()), Ghost(head), Ghost(fields));
        proof {
            fields = fields.push(("year"@, self.year@));
        }
        push_optional(&mut out, "publisher", &self.publisher, Ghost(head), Ghost(fields));
        proof {
            fields = fields + optional_field("publisher"@, opt_view(self.publisher));
        }
        push_optional(&mut out, "doi", &self.doi, Ghost(head), Ghost(fields));
        proof {
            fields = fields + optional_field("doi"@, opt_view(self.doi));
            assert(fields =~= fields_of(self@));
        }
        push_all(&mut out, &chars_of("}\n"));
        string_of(&out)
    }
}

} // verus!
