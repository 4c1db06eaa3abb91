//! Suggestions from the full-text index of timezone display names.
//!
//! The index itself is tantivy's. This module decides when it is asked at all,
//! what becomes of each way a query can end, and which stored value of a matching
//! document is offered to the user.

use vstd::prelude::*;
use vstd::string::StrSliceExecFns;

verus! {

/// Partial input of fewer characters than this is never searched for.
pub const MIN_QUERY_CHARS: usize = 3;

/// The most suggestions one answer carries.
pub const MAX_SUGGESTIONS: usize = 10;

/// The schema field that holds the display string of an entry, and the one that
/// a query without a field name is matched against.
pub const DISPLAY_FIELD: u32 = 0;

/// tantivy's `IndexReader`, which hands out searchers. Nothing is known of it.
#[verifier::external_type_specification]
#[verifier::external_body]
pub struct ExIndexReader(tantivy::IndexReader);

/// tantivy's `Searcher`, a fixed set of segments of an index. It is known only
/// through `stored_documents` and `schema_width`.
#[verifier::external_type_specification]
#[verifier::external_body]
pub struct ExSearcher(tantivy::Searcher);

/// tantivy's `LeasedItem`, the form in which a reader hands out a searcher: it
/// stands for the searcher until it is dropped.
#[verifier::external_type_specification]
#[verifier::external_body]
#[verifier::reject_recursive_types(T)]
pub struct ExLeasedItem<T>(tantivy::LeasedItem<T>);

/// tantivy's `QueryParserError`: why a text is no valid query. It is carried, not
/// read.
#[verifier::external_type_specification]
#[verifier::external_body]
pub struct ExQueryParserError(tantivy::query::QueryParserError);

/// tantivy's `TantivyError`: why the index failed. It is carried, not read.
#[verifier::external_type_specification]
#[verifier::external_body]
pub struct ExTantivyError(tantivy::TantivyError);

/// The documents of a searcher's segments that are not deleted, by address
/// (segment ordinal, then the document's id within the segment). A document is
/// the list of its stored values in stored order: the field's id, and the text if
/// the value is text.
pub uninterp spec fn stored_documents(searcher: tantivy::LeasedItem<tantivy::Searcher>) -> Map<
    (u32, u32),
    Seq<(u32, Option<Seq<char>>)>,
>;

/// What a query comes to on a searcher, by the text, the default field and the
/// limit: `None` for a text that is no valid query, else the addresses of the best
/// matches, best first, as a search that succeeds returns them.
///
/// A searcher holds a fixed set of segments, and the search breaks ties between
/// equal scores by address, so the same query has the same matches. What parses
/// depends on the schema and on the tokenizers of the index: the name holds as
/// long as no tokenizer is registered on the index after it was opened.
pub uninterp spec fn query_results(searcher: tantivy::LeasedItem<tantivy::Searcher>) -> Map<
    (Seq<char>, u32, nat),
    Option<Seq<(u32, u32)>>,
>;

/// The number of fields in the schema of the index that a searcher reads.
pub uninterp spec fn schema_width(searcher: tantivy::LeasedItem<tantivy::Searcher>) -> nat;

/// One stored value of a document, as far as suggestions read it.
pub struct StoredField {
    /// The id of the schema field that the value belongs to.
    pub field: u32,
    /// The text, where the value is text; `None` for a value of any other kind.
    pub text: Option<String>,
}

/// Why no list of suggestions could be produced.
#[derive(Clone, Debug, PartialEq, Eq)]
pub enum SuggestError {
    /// The index has no display field to search.
    NoDisplayField,
    /// The index failed while the query ran; the text is the index's own account
    /// of it, for the error sink.
    Search(String),
    /// The index failed while a matching document was read; the text is the
    /// index's own account of it, for the error sink.
    Fetch(String),
}

/// What became of one query: the outer `Err` says that the text is no valid
/// query, the inner one that the index failed while running it.
pub type QueryOutcome = Result<
    Result<Vec<(u32, u32)>, tantivy::TantivyError>,
    tantivy::query::QueryParserError,
>;

/// A stored value as the contracts speak of it.
pub open spec fn field_view(field: StoredField) -> (u32, Option<Seq<char>>) {
    (
        field.field,
        match field.text {
            Some(text) => Some(text@),
            None => None,
        },
    )
}

/// A document as the contracts speak of it.
pub open spec fn document_view(fields: Seq<StoredField>) -> Seq<(u32, Option<Seq<char>>)> {
    fields.map_values(|field: StoredField| field_view(field))
}

/// A list of strings as the contracts speak of it.
pub open spec fn texts(strings: Seq<String>) -> Seq<Seq<char>> {
    strings.map_values(|s: String| s@)
}

/// True of a stored value that can serve as a display string.
pub open spec fn is_display_value(value: (u32, Option<Seq<char>>)) -> bool {
    value.0 == DISPLAY_FIELD && value.1.is_some()
}

/// The display string of a document: its first text value in the display field.
pub open spec fn display_text(document: Seq<(u32, Option<Seq<char>>)>) -> Option<Seq<char>>
    decreases document.len(),
{
    if document.len() == 0 {
        None
    } else if is_display_value(document[0]) {
        document[0].1
    } else {
        display_text(document.drop_first())
    }
}

/// The display strings of a list of documents, in the order of the documents; a
/// document without one contributes nothing.
pub open spec fn display_texts(documents: Seq<Seq<(u32, Option<Seq<char>>)>>) -> Seq<Seq<char>>
    decreases documents.len(),
{
    if documents.len() == 0 {
        Seq::empty()
    } else {
        let before = display_texts(documents.drop_last());
        match display_text(documents.last()) {
            Some(text) => before.push(text),
            None => before,
        }
    }
}

/// The documents at a list of addresses.
pub open spec fn documents_at(
    searcher: tantivy::LeasedItem<tantivy::Searcher>,
    hits: Seq<(u32, u32)>,
) -> Seq<Seq<(u32, Option<Seq<char>>)>> {
    hits.map_values(|address: (u32, u32)| stored_documents(searcher)[address])
}

/// True when the searcher holds a document at each of the addresses.
pub open spec fn all_stored(
    searcher: tantivy::LeasedItem<tantivy::Searcher>,
    hits: Seq<(u32, u32)>,
) -> bool {
    forall|i: int| 0 <= i < hits.len() ==> stored_documents(searcher).dom().contains(#[trigger] hits[i])
}

/// Calls `IndexReader::searcher`, which hands out a searcher over the segments
/// that the reader currently knows. Nothing is claimed of it.
#[verifier::external_body]
fn lease(reader: &tantivy::IndexReader) -> (searcher: tantivy::LeasedItem<tantivy::Searcher>) {
    reader.searcher()
}

/// Counts the fields of `Searcher::schema`. The schema of an index is fixed when
/// the index is made, so the count is a property of the searcher.
#[verifier::external_body]
fn field_count(searcher: &tantivy::LeasedItem<tantivy::Searcher>) -> (n: usize)
    ensures
        n == schema_width(*searcher),
{
    searcher.schema().fields().count()
}

/// Parses `text` with `QueryParser::parse_query`, `field` being the default
/// field of a parser made by `QueryParser::for_index` for the searcher's index, and
/// runs the query with `Searcher::search` and `TopDocs::with_limit(limit)`.
///
/// The parser looks the default field up in the schema and panics if it is not
/// there; `TopDocs::with_limit` panics on a limit of 0. A search that succeeds
/// returns at most `limit` addresses, best match first, each of a document in
/// one of the searcher's segments. Which texts parse and which documents match
/// is `query_results` of the searcher, which holds as long as no tokenizer is
/// registered on the index after it was opened.
#[verifier::external_body]
fn ranked_matches(
    searcher: &tantivy::LeasedItem<tantivy::Searcher>,
    text: &str,
    field: u32,
    limit: usize,
) -> (outcome: QueryOutcome)
    requires
        field < schema_width(*searcher),
        limit >= 1,
    ensures
        outcome matches Ok(Ok(hits)) ==> hits@.len() <= limit && all_stored(*searcher, hits@),
        outcome is Err <==> query_results(*searcher)[(text@, field, limit as nat)] is None,
        outcome matches Ok(Ok(hits)) ==> query_results(*searcher)[(text@, field, limit as nat)] == Some(
            hits@,
        ),
{
    let fields = vec![tantivy::schema::Field::from_field_id(field)];
    let parser = tantivy::query::QueryParser::for_index(searcher.index(), fields);
    let query = parser.parse_query(text)?;
    let found = searcher.search(&query, &tantivy::collector::TopDocs::with_limit(limit));
    Ok(found.map(|hits| hits.into_iter().map(|(_, at)| (at.segment_ord, at.doc_id)).collect()))
}

/// The addresses of all documents of the searcher's segments that are not
/// deleted: `Searcher::segment_readers` in order, and of each segment what
/// `SegmentReader::doc_ids_alive` goes through.
#[verifier::external_body]
fn live_addresses(searcher: &tantivy::LeasedItem<tantivy::Searcher>) -> (all: Vec<(u32, u32)>)
    ensures
        all_stored(*searcher, all@),
        forall|address: (u32, u32)| #[trigger]
            stored_documents(*searcher).dom().contains(address) ==> all@.contains(address),
{
    searcher.segment_readers().iter().enumerate().flat_map(
        |(ordinal, segment)| segment.doc_ids_alive().map(move |doc| (ordinal as u32, doc)),
    ).collect()
}

/// The account that a `TantivyError` gives of itself, by its `Display`. Nothing
/// is claimed of the text.
#[verifier::external_body]
fn describe(error: &tantivy::TantivyError) -> (text: String) {
    error.to_string()
}

/// Fetches a document with `Searcher::doc` and hands out its values in stored
/// order, each with its field id and, for a `Value::Str`, its text.
///
/// `Searcher::doc` indexes its segments by the address's segment ordinal and
/// panics on one that it does not have, so the address must be of a document
/// that the searcher holds.
#[verifier::external_body]
fn stored_fields(
    searcher: &tantivy::LeasedItem<tantivy::Searcher>,
    segment: u32,
    doc: u32,
) -> (r: Result<Vec<StoredField>, tantivy::TantivyError>)
    requires
        stored_documents(*searcher).dom().contains((segment, doc)),
    ensures
        r matches Ok(fields) ==> document_view(fields@) == stored_documents(*searcher)[(
            segment,
            doc,
        )],
{
    let document = searcher.doc(tantivy::DocAddress::new(segment, doc))?;
    Ok(
        document.into_iter().map(
            |value| StoredField {
                field: value.field.field_id(),
                text: match value.value {
                    tantivy::schema::Value::Str(text) => Some(text),
                    _ => None,
                },
            },
        ).collect(),
    )
}

/// The display string of a fetched document.
pub fn display_string(fields: &Vec<StoredField>) -> (r: Option<String>)
    ensures
        match r {
            Some(text) => display_text(document_view(fields@)) == Some(text@),
            None => display_text(document_view(fields@)).is_none(),
        },
{
    let mut i: usize = 0;
    assert(document_view(fields@).skip(0) == document_view(fields@));
    while i < fields.len()
        invariant
            i <= fields.len(),
            display_text(document_view(fields@)) == display_text(
                document_view(fields@).skip(i as int),
            ),
        decreases fields.len() - i,
    {
        let ghost rest = document_view(fields@).skip(i as int);
        assert(rest[0] == field_view(fields@[i as int]));
        assert(rest.drop_first() == document_view(fields@).skip(i + 1));
        if fields[i].field == DISPLAY_FIELD {
            match &fields[i].text {
                Some(text) => {
                    return Some(text.clone());
                },
                None => {},
            }
        }
        i += 1;
    }
    None
}

/// Dropping the last address drops the last document.
proof fn lemma_documents_at_step(
    searcher: tantivy::LeasedItem<tantivy::Searcher>,
    hits: Seq<(u32, u32)>,
    i: int,
)
    requires
        0 <= i < hits.len(),
    ensures
        documents_at(searcher, hits.take(i + 1)).drop_last() == documents_at(searcher, hits.take(i)),
        documents_at(searcher, hits.take(i + 1)).last() == stored_documents(searcher)[hits[i]],
{
    assert(hits.take(i + 1).drop_last() == hits.take(i));
}

/// Fetches the documents at `hits` in order and gathers their display strings.
fn display_strings_at(searcher: &tantivy::LeasedItem<tantivy::Searcher>, hits: &Vec<(u32, u32)>) -> (r:
    Result<Vec<String>, SuggestError>)
    requires
        all_stored(*searcher, hits@),
    ensures
        match r {
            Ok(found) => texts(found@) == display_texts(documents_at(*searcher, hits@))
                && found@.len() <= hits@.len(),
            Err(e) => e is Fetch && hits@.len() > 0,
        },
{
    let mut found: Vec<String> = Vec::new();
    let mut i: usize = 0;
    assert(hits@.take(0) == Seq::<(u32, u32)>::empty());
    while i < hits.len()
        invariant
            i <= hits.len(),
            all_stored(*searcher, hits@),
            texts(found@) == display_texts(documents_at(*searcher, hits@.take(i as int))),
            found@.len() <= i,
        decreases hits.len() - i,
    {
        let (segment, doc) = hits[i];
        assert(stored_documents(*searcher).dom().contains(hits@[i as int]));
        match stored_fields(searcher, segment, doc) {
            Err(failure) => {
                return Err(SuggestError::Fetch(describe(&failure)));
            },
            Ok(fields) => {
                proof {
                    lemma_documents_at_step(*searcher, hits@, i as int);
                }
                match display_string(&fields) {
                    Some(text) => {
                        let ghost before = found@;
                        found.push(text);
                        assert(texts(found@) == texts(before).push(text@));
                    },
                    None => {},
                }
            },
        }
        i += 1;
    }
    assert(hits@.take(hits@.len() as int) == hits@);
    Ok(found)
}

/// Turns the outcome of a query into the list of suggestions.
///
/// Text that is no valid query gives no suggestions and no error: a user who is
/// still typing must not see a failure. A failure of the index is reported. The
/// addresses of a successful search are fetched in ranked order, and the display
/// string of each document that has one is offered.
pub fn collect(searcher: &tantivy::LeasedItem<tantivy::Searcher>, outcome: QueryOutcome) -> (r: Result<
    Vec<String>,
    SuggestError,
>)
    requires
        outcome matches Ok(Ok(hits)) ==> all_stored(*searcher, hits@),
    ensures
        outcome is Err ==> (r matches Ok(found) && found@.len() == 0),
        outcome matches Ok(Err(_)) ==> (r matches Err(e) && e is Search),
        outcome matches Ok(Ok(hits)) && hits@.len() == 0 ==> (r matches Ok(found) && found@.len() == 0),
        outcome matches Ok(Ok(hits)) ==> match r {
            Ok(found) => texts(found@) == display_texts(documents_at(*searcher, hits@))
                && found@.len() <= hits@.len(),
            Err(e) => e is Fetch && hits@.len() > 0,
        },
{
    match outcome {
        Err(_) => Ok(Vec::new()),
        Ok(Err(failure)) => Err(SuggestError::Search(describe(&failure))),
        Ok(Ok(hits)) => display_strings_at(searcher, &hits),
    }
}

/// What a search for input of `MIN_QUERY_CHARS` characters or more comes to, for the
/// searcher that served it.
///
/// An index without a display field is reported and not searched. Otherwise
/// the suggestions are the display strings of at most `MAX_SUGGESTIONS`
/// documents that the searcher holds, in the order in which the search ranked
/// them (of none, where the input is no valid query), and the only errors are
/// failures of the index while it searched or fetched.
pub open spec fn served_by(
    searcher: tantivy::LeasedItem<tantivy::Searcher>,
    r: Result<Vec<String>, SuggestError>,
) -> bool {
    if schema_width(searcher) <= DISPLAY_FIELD {
        r matches Err(e) && e is NoDisplayField
    } else {
        match r {
            Ok(found) => exists|hits: Seq<(u32, u32)>|
                hits.len() <= MAX_SUGGESTIONS && all_stored(searcher, hits) && #[trigger] display_texts(
                    documents_at(searcher, hits),
                ) == texts(found@),
            Err(e) => e is Search || e is Fetch,
        }
    }
}

/// What a search for a given input comes to, for the searcher that served it
/// and has a display field: text that is no valid query gives no suggestions
/// and no error; for any other text the suggestions are the display strings of
/// the documents that the query matches on that searcher, in ranked order, and
/// the only errors are failures of the index.
pub open spec fn answers(
    searcher: tantivy::LeasedItem<tantivy::Searcher>,
    partial: Seq<char>,
    r: Result<Vec<String>, SuggestError>,
) -> bool {
    match query_results(searcher)[(partial, DISPLAY_FIELD, MAX_SUGGESTIONS as nat)] {
        None => r matches Ok(found) && found@.len() == 0,
        Some(hits) => match r {
            Ok(found) => {
                &&& hits.len() <= MAX_SUGGESTIONS
                &&& all_stored(searcher, hits)
                &&& texts(found@) == display_texts(documents_at(searcher, hits))
            },
            Err(e) => e is Search || e is Fetch,
        },
    }
}

/// What `suggest` comes to for a given input.
///
/// Input of fewer than `MIN_QUERY_CHARS` characters gives no suggestions and no
/// error. Other input is searched for on one searcher: `served_by` and `answers`
/// say what the result is for that searcher. There are never more than
/// `MAX_SUGGESTIONS` suggestions.
pub open spec fn suggested(partial: Seq<char>, r: Result<Vec<String>, SuggestError>) -> bool {
    &&& r matches Ok(found) ==> found@.len() <= MAX_SUGGESTIONS
    &&& if partial.len() < MIN_QUERY_CHARS {
        r matches Ok(found) && found@.len() == 0
    } else {
        exists|searcher: tantivy::LeasedItem<tantivy::Searcher>| #[trigger]
            served_by(searcher, r) && (schema_width(searcher) > DISPLAY_FIELD ==> answers(
                searcher,
                partial,
                r,
            ))
    }
}

/// The addresses that an outcome holds: those of a search that succeeded, none
/// otherwise.
pub open spec fn ranked_or_none(outcome: QueryOutcome) -> Seq<(u32, u32)> {
    match outcome {
        Ok(Ok(hits)) => hits@,
        _ => Seq::empty(),
    }
}

/// True when a searcher holds a document whose display string is the text as it
/// stands.
pub open spec fn holds_display_text(searcher: tantivy::LeasedItem<tantivy::Searcher>, text: Seq<char>) -> bool {
    exists|address: (u32, u32)|
        stored_documents(searcher).dom().contains(address) && display_text(
            #[trigger] stored_documents(searcher)[address],
        ) == Some(text)
}

/// What `offers` comes to for a text, for the searcher that served it: whether
/// that searcher holds a document with the text as its display string, or a
/// failure of the index while a document was read.
pub open spec fn told_by(
    searcher: tantivy::LeasedItem<tantivy::Searcher>,
    text: Seq<char>,
    r: Result<bool, SuggestError>,
) -> bool {
    match r {
        Ok(held) => held == holds_display_text(searcher, text),
        Err(e) => e is Fetch,
    }
}

/// What `offers` comes to for a text: what one searcher tells of it.
pub open spec fn offer_known(text: Seq<char>, r: Result<bool, SuggestError>) -> bool {
    exists|searcher: tantivy::LeasedItem<tantivy::Searcher>| #[trigger] told_by(searcher, text, r)
}

/// The index of timezone display names, opened for reading.
pub struct TimezoneIndex {
    reader: tantivy::IndexReader,
}

impl TimezoneIndex {
    /// The reader that the index searches through.
    pub closed spec fn reader(&self) -> tantivy::IndexReader {
        self.reader
    }

    /// Wraps a reader of the index.
    pub fn new(reader: tantivy::IndexReader) -> (index: TimezoneIndex)
        ensures
            index.reader() == reader,
    {
        TimezoneIndex { reader }
    }

    /// Up to `MAX_SUGGESTIONS` display strings for text that the user is still
    /// typing, best match first.
    ///
    /// Fewer than `MIN_QUERY_CHARS` characters of input give the empty list without a
    /// look at the index. Otherwise one searcher serves the whole call: the
    /// input is searched for as it stands, in the display field, for the best
    /// `MAX_SUGGESTIONS` matches, and `collect` turns the outcome into the result.
    pub fn suggest(&self, partial: &str) -> (r: Result<Vec<String>, SuggestError>)
        ensures
            suggested(partial@, r),
    {
        if partial.unicode_len() < MIN_QUERY_CHARS {
            return Ok(Vec::new());
        }
        let searcher = lease(&self.reader);
        if field_count(&searcher) <= DISPLAY_FIELD as usize {
            let r = Err(SuggestError::NoDisplayField);
            assert(served_by(searcher, r));
            return r;
        }
        let outcome = ranked_matches(&searcher, partial, DISPLAY_FIELD, MAX_SUGGESTIONS);
        let ghost hits: Seq<(u32, u32)> = ranked_or_none(outcome);
        let r = collect(&searcher, outcome);
        proof {
            if r is Ok {
                assert(all_stored(searcher, hits));
                assert(display_texts(documents_at(searcher, hits)) == texts(r->Ok_0@));
            }
            assert(served_by(searcher, r));
            assert(answers(searcher, partial@, r));
        }
        r
    }

    /// Whether the index holds an entry with this text as its display string,
    /// whatever a search for the text would rank: every document is looked at.
    pub fn offers(&self, text: &str) -> (r: Result<bool, SuggestError>)
        ensures
            offer_known(text@, r),
    {
        let searcher = lease(&self.reader);
        let all = live_addresses(&searcher);
        let wanted = text.to_owned();
        let mut i: usize = 0;
        while i < all.len()
            invariant
                i <= all@.len(),
                wanted@ == text@,
                all_stored(searcher, all@),
                forall|j: int|
                    0 <= j < i ==> display_text(stored_documents(searcher)[#[trigger] all@[j]]) != Some(text@),
            decreases all@.len() - i,
        {
            let (segment, doc) = all[i];
            assert(stored_documents(searcher).dom().contains(all@[i as int]));
            match stored_fields(&searcher, segment, doc) {
                Err(failure) => {
                    let r = Err(SuggestError::Fetch(describe(&failure)));
                    assert(told_by(searcher, text@, r));
                    return r;
                },
                Ok(fields) => {
                    match display_string(&fields) {
                        Some(shown) => {
                            if shown == wanted {
                                assert(holds_display_text(searcher, text@));
                                assert(told_by(searcher, text@, Ok(true)));
                                return Ok(true);
                            }
                        },
                        None => {},
                    }
                },
            }
            i += 1;
        }
        proof {
            assert forall|address: (u32, u32)| stored_documents(searcher).dom().contains(address) implies display_text(
                #[trigger] stored_documents(searcher)[address],
            ) != Some(text@) by {
                assert(all@.contains(address));
                let j = choose|j: int| 0 <= j < all@.len() && all@[j] == address;
                assert(display_text(stored_documents(searcher)[all@[j]]) != Some(text@));
            }
            assert(told_by(searcher, text@, Ok(false)));
        }
        Ok(false)
    }
}

} // verus!
