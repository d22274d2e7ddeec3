//! The trusted boundary to the tantivy index engine.
//!
//! Every function here is an `external_body` wrapper around one tantivy call
//! (plus the conversions of its arguments and result); the types are declared
//! so that they can stand in signatures and fields. Nothing else in the crate
//! touches tantivy directly.

use vstd::prelude::*;
use crate::errors::OpenError;
use crate::errors::SearchError;
use crate::schema::FieldKind;
use tantivy::Document;
use tantivy::DocAddress;
use tantivy::Index;
use tantivy::IndexReader;
use tantivy::IndexWriter;
use tantivy::Searcher;
use tantivy::IndexSettings;
use tantivy::ReloadPolicy;
use tantivy::TantivyError;
use tantivy::Term;
use tantivy::collector::TopDocs;
use tantivy::directory::MmapDirectory;
use tantivy::directory::RamDirectory;
use tantivy::query::QueryParser;
use tantivy::schema::Field;
use tantivy::schema::IndexRecordOption;
use tantivy::schema::Schema;
use tantivy::schema::SchemaBuilder;
use tantivy::schema::TextFieldIndexing;
use tantivy::schema::TextOptions;
use tantivy::schema::STORED;
use tantivy::schema::STRING;
use tantivy::tokenizer::AsciiFoldingFilter;
use tantivy::tokenizer::Language;
use tantivy::tokenizer::LowerCaser;
use tantivy::tokenizer::RemoveLongFilter;
use tantivy::tokenizer::SimpleTokenizer;
use tantivy::tokenizer::Stemmer;
use tantivy::tokenizer::StopWordFilter;
use tantivy::tokenizer::TextAnalyzer;

verus! {

#[verifier::external_type_specification]
#[verifier::external_body]
pub struct ExSchema(Schema);

#[verifier::external_type_specification]
#[verifier::external_body]
pub struct ExSchemaBuilder(SchemaBuilder);

#[verifier::external_type_specification]
#[verifier::external_body]
pub struct ExTextOptions(TextOptions);

#[verifier::external_type_specification]
#[verifier::external_body]
pub struct ExField(Field);

#[verifier::external_type_specification]
#[verifier::external_body]
pub struct ExDocument(Document);

#[verifier::external_type_specification]
#[verifier::external_body]
pub struct ExIndex(Index);

#[verifier::external_type_specification]
#[verifier::external_body]
pub struct ExIndexWriter(IndexWriter);

#[verifier::external_type_specification]
#[verifier::external_body]
pub struct ExIndexReader(IndexReader);

#[verifier::external_type_specification]
#[verifier::external_body]
pub struct ExSearcher(Searcher);

#[verifier::external_type_specification]
#[verifier::external_body]
pub struct ExQueryParser(QueryParser);

#[verifier::external_type_specification]
#[verifier::external_body]
pub struct ExTextAnalyzer(TextAnalyzer);

#[verifier::external_type_specification]
#[verifier::external_body]
pub struct ExMmapDirectory(MmapDirectory);

#[verifier::external_type_specification]
#[verifier::external_body]
pub struct ExRamDirectory(RamDirectory);

#[verifier::external_type_specification]
#[verifier::external_body]
pub struct ExDocAddress(DocAddress);

/// The fields a schema builder has accumulated, by name, each mapped to the
/// library's classification of the options it was added with.
pub uninterp spec fn builder_fields(b: SchemaBuilder) -> Map<Seq<char>, FieldKind>;

/// The field map with no fields at all.
pub open spec fn empty_field_map() -> Map<Seq<char>, FieldKind> {
    Map::empty()
}

/// The library's classification of a value of engine text options.
pub uninterp spec fn options_kind(o: TextOptions) -> FieldKind;

/// The fields of a finished engine schema, by name.
pub uninterp spec fn engine_schema_fields(s: Schema) -> Map<Seq<char>, FieldKind>;

/// The fields of the schema an index was created or opened with, by name.
pub uninterp spec fn index_field_map(i: Index) -> Map<Seq<char>, FieldKind>;

/// The handle an engine schema gives out for the field of this name.
pub uninterp spec fn field_of(s: Schema, name: Seq<char>) -> Field;

/// The default search fields a query parser was built over.
pub uninterp spec fn parser_default_fields(p: QueryParser) -> Seq<Field>;

/// The addresses a searcher can load documents from.
pub uninterp spec fn searcher_doc_addresses(s: Searcher) -> Set<DocAddress>;

/// The first text value an engine document holds for a field, if any.
pub uninterp spec fn doc_text(d: Document, f: Field) -> Option<Seq<char>>;

/// Relies on tantivy's Schema::builder: a fresh, empty schema builder.
#[verifier::external_body]
pub(crate) fn schema_builder() -> (r: SchemaBuilder)
    ensures
        builder_fields(r) == empty_field_map(),
{
    Schema::builder()
}

/// Relies on tantivy's SchemaBuilder::add_text_field with the STRING | STORED
/// options: the field is indexed exactly (untokenized) and stored. The call
/// panics when the name was already added, which the requires excludes.
#[verifier::external_body]
pub(crate) fn add_id_field(builder: &mut SchemaBuilder, name: &str)
    requires
        !builder_fields(*old(builder)).contains_key(name@),
    ensures
        builder_fields(*final(builder)) == builder_fields(*old(builder)).insert(
            name@,
            FieldKind::IdText,
        ),
{
    builder.add_text_field(name, STRING | STORED);
}

/// Relies on tantivy's SchemaBuilder::add_text_field with the STORED option:
/// the field is stored and not indexed. The call panics when the name was
/// already added, which the requires excludes.
#[verifier::external_body]
pub(crate) fn add_stored_field(builder: &mut SchemaBuilder, name: &str)
    requires
        !builder_fields(*old(builder)).contains_key(name@),
    ensures
        builder_fields(*final(builder)) == builder_fields(*old(builder)).insert(
            name@,
            FieldKind::StoredText,
        ),
{
    builder.add_text_field(name, STORED);
}

/// Relies on tantivy's SchemaBuilder::add_text_field with the given options.
/// The call panics when the name was already added, which the requires
/// excludes.
#[verifier::external_body]
pub(crate) fn add_text_field_with_options(
    builder: &mut SchemaBuilder,
    name: &str,
    options: TextOptions,
)
    requires
        !builder_fields(*old(builder)).contains_key(name@),
    ensures
        builder_fields(*final(builder)) == builder_fields(*old(builder)).insert(
            name@,
            options_kind(options),
        ),
{
    builder.add_text_field(name, options);
}

/// Relies on tantivy's TextOptions and TextFieldIndexing builders: text
/// options that index through the tokenizer registered as `ngram2`, record
/// term frequencies and positions, and store the original text.
#[verifier::external_body]
pub fn ngram2_options() -> (r: TextOptions)
    ensures
        options_kind(r) == FieldKind::NgramText,
{
    let text_field_indexing = TextFieldIndexing::default()
        .set_tokenizer("ngram2")
        .set_index_option(IndexRecordOption::WithFreqsAndPositions);

    TextOptions::default()
        .set_indexing_options(text_field_indexing)
        .set_stored()
}

/// Relies on tantivy's SchemaBuilder::build: the finished engine schema,
/// holding exactly the fields the builder accumulated.
#[verifier::external_body]
pub(crate) fn schema_build(builder: SchemaBuilder) -> (r: Schema)
    ensures
        engine_schema_fields(r) == builder_fields(builder),
{
    builder.build()
}

/// Relies on tantivy's Index::open_or_create: opens the index in the
/// directory, creating it when none exists; on success the index's schema
/// equals the requested one (an open checks equality, a create installs
/// it); fails with SchemaError when an index exists there whose schema
/// differs from the requested one, which the result keeps apart from every
/// other failure.
#[verifier::external_body]
pub(crate) fn open_or_create_mmap(dir: &MmapDirectory, schema: &Schema) -> (r: Result<
    Index,
    OpenError,
>)
    ensures
        r matches Ok(i) ==> index_field_map(i) == engine_schema_fields(*schema),
{
    match Index::open_or_create(dir.clone(), schema.clone()) {
        Ok(i) => Ok(i),
        Err(TantivyError::SchemaError(m)) => Err(OpenError::SchemaMismatch(m)),
        Err(e) => Err(OpenError::Other(format!("{:?}", e))),
    }
}

/// Relies on tantivy's Index::open_or_create, as `open_or_create_mmap`, for
/// an in-memory directory.
#[verifier::external_body]
pub(crate) fn open_or_create_ram(dir: &RamDirectory, schema: &Schema) -> (r: Result<
    Index,
    OpenError,
>)
    ensures
        r matches Ok(i) ==> index_field_map(i) == engine_schema_fields(*schema),
{
    match Index::open_or_create(dir.clone(), schema.clone()) {
        Ok(i) => Ok(i),
        Err(TantivyError::SchemaError(m)) => Err(OpenError::SchemaMismatch(m)),
        Err(e) => Err(OpenError::Other(format!("{:?}", e))),
    }
}

/// Relies on tantivy's Index::create with default settings: a fresh empty
/// index in the directory, replacing what was there, with the requested
/// schema installed.
#[verifier::external_body]
pub(crate) fn create_mmap(dir: &MmapDirectory, schema: &Schema) -> (r: Result<Index, String>)
    ensures
        r matches Ok(i) ==> index_field_map(i) == engine_schema_fields(*schema),
{
    Index::create(dir.clone(), schema.clone(), IndexSettings::default()).map_err(
        |e| format!("{:?}", e),
    )
}

/// Relies on tantivy's Index::create, as `create_mmap`, for an in-memory
/// directory.
#[verifier::external_body]
pub(crate) fn create_ram(dir: &RamDirectory, schema: &Schema) -> (r: Result<Index, String>)
    ensures
        r matches Ok(i) ==> index_field_map(i) == engine_schema_fields(*schema),
{
    Index::create(dir.clone(), schema.clone(), IndexSettings::default()).map_err(
        |e| format!("{:?}", e),
    )
}

/// Relies on tantivy's TextAnalyzer and token filters: a Spanish analyzer
/// that tokenizes on word boundaries, drops tokens longer than the given
/// limit, lowercases, folds accents to ASCII, removes Spanish stop words and
/// applies Spanish stemming (the length filter drops tokens whose byte
/// length reaches the limit). StopWordFilter::new returns the built-in
/// Spanish list, which exists, so the unwrap cannot fail.
#[verifier::external_body]
pub(crate) fn spanish_ngram_analyzer(long_token_limit: usize) -> TextAnalyzer {
    TextAnalyzer::from(SimpleTokenizer)
        .filter(RemoveLongFilter::limit(long_token_limit))
        .filter(LowerCaser)
        .filter(AsciiFoldingFilter)
        .filter(StopWordFilter::new(Language::Spanish).unwrap())
        .filter(Stemmer::new(Language::Spanish))
}

/// Relies on tantivy's TokenizerManager::register, reached through
/// Index::tokenizers: makes the analyzer available under the given name.
#[verifier::external_body]
pub(crate) fn register_tokenizer(index: &Index, name: &str, analyzer: TextAnalyzer) {
    index.tokenizers().register(name, analyzer);
}

/// Relies on tantivy's Index::writer: the single writer for the index, with
/// the given heap budget in bytes.
#[verifier::external_body]
pub(crate) fn index_writer(index: &Index, heap_bytes: usize) -> Result<IndexWriter, String> {
    index.writer(heap_bytes).map_err(|e| format!("{:?}", e))
}

/// Relies on tantivy's Index::schema: the schema the index was built with.
#[verifier::external_body]
pub(crate) fn index_schema_of(index: &Index) -> (r: Schema)
    ensures
        engine_schema_fields(r) == index_field_map(*index),
{
    index.schema()
}

/// Relies on tantivy's Schema::get_field: the handle of the field with the
/// given name, exactly when the engine schema declares one.
#[verifier::external_body]
pub(crate) fn schema_get_field(schema: &Schema, name: &str) -> (r: Option<Field>)
    ensures
        r is Some <==> engine_schema_fields(*schema).contains_key(name@),
        r matches Some(f) ==> f == field_of(*schema, name@),
{
    schema.get_field(name)
}

/// Relies on tantivy's IndexWriter::delete_term with a term built by
/// Term::from_field_text: marks every document whose field holds exactly
/// this text as deleted in the uncommitted batch.
#[verifier::external_body]
pub(crate) fn writer_delete_term(writer: &IndexWriter, field: &Field, text: &str) {
    writer.delete_term(Term::from_field_text(*field, text));
}

/// Relies on tantivy's IndexWriter::add_document: adds the document to the
/// uncommitted batch, returning its opstamp.
#[verifier::external_body]
pub(crate) fn writer_add_document(writer: &IndexWriter, document: Document) -> Result<
    u64,
    String,
> {
    writer.add_document(document).map_err(|e| format!("{:?}", e))
}

/// Relies on tantivy's IndexWriter::commit: publishes the uncommitted batch,
/// returning the commit's opstamp; on failure the batch is not published.
#[verifier::external_body]
pub(crate) fn writer_commit(writer: &mut IndexWriter) -> Result<u64, String> {
    writer.commit().map_err(|e| format!("{:?}", e))
}

/// Relies on tantivy's Document::new: an empty engine document.
#[verifier::external_body]
pub(crate) fn new_engine_document() -> Document {
    Document::new()
}

/// Relies on tantivy's Document::add_text: appends one text value for the field.
#[verifier::external_body]
pub(crate) fn engine_document_add_text(document: &mut Document, field: &Field, text: &str) {
    document.add_text(*field, text);
}

/// Relies on tantivy's Document::get_first and Value::as_text: the first
/// value of the field, when there is one and it is text; a function of the
/// document and the field alone.
#[verifier::external_body]
pub(crate) fn engine_document_get_text(document: &Document, field: &Field) -> (r: Option<String>)
    ensures
        (match doc_text(*document, *field) {
            Some(v) => r matches Some(s) && s@ == v,
            None => r is None,
        }),
{
    document.get_first(*field).and_then(|v| v.as_text()).map(|s| s.to_string())
}

/// Relies on tantivy's IndexReader, built by Index::reader_builder with the
/// OnCommit reload policy: a long-lived reader that reloads on commits.
#[verifier::external_body]
pub(crate) fn index_reader(index: &Index) -> Result<IndexReader, String> {
    index.reader_builder().reload_policy(ReloadPolicy::OnCommit).try_into().map_err(
        |e: TantivyError| format!("{:?}", e),
    )
}

/// Relies on tantivy's IndexReader::reload: points the reader at the latest
/// committed state.
#[verifier::external_body]
pub(crate) fn reader_reload(reader: &IndexReader) -> Result<(), String> {
    reader.reload().map_err(|e| format!("{:?}", e))
}

/// Relies on tantivy's IndexReader::searcher: a point-in-time snapshot of
/// the committed state the reader last loaded.
#[verifier::external_body]
pub(crate) fn reader_searcher(reader: &IndexReader) -> Searcher {
    reader.searcher()
}

/// Relies on tantivy's QueryParser::for_index: a parser over exactly the
/// given default search fields, tokenizing query terms with the index's
/// analyzers.
#[verifier::external_body]
pub(crate) fn query_parser_for_index(index: &Index, fields: Vec<Field>) -> (r: QueryParser)
    ensures
        parser_default_fields(r) == fields@,
{
    QueryParser::for_index(index, fields)
}

/// Relies on tantivy's QueryParser::parse_query and Searcher::search with a
/// TopDocs collector: the addresses of the documents matching the query,
/// by descending score, at most `limit` of them (TopDocs documents that
/// bound and panics only when the limit is 0, which the requires excludes).
/// The two calls share one wrapper because the parsed query is a boxed
/// trait object, which cannot stand in a signature here; a parse failure
/// and an execution failure stay apart in the result.
#[verifier::external_body]
pub(crate) fn search_top(
    searcher: &Searcher,
    parser: &QueryParser,
    query: &str,
    limit: usize,
) -> (r: Result<Vec<DocAddress>, SearchError>)
    requires
        limit >= 1,
    ensures
        r matches Ok(addrs) ==> addrs@.len() <= limit && (forall|k: int|
            0 <= k < addrs@.len() ==> searcher_doc_addresses(*searcher).contains(
                #[trigger] addrs@[k],
            )),
{
    let parsed = match parser.parse_query(query) {
        Ok(q) => q,
        Err(e) => return Err(SearchError::QueryParse(format!("{:?}", e))),
    };
    match searcher.search(&parsed, &TopDocs::with_limit(limit)) {
        Ok(top) => Ok(top.into_iter().map(|t| t.1).collect()),
        Err(e) => Err(SearchError::SearchFailed(format!("{:?}", e))),
    }
}

/// Relies on tantivy's Searcher::doc: loads the stored document at the
/// given address. The call indexes the searcher's segments by the address's
/// segment ordinal, so the address must be one of this searcher's, which
/// the requires states.
#[verifier::external_body]
pub(crate) fn searcher_doc(searcher: &Searcher, address: &DocAddress) -> (r: Result<
    Document,
    String,
>)
    requires
        searcher_doc_addresses(*searcher).contains(*address),
{
    searcher.doc(*address).map_err(|e| format!("{:?}", e))
}

} // verus!
