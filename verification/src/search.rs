//! The read side of one index: a long-lived reader that reloads on commit,
//! and a query parser over the schema's indexed fields.

use vstd::prelude::*;
use crate::doc::Doc;
use crate::doc::DocEntryView;
use crate::doc::doc_fields_sorted;
use crate::doc::doc_wf;
use crate::doc::first_value;
use crate::doc::lemma_find_entry_idx_skip;
use crate::doc::lemma_first_value_push;
use crate::engine;
use crate::errors::SearchError;
use crate::schema::FieldDefView;
use crate::schema::IndexSchema;
use crate::schema::field_is_indexed;
use crate::schema::lemma_schema_field_map_domain;
use crate::schema::schema_field_map;
use tantivy::Document;
use tantivy::Index;
use tantivy::IndexReader;
use tantivy::query::QueryParser;
use tantivy::schema::Field;
use tantivy::schema::Schema;

verus! {

/// The client-side search facade of one index: a snapshot reader and a
/// query parser whose default fields are all indexed fields of the schema.
pub struct IndexSearcher {
    schema: IndexSchema,
    engine_schema: Schema,
    reader: IndexReader,
    parser: QueryParser,
}

impl View for IndexSearcher {
    type V = Seq<FieldDefView>;

    closed spec fn view(&self) -> Seq<FieldDefView> {
        self.schema@
    }
}

/// The engine handles of exactly the indexed fields of a schema, in
/// declaration order.
pub open spec fn indexed_handles(es: Schema, s: Seq<FieldDefView>) -> Seq<Field>
    decreases s.len(),
{
    if s.len() == 0 {
        Seq::empty()
    } else if field_is_indexed(s.last().kind) {
        indexed_handles(es, s.drop_last()).push(engine::field_of(es, s.last().name))
    } else {
        indexed_handles(es, s.drop_last())
    }
}

/// The engine handles of the schema's indexed fields, for the parser's
/// default search fields. The engine schema must hold the declared fields,
/// as it does for an index the schema bootstrapped.
fn indexed_fields(schema: &IndexSchema, engine_schema: &Schema) -> (r: Vec<Field>)
    requires
        engine::engine_schema_fields(*engine_schema) == schema_field_map(schema@),
    ensures
        r@ == indexed_handles(*engine_schema, schema@),
{
    let mut fields: Vec<Field> = Vec::new();
    let n = schema.fields.len();
    let mut i: usize = 0;
    while i < n
        invariant
            n == schema.fields@.len(),
            n == schema@.len(),
            0 <= i <= n,
            engine::engine_schema_fields(*engine_schema) == schema_field_map(schema@),
            fields@ == indexed_handles(*engine_schema, schema@.take(i as int)),
        decreases n - i,
    {
        let fd = &schema.fields[i];
        proof {
            assert(fd@ == schema@[i as int]);
            assert(schema@.take(i + 1).drop_last() =~= schema@.take(i as int));
            assert(schema@.take(i + 1).last() == schema@[i as int]);
        }
        if fd.kind.is_indexed() {
            proof {
                lemma_schema_field_map_domain(schema@, fd.name@);
                assert(schema@[i as int].name == fd.name@);
            }
            match engine::schema_get_field(engine_schema, fd.name.as_str()) {
                Some(f) => fields.push(f),
                None => {
                    proof {
                        assert(false);
                    }
                },
            }
        }
        i = i + 1;
    }
    proof {
        assert(schema@.take(n as int) =~= schema@);
    }
    fields
}

/// What the model document holds for one schema position when read back
/// from an engine document: the engine document's first text value of the
/// field of that name, where the engine schema has the field and the
/// document a text value, and nothing otherwise.
pub open spec fn read_back(
    es: Schema,
    engine_doc: Document,
    s: Seq<FieldDefView>,
    i: int,
) -> Option<Seq<char>> {
    if engine::engine_schema_fields(es).contains_key(s[i].name) {
        engine::doc_text(engine_doc, engine::field_of(es, s[i].name))
    } else {
        None
    }
}

/// Read an engine document back into the model: each schema position holds
/// exactly the engine document's first text value of that field, in schema
/// order, so that the entries' fields are strictly increasing and within
/// the schema.
pub fn doc_from_engine(schema: &IndexSchema, engine_schema: &Schema, engine_doc: &Document) -> (d:
    Doc)
    ensures
        doc_wf(d@, schema@.len() as int),
        doc_fields_sorted(d@),
        forall|i: int|
            0 <= i < schema@.len() ==> #[trigger] first_value(d@, i) == read_back(
                *engine_schema,
                *engine_doc,
                schema@,
                i,
            ),
{
    let mut d = Doc::new();
    let n = schema.fields.len();
    let mut i: usize = 0;
    while i < n
        invariant
            n == schema.fields@.len(),
            n == schema@.len(),
            0 <= i <= n,
            forall|k: int| 0 <= k < d@.len() ==> 0 <= #[trigger] d@[k].field < i,
            doc_fields_sorted(d@),
            forall|j: int|
                0 <= j < i ==> #[trigger] first_value(d@, j) == read_back(
                    *engine_schema,
                    *engine_doc,
                    schema@,
                    j,
                ),
        decreases n - i,
    {
        let ghost d_pre = d@;
        proof {
            assert(schema.fields@[i as int]@ == schema@[i as int]);
        }
        let mut added = false;
        match engine::schema_get_field(engine_schema, schema.fields[i].name.as_str()) {
            Some(f) => {
                match engine::engine_document_get_text(engine_doc, &f) {
                    Some(value) => {
                        d.add_value(i, value);
                        added = true;
                        proof {
                            let e = DocEntryView { field: i as int, value: value@ };
                            assert(d@ =~= d_pre.push(e));
                            assert forall|j: int| 0 <= j < i implies #[trigger] first_value(
                                d@,
                                j,
                            ) == first_value(d_pre, j) by {
                                lemma_first_value_push(d_pre, e, j);
                            }
                            lemma_find_entry_idx_skip(d@, i as int, d_pre.len() as int);
                            assert(d@.skip(d_pre.len() as int) =~= seq![e]);
                            assert(first_value(d@, i as int) == Some(value@));
                        }
                    },
                    None => {},
                }
            },
            None => {},
        }
        proof {
            if !added {
                lemma_find_entry_idx_skip(d@, i as int, d@.len() as int);
                assert(d@.skip(d@.len() as int) =~= Seq::<DocEntryView>::empty());
                assert(first_value(d@, i as int) is None);
            }
        }
        i = i + 1;
    }
    d
}

impl IndexSearcher {
    /// The parser's default search fields are the engine handles of exactly
    /// the indexed fields of the schema, and the engine schema held carries
    /// the declared fields.
    pub closed spec fn searches_indexed_fields(&self) -> bool {
        &&& engine::parser_default_fields(self.parser) == indexed_handles(
            self.engine_schema,
            self.schema@,
        )
        &&& engine::engine_schema_fields(self.engine_schema) == schema_field_map(self.schema@)
    }

    /// Build the facade for an index: a reader that reloads on commit, and
    /// a parser whose default fields are exactly the schema's indexed
    /// fields, tokenizing query terms with the index's own analyzers. The
    /// index must have been bootstrapped with this schema, as the actor's
    /// constructors ensure.
    pub fn new(index: &Index, schema: IndexSchema) -> (r: Result<IndexSearcher, SearchError>)
        requires
            engine::index_field_map(*index) == schema_field_map(schema@),
        ensures
            r matches Ok(s) ==> s@ == schema@ && s.searches_indexed_fields(),
    {
        let engine_schema = engine::index_schema_of(index);
        let reader = match engine::index_reader(index) {
            Ok(rd) => rd,
            Err(m) => return Err(SearchError::SearchFailed(m)),
        };
        let fields = indexed_fields(&schema, &engine_schema);
        let parser = engine::query_parser_for_index(index, fields);
        Ok(IndexSearcher { schema, engine_schema, reader, parser })
    }

    /// Point the reader at the latest committed state. A fresh commit is
    /// visible to every searcher obtained after this returns.
    pub fn reload(&self) -> (r: Result<(), SearchError>) {
        match engine::reader_reload(&self.reader) {
            Ok(()) => Ok(()),
            Err(m) => Err(SearchError::SearchFailed(m)),
        }
    }

    /// Parse the query against the indexed fields and return the matching
    /// documents by descending score, at most `limit` of them, each read
    /// back into the model with entries in schema order. A bad query string
    /// fails with `QueryParse`; an engine failure with `SearchFailed`.
    pub fn search(&self, query: &str, limit: usize) -> (r: Result<Vec<Doc>, SearchError>)
        requires
            limit >= 1,
        ensures
            r matches Ok(docs) ==> docs@.len() <= limit && (forall|k: int|
                0 <= k < docs@.len() ==> doc_wf(#[trigger] docs@[k]@, self@.len() as int)
                    && doc_fields_sorted(docs@[k]@)),
    {
        let searcher = engine::reader_searcher(&self.reader);
        let addresses = match engine::search_top(&searcher, &self.parser, query, limit) {
            Ok(a) => a,
            Err(e) => return Err(e),
        };
        let mut docs: Vec<Doc> = Vec::new();
        let n = addresses.len();
        let mut i: usize = 0;
        while i < n
            invariant
                n == addresses@.len(),
                n <= limit,
                docs@.len() == i,
                0 <= i <= n,
                forall|k: int| 0 <= k < n ==> engine::searcher_doc_addresses(searcher).contains(
                    #[trigger] addresses@[k],
                ),
                forall|k: int| 0 <= k < i ==> doc_wf(#[trigger] docs@[k]@, self@.len() as int)
                    && doc_fields_sorted(docs@[k]@),
            decreases n - i,
        {
            let engine_doc = match engine::searcher_doc(&searcher, &addresses[i]) {
                Ok(d) => d,
                Err(m) => return Err(SearchError::SearchFailed(m)),
            };
            let d = doc_from_engine(&self.schema, &self.engine_schema, &engine_doc);
            docs.push(d);
            i = i + 1;
        }
        Ok(docs)
    }
}

} // verus!
