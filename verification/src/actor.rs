//! The per-index write actor: it owns the single writer of one index,
//! serializes upsert, delete, commit and rebuild messages, and keeps two
//! flags: `must_commit` (uncommitted writes exist) and `must_reindex` (the
//! on-disk schema had drifted at bootstrap and a full rebuild is owed).
//!
//! The actor's visible behaviour is stated against a mathematical model:
//! a map of committed documents by id, a map of pending (uncommitted)
//! upserts and deletes by id, and a count of successful commits.

use vstd::prelude::*;
use crate::doc::Doc;
use crate::doc::DocEntryView;
use crate::doc::doc_wf;
use crate::doc::first_value;
use crate::engine;
use crate::env::AppEnv;
use crate::env::is_prod_env;
use crate::errors::BootstrapError;
use crate::errors::IndexError;
use crate::errors::OpenError;
use crate::engine::index_field_map;
use crate::schema::FieldDefView;
use crate::schema::FieldKind;
use crate::schema::IndexSchema;
use crate::schema::find_field_idx;
use crate::schema::lemma_find_field_idx_first_match;
use crate::schema::lemma_schema_field_map_domain;
use crate::schema::schema_field_map;
use crate::schema::schema_names_distinct;
use tantivy::Document;
use tantivy::Index;
use tantivy::IndexWriter;
use tantivy::directory::MmapDirectory;
use tantivy::directory::RamDirectory;
use tantivy::schema::Field;
use tantivy::schema::Schema;

verus! {

/// Tokens longer than this are dropped by the analyzer.
pub const LONG_TOKEN_LIMIT: usize = 40;

/// Heap budget handed to the engine's writer, in bytes.
pub const WRITER_HEAP_BYTES: usize = 50000000;

/// A message to the index actor.
#[derive(Debug)]
pub enum IndexActorMessage {
    /// Upsert: replace any document with the same id, then add this one.
    Single { doc: Doc },
    /// Publish the pending batch, when there is one.
    Commit,
    /// Remove the document with this id.
    Delete { id: String },
    /// Ask the external bulk source to push all documents back.
    Reindex { backend_env: AppEnv },
}

/// The mathematical image of a message.
pub ghost enum MsgView {
    Single(Seq<DocEntryView>),
    Commit,
    Delete(Seq<char>),
    Reindex(Seq<char>),
}

/// What the actor does beyond its own state: nothing, or a rebuild request
/// that the caller is to issue as an HTTP GET to the returned URL.
#[derive(Debug)]
pub enum ActorAction {
    NoAction,
    RequestRebuild { url: String },
}

/// The actor's mathematical state.
pub ghost struct ActorModel {
    /// The index's name, as used in rebuild URLs.
    pub name: Seq<char>,
    /// The declared schema.
    pub schema: Seq<FieldDefView>,
    /// Uncommitted operations by id: `Some(doc)` is an upsert, `None` a delete.
    pub pending: Map<Seq<char>, Option<Seq<DocEntryView>>>,
    /// The documents visible to searchers after the last successful commit.
    pub committed: Map<Seq<char>, Seq<DocEntryView>>,
    /// How many commits have succeeded (the opstamp advances with each).
    pub commits: nat,
    /// Whether uncommitted writes exist.
    pub must_commit: bool,
    /// Whether a full rebuild is owed since bootstrap.
    pub must_reindex: bool,
}

/// Position of the `id` field in a schema.
pub open spec fn id_field_of(schema: Seq<FieldDefView>) -> Option<int> {
    find_field_idx(schema, "id"@)
}

/// The id value of a document under a schema: the first value of the
/// schema's `id` field.
pub open spec fn doc_id(schema: Seq<FieldDefView>, doc: Seq<DocEntryView>) -> Option<Seq<char>> {
    match id_field_of(schema) {
        Some(ord) => first_value(doc, ord),
        None => None,
    }
}

/// The committed documents after publishing a pending batch: a pending
/// upsert replaces or adds the document, a pending delete removes it, and
/// every untouched id keeps its committed document.
pub open spec fn apply_batch(
    committed: Map<Seq<char>, Seq<DocEntryView>>,
    pending: Map<Seq<char>, Option<Seq<DocEntryView>>>,
) -> Map<Seq<char>, Seq<DocEntryView>> {
    Map::new(
        |id: Seq<char>|
            if pending.contains_key(id) {
                pending[id] is Some
            } else {
                committed.contains_key(id)
            },
        |id: Seq<char>|
            if pending.contains_key(id) {
                pending[id]->0
            } else {
                committed[id]
            },
    )
}

/// The intended effect of one message on the actor's state, when the engine
/// cooperates: an upsert records the document under its id, a delete records
/// a removal, a commit publishes the batch and advances the commit count,
/// and messages that cannot be applied (no id) leave the state unchanged.
pub open spec fn step(m: ActorModel, msg: MsgView) -> ActorModel {
    match msg {
        MsgView::Single(doc) => match doc_id(m.schema, doc) {
            Some(id) => ActorModel {
                pending: m.pending.insert(id, Some(doc)),
                must_commit: true,
                ..m
            },
            None => m,
        },
        MsgView::Delete(id) => match id_field_of(m.schema) {
            Some(_) => ActorModel { pending: m.pending.insert(id, None), must_commit: true, ..m },
            None => m,
        },
        MsgView::Commit => if m.must_commit {
            ActorModel {
                committed: apply_batch(m.committed, m.pending),
                pending: Map::empty(),
                commits: m.commits + 1,
                must_commit: false,
                ..m
            }
        } else {
            m
        },
        MsgView::Reindex(_) => m,
    }
}

/// The URL at which the bulk source is asked to push the index's documents
/// back: the host depends on the environment, the path on the index's name.
pub open spec fn rebuild_url(env: Seq<char>, name: Seq<char>) -> Seq<char> {
    if is_prod_env(env) {
        "http://app:8080/reindex/"@ + name
    } else {
        "http://localhost:8080/reindex/"@ + name
    }
}

/// The actor's state right after bootstrap: nothing pending, nothing
/// committed in the model, no successful commits yet.
pub open spec fn fresh_model(
    name: Seq<char>,
    schema: Seq<FieldDefView>,
    must_reindex: bool,
) -> ActorModel {
    ActorModel {
        name,
        schema,
        pending: Map::empty(),
        committed: Map::empty(),
        commits: 0,
        must_commit: false,
        must_reindex,
    }
}

/// The ghost half of the actor's state.
pub ghost struct ModelMaps {
    pub pending: Map<Seq<char>, Option<Seq<DocEntryView>>>,
    pub committed: Map<Seq<char>, Seq<DocEntryView>>,
    pub commits: nat,
}

/// The write side of one index: the exclusive writer, the schema, and the
/// two flags, together with the ghost model of pending and committed
/// documents.
pub struct IndexActor {
    name: String,
    schema: IndexSchema,
    pub index: Index,
    engine_schema: Schema,
    writer: IndexWriter,
    id_field: Option<Field>,
    must_reindex: bool,
    must_commit: bool,
    model: Ghost<ModelMaps>,
}

impl View for IndexActor {
    type V = ActorModel;

    closed spec fn view(&self) -> ActorModel {
        ActorModel {
            name: self.name@,
            schema: self.schema@,
            pending: self.model@.pending,
            committed: self.model@.committed,
            commits: self.model@.commits,
            must_commit: self.must_commit,
            must_reindex: self.must_reindex,
        }
    }
}

/// Build the engine's schema from the declared one: each field is added
/// under its name with the options its kind asks for, so the result holds
/// exactly the declared fields. The engine refuses a name added twice, so
/// the declared names must be distinct.
pub(crate) fn build_engine_schema(schema: &IndexSchema) -> (r: Schema)
    requires
        schema_names_distinct(schema@),
    ensures
        engine::engine_schema_fields(r) == schema_field_map(schema@),
{
    let mut builder = engine::schema_builder();
    let n = schema.fields.len();
    let mut i: usize = 0;
    while i < n
        invariant
            n == schema.fields@.len(),
            n == schema@.len(),
            0 <= i <= n,
            schema_names_distinct(schema@),
            engine::builder_fields(builder) == schema_field_map(schema@.take(i as int)),
        decreases n - i,
    {
        let fd = &schema.fields[i];
        proof {
            assert(fd@ == schema@[i as int]);
            lemma_schema_field_map_domain(schema@.take(i as int), fd.name@);
            assert(forall|j: int| 0 <= j < i ==> schema@.take(i as int)[j] == schema@[j]);
            assert(!schema_field_map(schema@.take(i as int)).contains_key(fd.name@));
        }
        match fd.kind {
            FieldKind::IdText => engine::add_id_field(&mut builder, fd.name.as_str()),
            FieldKind::NgramText => {
                let options = engine::ngram2_options();
                engine::add_text_field_with_options(&mut builder, fd.name.as_str(), options);
            },
            FieldKind::StoredText => engine::add_stored_field(&mut builder, fd.name.as_str()),
        }
        proof {
            assert(schema@.take(i + 1).drop_last() =~= schema@.take(i as int));
            assert(schema@.take(i + 1).last() == schema@[i as int]);
        }
        i = i + 1;
    }
    proof {
        assert(schema@.take(n as int) =~= schema@);
    }
    engine::schema_build(builder)
}

/// Turn a document of the model into an engine document: each entry's value
/// is added under the name its schema position carries.
fn engine_document_of(schema: &IndexSchema, engine_schema: &Schema, doc: &Doc) -> Document
    requires
        doc_wf(doc@, schema@.len() as int),
{
    let mut engine_doc = engine::new_engine_document();
    let n = doc.entries.len();
    let mut i: usize = 0;
    while i < n
        invariant
            n == doc.entries@.len(),
            doc_wf(doc@, schema@.len() as int),
            schema.fields@.len() == schema@.len(),
        decreases n - i,
    {
        let entry = &doc.entries[i];
        proof {
            assert(doc@[i as int].field == entry.field as int);
        }
        if entry.field < schema.fields.len() {
            let name = schema.fields[entry.field].name.as_str();
            match engine::schema_get_field(engine_schema, name) {
                Some(f) => engine::engine_document_add_text(&mut engine_doc, &f, entry.value.as_str()),
                None => {},
            }
        }
        i = i + 1;
    }
    engine_doc
}

impl IndexActor {
    /// The actor's fields are consistent: the engine's handle for the `id`
    /// field is held exactly when the schema declares one.
    pub closed spec fn wf(&self) -> bool {
        id_field_of(self.schema@) is Some <==> self.id_field is Some
    }

    /// The engine index the actor owns, as the contracts speak of it.
    pub closed spec fn engine_index(&self) -> Index {
        self.index
    }

    /// Open or create the index in an on-disk directory and finish
    /// bootstrap. When an index exists there with an incompatible schema, it
    /// is replaced by a fresh empty one and the result carries
    /// `must_reindex == true`; any other open failure is fatal. The engine
    /// refuses a field name declared twice, so the names must be distinct.
    /// On success the index was created or opened with exactly the declared
    /// fields.
    pub fn new(name: String, dir: &MmapDirectory, schema: IndexSchema) -> (r: Result<
        IndexActor,
        BootstrapError,
    >)
        requires
            schema_names_distinct(schema@),
        ensures
            r matches Ok(a) ==> a.wf() && a@ == fresh_model(name@, schema@, a@.must_reindex)
                && index_field_map(a.engine_index()) == schema_field_map(schema@),
    {
        let engine_schema = build_engine_schema(&schema);
        match engine::open_or_create_mmap(dir, &engine_schema) {
            Ok(index) => Self::finish_bootstrap(name, schema, index, false),
            Err(OpenError::SchemaMismatch(_)) => match engine::create_mmap(dir, &engine_schema) {
                Ok(index) => Self::finish_bootstrap(name, schema, index, true),
                Err(m) => Err(BootstrapError::Fatal(m)),
            },
            Err(OpenError::Other(m)) => Err(BootstrapError::Fatal(m)),
        }
    }

    /// As `new`, for an in-memory directory.
    pub fn new_in_ram(name: String, dir: &RamDirectory, schema: IndexSchema) -> (r: Result<
        IndexActor,
        BootstrapError,
    >)
        requires
            schema_names_distinct(schema@),
        ensures
            r matches Ok(a) ==> a.wf() && a@ == fresh_model(name@, schema@, a@.must_reindex)
                && index_field_map(a.engine_index()) == schema_field_map(schema@),
    {
        let engine_schema = build_engine_schema(&schema);
        match engine::open_or_create_ram(dir, &engine_schema) {
            Ok(index) => Self::finish_bootstrap(name, schema, index, false),
            Err(OpenError::SchemaMismatch(_)) => match engine::create_ram(dir, &engine_schema) {
                Ok(index) => Self::finish_bootstrap(name, schema, index, true),
                Err(m) => Err(BootstrapError::Fatal(m)),
            },
            Err(OpenError::Other(m)) => Err(BootstrapError::Fatal(m)),
        }
    }

    /// Register the analyzer, allocate the single writer and cache the `id`
    /// field handle, which the engine schema yields whenever the declared
    /// schema names one.
    fn finish_bootstrap(name: String, schema: IndexSchema, index: Index, must_reindex: bool) -> (r:
        Result<IndexActor, BootstrapError>)
        requires
            index_field_map(index) == schema_field_map(schema@),
        ensures
            r matches Ok(a) ==> a.wf() && a@ == fresh_model(name@, schema@, must_reindex)
                && index_field_map(a.engine_index()) == schema_field_map(schema@),
    {
        let analyzer = engine::spanish_ngram_analyzer(LONG_TOKEN_LIMIT);
        engine::register_tokenizer(&index, "ngram2", analyzer);
        let writer = match engine::index_writer(&index, WRITER_HEAP_BYTES) {
            Ok(w) => w,
            Err(m) => return Err(BootstrapError::Fatal(m)),
        };
        let engine_schema = engine::index_schema_of(&index);
        let id_field = match schema.find_id_field() {
            Some(_) => {
                proof {
                    lemma_find_field_idx_first_match(schema@, "id"@);
                    lemma_schema_field_map_domain(schema@, "id"@);
                }
                match engine::schema_get_field(&engine_schema, "id") {
                    Some(f) => Some(f),
                    None => {
                        proof {
                            assert(false);
                        }
                        return Err(
                            BootstrapError::Fatal(
                                String::from_str("the engine schema lacks the declared id field"),
                            ),
                        );
                    },
                }
            },
            None => None,
        };
        Ok(
            IndexActor {
                name,
                schema,
                index,
                engine_schema,
                writer,
                id_field,
                must_reindex,
                must_commit: false,
                model: Ghost(
                    ModelMaps { pending: Map::empty(), committed: Map::empty(), commits: 0 },
                ),
            },
        )
    }

    /// The index's name.
    pub fn name(&self) -> (r: &String)
        ensures
            r@ == self@.name,
    {
        &self.name
    }

    /// Number of fields the actor's schema declares.
    pub fn schema_len(&self) -> (r: usize)
        ensures
            r == self@.schema.len(),
    {
        self.schema.len()
    }

    /// Whether a full rebuild is owed since bootstrap.
    pub fn must_reindex(&self) -> (r: bool)
        ensures
            r == self@.must_reindex,
    {
        self.must_reindex
    }

    /// Whether uncommitted writes exist.
    pub fn must_commit(&self) -> (r: bool)
        ensures
            r == self@.must_commit,
    {
        self.must_commit
    }

    /// Handle one message.
    ///
    /// - Upsert and delete record their operation under the document's id
    ///   and raise `must_commit`; both fail with `FieldMissing`, changing
    ///   nothing, exactly when no id is available. When the engine refuses
    ///   the added document, the recorded operation degrades to a delete of
    ///   that id, since the engine's batch holds only the delete-by-term,
    ///   and `must_commit` is still raised.
    /// - A commit with nothing to commit is a no-op; otherwise it publishes
    ///   the batch, or fails with `CommitFailed` leaving the state as it
    ///   was, so that the next commit retries.
    /// - A rebuild message changes nothing and hands back the URL to ask the
    ///   bulk source to push documents back.
    pub fn handle_message(&mut self, msg: IndexActorMessage) -> (r: Result<ActorAction, IndexError>)
        requires
            old(self).wf(),
            msg matches IndexActorMessage::Single { doc } ==> doc_wf(
                doc@,
                old(self)@.schema.len() as int,
            ),
        ensures
            final(self).wf(),
            ({
                let m0 = old(self)@;
                let m1 = final(self)@;
                m1.name == m0.name && m1.schema == m0.schema && match msg {
                    IndexActorMessage::Single { doc } => match doc_id(m0.schema, doc@) {
                        Some(id) => r matches Ok(a) && a is NoAction && (m1 == step(
                            m0,
                            MsgView::Single(doc@),
                        ) || m1 == step(m0, MsgView::Delete(id))),
                        None => r matches Err(e) && e is FieldMissing && m1 == m0,
                    },
                    IndexActorMessage::Delete { id } => match id_field_of(m0.schema) {
                        Some(_) => r matches Ok(a) && a is NoAction && m1 == step(
                            m0,
                            MsgView::Delete(id@),
                        ),
                        None => r matches Err(e) && e is FieldMissing && m1 == m0,
                    },
                    IndexActorMessage::Commit => if !m0.must_commit {
                        r matches Ok(a) && a is NoAction && m1 == m0
                    } else {
                        (r matches Ok(a) && a is NoAction && m1 == step(m0, MsgView::Commit)) || (
                        r matches Err(e) && e is CommitFailed && m1 == m0)
                    },
                    IndexActorMessage::Reindex { backend_env } => r matches Ok(a) && (
                    a matches ActorAction::RequestRebuild { url } && url@ == rebuild_url(
                        backend_env@,
                        m0.name,
                    )) && m1 == m0,
                }
            }),
    {
        match msg {
            IndexActorMessage::Single { doc } => {
                let ord = match self.schema.find_id_field() {
                    Some(i) => i,
                    None => {
                        return Err(
                            IndexError::FieldMissing(
                                String::from_str(
                                    "no id field found in schema while indexing single document",
                                ),
                            ),
                        );
                    },
                };
                let id_string = match doc.get_first(ord) {
                    Some(s) => s.clone(),
                    None => {
                        return Err(
                            IndexError::FieldMissing(
                                String::from_str(
                                    "no id field found in single document while indexing",
                                ),
                            ),
                        );
                    },
                };
                match &self.id_field {
                    Some(f) => engine::writer_delete_term(&self.writer, f, id_string.as_str()),
                    None => {
                        proof {
                            assert(false);
                        }
                        return Err(IndexError::FieldMissing(String::new()));
                    },
                }
                let engine_doc = engine_document_of(&self.schema, &self.engine_schema, &doc);
                match engine::writer_add_document(&self.writer, engine_doc) {
                    Ok(_) => {
                        self.must_commit = true;
                        proof {
                            self.model@.pending = self.model@.pending.insert(
                                id_string@,
                                Some(doc@),
                            );
                        }
                        Ok(ActorAction::NoAction)
                    },
                    Err(_) => {
                        self.must_commit = true;
                        proof {
                            self.model@.pending = self.model@.pending.insert(id_string@, None);
                        }
                        Ok(ActorAction::NoAction)
                    },
                }
            },
            IndexActorMessage::Commit => {
                if self.must_commit {
                    match engine::writer_commit(&mut self.writer) {
                        Ok(_opstamp) => {
                            self.must_commit = false;
                            proof {
                                self.model@.committed = apply_batch(
                                    self.model@.committed,
                                    self.model@.pending,
                                );
                                self.model@.pending = Map::empty();
                                self.model@.commits = self.model@.commits + 1;
                            }
                            Ok(ActorAction::NoAction)
                        },
                        Err(m) => Err(IndexError::CommitFailed(m)),
                    }
                } else {
                    Ok(ActorAction::NoAction)
                }
            },
            IndexActorMessage::Delete { id } => {
                match &self.id_field {
                    Some(f) => {
                        engine::writer_delete_term(&self.writer, f, id.as_str());
                        self.must_commit = true;
                        proof {
                            self.model@.pending = self.model@.pending.insert(id@, None);
                        }
                        Ok(ActorAction::NoAction)
                    },
                    None => Err(
                        IndexError::FieldMissing(
                            String::from_str(
                                "no id field found in schema while deleting document",
                            ),
                        ),
                    ),
                }
            },
            IndexActorMessage::Reindex { backend_env } => {
                let mut url = if backend_env.is_prod() {
                    String::from_str("http://app:8080/reindex/")
                } else {
                    String::from_str("http://localhost:8080/reindex/")
                };
                url.append(self.name.as_str());
                Ok(ActorAction::RequestRebuild { url })
            },
        }
    }

    /// Record the outcome of the rebuild request: a successful answer from
    /// the bulk source clears `must_reindex`, anything else leaves it.
    pub fn apply_rebuild_outcome(&mut self, success: bool)
        requires
            old(self).wf(),
        ensures
            final(self).wf(),
            final(self)@ == (ActorModel {
                must_reindex: old(self)@.must_reindex && !success,
                ..old(self)@
            }),
    {
        if success {
            self.must_reindex = false;
        }
    }
}

} // verus!
