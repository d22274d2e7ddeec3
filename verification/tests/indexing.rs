use tantivy::directory::RamDirectory;
use tantivy_search::actor::{ActorAction, IndexActor, IndexActorMessage};
use tantivy_search::env::AppEnv;
use tantivy_search::errors::{IndexError, SearchError};
use tantivy_search::person::{document_to_person, new_person_schema, IndexPerson};
use tantivy_search::question::{document_to_question, new_question_schema, IndexQuestion};
use tantivy_search::schema::{FieldKind, IndexSchema};
use tantivy_search::search::IndexSearcher;

fn question(id: &str, text: &str) -> IndexQuestion {
    IndexQuestion {
        id: id.to_string(),
        question: text.to_string(),
        public_employment_name: "Public Employment".to_string(),
        question_type: "ADMINISTRATION".to_string(),
        created_at: "2024-01-01".to_string(),
    }
}

fn question_actor(name: &str) -> IndexActor {
    let dir = RamDirectory::create();
    IndexActor::new_in_ram(name.to_string(), &dir, new_question_schema()).unwrap()
}

fn upsert_question(actor: &mut IndexActor, q: &IndexQuestion) {
    let doc = tantivy_search::question::new_document(q);
    let r = actor.handle_message(IndexActorMessage::Single { doc });
    assert!(r.is_ok());
}

fn commit(actor: &mut IndexActor) {
    let r = actor.handle_message(IndexActorMessage::Commit);
    assert!(r.is_ok());
}

#[test]
fn it_should_index_a_single_question() {
    let mut actor = question_actor("test");
    let searcher = IndexSearcher::new(&actor.index, new_question_schema()).unwrap();
    let question_to_index = IndexQuestion {
        id: "q1".to_string(),
        question: "Había una vez un caballo blanco".to_string(),
        public_employment_name: "Public Employment".to_string(),
        question_type: "ADMINISTRATION".to_string(),
        created_at: "asd".to_string(),
    };
    upsert_question(&mut actor, &question_to_index);
    commit(&mut actor);
    searcher.reload().unwrap();
    let result = searcher.search("caballo", 10).unwrap();
    assert_eq!(result.len(), 1);
    assert_eq!(document_to_question(&result[0]).id, "q1");
    assert_eq!(document_to_question(&result[0]).question, "Había una vez un caballo blanco");
}

#[test]
fn uncommitted_writes_stay_invisible() {
    let mut actor = question_actor("questions");
    let searcher = IndexSearcher::new(&actor.index, new_question_schema()).unwrap();
    upsert_question(&mut actor, &question("q1", "Había una vez un caballo blanco"));
    searcher.reload().unwrap();
    assert_eq!(searcher.search("caballo", 10).unwrap().len(), 0);
    commit(&mut actor);
    searcher.reload().unwrap();
    assert_eq!(searcher.search("caballo", 10).unwrap().len(), 1);
}

#[test]
fn delete_wins_over_prior_upsert() {
    let mut actor = question_actor("questions");
    let searcher = IndexSearcher::new(&actor.index, new_question_schema()).unwrap();
    upsert_question(&mut actor, &question("q1", "Había una vez un caballo blanco"));
    let r = actor.handle_message(IndexActorMessage::Delete { id: "q1".to_string() });
    assert!(r.is_ok());
    commit(&mut actor);
    searcher.reload().unwrap();
    assert_eq!(searcher.search("caballo", 10).unwrap().len(), 0);
}

#[test]
fn fifo_last_upsert_wins() {
    let mut actor = question_actor("questions");
    let searcher = IndexSearcher::new(&actor.index, new_question_schema()).unwrap();
    upsert_question(&mut actor, &question("x", "un perro negro"));
    upsert_question(&mut actor, &question("x", "un caballo blanco"));
    commit(&mut actor);
    searcher.reload().unwrap();
    let hits = searcher.search("caballo", 10).unwrap();
    assert_eq!(hits.len(), 1);
    assert_eq!(document_to_question(&hits[0]).id, "x");
    assert_eq!(document_to_question(&hits[0]).question, "un caballo blanco");
    assert_eq!(searcher.search("perro", 10).unwrap().len(), 0);
}

#[test]
fn repeated_upserts_yield_one_document() {
    let mut actor = question_actor("questions");
    let searcher = IndexSearcher::new(&actor.index, new_question_schema()).unwrap();
    upsert_question(&mut actor, &question("q1", "un caballo gris"));
    upsert_question(&mut actor, &question("q1", "un caballo negro"));
    upsert_question(&mut actor, &question("q1", "un caballo blanco"));
    commit(&mut actor);
    searcher.reload().unwrap();
    let hits = searcher.search("caballo", 10).unwrap();
    assert_eq!(hits.len(), 1);
    assert_eq!(document_to_question(&hits[0]).question, "un caballo blanco");
}

#[test]
fn stemming_matches_inflected_query() {
    let mut actor = question_actor("questions");
    let searcher = IndexSearcher::new(&actor.index, new_question_schema()).unwrap();
    upsert_question(&mut actor, &question("q1", "Había una vez un caballo blanco"));
    commit(&mut actor);
    searcher.reload().unwrap();
    assert_eq!(searcher.search("caballos", 10).unwrap().len(), 1);
}

#[test]
fn accent_folding_applies_to_text_and_query() {
    let dir = RamDirectory::create();
    let mut actor =
        IndexActor::new_in_ram("people".to_string(), &dir, new_person_schema()).unwrap();
    let searcher = IndexSearcher::new(&actor.index, new_person_schema()).unwrap();
    let p = IndexPerson { id: "p1".to_string(), email: "juan.pérez@example.com".to_string() };
    let doc = tantivy_search::person::new_document(&p);
    actor.handle_message(IndexActorMessage::Single { doc }).unwrap();
    commit(&mut actor);
    searcher.reload().unwrap();
    let hits = searcher.search("perez", 10).unwrap();
    assert_eq!(hits.len(), 1);
    assert_eq!(document_to_person(&hits[0]).id, "p1");
}

#[test]
fn stop_words_alone_match_nothing() {
    let mut actor = question_actor("questions");
    let searcher = IndexSearcher::new(&actor.index, new_question_schema()).unwrap();
    upsert_question(&mut actor, &question("q1", "Había una vez un caballo blanco"));
    commit(&mut actor);
    searcher.reload().unwrap();
    assert_eq!(searcher.search("un", 10).unwrap().len(), 0);
    assert_eq!(searcher.search("una", 10).unwrap().len(), 0);
    assert_eq!(searcher.search("caballo", 10).unwrap().len(), 1);
}

#[test]
fn noop_commit_changes_nothing() {
    let mut actor = question_actor("questions");
    assert!(!actor.must_commit());
    let r = actor.handle_message(IndexActorMessage::Commit);
    assert!(matches!(r, Ok(ActorAction::NoAction)));
    assert!(!actor.must_commit());
}

#[test]
fn commit_flag_raised_and_cleared() {
    let mut actor = question_actor("questions");
    upsert_question(&mut actor, &question("q1", "caballo"));
    assert!(actor.must_commit());
    commit(&mut actor);
    assert!(!actor.must_commit());
}

#[test]
fn schema_drift_recreates_empty_index() {
    let dir = RamDirectory::create();
    {
        let mut old_schema = IndexSchema::new();
        old_schema.add_field("id".to_string(), FieldKind::IdText);
        old_schema.add_field("question".to_string(), FieldKind::NgramText);
        let mut actor =
            IndexActor::new_in_ram("questions".to_string(), &dir, old_schema).unwrap();
        assert!(!actor.must_reindex());
        upsert_question(&mut actor, &question("q1", "un caballo blanco"));
        commit(&mut actor);
    }
    let actor =
        IndexActor::new_in_ram("questions".to_string(), &dir, new_question_schema()).unwrap();
    assert!(actor.must_reindex());
    let searcher = IndexSearcher::new(&actor.index, new_question_schema()).unwrap();
    searcher.reload().unwrap();
    assert_eq!(searcher.search("caballo", 10).unwrap().len(), 0);
}

#[test]
fn bootstrap_with_same_schema_keeps_documents() {
    let dir = RamDirectory::create();
    {
        let mut actor =
            IndexActor::new_in_ram("questions".to_string(), &dir, new_question_schema()).unwrap();
        upsert_question(&mut actor, &question("q1", "un caballo blanco"));
        commit(&mut actor);
    }
    let actor =
        IndexActor::new_in_ram("questions".to_string(), &dir, new_question_schema()).unwrap();
    assert!(!actor.must_reindex());
    let searcher = IndexSearcher::new(&actor.index, new_question_schema()).unwrap();
    searcher.reload().unwrap();
    assert_eq!(searcher.search("caballo", 10).unwrap().len(), 1);
}

#[test]
fn hundred_upserts_visible_only_after_commit() {
    let mut actor = question_actor("questions");
    let searcher = IndexSearcher::new(&actor.index, new_question_schema()).unwrap();
    for i in 0..100 {
        upsert_question(&mut actor, &question(&format!("id{}", i), "un caballo blanco"));
    }
    searcher.reload().unwrap();
    assert_eq!(searcher.search("caballo", 150).unwrap().len(), 0);
    commit(&mut actor);
    searcher.reload().unwrap();
    assert_eq!(searcher.search("caballo", 150).unwrap().len(), 100);
}

#[test]
fn two_producers_lose_no_message() {
    let mut actor = question_actor("questions");
    let searcher = IndexSearcher::new(&actor.index, new_question_schema()).unwrap();
    for i in 0..50 {
        upsert_question(&mut actor, &question(&format!("a{}", i), "un caballo blanco"));
        upsert_question(&mut actor, &question(&format!("b{}", i), "un caballo blanco"));
    }
    commit(&mut actor);
    searcher.reload().unwrap();
    assert_eq!(searcher.search("caballo", 200).unwrap().len(), 100);
}

#[test]
fn upsert_without_id_is_field_missing() {
    let mut actor = question_actor("questions");
    let mut doc = tantivy_search::doc::Doc::new();
    doc.add_value(1, "sin identificador".to_string());
    let r = actor.handle_message(IndexActorMessage::Single { doc });
    assert!(matches!(r, Err(IndexError::FieldMissing(_))));
    assert!(!actor.must_commit());
}

#[test]
fn schema_without_id_rejects_mutations() {
    let dir = RamDirectory::create();
    let mut schema = IndexSchema::new();
    schema.add_field("title".to_string(), FieldKind::NgramText);
    let mut actor = IndexActor::new_in_ram("titles".to_string(), &dir, schema).unwrap();
    let r = actor.handle_message(IndexActorMessage::Delete { id: "t1".to_string() });
    assert!(matches!(r, Err(IndexError::FieldMissing(_))));
    let mut doc = tantivy_search::doc::Doc::new();
    doc.add_value(0, "un título".to_string());
    let r = actor.handle_message(IndexActorMessage::Single { doc });
    assert!(matches!(r, Err(IndexError::FieldMissing(_))));
}

#[test]
fn reindex_message_yields_environment_url() {
    let mut actor = question_actor("questions");
    let r = actor.handle_message(IndexActorMessage::Reindex {
        backend_env: AppEnv::new("development".to_string()),
    });
    match r {
        Ok(ActorAction::RequestRebuild { url }) => {
            assert_eq!(url, "http://localhost:8080/reindex/questions");
        }
        other => panic!("expected a rebuild request, got {:?}", other),
    }
    let r = actor.handle_message(IndexActorMessage::Reindex {
        backend_env: AppEnv::new("prod".to_string()),
    });
    match r {
        Ok(ActorAction::RequestRebuild { url }) => {
            assert_eq!(url, "http://app:8080/reindex/questions");
        }
        other => panic!("expected a rebuild request, got {:?}", other),
    }
}

#[test]
fn rebuild_outcome_clears_flag_only_on_success() {
    let dir = RamDirectory::create();
    {
        let mut old_schema = IndexSchema::new();
        old_schema.add_field("id".to_string(), FieldKind::IdText);
        let _ = IndexActor::new_in_ram("questions".to_string(), &dir, old_schema).unwrap();
    }
    let mut actor =
        IndexActor::new_in_ram("questions".to_string(), &dir, new_question_schema()).unwrap();
    assert!(actor.must_reindex());
    actor.apply_rebuild_outcome(false);
    assert!(actor.must_reindex());
    actor.apply_rebuild_outcome(true);
    assert!(!actor.must_reindex());
}

#[test]
fn bad_query_is_a_parse_error() {
    let actor = question_actor("questions");
    let searcher = IndexSearcher::new(&actor.index, new_question_schema()).unwrap();
    let r = searcher.search("nosuchfield:caballo", 10);
    assert!(matches!(r, Err(SearchError::QueryParse(_))));
}
