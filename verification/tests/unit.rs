use tantivy_search::doc::{doc_fits, field_to_string, Doc};
use tantivy_search::env::AppEnv;
use tantivy_search::person::{document_to_person, new_person_schema, person_fields, IndexPerson};
use tantivy_search::question::{
    document_to_question, new_question_schema, question_fields, IndexQuestion,
};
use tantivy_search::schema::{FieldKind, IndexSchema};
use tantivy_search::text::{eq_ignore_ascii_case, str_eq};

fn sample_question() -> IndexQuestion {
    IndexQuestion {
        id: "q1".to_string(),
        question: "Había una vez un caballo blanco".to_string(),
        public_employment_name: "Public Employment".to_string(),
        question_type: "ADMINISTRATION".to_string(),
        created_at: "2024-01-01".to_string(),
    }
}

#[test]
fn app_env_prod_detection() {
    assert!(AppEnv::new("prod".to_string()).is_prod());
    assert!(AppEnv::new("PROD".to_string()).is_prod());
    assert!(AppEnv::new("Prod".to_string()).is_prod());
    assert!(!AppEnv::new("development".to_string()).is_prod());
    assert!(!AppEnv::new("production".to_string()).is_prod());
    assert!(!AppEnv::new("".to_string()).is_prod());
}

#[test]
fn text_comparisons() {
    assert!(str_eq("caballo", "caballo"));
    assert!(!str_eq("caballo", "caballos"));
    assert!(!str_eq("Caballo", "caballo"));
    assert!(str_eq("", ""));
    assert!(eq_ignore_ascii_case("Caballo", "cABALLO"));
    assert!(!eq_ignore_ascii_case("caballo", "caballos"));
    assert!(eq_ignore_ascii_case("", ""));
    assert!(!eq_ignore_ascii_case("a1", "aA"));
}

#[test]
fn question_schema_shape() {
    let schema = new_question_schema();
    assert_eq!(schema.len(), 5);
    assert_eq!(schema.find_id_field(), Some(0));
    assert_eq!(schema.fields[0].name, "id");
    assert_eq!(schema.fields[0].kind, FieldKind::IdText);
    assert_eq!(schema.fields[1].name, "question");
    assert_eq!(schema.fields[1].kind, FieldKind::NgramText);
    assert_eq!(schema.fields[2].name, "public_employment_name");
    assert_eq!(schema.fields[2].kind, FieldKind::StoredText);
    assert_eq!(schema.fields[3].name, "question_type");
    assert_eq!(schema.fields[4].name, "created_at");
}

#[test]
fn person_schema_shape() {
    let schema = new_person_schema();
    assert_eq!(schema.len(), 2);
    assert_eq!(schema.find_id_field(), Some(0));
    assert_eq!(schema.fields[1].name, "email");
    assert_eq!(schema.fields[1].kind, FieldKind::NgramText);
}

#[test]
fn schema_name_distinctness() {
    assert!(new_question_schema().names_distinct());
    assert!(new_person_schema().names_distinct());
    let mut schema = IndexSchema::new();
    schema.add_field("id".to_string(), FieldKind::IdText);
    schema.add_field("id".to_string(), FieldKind::StoredText);
    assert!(!schema.names_distinct());
}

#[test]
fn schema_without_id_has_no_id_field() {
    let mut schema = IndexSchema::new();
    schema.add_field("title".to_string(), FieldKind::NgramText);
    assert_eq!(schema.find_id_field(), None);
}

#[test]
fn question_document_shape() {
    let q = sample_question();
    let d = tantivy_search::question::new_document(&q);
    let f = question_fields();
    assert_eq!(field_to_string(&d, f.id), "q1");
    assert_eq!(field_to_string(&d, f.question), "Había una vez un caballo blanco");
    assert_eq!(field_to_string(&d, f.public_employment_name), "Public Employment");
    assert_eq!(field_to_string(&d, f.question_type), "ADMINISTRATION");
    assert_eq!(field_to_string(&d, f.created_at), "2024-01-01");
    assert!(doc_fits(&d, 5));
}

#[test]
fn person_document_shape() {
    let p = IndexPerson { id: "p1".to_string(), email: "juan.pérez@example.com".to_string() };
    let d = tantivy_search::person::new_document(&p);
    let f = person_fields();
    assert_eq!(field_to_string(&d, f.id), "p1");
    assert_eq!(field_to_string(&d, f.email), "juan.pérez@example.com");
    assert!(doc_fits(&d, 2));
}

#[test]
fn document_to_question_reads_first_values_or_empty() {
    let mut d = Doc::new();
    d.add_value(0, "q7".to_string());
    d.add_value(1, "primera".to_string());
    d.add_value(1, "segunda".to_string());
    let r = document_to_question(&d);
    assert_eq!(r.id, "q7");
    assert_eq!(r.question, "primera");
    assert_eq!(r.public_employment_name, "");
    assert_eq!(r.question_type, "");
    assert_eq!(r.created_at, "");
}

#[test]
fn document_to_person_reads_first_values_or_empty() {
    let mut d = Doc::new();
    d.add_value(1, "a@b.c".to_string());
    let r = document_to_person(&d);
    assert_eq!(r.id, "");
    assert_eq!(r.email, "a@b.c");
}

#[test]
fn doc_fits_rejects_out_of_schema_entries() {
    let mut d = Doc::new();
    d.add_value(0, "x".to_string());
    d.add_value(7, "y".to_string());
    assert!(doc_fits(&d, 8));
    assert!(!doc_fits(&d, 5));
    assert!(doc_fits(&Doc::new(), 0));
}

#[test]
fn doc_get_first_takes_first_occurrence() {
    let mut d = Doc::new();
    d.add_value(3, "uno".to_string());
    d.add_value(3, "dos".to_string());
    assert_eq!(d.get_first(3).map(|s| s.as_str()), Some("uno"));
    assert_eq!(d.get_first(2), None);
}
