//! The `questions` index: schema, request shapes, and the mapping between
//! question records and documents.

use vstd::prelude::*;
use crate::doc::Doc;
use crate::doc::DocEntryView;
use crate::doc::field_to_string;
use crate::doc::first_value_or_empty;
use crate::schema::FieldDefView;
use crate::schema::FieldKind;
use crate::schema::IndexSchema;

verus! {

/// A question record as the service accepts it.
#[derive(Debug)]
pub struct IndexQuestion {
    pub id: String,
    pub question: String,
    pub public_employment_name: String,
    pub question_type: String,
    pub created_at: String,
}

/// A bulk re-index request: the full list of questions.
#[derive(Debug)]
pub struct ReIndexQuestion {
    pub questions: Vec<IndexQuestion>,
}

/// A search request against the `questions` index.
#[derive(Debug)]
pub struct SearchQuestionQuery {
    pub query: String,
}

/// One element of a search answer: the stored fields of a question, missing
/// values as empty strings.
#[derive(Debug)]
pub struct SearchQuestionResponse {
    pub id: String,
    pub question: String,
    pub public_employment_name: String,
    pub question_type: String,
    pub created_at: String,
}

/// Schema positions of the question fields.
pub struct QuestionFields {
    pub id: usize,
    pub question: usize,
    pub public_employment_name: usize,
    pub question_type: usize,
    pub created_at: usize,
}

/// The declared schema of the `questions` index: an exact `id`, the
/// question text indexed through the Spanish n-gram analyzer, and three
/// stored-only metadata fields.
pub open spec fn question_schema_view() -> Seq<FieldDefView> {
    seq![
        FieldDefView { name: "id"@, kind: FieldKind::IdText },
        FieldDefView { name: "question"@, kind: FieldKind::NgramText },
        FieldDefView { name: "public_employment_name"@, kind: FieldKind::StoredText },
        FieldDefView { name: "question_type"@, kind: FieldKind::StoredText },
        FieldDefView { name: "created_at"@, kind: FieldKind::StoredText },
    ]
}

/// Build the schema of the `questions` index. Pure: recomputing it always
/// gives the same declaration, which bootstrap relies on to detect drift.
pub fn new_question_schema() -> (r: IndexSchema)
    ensures
        r@ == question_schema_view(),
{
    let mut schema = IndexSchema::new();
    schema.add_field(String::from_str("id"), FieldKind::IdText);
    schema.add_field(String::from_str("question"), FieldKind::NgramText);
    schema.add_field(String::from_str("public_employment_name"), FieldKind::StoredText);
    schema.add_field(String::from_str("question_type"), FieldKind::StoredText);
    schema.add_field(String::from_str("created_at"), FieldKind::StoredText);
    proof {
        assert(schema@ =~= question_schema_view());
    }
    schema
}

/// The schema positions of the question fields, in declaration order.
pub fn question_fields() -> (r: QuestionFields)
    ensures
        r.id == 0,
        r.question == 1,
        r.public_employment_name == 2,
        r.question_type == 3,
        r.created_at == 4,
{
    QuestionFields { id: 0, question: 1, public_employment_name: 2, question_type: 3, created_at: 4 }
}

/// The document a question record is indexed as: one entry per schema
/// field, in schema order.
pub fn new_document(question: &IndexQuestion) -> (r: Doc)
    ensures
        r@ =~= seq![
            DocEntryView { field: 0, value: question.id@ },
            DocEntryView { field: 1, value: question.question@ },
            DocEntryView { field: 2, value: question.public_employment_name@ },
            DocEntryView { field: 3, value: question.question_type@ },
            DocEntryView { field: 4, value: question.created_at@ },
        ],
{
    let fields = question_fields();
    let mut d = Doc::new();
    d.add_value(fields.id, question.id.clone());
    d.add_value(fields.question, question.question.clone());
    d.add_value(fields.public_employment_name, question.public_employment_name.clone());
    d.add_value(fields.question_type, question.question_type.clone());
    d.add_value(fields.created_at, question.created_at.clone());
    d
}

/// Read a document back as a question response: for each field, its first
/// value in the document, or the empty string.
pub fn document_to_question(doc: &Doc) -> (r: SearchQuestionResponse)
    ensures
        r.id@ == first_value_or_empty(doc@, 0),
        r.question@ == first_value_or_empty(doc@, 1),
        r.public_employment_name@ == first_value_or_empty(doc@, 2),
        r.question_type@ == first_value_or_empty(doc@, 3),
        r.created_at@ == first_value_or_empty(doc@, 4),
{
    let fields = question_fields();
    SearchQuestionResponse {
        id: field_to_string(doc, fields.id),
        question: field_to_string(doc, fields.question),
        public_employment_name: field_to_string(doc, fields.public_employment_name),
        question_type: field_to_string(doc, fields.question_type),
        created_at: field_to_string(doc, fields.created_at),
    }
}

} // verus!
