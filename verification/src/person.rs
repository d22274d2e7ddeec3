//! The `people` index: schema, request shapes, and the mapping between
//! person records and documents.

use vstd::prelude::*;
use crate::doc::Doc;
use crate::doc::DocEntryView;
use crate::doc::field_to_string;
use crate::doc::first_value_or_empty;
use crate::schema::FieldDefView;
use crate::schema::FieldKind;
use crate::schema::IndexSchema;

verus! {

/// A person record as the service accepts it.
#[derive(Debug)]
pub struct IndexPerson {
    pub id: String,
    pub email: String,
}

/// A bulk re-index request: the full list of people.
#[derive(Debug)]
pub struct ReIndexPerson {
    pub people: Vec<IndexPerson>,
}

/// A search request against the `people` index.
#[derive(Debug)]
pub struct SearchPersonQuery {
    pub query: String,
}

/// One element of a search answer: the stored fields of a person, missing
/// values as empty strings.
#[derive(Debug)]
pub struct SearchPersonResponse {
    pub id: String,
    pub email: String,
}

/// Schema positions of the person fields.
pub struct PersonFields {
    pub id: usize,
    pub email: usize,
}

/// The declared schema of the `people` index: an exact `id` and the email
/// indexed through the Spanish n-gram analyzer.
pub open spec fn person_schema_view() -> Seq<FieldDefView> {
    seq![
        FieldDefView { name: "id"@, kind: FieldKind::IdText },
        FieldDefView { name: "email"@, kind: FieldKind::NgramText },
    ]
}

/// Build the schema of the `people` index. Pure: recomputing it always
/// gives the same declaration, which bootstrap relies on to detect drift.
pub fn new_person_schema() -> (r: IndexSchema)
    ensures
        r@ == person_schema_view(),
{
    let mut schema = IndexSchema::new();
    schema.add_field(String::from_str("id"), FieldKind::IdText);
    schema.add_field(String::from_str("email"), FieldKind::NgramText);
    proof {
        assert(schema@ =~= person_schema_view());
    }
    schema
}

/// The schema positions of the person fields, in declaration order.
pub fn person_fields() -> (r: PersonFields)
    ensures
        r.id == 0,
        r.email == 1,
{
    PersonFields { id: 0, email: 1 }
}

/// The document a person record is indexed as.
pub fn new_document(person: &IndexPerson) -> (r: Doc)
    ensures
        r@ =~= seq![
            DocEntryView { field: 0, value: person.id@ },
            DocEntryView { field: 1, value: person.email@ },
        ],
{
    let fields = person_fields();
    let mut d = Doc::new();
    d.add_value(fields.id, person.id.clone());
    d.add_value(fields.email, person.email.clone());
    d
}

/// Read a document back as a person response: for each field, its first
/// value in the document, or the empty string.
pub fn document_to_person(doc: &Doc) -> (r: SearchPersonResponse)
    ensures
        r.id@ == first_value_or_empty(doc@, 0),
        r.email@ == first_value_or_empty(doc@, 1),
{
    let fields = person_fields();
    SearchPersonResponse {
        id: field_to_string(doc, fields.id),
        email: field_to_string(doc, fields.email),
    }
}

} // verus!
