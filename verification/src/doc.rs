//! Document model: a document is an ordered list of (field, value) entries,
//! where the field is a position in the owning index's schema.

use vstd::prelude::*;

verus! {

/// One value of one field of a document.
#[derive(Debug, Clone)]
pub struct DocEntry {
    pub field: usize,
    pub value: String,
}

/// The mathematical image of a `DocEntry`.
pub ghost struct DocEntryView {
    pub field: int,
    pub value: Seq<char>,
}

impl View for DocEntry {
    type V = DocEntryView;

    open spec fn view(&self) -> DocEntryView {
        DocEntryView { field: self.field as int, value: self.value@ }
    }
}

/// A document: field values keyed by schema position. A field may appear at
/// most once in documents the crate builds itself; lookups take the first
/// occurrence, as the index engine does.
#[derive(Debug, Clone)]
pub struct Doc {
    pub entries: Vec<DocEntry>,
}

impl View for Doc {
    type V = Seq<DocEntryView>;

    open spec fn view(&self) -> Seq<DocEntryView> {
        self.entries@.map_values(|e: DocEntry| e@)
    }
}

/// Index of the first entry for the given field, if any.
pub open spec fn find_entry_idx(d: Seq<DocEntryView>, field: int) -> Option<int>
    decreases d.len(),
{
    if d.len() == 0 {
        None
    } else if d[0].field == field {
        Some(0int)
    } else {
        match find_entry_idx(d.drop_first(), field) {
            Some(i) => Some(i + 1),
            None => None,
        }
    }
}

/// The first value a document holds for the given field, if any.
pub open spec fn first_value(d: Seq<DocEntryView>, field: int) -> Option<Seq<char>> {
    match find_entry_idx(d, field) {
        Some(i) => Some(d[i].value),
        None => None,
    }
}

/// The first value for the given field, or the empty string when the
/// document holds none.
pub open spec fn first_value_or_empty(d: Seq<DocEntryView>, field: int) -> Seq<char> {
    match first_value(d, field) {
        Some(v) => v,
        None => Seq::empty(),
    }
}

/// Every entry names a field inside a schema of `n` fields.
pub open spec fn doc_wf(d: Seq<DocEntryView>, n: int) -> bool {
    forall|i: int| 0 <= i < d.len() ==> 0 <= #[trigger] d[i].field < n
}

/// The entries stand in strict schema order, so no field appears twice.
pub open spec fn doc_fields_sorted(d: Seq<DocEntryView>) -> bool {
    forall|a: int, b: int| 0 <= a < b < d.len() ==> d[a].field < d[b].field
}

/// What `find_entry_idx` returns is a first match: the entry at the
/// returned index bears the field, and no earlier entry does.
pub proof fn lemma_find_entry_idx_first_match(d: Seq<DocEntryView>, field: int)
    ensures
        (match find_entry_idx(d, field) {
            Some(i) => 0 <= i < d.len() && d[i].field == field && (forall|j: int|
                0 <= j < i ==> d[j].field != field),
            None => forall|j: int| 0 <= j < d.len() ==> d[j].field != field,
        }),
    decreases d.len(),
{
    if d.len() != 0 && d[0].field != field {
        lemma_find_entry_idx_first_match(d.drop_first(), field);
        assert(forall|j: int| 1 <= j < d.len() ==> d.drop_first()[j - 1] == d[j]);
    }
}

/// Appending an entry of another field keeps the first match of this field.
pub proof fn lemma_find_entry_idx_push(d: Seq<DocEntryView>, e: DocEntryView, field: int)
    requires
        e.field != field,
    ensures
        find_entry_idx(d.push(e), field) == find_entry_idx(d, field),
    decreases d.len(),
{
    if d.len() == 0 {
        assert(d.push(e)[0] == e);
        assert(d.push(e).drop_first() =~= Seq::<DocEntryView>::empty());
        assert(find_entry_idx(Seq::<DocEntryView>::empty(), field) is None);
    } else {
        assert(d.push(e)[0] == d[0]);
        assert(d.push(e).drop_first() =~= d.drop_first().push(e));
        lemma_find_entry_idx_push(d.drop_first(), e, field);
    }
}

/// Appending an entry of another field keeps the first value of this field.
pub proof fn lemma_first_value_push(d: Seq<DocEntryView>, e: DocEntryView, field: int)
    requires
        e.field != field,
    ensures
        first_value(d.push(e), field) == first_value(d, field),
{
    lemma_find_entry_idx_push(d, e, field);
    lemma_find_entry_idx_first_match(d, field);
    match find_entry_idx(d, field) {
        Some(i) => {
            assert(d.push(e)[i] == d[i]);
        },
        None => {},
    }
}

/// Skipping a prefix that holds no entry for the given field shifts the
/// first match by the length of that prefix.
pub proof fn lemma_find_entry_idx_skip(d: Seq<DocEntryView>, field: int, i: int)
    requires
        0 <= i <= d.len(),
        forall|j: int| 0 <= j < i ==> d[j].field != field,
    ensures
        find_entry_idx(d, field) == match find_entry_idx(d.skip(i), field) {
            Some(k) => Some(i + k),
            None => None::<int>,
        },
    decreases i,
{
    if i == 0 {
        assert(d.skip(0) =~= d);
    } else {
        assert(d[0].field != field);
        assert(d.skip(i) =~= d.drop_first().skip(i - 1));
        lemma_find_entry_idx_skip(d.drop_first(), field, i - 1);
    }
}

impl Doc {
    /// An empty document.
    pub fn new() -> (r: Self)
        ensures
            r@ =~= Seq::<DocEntryView>::empty(),
    {
        Doc { entries: Vec::new() }
    }

    /// Append one field value.
    pub fn add_value(&mut self, field: usize, value: String)
        ensures
            final(self)@ =~= old(self)@.push(DocEntryView { field: field as int, value: value@ }),
    {
        let ghost before = self@;
        self.entries.push(DocEntry { field, value });
        proof {
            assert(self@ =~= before.push(self.entries@.last()@));
        }
    }

    /// The first value this document holds for the given field.
    pub fn get_first(&self, field: usize) -> (r: Option<&String>)
        ensures
            match first_value(self@, field as int) {
                Some(v) => r matches Some(s) && s@ == v,
                None => r is None,
            },
    {
        let n = self.entries.len();
        let mut i: usize = 0;
        while i < n
            invariant
                n == self@.len(),
                0 <= i <= n,
                forall|j: int| 0 <= j < i ==> self@[j].field != field as int,
            decreases n - i,
        {
            if self.entries[i].field == field {
                proof {
                    lemma_find_entry_idx_skip(self@, field as int, i as int);
                    assert(self@.skip(i as int)[0] == self@[i as int]);
                }
                return Some(&self.entries[i].value);
            }
            i = i + 1;
        }
        proof {
            lemma_find_entry_idx_skip(self@, field as int, n as int);
            assert(self@.skip(n as int) =~= Seq::<DocEntryView>::empty());
        }
        None
    }
}

/// Whether every entry of the document names a field inside a schema of
/// `num_fields` fields.
pub fn doc_fits(doc: &Doc, num_fields: usize) -> (r: bool)
    ensures
        r == doc_wf(doc@, num_fields as int),
{
    let n = doc.entries.len();
    let mut i: usize = 0;
    while i < n
        invariant
            n == doc@.len(),
            0 <= i <= n,
            forall|j: int| 0 <= j < i ==> 0 <= #[trigger] doc@[j].field < num_fields,
        decreases n - i,
    {
        if doc.entries[i].field >= num_fields {
            proof {
                assert(doc@[i as int].field >= num_fields);
            }
            return false;
        }
        i = i + 1;
    }
    true
}

/// The first value a document holds for the given field, cloned, or the
/// empty string when the document holds none.
pub fn field_to_string(doc: &Doc, field: usize) -> (r: String)
    ensures
        r@ == first_value_or_empty(doc@, field as int),
{
    match doc.get_first(field) {
        Some(s) => s.clone(),
        None => String::new(),
    }
}

} // verus!
