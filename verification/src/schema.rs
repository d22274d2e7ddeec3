//! Declarative schema model: an ordered list of named text fields, each with
//! a kind that decides how the index engine treats it.

use vstd::prelude::*;
use crate::text::str_eq;

verus! {

/// How a text field is handled by the index engine.
///
/// - `IdText`: indexed exactly (not tokenized) and stored; identifies a document.
/// - `NgramText`: indexed through the Spanish n-gram analyzer and stored.
/// - `StoredText`: stored only, not indexed.
#[derive(Debug, Clone, Copy, PartialEq, Eq, Structural)]
pub enum FieldKind {
    IdText,
    NgramText,
    StoredText,
}

/// Whether a field of this kind is indexed (searchable).
pub open spec fn field_is_indexed(kind: FieldKind) -> bool {
    kind != FieldKind::StoredText
}

impl FieldKind {
    /// Whether a field of this kind is indexed (searchable).
    pub fn is_indexed(&self) -> (r: bool)
        ensures
            r == field_is_indexed(*self),
    {
        match self {
            FieldKind::IdText => true,
            FieldKind::NgramText => true,
            FieldKind::StoredText => false,
        }
    }
}

/// One declared field of a schema.
#[derive(Debug, Clone)]
pub struct FieldDef {
    pub name: String,
    pub kind: FieldKind,
}

/// The mathematical image of a `FieldDef`.
pub ghost struct FieldDefView {
    pub name: Seq<char>,
    pub kind: FieldKind,
}

impl View for FieldDef {
    type V = FieldDefView;

    open spec fn view(&self) -> FieldDefView {
        FieldDefView { name: self.name@, kind: self.kind }
    }
}

/// An ordered declaration of fields for one index.
#[derive(Debug)]
pub struct IndexSchema {
    pub fields: Vec<FieldDef>,
}

impl View for IndexSchema {
    type V = Seq<FieldDefView>;

    open spec fn view(&self) -> Seq<FieldDefView> {
        self.fields@.map_values(|fd: FieldDef| fd@)
    }
}

/// Index of the first field with the given name, if any.
pub open spec fn find_field_idx(s: Seq<FieldDefView>, name: Seq<char>) -> Option<int>
    decreases s.len(),
{
    if s.len() == 0 {
        None
    } else if s[0].name == name {
        Some(0int)
    } else {
        match find_field_idx(s.drop_first(), name) {
            Some(i) => Some(i + 1),
            None => None,
        }
    }
}

/// What `find_field_idx` returns is a first match: the field at the returned
/// index bears the name, and no earlier field does.
pub proof fn lemma_find_field_idx_first_match(s: Seq<FieldDefView>, name: Seq<char>)
    ensures
        (match find_field_idx(s, name) {
            Some(i) => 0 <= i < s.len() && s[i].name == name && (forall|j: int|
                0 <= j < i ==> s[j].name != name),
            None => forall|j: int| 0 <= j < s.len() ==> s[j].name != name,
        }),
    decreases s.len(),
{
    if s.len() != 0 && s[0].name != name {
        lemma_find_field_idx_first_match(s.drop_first(), name);
        assert(forall|j: int| 1 <= j < s.len() ==> s.drop_first()[j - 1] == s[j]);
    }
}

/// No two fields of the schema share a name.
pub open spec fn schema_names_distinct(s: Seq<FieldDefView>) -> bool {
    forall|i: int, j: int| 0 <= i < j < s.len() ==> s[i].name != s[j].name
}

/// The fields of a declared schema, by name. With distinct names, each name
/// maps to the kind of its field.
pub open spec fn schema_field_map(s: Seq<FieldDefView>) -> Map<Seq<char>, FieldKind>
    decreases s.len(),
{
    if s.len() == 0 {
        Map::empty()
    } else {
        schema_field_map(s.drop_last()).insert(s.last().name, s.last().kind)
    }
}

/// A name is in the field map exactly when some field bears it.
pub proof fn lemma_schema_field_map_domain(s: Seq<FieldDefView>, name: Seq<char>)
    ensures
        schema_field_map(s).contains_key(name) <==> (exists|j: int|
            0 <= j < s.len() && #[trigger] s[j].name == name),
    decreases s.len(),
{
    if s.len() > 0 {
        lemma_schema_field_map_domain(s.drop_last(), name);
        assert(forall|j: int| 0 <= j < s.len() - 1 ==> s.drop_last()[j] == s[j]);
        if name == s.last().name {
            assert(s[s.len() - 1].name == name);
        } else {
            if exists|j: int| 0 <= j < s.len() && #[trigger] s[j].name == name {
                let j = choose|j: int| 0 <= j < s.len() && #[trigger] s[j].name == name;
                assert(j < s.len() - 1);
                assert(s.drop_last()[j].name == name);
            }
        }
    }
}

/// Skipping a prefix that holds no field of the given name shifts the first
/// match by the length of that prefix.
pub proof fn lemma_find_field_idx_skip(s: Seq<FieldDefView>, name: Seq<char>, i: int)
    requires
        0 <= i <= s.len(),
        forall|j: int| 0 <= j < i ==> s[j].name != name,
    ensures
        find_field_idx(s, name) == match find_field_idx(s.skip(i), name) {
            Some(k) => Some(i + k),
            None => None::<int>,
        },
    decreases i,
{
    if i == 0 {
        assert(s.skip(0) =~= s);
    } else {
        assert(s[0].name != name);
        assert(s.skip(i) =~= s.drop_first().skip(i - 1));
        lemma_find_field_idx_skip(s.drop_first(), name, i - 1);
    }
}

impl IndexSchema {
    /// An empty schema, to be grown with `add_field`.
    pub fn new() -> (r: Self)
        ensures
            r@ =~= Seq::<FieldDefView>::empty(),
    {
        IndexSchema { fields: Vec::new() }
    }

    /// Append one field declaration.
    pub fn add_field(&mut self, name: String, kind: FieldKind)
        ensures
            final(self)@ =~= old(self)@.push(FieldDefView { name: name@, kind }),
    {
        let ghost before = self@;
        self.fields.push(FieldDef { name, kind });
        proof {
            assert(self@ =~= before.push(self.fields@.last()@));
        }
    }

    /// Position of the first field named `id`, if the schema declares one.
    pub fn find_id_field(&self) -> (r: Option<usize>)
        ensures
            r matches Some(i) ==> find_field_idx(self@, "id"@) == Some(i as int),
            r is None ==> find_field_idx(self@, "id"@) is None,
    {
        let n = self.fields.len();
        let mut i: usize = 0;
        while i < n
            invariant
                n == self@.len(),
                0 <= i <= n,
                forall|j: int| 0 <= j < i ==> self@[j].name != "id"@,
            decreases n - i,
        {
            if str_eq(self.fields[i].name.as_str(), "id") {
                proof {
                    lemma_find_field_idx_skip(self@, "id"@, i as int);
                    assert(self@.skip(i as int)[0] == self@[i as int]);
                }
                return Some(i);
            }
            i = i + 1;
        }
        proof {
            lemma_find_field_idx_skip(self@, "id"@, n as int);
            assert(self@.skip(n as int) =~= Seq::<FieldDefView>::empty());
        }
        None
    }

    /// Whether no two fields share a name, as `build` of the engine schema
    /// demands.
    pub fn names_distinct(&self) -> (r: bool)
        ensures
            r == schema_names_distinct(self@),
    {
        let n = self.fields.len();
        let mut i: usize = 0;
        while i < n
            invariant
                n == self@.len(),
                0 <= i <= n,
                forall|a: int, b: int| 0 <= a < b < i ==> self@[a].name != self@[b].name,
            decreases n - i,
        {
            let mut j: usize = 0;
            while j < i
                invariant
                    n == self@.len(),
                    0 <= j <= i < n,
                    forall|a: int, b: int| 0 <= a < b < i ==> self@[a].name != self@[b].name,
                    forall|a: int| 0 <= a < j ==> self@[a].name != self@[i as int].name,
                decreases i - j,
            {
                if str_eq(self.fields[j].name.as_str(), self.fields[i].name.as_str()) {
                    proof {
                        assert(self@[j as int].name == self@[i as int].name);
                        assert(!schema_names_distinct(self@));
                    }
                    return false;
                }
                j = j + 1;
            }
            i = i + 1;
        }
        true
    }

    /// Number of declared fields.
    pub fn len(&self) -> (r: usize)
        ensures
            r == self@.len(),
    {
        self.fields.len()
    }
}

} // verus!
