//! What every record must offer to be stored and dispatched.

use vstd::prelude::*;
use vstd::string::*;
use crate::text::owned;

verus! {

/// The composite key of an entity: its kind, a `#`, its id.
pub open spec fn entity_key(kind: Seq<char>, id: Seq<char>) -> Seq<char> {
    kind + "#"@ + id
}

/// Builds the composite key of the entity `id` of kind `kind`.
pub fn make_key(kind: &str, id: &str) -> (key: String)
    ensures
        key@ == entity_key(kind@, id@),
{
    let mut key = owned(kind);
    key.append("#");
    key.append(id);
    key
}

/// One row of the property index: the value of one indexed field of one
/// entity, as text.
#[derive(Debug)]
pub struct FieldIndex {
    pub kind: String,
    pub entity_id: String,
    pub name: String,
    pub value: String,
    pub stored_type: String,
}

/// A `FieldIndex` as plain text values.
pub struct FieldIndexView {
    pub kind: Seq<char>,
    pub entity_id: Seq<char>,
    pub name: Seq<char>,
    pub value: Seq<char>,
    pub stored_type: Seq<char>,
}

impl View for FieldIndex {
    type V = FieldIndexView;

    open spec fn view(&self) -> FieldIndexView {
        FieldIndexView {
            kind: self.kind@,
            entity_id: self.entity_id@,
            name: self.name@,
            value: self.value@,
            stored_type: self.stored_type@,
        }
    }
}

impl FieldIndexView {
    /// The key of the entity that this row was derived from.
    pub open spec fn key(self) -> Seq<char> {
        entity_key(self.kind, self.entity_id)
    }
}

/// The rows of `rows`, each by its view.
pub open spec fn index_views(rows: Seq<FieldIndex>) -> Seq<FieldIndexView> {
    rows.map_values(|row: FieldIndex| row@)
}

/// Every row of `rows` was derived from the entity `id` of kind `kind`.
pub open spec fn rows_belong_to(rows: Seq<FieldIndexView>, kind: Seq<char>, id: Seq<char>) -> bool {
    forall|i: int| 0 <= i < rows.len() ==> (#[trigger] rows[i]).kind == kind && rows[i].entity_id == id
}

/// A record with a stable identity, a kind, and index rows derived from its
/// fields.
pub trait Entity: Sized {
    /// The identity of this entity.
    spec fn id(&self) -> Seq<char>;

    /// The kind of this entity: the name of its type.
    spec fn kind(&self) -> Seq<char>;

    /// The index rows of this entity, one for each indexed field.
    spec fn fields_index(&self) -> Seq<FieldIndexView>;

    /// Every index row of an entity names that entity.
    proof fn lemma_index_names_entity(&self)
        ensures
            rows_belong_to(self.fields_index(), self.kind(), self.id()),
    ;

    fn get_id(&self) -> (id: &str)
        ensures
            id@ == self.id(),
    ;

    fn get_kind(&self) -> (kind: &str)
        ensures
            kind@ == self.kind(),
    ;

    /// The composite key under which the store holds this entity.
    fn get_key(&self) -> (key: String)
        ensures
            key@ == entity_key(self.kind(), self.id()),
    {
        make_key(self.get_kind(), self.get_id())
    }

    /// The index rows computed from the current field values.
    fn get_fields_index(&self) -> (rows: Vec<FieldIndex>)
        ensures
            index_views(rows@) == self.fields_index(),
    ;
}

/// One indexed field of a record: its name and its value as text.
#[derive(Debug)]
pub struct IndexedField {
    pub name: String,
    pub value: String,
}

/// An entity of any kind, reduced to what the store and the dispatcher read
/// of it: its id, its kind, and its indexed fields.
#[derive(Debug)]
pub struct EntityRecord {
    pub id: String,
    pub kind: String,
    pub fields: Vec<IndexedField>,
}

impl EntityRecord {
    /// The index row for the field `field` of the entity `id` of kind
    /// `kind`.
    pub open spec fn row_of(kind: Seq<char>, id: Seq<char>, field: IndexedField) -> FieldIndexView {
        FieldIndexView {
            kind,
            entity_id: id,
            name: field.name@,
            value: field.value@,
            stored_type: "String"@,
        }
    }

    pub fn new(kind: &str, id: &str, fields: Vec<IndexedField>) -> (record: Self)
        ensures
            record.kind@ == kind@,
            record.id@ == id@,
            record.fields == fields,
    {
        EntityRecord { id: owned(id), kind: owned(kind), fields }
    }
}

impl Entity for EntityRecord {
    open spec fn id(&self) -> Seq<char> {
        self.id@
    }

    open spec fn kind(&self) -> Seq<char> {
        self.kind@
    }

    open spec fn fields_index(&self) -> Seq<FieldIndexView> {
        self.fields@.map_values(|field: IndexedField| Self::row_of(self.kind@, self.id@, field))
    }

    proof fn lemma_index_names_entity(&self) {
    }

    fn get_id(&self) -> (id: &str) {
        self.id.as_str()
    }

    fn get_kind(&self) -> (kind: &str) {
        self.kind.as_str()
    }

    fn get_fields_index(&self) -> (rows: Vec<FieldIndex>) {
        let mut rows: Vec<FieldIndex> = Vec::new();
        let mut i: usize = 0;
        while i < self.fields.len()
            invariant
                i <= self.fields.len(),
                index_views(rows@) == self.fields_index().take(i as int),
            decreases self.fields.len() - i,
        {
            let field = &self.fields[i];
            let ghost before = rows@;
            let row = FieldIndex {
                kind: self.kind.clone(),
                entity_id: self.id.clone(),
                name: field.name.clone(),
                value: field.value.clone(),
                stored_type: owned("String"),
            };
            rows.push(row);
            assert(index_views(rows@) =~= index_views(before).push(row@));
            assert(self.fields_index().take(i + 1) =~= self.fields_index().take(i as int).push(
                row@,
            ));
            i = i + 1;
        }
        assert(self.fields_index().take(self.fields.len() as int) =~= self.fields_index());
        rows
    }
}

/// The name of an entity type, as a value that carries the type.
pub struct EntitySchema<T> {
    pub name: &'static str,
    pub _marker: core::marker::PhantomData<T>,
}

/// Two keys are equal only if kind and id are, as long as no kind holds a
/// `#`.
pub proof fn lemma_entity_key_injective(k1: Seq<char>, i1: Seq<char>, k2: Seq<char>, i2: Seq<char>)
    requires
        !k1.contains('#'),
        !k2.contains('#'),
        entity_key(k1, i1) == entity_key(k2, i2),
    ensures
        k1 == k2,
        i1 == i2,
{
    reveal_strlit("#");
    let a = entity_key(k1, i1);
    let b = entity_key(k2, i2);
    assert("#"@.len() == 1 && "#"@[0] == '#');
    assert(a.len() == k1.len() + 1 + i1.len());
    assert(b.len() == k2.len() + 1 + i2.len());
    if k1.len() < k2.len() {
        assert(a[k1.len() as int] == '#');
        assert(b[k1.len() as int] == k2[k1.len() as int]);
        assert(k2.contains('#'));
    } else if k2.len() < k1.len() {
        assert(b[k2.len() as int] == '#');
        assert(a[k2.len() as int] == k1[k2.len() as int]);
        assert(k1.contains('#'));
    }
    assert forall|j: int| 0 <= j < k1.len() implies k1[j] == k2[j] by {
        assert(a[j] == k1[j]);
        assert(b[j] == k2[j]);
    }
    assert(k1 =~= k2);
    assert forall|j: int| 0 <= j < i1.len() implies i1[j] == i2[j] by {
        assert(a[k1.len() + 1 + j] == i1[j]);
        assert(b[k2.len() + 1 + j] == i2[j]);
    }
    assert(i1 =~= i2);
}

} // verus!
