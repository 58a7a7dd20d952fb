//! What the store's statements mean: the two tables as maps by primary key,
//! and the effect of a write, a removal and a read on them.
//!
//! Nothing here runs. The functions say what the statements of the store
//! are meant to do to the tables `entity` and `properties`, over the same
//! rows and keys that the store's plans are stated over; the lemmas are
//! what then holds of every store.

use vstd::prelude::*;
use crate::entity::{entity_key, Entity, FieldIndexView};
use crate::store::{entity_row_of, entity_rows, row_keys, stored_index_rows, EntityRowView};

verus! {

/// `map` after each of `items` was written under its key, in order. A later
/// item replaces an earlier one with the same key.
pub open spec fn upserted<K, V>(map: Map<K, V>, items: Seq<(K, V)>) -> Map<K, V>
    decreases items.len(),
{
    if items.len() == 0 {
        map
    } else {
        upserted(map, items.drop_last()).insert(items.last().0, items.last().1)
    }
}

/// Whether one of `items` has the key `key`.
pub open spec fn has_key<K, V>(items: Seq<(K, V)>, key: K) -> bool {
    exists|i: int| 0 <= i < items.len() && (#[trigger] items[i]).0 == key
}

/// A write that precedes `items` is absorbed where one of `items` has its
/// key, and commutes with them otherwise.
pub proof fn lemma_upserted_insert<K, V>(map: Map<K, V>, items: Seq<(K, V)>, key: K, value: V)
    ensures
        upserted(map.insert(key, value), items) == if has_key(items, key) {
            upserted(map, items)
        } else {
            upserted(map, items).insert(key, value)
        },
    decreases items.len(),
{
    if items.len() == 0 {
    } else {
        let rest = items.drop_last();
        let last = items.last();
        lemma_upserted_insert(map, rest, key, value);
        if has_key(rest, key) {
            let i = choose|i: int| 0 <= i < rest.len() && (#[trigger] rest[i]).0 == key;
            assert(items[i] == rest[i]);
            assert(has_key(items, key));
        } else if last.0 == key {
            assert(items[items.len() - 1].0 == key);
            assert(has_key(items, key));
            assert(upserted(map, rest).insert(key, value).insert(last.0, last.1) =~= upserted(
                map,
                rest,
            ).insert(last.0, last.1));
        } else {
            assert(!has_key(items, key)) by {
                if has_key(items, key) {
                    let i = choose|i: int| 0 <= i < items.len() && (#[trigger] items[i]).0 == key;
                    if i < rest.len() {
                        assert(rest[i] == items[i]);
                    }
                }
            }
            assert(upserted(map, rest).insert(key, value).insert(last.0, last.1) =~= upserted(
                map,
                rest,
            ).insert(last.0, last.1).insert(key, value));
        }
    }
}

/// Writing the same items a second time changes nothing.
pub proof fn lemma_upserted_idempotent<K, V>(map: Map<K, V>, items: Seq<(K, V)>)
    ensures
        upserted(upserted(map, items), items) == upserted(map, items),
    decreases items.len(),
{
    if items.len() > 0 {
        let rest = items.drop_last();
        let last = items.last();
        let once = upserted(map, rest);
        lemma_upserted_idempotent(map, rest);
        lemma_upserted_insert(once, rest, last.0, last.1);
        assert(upserted(once.insert(last.0, last.1), rest).insert(last.0, last.1) =~= once.insert(
            last.0,
            last.1,
        ));
    }
}

/// The tables `entity` and `properties`, each as a map by its primary key:
/// the key of the entity for `entity`; the key of the entity and the name
/// of the field for `properties`.
pub struct Tables {
    pub entities: Map<Seq<char>, EntityRowView>,
    pub properties: Map<(Seq<char>, Seq<char>), FieldIndexView>,
}

/// The tables right after they were created.
pub open spec fn empty_tables() -> Tables {
    Tables { entities: Map::empty(), properties: Map::empty() }
}

/// Every entity row stands under its own key, which is made of its kind and
/// id, and every index row stands under the key of the entity that it was
/// derived from and the name of its field.
pub open spec fn keyed(tables: Tables) -> bool {
    &&& forall|key: Seq<char>| #[trigger]
        tables.entities.contains_key(key) ==> tables.entities[key].key == key && key == entity_key(
            tables.entities[key].kind,
            tables.entities[key].id,
        )
    &&& forall|slot: (Seq<char>, Seq<char>)| #[trigger]
        tables.properties.contains_key(slot) ==> tables.properties[slot].key() == slot.0
            && tables.properties[slot].name == slot.1
}

/// Every index row belongs to an entity that is stored.
pub open spec fn indexed_are_stored(tables: Tables) -> bool {
    forall|slot: (Seq<char>, Seq<char>)| #[trigger]
        tables.properties.contains_key(slot) ==> tables.entities.contains_key(slot.0)
}

/// Entity rows paired with the keys under which they are written.
pub open spec fn keyed_rows(rows: Seq<EntityRowView>) -> Seq<(Seq<char>, EntityRowView)> {
    rows.map_values(|row: EntityRowView| (row.key, row))
}

/// Index rows paired with the keys under which they are written.
pub open spec fn keyed_index(rows: Seq<FieldIndexView>) -> Seq<
    ((Seq<char>, Seq<char>), FieldIndexView),
> {
    rows.map_values(|row: FieldIndexView| ((row.key(), row.name), row))
}

/// `properties` without the index rows of the entities under `keys`.
pub open spec fn without(
    properties: Map<(Seq<char>, Seq<char>), FieldIndexView>,
    keys: Set<Seq<char>>,
) -> Map<(Seq<char>, Seq<char>), FieldIndexView> {
    Map::new(
        |slot: (Seq<char>, Seq<char>)| properties.contains_key(slot) && !keys.contains(slot.0),
        |slot: (Seq<char>, Seq<char>)| properties[slot],
    )
}

/// The keys under which a write of `entities` with the encodings `encoded`
/// writes rows.
pub open spec fn written_keys<T: Entity>(
    entities: Seq<T>,
    encoded: Seq<Option<Vec<u8>>>,
) -> Set<Seq<char>> {
    row_keys(entity_rows(entities, encoded)).to_set()
}

/// The tables after the write of `entities` with the encodings `encoded`:
/// the rows of the plan are written to `entity`, each under its key and in
/// order; the index rows of the written entities are deleted from
/// `properties`, and the index rows of the plan are written there, each
/// under its key and the name of its field.
pub open spec fn after_update<T: Entity>(
    tables: Tables,
    entities: Seq<T>,
    encoded: Seq<Option<Vec<u8>>>,
) -> Tables {
    Tables {
        entities: upserted(tables.entities, keyed_rows(entity_rows(entities, encoded))),
        properties: upserted(
            without(tables.properties, written_keys(entities, encoded)),
            keyed_index(stored_index_rows(entities, encoded)),
        ),
    }
}

/// The keys of the entities `ids` of kind `kind`.
pub open spec fn keys_of(kind: Seq<char>, ids: Seq<Seq<char>>) -> Set<Seq<char>> {
    Set::new(|key: Seq<char>| exists|i: int| 0 <= i < ids.len() && key == entity_key(kind, #[trigger] ids[i]))
}

/// The tables after the removal of the entities `ids` of kind `kind`: the
/// rows under their keys are gone from both tables.
pub open spec fn after_remove(tables: Tables, kind: Seq<char>, ids: Seq<Seq<char>>) -> Tables {
    Tables {
        entities: tables.entities.remove_keys(keys_of(kind, ids)),
        properties: without(tables.properties, keys_of(kind, ids)),
    }
}

/// The rows that a read of the entities `ids` of kind `kind` returns, by
/// key: all rows of the kind where `ids` is empty, else those whose id is
/// one of `ids`. Their order is not specified.
pub open spec fn found(tables: Tables, kind: Seq<char>, ids: Seq<Seq<char>>) -> Map<
    Seq<char>,
    EntityRowView,
> {
    Map::new(
        |key: Seq<char>|
            tables.entities.contains_key(key) && tables.entities[key].kind == kind && (ids.len()
                == 0 || ids.contains(tables.entities[key].id)),
        |key: Seq<char>| tables.entities[key],
    )
}

/// The rows that a query by property returns, by key: the rows of the
/// entities that have an index row of kind `kind` for `property_name` whose
/// value `satisfies` the expression of the query. What an expression means
/// is the database's to say.
pub open spec fn queried(
    tables: Tables,
    kind: Seq<char>,
    property_name: Seq<char>,
    satisfies: spec_fn(Seq<char>) -> bool,
) -> Map<Seq<char>, EntityRowView> {
    Map::new(
        |key: Seq<char>|
            tables.entities.contains_key(key) && tables.properties.contains_key(
                (key, property_name),
            ) && tables.properties[(key, property_name)].kind == kind && satisfies(
                tables.properties[(key, property_name)].value,
            ),
        |key: Seq<char>| tables.entities[key],
    )
}

/// A read by ids returns rows of the entities asked for only: at most one
/// for each id.
pub proof fn lemma_found_within_ids(
    tables: Tables,
    kind: Seq<char>,
    ids: Seq<Seq<char>>,
    key: Seq<char>,
)
    requires
        keyed(tables),
        ids.len() > 0,
        found(tables, kind, ids).contains_key(key),
    ensures
        keys_of(kind, ids).contains(key),
{
    let id = tables.entities[key].id;
    assert(ids.contains(id));
    let i = choose|i: int| 0 <= i < ids.len() && ids[i] == id;
    assert(key == entity_key(kind, ids[i]));
}

/// Keys are unique. Two stored rows of the same kind and id are one row.
pub proof fn lemma_key_unique(tables: Tables, a: Seq<char>, b: Seq<char>)
    requires
        keyed(tables),
        tables.entities.contains_key(a),
        tables.entities.contains_key(b),
        tables.entities[a].kind == tables.entities[b].kind,
        tables.entities[a].id == tables.entities[b].id,
    ensures
        a == b,
{
}

/// What holds of every entry of a map and of every item written to it holds
/// of every entry afterwards.
pub proof fn lemma_upserted_all<K, V>(
    map: Map<K, V>,
    items: Seq<(K, V)>,
    holds: spec_fn(K, V) -> bool,
)
    requires
        forall|key: K| #[trigger] map.contains_key(key) ==> holds(key, map[key]),
        forall|i: int| 0 <= i < items.len() ==> holds((#[trigger] items[i]).0, items[i].1),
    ensures
        forall|key: K| #[trigger]
            upserted(map, items).contains_key(key) ==> holds(key, upserted(map, items)[key]),
    decreases items.len(),
{
    if items.len() > 0 {
        let rest = items.drop_last();
        assert forall|i: int| 0 <= i < rest.len() implies holds((#[trigger] rest[i]).0, rest[i].1) by {
            assert(rest[i] == items[i]);
        }
        lemma_upserted_all(map, rest, holds);
        let last = items[items.len() - 1];
        assert(items.last() == last);
        assert(holds(last.0, last.1));
        assert(upserted(map, items) == upserted(map, rest).insert(last.0, last.1));
        assert forall|key: K| #[trigger] upserted(map, items).contains_key(key) implies holds(
            key,
            upserted(map, items)[key],
        ) by {
            if key != last.0 {
                assert(upserted(map, rest).contains_key(key));
            }
        }
    }
}

/// The key of every row of a plan is made of the row's kind and id.
pub proof fn lemma_entity_rows_keyed<T: Entity>(entities: Seq<T>, encoded: Seq<Option<Vec<u8>>>)
    ensures
        forall|i: int|
            0 <= i < entity_rows(entities, encoded).len() ==> (#[trigger] entity_rows(
                entities,
                encoded,
            )[i]).key == entity_key(
                entity_rows(entities, encoded)[i].kind,
                entity_rows(entities, encoded)[i].id,
            ),
    decreases entities.len(),
{
    if entities.len() > 0 {
        let rest = entity_rows(entities.drop_last(), encoded);
        let rows = entity_rows(entities, encoded);
        lemma_entity_rows_keyed(entities.drop_last(), encoded);
        assert forall|i: int| 0 <= i < rows.len() implies (#[trigger] rows[i]).key == entity_key(
            rows[i].kind,
            rows[i].id,
        ) by {
            if i < rest.len() {
                assert(rows[i] == rest[i]);
            }
        }
    }
}

/// A write keeps every row under its key.
pub proof fn lemma_update_keeps_keyed<T: Entity>(
    tables: Tables,
    entities: Seq<T>,
    encoded: Seq<Option<Vec<u8>>>,
)
    requires
        keyed(tables),
    ensures
        keyed(after_update(tables, entities, encoded)),
{
    let rows = entity_rows(entities, encoded);
    lemma_entity_rows_keyed(entities, encoded);
    let row_holds = |key: Seq<char>, row: EntityRowView|
        row.key == key && key == entity_key(row.kind, row.id);
    assert forall|i: int| 0 <= i < keyed_rows(rows).len() implies row_holds(
        (#[trigger] keyed_rows(rows)[i]).0,
        keyed_rows(rows)[i].1,
    ) by {
        assert(keyed_rows(rows)[i] == (rows[i].key, rows[i]));
    }
    lemma_upserted_all(tables.entities, keyed_rows(rows), row_holds);
    let index = stored_index_rows(entities, encoded);
    let index_holds = |slot: (Seq<char>, Seq<char>), row: FieldIndexView|
        row.key() == slot.0 && row.name == slot.1;
    assert forall|i: int| 0 <= i < keyed_index(index).len() implies index_holds(
        (#[trigger] keyed_index(index)[i]).0,
        keyed_index(index)[i].1,
    ) by {
        assert(keyed_index(index)[i] == ((index[i].key(), index[i].name), index[i]));
    }
    lemma_upserted_all(
        without(tables.properties, written_keys(entities, encoded)),
        keyed_index(index),
        index_holds,
    );
}

/// A key is present after a write if and only if it was present before or
/// one of the written items has it.
pub proof fn lemma_upserted_keys<K, V>(map: Map<K, V>, items: Seq<(K, V)>, key: K)
    ensures
        upserted(map, items).contains_key(key) <==> map.contains_key(key) || has_key(items, key),
    decreases items.len(),
{
    if items.len() > 0 {
        let rest = items.drop_last();
        lemma_upserted_keys(map, rest, key);
        if has_key(rest, key) {
            let i = choose|i: int| 0 <= i < rest.len() && (#[trigger] rest[i]).0 == key;
            assert(items[i] == rest[i]);
        }
        if items.last().0 == key {
            assert(items[items.len() - 1].0 == key);
        }
        if has_key(items, key) {
            let i = choose|i: int| 0 <= i < items.len() && (#[trigger] items[i]).0 == key;
            if i < rest.len() {
                assert(rest[i] == items[i]);
            }
        }
    }
}

/// Every index row of a plan stands under the key of an entity of the batch
/// that has an encoding.
pub proof fn lemma_index_rows_of_batch<T: Entity>(
    entities: Seq<T>,
    encoded: Seq<Option<Vec<u8>>>,
    j: int,
)
    requires
        0 <= j < stored_index_rows(entities, encoded).len(),
    ensures
        exists|i: int|
            0 <= i < entities.len() && i < encoded.len() && encoded[i] is Some
                && stored_index_rows(entities, encoded)[j].key() == entity_key(
                (#[trigger] entities[i]).kind(),
                entities[i].id(),
            ),
    decreases entities.len(),
{
    let rest = entities.drop_last();
    let last = entities.last();
    if j < stored_index_rows(rest, encoded).len() {
        lemma_index_rows_of_batch(rest, encoded, j);
        let i = choose|i: int|
            0 <= i < rest.len() && i < encoded.len() && encoded[i] is Some && stored_index_rows(
                rest,
                encoded,
            )[j].key() == entity_key((#[trigger] rest[i]).kind(), rest[i].id());
        assert(entities[i] == rest[i]);
    } else {
        last.lemma_index_names_entity();
        let row = last.fields_index()[j - stored_index_rows(rest, encoded).len()];
        assert(stored_index_rows(entities, encoded)[j] == row);
        assert(entities[entities.len() - 1] == last);
    }
}

/// Every entity of a batch that has an encoding has a row in the plan,
/// under its key.
pub proof fn lemma_rows_of_batch<T: Entity>(
    entities: Seq<T>,
    encoded: Seq<Option<Vec<u8>>>,
    i: int,
)
    requires
        0 <= i < entities.len(),
        i < encoded.len(),
        encoded[i] is Some,
    ensures
        has_key(
            keyed_rows(entity_rows(entities, encoded)),
            entity_key(entities[i].kind(), entities[i].id()),
        ),
    decreases entities.len(),
{
    let rest = entities.drop_last();
    let rows = entity_rows(entities, encoded);
    let key = entity_key(entities[i].kind(), entities[i].id());
    if i < entities.len() - 1 {
        lemma_rows_of_batch(rest, encoded, i);
        let before = entity_rows(rest, encoded);
        let j = choose|j: int|
            0 <= j < keyed_rows(before).len() && (#[trigger] keyed_rows(before)[j]).0 == key;
        assert(rows[j] == before[j]);
        assert(keyed_rows(rows)[j].0 == key);
    } else {
        let j = rows.len() - 1;
        assert(rows[j] == entity_row_of(entities[i], encoded[i]->0@));
        assert(keyed_rows(rows)[j].0 == key);
    }
}

/// Every index row of a plan stands under a key that the plan writes.
pub proof fn lemma_index_keys_written<T: Entity>(
    entities: Seq<T>,
    encoded: Seq<Option<Vec<u8>>>,
    j: int,
)
    requires
        0 <= j < stored_index_rows(entities, encoded).len(),
    ensures
        written_keys(entities, encoded).contains(stored_index_rows(entities, encoded)[j].key()),
{
    lemma_index_rows_of_batch(entities, encoded, j);
    let i = choose|i: int|
        0 <= i < entities.len() && i < encoded.len() && encoded[i] is Some && stored_index_rows(
            entities,
            encoded,
        )[j].key() == entity_key((#[trigger] entities[i]).kind(), entities[i].id());
    lemma_rows_of_batch(entities, encoded, i);
    let rows = entity_rows(entities, encoded);
    let key = entity_key(entities[i].kind(), entities[i].id());
    let r = choose|r: int| 0 <= r < keyed_rows(rows).len() && (#[trigger] keyed_rows(rows)[r]).0 == key;
    assert(row_keys(rows)[r] == key);
    assert(row_keys(rows).contains(key));
}

/// A write keeps every index row with a stored entity, whether or not
/// every entity of the batch could be encoded.
pub proof fn lemma_update_keeps_index<T: Entity>(
    tables: Tables,
    entities: Seq<T>,
    encoded: Seq<Option<Vec<u8>>>,
)
    requires
        indexed_are_stored(tables),
    ensures
        indexed_are_stored(after_update(tables, entities, encoded)),
{
    let after = after_update(tables, entities, encoded);
    let rows = keyed_rows(entity_rows(entities, encoded));
    let index = keyed_index(stored_index_rows(entities, encoded));
    let base = without(tables.properties, written_keys(entities, encoded));
    assert forall|slot: (Seq<char>, Seq<char>)| #[trigger]
        after.properties.contains_key(slot) implies after.entities.contains_key(slot.0) by {
        lemma_upserted_keys(base, index, slot);
        lemma_upserted_keys(tables.entities, rows, slot.0);
        if !base.contains_key(slot) {
            let j = choose|j: int| 0 <= j < index.len() && (#[trigger] index[j]).0 == slot;
            lemma_index_rows_of_batch(entities, encoded, j);
            let i = choose|i: int|
                0 <= i < entities.len() && i < encoded.len() && encoded[i] is Some
                    && stored_index_rows(entities, encoded)[j].key() == entity_key(
                    (#[trigger] entities[i]).kind(),
                    entities[i].id(),
                );
            lemma_rows_of_batch(entities, encoded, i);
        } else {
            assert(tables.properties.contains_key(slot));
        }
    }
}

/// Recomputed index. After a write, the index rows under a key that the
/// write wrote are those of the plan and no others: no row that the entity
/// had before stays behind.
pub proof fn lemma_update_recomputes_index<T: Entity>(
    tables: Tables,
    entities: Seq<T>,
    encoded: Seq<Option<Vec<u8>>>,
    key: Seq<char>,
    name: Seq<char>,
)
    requires
        written_keys(entities, encoded).contains(key),
    ensures
        after_update(tables, entities, encoded).properties.contains_key((key, name)) <==> has_key(
            keyed_index(stored_index_rows(entities, encoded)),
            (key, name),
        ),
{
    lemma_upserted_keys(
        without(tables.properties, written_keys(entities, encoded)),
        keyed_index(stored_index_rows(entities, encoded)),
        (key, name),
    );
}

/// Index rows written under keys that are then cleared leave no trace.
pub proof fn lemma_without_upserted(
    properties: Map<(Seq<char>, Seq<char>), FieldIndexView>,
    items: Seq<((Seq<char>, Seq<char>), FieldIndexView)>,
    keys: Set<Seq<char>>,
)
    requires
        forall|j: int| 0 <= j < items.len() ==> keys.contains((#[trigger] items[j]).0.0),
    ensures
        without(upserted(properties, items), keys) == without(properties, keys),
    decreases items.len(),
{
    if items.len() > 0 {
        let rest = items.drop_last();
        assert forall|j: int| 0 <= j < rest.len() implies keys.contains((#[trigger] rest[j]).0.0) by {
            assert(rest[j] == items[j]);
        }
        lemma_without_upserted(properties, rest, keys);
        assert(keys.contains(items[items.len() - 1].0.0));
        assert(without(upserted(properties, items), keys) =~= without(
            upserted(properties, rest),
            keys,
        ));
    }
}

/// A removal keeps every row under its key, and every index row with its
/// entity.
pub proof fn lemma_remove_keeps_valid(tables: Tables, kind: Seq<char>, ids: Seq<Seq<char>>)
    requires
        keyed(tables),
    ensures
        keyed(after_remove(tables, kind, ids)),
        indexed_are_stored(tables) ==> indexed_are_stored(after_remove(tables, kind, ids)),
{
}

/// Round trip. After the write of one entity with its encoding, the read of
/// its kind and id returns its row, with that encoding, and no other.
pub proof fn lemma_round_trip<T: Entity>(tables: Tables, entity: T, data: Vec<u8>)
    requires
        keyed(tables),
    ensures
        found(after_update(tables, seq![entity], seq![Some(data)]), entity.kind(), seq![entity.id()])
            == Map::<Seq<char>, EntityRowView>::empty().insert(
            entity_key(entity.kind(), entity.id()),
            entity_row_of(entity, data@),
        ),
{
    let entities = seq![entity];
    let encoded = seq![Some(data)];
    let row = entity_row_of(entity, data@);
    let after = after_update(tables, entities, encoded);
    lemma_update_keeps_keyed(tables, entities, encoded);
    assert(entities.drop_last() =~= Seq::<T>::empty());
    reveal_with_fuel(entity_rows, 2);
    assert(entity_rows(entities, encoded) =~= seq![row]);
    assert(keyed_rows(seq![row]) =~= seq![(row.key, row)]);
    assert(seq![(row.key, row)].drop_last() =~= Seq::<(Seq<char>, EntityRowView)>::empty());
    reveal_with_fuel(upserted, 2);
    assert(after.entities =~= tables.entities.insert(row.key, row));
    let ids = seq![entity.id()];
    assert(ids[0] == entity.id());
    assert(ids.contains(entity.id()));
    let got = found(after, entity.kind(), ids);
    assert forall|key: Seq<char>| got.contains_key(key) implies key == row.key by {
        assert(after.entities.contains_key(key));
        assert(ids.contains(after.entities[key].id));
        assert(after.entities[key].id == entity.id());
    }
    assert(got =~= Map::<Seq<char>, EntityRowView>::empty().insert(row.key, row));
}

/// Idempotence. Writing the same batch with the same encodings a second
/// time leaves the tables as the first write left them.
pub proof fn lemma_update_idempotent<T: Entity>(
    tables: Tables,
    entities: Seq<T>,
    encoded: Seq<Option<Vec<u8>>>,
)
    ensures
        after_update(after_update(tables, entities, encoded), entities, encoded) == after_update(
            tables,
            entities,
            encoded,
        ),
{
    let keys = written_keys(entities, encoded);
    let index = keyed_index(stored_index_rows(entities, encoded));
    let base = without(tables.properties, keys);
    let once = after_update(tables, entities, encoded);
    lemma_upserted_idempotent(tables.entities, keyed_rows(entity_rows(entities, encoded)));
    assert forall|j: int| 0 <= j < index.len() implies keys.contains((#[trigger] index[j]).0.0) by {
        lemma_index_keys_written(entities, encoded, j);
    }
    lemma_without_upserted(base, index, keys);
    assert(without(base, keys) =~= base);
    assert(without(once.properties, keys) == base);
}

/// Deletion. After the removal of entities of one kind, a read of any of
/// them returns nothing, and no index row names any of them.
pub proof fn lemma_removed_is_gone(
    tables: Tables,
    kind: Seq<char>,
    ids: Seq<Seq<char>>,
    i: int,
)
    requires
        keyed(tables),
        0 <= i < ids.len(),
    ensures
        found(after_remove(tables, kind, ids), kind, seq![ids[i]]) == Map::<
            Seq<char>,
            EntityRowView,
        >::empty(),
        forall|slot: (Seq<char>, Seq<char>)| #[trigger]
            after_remove(tables, kind, ids).properties.contains_key(slot) ==> !(after_remove(
                tables,
                kind,
                ids,
            ).properties[slot].kind == kind && after_remove(
                tables,
                kind,
                ids,
            ).properties[slot].entity_id == ids[i]),
{
    let after = after_remove(tables, kind, ids);
    let gone = entity_key(kind, ids[i]);
    assert(keys_of(kind, ids).contains(gone));
    let got = found(after, kind, seq![ids[i]]);
    assert forall|key: Seq<char>| !got.contains_key(key) by {
        if got.contains_key(key) {
            assert(seq![ids[i]].contains(after.entities[key].id));
            assert(after.entities[key].id == ids[i]);
            assert(key == gone);
        }
    }
    assert(got =~= Map::<Seq<char>, EntityRowView>::empty());
    assert forall|slot: (Seq<char>, Seq<char>)| #[trigger]
        after.properties.contains_key(slot) implies !(after.properties[slot].kind == kind
        && after.properties[slot].entity_id == ids[i]) by {
        if after.properties[slot].kind == kind && after.properties[slot].entity_id == ids[i] {
            assert(tables.properties[slot].key() == slot.0);
            assert(slot.0 == gone);
        }
    }
}

/// Deleting entities that are not stored changes nothing.
pub proof fn lemma_remove_absent(tables: Tables, kind: Seq<char>, ids: Seq<Seq<char>>)
    requires
        forall|key: Seq<char>| #[trigger]
            tables.entities.contains_key(key) ==> !keys_of(kind, ids).contains(key),
        forall|slot: (Seq<char>, Seq<char>)| #[trigger]
            tables.properties.contains_key(slot) ==> !keys_of(kind, ids).contains(slot.0),
    ensures
        after_remove(tables, kind, ids) == tables,
{
    let after = after_remove(tables, kind, ids);
    assert(after.entities =~= tables.entities);
    assert(after.properties =~= tables.properties);
}


/// Query. After the write of one entity with its encoding, a query by any
/// of its indexed fields whose value satisfies the expression returns the
/// entity's row.
pub proof fn lemma_written_is_queried<T: Entity>(
    tables: Tables,
    entity: T,
    data: Vec<u8>,
    field: int,
    satisfies: spec_fn(Seq<char>) -> bool,
)
    requires
        0 <= field < entity.fields_index().len(),
        satisfies(entity.fields_index()[field].value),
        forall|later: int|
            field < later < entity.fields_index().len() ==> (#[trigger] entity.fields_index()[later]).name
                != entity.fields_index()[field].name,
    ensures
        queried(
            after_update(tables, seq![entity], seq![Some(data)]),
            entity.kind(),
            entity.fields_index()[field].name,
            satisfies,
        ).contains_pair(entity_key(entity.kind(), entity.id()), entity_row_of(entity, data@)),
{
    let entities = seq![entity];
    let encoded = seq![Some(data)];
    let row = entity_row_of(entity, data@);
    let after = after_update(tables, entities, encoded);
    assert(entities.drop_last() =~= Seq::<T>::empty());
    reveal_with_fuel(entity_rows, 2);
    assert(entity_rows(entities, encoded) =~= seq![row]);
    assert(keyed_rows(seq![row]) =~= seq![(row.key, row)]);
    assert(seq![(row.key, row)].drop_last() =~= Seq::<(Seq<char>, EntityRowView)>::empty());
    reveal_with_fuel(upserted, 2);
    assert(after.entities =~= tables.entities.insert(row.key, row));
    reveal_with_fuel(stored_index_rows, 2);
    let rows = entity.fields_index();
    assert(stored_index_rows(entities, encoded) =~= rows);
    entity.lemma_index_names_entity();
    let wanted = rows[field];
    let items = keyed_index(rows);
    assert(items[field] == ((wanted.key(), wanted.name), wanted));
    assert forall|later: int| field < later < items.len() implies (#[trigger] items[later]).0
        != items[field].0 by {
        assert(items[later] == ((rows[later].key(), rows[later].name), rows[later]));
    }
    lemma_upserted_last_wins(
        without(tables.properties, written_keys(entities, encoded)),
        items,
        field,
    );
}

/// Last write wins. After `items` were written, the value under the key of
/// an item that no later item shares is that item's value.
pub proof fn lemma_upserted_last_wins<K, V>(map: Map<K, V>, items: Seq<(K, V)>, i: int)
    requires
        0 <= i < items.len(),
        forall|j: int| i < j < items.len() ==> (#[trigger] items[j]).0 != items[i].0,
    ensures
        upserted(map, items).contains_key(items[i].0),
        upserted(map, items)[items[i].0] == items[i].1,
    decreases items.len(),
{
    if i < items.len() - 1 {
        let rest = items.drop_last();
        assert(rest[i] == items[i]);
        assert forall|j: int| i < j < rest.len() implies (#[trigger] rest[j]).0 != rest[i].0 by {
            assert(rest[j] == items[j]);
        }
        lemma_upserted_last_wins(map, rest, i);
        assert(items.last() == items[items.len() - 1]);
    }
}


/// Fresh rows add up. Writing rows under keys that differ from one another
/// and from every key already there adds one entry for each row.
pub proof fn lemma_upserted_fresh<K, V>(map: Map<K, V>, items: Seq<(K, V)>)
    requires
        map.dom().finite(),
        forall|i: int| 0 <= i < items.len() ==> !map.contains_key((#[trigger] items[i]).0),
        forall|i: int, j: int|
            0 <= i < j < items.len() ==> (#[trigger] items[i]).0 != (#[trigger] items[j]).0,
    ensures
        upserted(map, items).dom().finite(),
        upserted(map, items).dom().len() == map.dom().len() + items.len(),
    decreases items.len(),
{
    if items.len() > 0 {
        let rest = items.drop_last();
        let last = items[items.len() - 1];
        assert forall|i: int| 0 <= i < rest.len() implies !map.contains_key((#[trigger] rest[i]).0) by {
            assert(rest[i] == items[i]);
        }
        assert forall|i: int, j: int| 0 <= i < j < rest.len() implies (#[trigger] rest[i]).0 != (
        #[trigger] rest[j]).0 by {
            assert(rest[i] == items[i]);
            assert(rest[j] == items[j]);
        }
        lemma_upserted_fresh(map, rest);
        lemma_upserted_keys(map, rest, last.0);
        if has_key(rest, last.0) {
            let i = choose|i: int| 0 <= i < rest.len() && (#[trigger] rest[i]).0 == last.0;
            assert(rest[i] == items[i]);
        }
        assert(items.last() == last);
        let before = upserted(map, rest);
        assert(!before.contains_key(last.0));
        assert(upserted(map, items).dom() =~= before.dom().insert(last.0));
    }
}

/// A read of a kind without ids returns every stored row where every stored
/// row is of that kind.
pub proof fn lemma_found_all(tables: Tables, kind: Seq<char>)
    requires
        forall|key: Seq<char>| #[trigger]
            tables.entities.contains_key(key) ==> tables.entities[key].kind == kind,
    ensures
        found(tables, kind, Seq::empty()) == tables.entities,
{
    assert(found(tables, kind, Seq::empty()) =~= tables.entities);
}

} // verus!
