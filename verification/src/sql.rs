//! The text of every statement that the entity store runs.
//!
//! The store keeps two tables. `entity` holds one row for each entity, under
//! its composite key, with the encoded record. `properties` holds the index
//! rows derived from indexed fields, one for each indexed field of each
//! entity, under the key of the entity and the name of the field. A third
//! table, `links`, is created and dropped with them and is not otherwise
//! touched.

use vstd::prelude::*;
use vstd::string::*;
use crate::entity::{entity_key, index_views, FieldIndex, FieldIndexView};
use crate::predicate::{is_predicate, well_formed};
use crate::text::{join, lemma_join_push, owned, push_quoted, quoted};

verus! {

/// The texts of `items`.
pub open spec fn str_views(items: Seq<&str>) -> Seq<Seq<char>> {
    items.map_values(|s: &str| s@)
}

/// The statement that writes one entity row; its four parameters are the
/// key, the id, the kind and the encoded record.
pub open spec fn insert_entity_sql() -> Seq<char> {
    "INSERT or REPLACE INTO entity (key, id, kind, data) VALUES (?, ?, ?, ?)"@
}

/// The statement that writes one index row.
pub open spec fn index_upsert_sql(row: FieldIndexView) -> Seq<char> {
    "INSERT or REPLACE INTO properties (key, id, kind, name, value) VALUES ("@ + quoted(row.key())
        + ", "@ + quoted(row.entity_id) + ", "@ + quoted(row.kind) + ", "@ + quoted(row.name)
        + ", "@ + quoted(row.value) + ");"@
}

/// The statements that write `rows`, one on each line.
pub open spec fn index_script(rows: Seq<FieldIndexView>) -> Seq<char> {
    join(rows.map_values(|row: FieldIndexView| index_upsert_sql(row)), "\n"@)
}

/// The statement that deletes every index row of the entities under
/// `keys`.
pub open spec fn clear_index_sql(keys: Seq<Seq<char>>) -> Seq<char> {
    "DELETE from properties WHERE key IN "@ + id_list(keys) + ";"@
}

/// The texts of `ids` as a parenthesised list of text literals.
pub open spec fn id_list(ids: Seq<Seq<char>>) -> Seq<char> {
    "("@ + join(ids.map_values(|id: Seq<char>| quoted(id)), ", "@) + ")"@
}

/// The keys of the entities `ids` of kind `kind` as a parenthesised list of
/// quoted texts.
pub open spec fn key_list(kind: Seq<char>, ids: Seq<Seq<char>>) -> Seq<char> {
    "("@ + join(ids.map_values(|id: Seq<char>| quoted(entity_key(kind, id))), ", "@) + ")"@
}

/// The statement that reads every entity of kind `kind`.
pub open spec fn select_kind_sql(kind: Seq<char>) -> Seq<char> {
    "SELECT data FROM entity WHERE kind = "@ + quoted(kind)
}

/// The statement that reads the entities of kind `kind` whose id is one of
/// `ids`.
pub open spec fn select_ids_sql(kind: Seq<char>, ids: Seq<Seq<char>>) -> Seq<char> {
    select_kind_sql(kind) + " AND id IN "@ + id_list(ids)
}

/// The statement that reads entities by kind and ids: all of the kind where
/// `ids` is empty.
pub open spec fn select_sql(kind: Seq<char>, ids: Seq<Seq<char>>) -> Seq<char> {
    if ids.len() == 0 {
        select_kind_sql(kind)
    } else {
        select_ids_sql(kind, ids)
    }
}

/// The statement that reads the entities of kind `kind` whose index row for
/// `property_name` satisfies the predicate `expr`, which speaks of the row's
/// text in the column `value`.
pub open spec fn query_sql(kind: Seq<char>, property_name: Seq<char>, expr: Seq<char>) -> Seq<char> {
    "SELECT data FROM entity WHERE key IN ( SELECT key FROM properties WHERE kind = "@ + quoted(
        kind,
    ) + " AND name="@ + quoted(property_name) + " AND "@ + expr + ")"@
}

/// The two statements that delete the entities `ids` of kind `kind` and
/// their index rows. Both name the same keys.
pub open spec fn delete_sql(kind: Seq<char>, ids: Seq<Seq<char>>) -> Seq<char> {
    "DELETE from entity WHERE key IN "@ + key_list(kind, ids) + ";"@
        + "DELETE from properties WHERE key IN "@ + key_list(kind, ids) + ";"@
}

/// The statements that create the tables and their indexes where they are
/// missing.
pub open spec fn create_tables_sql() -> Seq<char> {
    "CREATE TABLE IF NOT EXISTS entity (key TEXT not null PRIMARY KEY, id TEXT not null, kind TEXT not null, data BLOB not null);\nCREATE INDEX IF NOT EXISTS nodes_id ON entity (id);\nCREATE TABLE IF NOT EXISTS links (id TEXT not null PRIMARY KEY, predicate TEXT not null, source TEXT not null, target TEXT not null, ordering INTEGER, weight REAL);\nCREATE TABLE IF NOT EXISTS properties (key TEXT not null, id TEXT not null, kind TEXT not null, name TEXT not null, value TEXT, PRIMARY KEY (key, name));\nCREATE INDEX IF NOT EXISTS properties_values ON properties (value);\n"@
}

/// The statements that drop the tables and their indexes.
pub open spec fn drop_tables_sql() -> Seq<char> {
    "DROP TABLE entity;\nDROP TABLE links;\nDROP TABLE properties;\nDROP INDEX IF EXISTS nodes_id;\nDROP INDEX IF EXISTS properties_values;\n"@
}

/// Returns the statement that writes one entity row.
pub fn insert_entity_statement() -> (sql: &'static str)
    ensures
        sql@ == insert_entity_sql(),
{
    "INSERT or REPLACE INTO entity (key, id, kind, data) VALUES (?, ?, ?, ?)"
}

/// Returns the statements that create the tables.
pub fn create_tables_statement() -> (sql: &'static str)
    ensures
        sql@ == create_tables_sql(),
{
    "CREATE TABLE IF NOT EXISTS entity (key TEXT not null PRIMARY KEY, id TEXT not null, kind TEXT not null, data BLOB not null);\nCREATE INDEX IF NOT EXISTS nodes_id ON entity (id);\nCREATE TABLE IF NOT EXISTS links (id TEXT not null PRIMARY KEY, predicate TEXT not null, source TEXT not null, target TEXT not null, ordering INTEGER, weight REAL);\nCREATE TABLE IF NOT EXISTS properties (key TEXT not null, id TEXT not null, kind TEXT not null, name TEXT not null, value TEXT, PRIMARY KEY (key, name));\nCREATE INDEX IF NOT EXISTS properties_values ON properties (value);\n"
}

/// Returns the statements that drop the tables.
pub fn drop_tables_statement() -> (sql: &'static str)
    ensures
        sql@ == drop_tables_sql(),
{
    "DROP TABLE entity;\nDROP TABLE links;\nDROP TABLE properties;\nDROP INDEX IF EXISTS nodes_id;\nDROP INDEX IF EXISTS properties_values;\n"
}

/// Builds the statement that writes the index row `row`.
pub fn index_statement(row: &FieldIndex) -> (sql: String)
    ensures
        sql@ == index_upsert_sql(row@),
{
    let mut sql = owned(
        "INSERT or REPLACE INTO properties (key, id, kind, name, value) VALUES (",
    );
    let key = crate::entity::make_key(row.kind.as_str(), row.entity_id.as_str());
    push_quoted(&mut sql, key.as_str());
    sql.append(", ");
    push_quoted(&mut sql, row.entity_id.as_str());
    sql.append(", ");
    push_quoted(&mut sql, row.kind.as_str());
    sql.append(", ");
    push_quoted(&mut sql, row.name.as_str());
    sql.append(", ");
    push_quoted(&mut sql, row.value.as_str());
    sql.append(");");
    sql
}

/// Builds the statements that write `rows`, one on each line and in the
/// order of `rows`. For no rows the text is empty.
pub fn index_batch(rows: &Vec<FieldIndex>) -> (sql: String)
    ensures
        sql@ == index_script(index_views(rows@)),
{
    let mut sql = String::new();
    let ghost mut parts: Seq<Seq<char>> = Seq::empty();
    let mut i: usize = 0;
    while i < rows.len()
        invariant
            i <= rows.len(),
            parts.len() == i,
            forall|j: int| 0 <= j < i ==> #[trigger] parts[j] == index_upsert_sql(rows@[j]@),
            sql@ == join(parts, "\n"@),
        decreases rows.len() - i,
    {
        let statement = index_statement(&rows[i]);
        if i > 0 {
            sql.append("\n");
        }
        sql.append(statement.as_str());
        proof {
            lemma_join_push(parts, "\n"@, statement@);
            if i == 0 {
                assert(Seq::<char>::empty() + statement@ =~= statement@);
            }
            parts = parts.push(statement@);
        }
        i = i + 1;
    }
    assert(parts =~= index_views(rows@).map_values(|row: FieldIndexView| index_upsert_sql(row)));
    sql
}

/// Builds the parenthesised list of the quoted `ids`.
pub fn id_list_text(ids: &Vec<&str>) -> (sql: String)
    ensures
        sql@ == id_list(str_views(ids@)),
{
    let mut sql = owned("(");
    let ghost mut parts: Seq<Seq<char>> = Seq::empty();
    let mut i: usize = 0;
    while i < ids.len()
        invariant
            i <= ids.len(),
            parts.len() == i,
            forall|j: int| 0 <= j < i ==> #[trigger] parts[j] == quoted(ids@[j]@),
            sql@ == "("@ + join(parts, ", "@),
        decreases ids.len() - i,
    {
        if i > 0 {
            sql.append(", ");
        }
        push_quoted(&mut sql, ids[i]);
        proof {
            let item = quoted(ids@[i as int]@);
            lemma_join_push(parts, ", "@, item);
            if i == 0 {
                assert(join(parts, ", "@) =~= Seq::<char>::empty());
                assert(sql@ =~= "("@ + item);
            } else {
                assert(sql@ =~= "("@ + (join(parts, ", "@) + ", "@ + item));
            }
            parts = parts.push(item);
        }
        i = i + 1;
    }
    sql.append(")");
    assert(parts =~= str_views(ids@).map_values(|id: Seq<char>| quoted(id)));
    sql
}

/// Builds the parenthesised list of the quoted keys of the entities `ids`
/// of kind `kind`.
pub fn key_list_text(kind: &str, ids: &Vec<&str>) -> (sql: String)
    ensures
        sql@ == key_list(kind@, str_views(ids@)),
{
    let mut sql = owned("(");
    let ghost mut parts: Seq<Seq<char>> = Seq::empty();
    let mut i: usize = 0;
    while i < ids.len()
        invariant
            i <= ids.len(),
            parts.len() == i,
            forall|j: int| 0 <= j < i ==> #[trigger] parts[j] == quoted(entity_key(kind@, ids@[j]@)),
            sql@ == "("@ + join(parts, ", "@),
        decreases ids.len() - i,
    {
        if i > 0 {
            sql.append(", ");
        }
        let key = crate::entity::make_key(kind, ids[i]);
        push_quoted(&mut sql, key.as_str());
        proof {
            let item = quoted(entity_key(kind@, ids@[i as int]@));
            lemma_join_push(parts, ", "@, item);
            if i == 0 {
                assert(join(parts, ", "@) =~= Seq::<char>::empty());
                assert(sql@ =~= "("@ + item);
            } else {
                assert(sql@ =~= "("@ + (join(parts, ", "@) + ", "@ + item));
            }
            parts = parts.push(item);
        }
        i = i + 1;
    }
    sql.append(")");
    assert(parts =~= str_views(ids@).map_values(|id: Seq<char>| quoted(entity_key(kind@, id))));
    sql
}

/// Builds the statement that reads entities of kind `kind`: those whose id
/// is one of `ids`, or all of them where `ids` is empty.
pub fn select_statement(kind: &str, ids: &Vec<&str>) -> (sql: String)
    ensures
        sql@ == select_sql(kind@, str_views(ids@)),
{
    let mut sql = owned("SELECT data FROM entity WHERE kind = ");
    push_quoted(&mut sql, kind);
    if ids.len() > 0 {
        sql.append(" AND id IN ");
        let list = id_list_text(ids);
        sql.append(list.as_str());
    }
    sql
}

/// Builds the statement that deletes every index row of the entities under
/// `keys`.
pub fn clear_index_statement(keys: &Vec<&str>) -> (sql: String)
    ensures
        sql@ == clear_index_sql(str_views(keys@)),
{
    let mut sql = owned("DELETE from properties WHERE key IN ");
    let list = id_list_text(keys);
    sql.append(list.as_str());
    sql.append(";");
    sql
}

/// Builds the statement that reads the entities of kind `kind` whose index
/// row for `property_name` satisfies `expr`. There is no statement for an
/// expression that is no predicate.
pub fn query_statement(kind: &str, property_name: &str, expr: &str) -> (sql: Option<String>)
    ensures
        sql is Some <==> well_formed(expr@),
        sql matches Some(text) ==> text@ == query_sql(kind@, property_name@, expr@),
{
    if !is_predicate(expr) {
        return None;
    }
    let mut sql = owned(
        "SELECT data FROM entity WHERE key IN ( SELECT key FROM properties WHERE kind = ",
    );
    push_quoted(&mut sql, kind);
    sql.append(" AND name=");
    push_quoted(&mut sql, property_name);
    sql.append(" AND ");
    sql.append(expr);
    sql.append(")");
    Some(sql)
}

/// Builds the statements that delete the entities `ids` of kind `kind` and
/// their index rows.
pub fn delete_statement(kind: &str, ids: &Vec<&str>) -> (sql: String)
    ensures
        sql@ == delete_sql(kind@, str_views(ids@)),
{
    let keys = key_list_text(kind, ids);
    let mut sql = owned("DELETE from entity WHERE key IN ");
    sql.append(keys.as_str());
    sql.append(";");
    sql.append("DELETE from properties WHERE key IN ");
    sql.append(keys.as_str());
    sql.append(";");
    sql
}

} // verus!
