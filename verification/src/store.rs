//! The entity store: what it writes, reads and deletes, and when.
//!
//! A store is made unopened, is opened once its database is connected, and
//! is closed at the end. It decides which statements run; it never touches
//! the database itself. Only an opened store issues statements: asked while
//! unopened or closed, every operation answers that there is nothing to run.

use vstd::prelude::*;
use vstd::string::*;
use crate::entity::{entity_key, index_views, Entity, FieldIndex, FieldIndexView};
use crate::predicate::{well_formed, PredicateError};
use crate::sql::{
    clear_index_sql, clear_index_statement, create_tables_sql, create_tables_statement,
    delete_sql, delete_statement, drop_tables_sql, drop_tables_statement, index_batch,
    index_script, insert_entity_sql, insert_entity_statement, query_sql, query_statement,
    select_sql, select_statement, str_views,
};
use crate::text::owned;

verus! {

/// Where a store stands in its life.
#[derive(Clone, Copy, Debug, PartialEq, Eq, Structural)]
pub enum StoreState {
    Unopened,
    Opened,
    Closed,
}

/// The database could not be connected.
#[derive(Debug)]
pub struct StoreOpenError {
    pub message: String,
}

/// One row of the table `entity`.
#[derive(Debug)]
pub struct EntityRow {
    pub key: String,
    pub id: String,
    pub kind: String,
    pub data: Vec<u8>,
}

/// An `EntityRow` as plain values.
pub struct EntityRowView {
    pub key: Seq<char>,
    pub id: Seq<char>,
    pub kind: Seq<char>,
    pub data: Seq<u8>,
}

impl View for EntityRow {
    type V = EntityRowView;

    open spec fn view(&self) -> EntityRowView {
        EntityRowView { key: self.key@, id: self.id@, kind: self.kind@, data: self.data@ }
    }
}

/// The rows of `rows`, each by its view.
pub open spec fn row_views(rows: Seq<EntityRow>) -> Seq<EntityRowView> {
    rows.map_values(|row: EntityRow| row@)
}

/// The row that holds `entity` with the encoding `data`.
pub open spec fn entity_row_of<T: Entity>(entity: T, data: Seq<u8>) -> EntityRowView {
    EntityRowView {
        key: entity_key(entity.kind(), entity.id()),
        id: entity.id(),
        kind: entity.kind(),
        data,
    }
}

/// The rows for those of `entities` that have an encoding, in their order.
/// The encoding of the entity at a position is the one at the same position
/// of `encoded`; an entity with `None` there, or with nothing there, has no
/// row.
pub open spec fn entity_rows<T: Entity>(
    entities: Seq<T>,
    encoded: Seq<Option<Vec<u8>>>,
) -> Seq<EntityRowView>
    decreases entities.len(),
{
    if entities.len() == 0 {
        Seq::empty()
    } else {
        let n = entities.len() - 1;
        let before = entity_rows(entities.drop_last(), encoded);
        if n < encoded.len() && encoded[n] is Some {
            before.push(entity_row_of(entities[n], encoded[n]->0@))
        } else {
            before
        }
    }
}

/// The index rows of those of `entities` that have an encoding, in their
/// order. An entity that gets no row gets no index rows either.
pub open spec fn stored_index_rows<T: Entity>(
    entities: Seq<T>,
    encoded: Seq<Option<Vec<u8>>>,
) -> Seq<FieldIndexView>
    decreases entities.len(),
{
    if entities.len() == 0 {
        Seq::empty()
    } else {
        let n = entities.len() - 1;
        let before = stored_index_rows(entities.drop_last(), encoded);
        if n < encoded.len() && encoded[n] is Some {
            before + entities[n].fields_index()
        } else {
            before
        }
    }
}

/// The keys of `rows`, in their order.
pub open spec fn row_keys(rows: Seq<EntityRowView>) -> Seq<Seq<char>> {
    rows.map_values(|row: EntityRowView| row.key)
}

/// The values that are present in `items`, in their order.
pub open spec fn present<E>(items: Seq<Option<E>>) -> Seq<E>
    decreases items.len(),
{
    if items.len() == 0 {
        Seq::empty()
    } else if items.last() is Some {
        present(items.drop_last()).push(items.last()->0)
    } else {
        present(items.drop_last())
    }
}

/// What one write of a batch of entities runs: `insert_sql` once for each
/// row of `rows`, in one transaction; then `clear_index_sql`, which deletes
/// the index rows that the written entities had; then `index_sql`, which
/// writes the index rows that they have now.
#[derive(Debug)]
pub struct UpdatePlan {
    pub insert_sql: String,
    pub rows: Vec<EntityRow>,
    pub clear_index_sql: String,
    pub index_sql: String,
}

/// What one removal runs: `select_sql` to read the entities that are about
/// to go, then `delete_sql`.
#[derive(Debug)]
pub struct RemovePlan {
    pub select_sql: String,
    pub delete_sql: String,
}

/// A store as plain values.
pub struct StoreView {
    pub state: StoreState,
    pub max_pool: nat,
    pub path: Seq<char>,
    pub pragmas: Option<Seq<char>>,
}

/// The statements that a store runs once its database is connected: its
/// pragmas, if it has any, and the creation of the tables.
pub open spec fn open_script(pragmas: Option<Seq<char>>) -> Seq<Seq<char>> {
    match pragmas {
        Some(text) => seq![text, create_tables_sql()],
        None => seq![create_tables_sql()],
    }
}

/// The entity store over one database file.
pub struct SQLiteEntityStore {
    state: StoreState,
    max_pool: usize,
    path: String,
    pragmas: Option<String>,
}

impl View for SQLiteEntityStore {
    type V = StoreView;

    closed spec fn view(&self) -> StoreView {
        StoreView {
            state: self.state,
            max_pool: self.max_pool as nat,
            path: self.path@,
            pragmas: match self.pragmas {
                Some(text) => Some(text@),
                None => None,
            },
        }
    }
}

/// Copies `bytes`.
fn copy_bytes(bytes: &Vec<u8>) -> (out: Vec<u8>)
    ensures
        out@ == bytes@,
{
    let mut out: Vec<u8> = Vec::new();
    let mut i: usize = 0;
    while i < bytes.len()
        invariant
            i <= bytes.len(),
            out@ == bytes@.take(i as int),
        decreases bytes.len() - i,
    {
        out.push(bytes[i]);
        assert(out@ =~= bytes@.take(i + 1));
        i = i + 1;
    }
    assert(bytes@.take(bytes.len() as int) =~= bytes@);
    out
}

impl SQLiteEntityStore {
    /// An unopened store over the database file at `path`, with room for
    /// five connections.
    pub fn new(path: &str) -> (store: Self)
        ensures
            store@ == (StoreView {
                state: StoreState::Unopened,
                max_pool: 5,
                path: path@,
                pragmas: None,
            }),
    {
        SQLiteEntityStore {
            state: StoreState::Unopened,
            max_pool: 5,
            path: owned(path),
            pragmas: None,
        }
    }

    /// The same store with `pragmas` to run when it is opened.
    pub fn with_pragmas(self, pragmas: &str) -> (store: Self)
        ensures
            store@ == (StoreView { pragmas: Some(pragmas@), ..self@ }),
    {
        SQLiteEntityStore {
            state: self.state,
            max_pool: self.max_pool,
            path: self.path,
            pragmas: Some(owned(pragmas)),
        }
    }

    /// Where the store stands.
    pub fn state(&self) -> (state: StoreState)
        ensures
            state == self@.state,
    {
        self.state
    }

    /// Whether the store issues statements.
    pub fn is_open(&self) -> (open: bool)
        ensures
            open == (self@.state == StoreState::Opened),
    {
        match self.state {
            StoreState::Opened => true,
            _ => false,
        }
    }

    /// The number of connections that the store's pool may hold.
    pub fn max_connections(&self) -> (n: usize)
        ensures
            n == self@.max_pool,
    {
        self.max_pool
    }

    /// The address of the database: `sqlite:` and the path.
    pub fn database_url(&self) -> (url: String)
        ensures
            url@ == "sqlite:"@ + self@.path,
    {
        let mut url = owned("sqlite:");
        url.append(self.path.as_str());
        url
    }

    /// Takes the outcome of connecting to the database. On success the
    /// store is opened and the statements to run first are returned: the
    /// pragmas, if any, then the creation of the tables. On failure the
    /// store stays as it was and the failure is returned.
    pub fn open(&mut self, connected: Result<(), String>) -> (script: Result<
        Vec<String>,
        StoreOpenError,
    >)
        ensures
            match connected {
                Ok(_) => script is Ok && crate::text::texts(script->Ok_0@) == open_script(
                    old(self)@.pragmas,
                ) && final(self)@ == (StoreView { state: StoreState::Opened, ..old(self)@ }),
                Err(message) => script is Err && script->Err_0.message == message && final(self)@
                    == old(self)@,
            },
    {
        match connected {
            Ok(_) => {
                let mut script: Vec<String> = Vec::new();
                match &self.pragmas {
                    Some(text) => {
                        script.push(text.clone());
                    },
                    None => {},
                }
                script.push(owned(create_tables_statement()));
                self.state = StoreState::Opened;
                assert(crate::text::texts(script@) =~= open_script(old(self)@.pragmas));
                Ok(script)
            },
            Err(message) => Err(StoreOpenError { message }),
        }
    }

    /// Plans the write of `entities`. `encoded` holds the encoding of each
    /// entity at the entity's position, or `None` where it could not be
    /// encoded. An entity without an encoding is skipped: it gets no row
    /// and no index rows, and the rest of the batch proceeds. For every
    /// entity that is written the index rows are computed anew: those that
    /// it had are deleted, those that it has now are written. Nothing is
    /// planned unless the store is opened.
    pub fn update_entities<T: Entity>(
        &self,
        entities: &Vec<T>,
        encoded: &Vec<Option<Vec<u8>>>,
    ) -> (plan: Option<UpdatePlan>)
        ensures
            plan is Some <==> self@.state == StoreState::Opened,
            plan matches Some(p) ==> {
                &&& p.insert_sql@ == insert_entity_sql()
                &&& row_views(p.rows@) == entity_rows(entities@, encoded@)
                &&& p.clear_index_sql@ == clear_index_sql(
                    row_keys(entity_rows(entities@, encoded@)),
                )
                &&& p.index_sql@ == index_script(stored_index_rows(entities@, encoded@))
            },
    {
        if !self.is_open() {
            return None;
        }
        let mut rows: Vec<EntityRow> = Vec::new();
        let mut index: Vec<FieldIndex> = Vec::new();
        let mut i: usize = 0;
        while i < entities.len()
            invariant
                i <= entities.len(),
                row_views(rows@) == entity_rows(entities@.take(i as int), encoded@),
                index_views(index@) == stored_index_rows(entities@.take(i as int), encoded@),
            decreases entities.len() - i,
        {
            let entity = &entities[i];
            let ghost seen = entities@.take(i as int);
            let ghost next = entities@.take(i + 1);
            assert(next.drop_last() =~= seen);
            assert(next.last() == entities@[i as int]);
            if i < encoded.len() {
                match &encoded[i] {
                    Some(bytes) => {
                        let row = EntityRow {
                            key: entity.get_key(),
                            id: owned(entity.get_id()),
                            kind: owned(entity.get_kind()),
                            data: copy_bytes(bytes),
                        };
                        let ghost before = rows@;
                        rows.push(row);
                        assert(row_views(rows@) =~= row_views(before).push(row@));
                        let mut fields = entity.get_fields_index();
                        let ghost before = index@;
                        let ghost added = fields@;
                        index.append(&mut fields);
                        assert(index_views(index@) =~= index_views(before) + index_views(added));
                    },
                    None => {},
                }
            }
            i = i + 1;
        }
        assert(entities@.take(entities.len() as int) =~= entities@);
        let mut keys: Vec<&str> = Vec::new();
        let mut j: usize = 0;
        while j < rows.len()
            invariant
                j <= rows.len(),
                str_views(keys@) == row_keys(row_views(rows@)).take(j as int),
            decreases rows.len() - j,
        {
            let ghost before = keys@;
            keys.push(rows[j].key.as_str());
            assert(str_views(keys@) =~= str_views(before).push(rows@[j as int].key@));
            assert(row_keys(row_views(rows@)).take(j + 1) =~= row_keys(row_views(rows@)).take(
                j as int,
            ).push(rows@[j as int].key@));
            j = j + 1;
        }
        assert(row_keys(row_views(rows@)).take(rows.len() as int) =~= row_keys(row_views(rows@)));
        let clear_index_sql = clear_index_statement(&keys);
        Some(
            UpdatePlan {
                insert_sql: owned(insert_entity_statement()),
                rows,
                clear_index_sql,
                index_sql: index_batch(&index),
            },
        )
    }

    /// Plans the removal of the entities `ids` of kind `kind`: the read of
    /// what is about to go, and the deletion of the entity rows and of
    /// their index rows. Nothing is planned unless the store is opened and
    /// `ids` names at least one entity.
    pub fn remove_entities(&self, kind: &str, ids: &Vec<&str>) -> (plan: Option<RemovePlan>)
        ensures
            plan is Some <==> self@.state == StoreState::Opened && ids@.len() > 0,
            plan matches Some(p) ==> {
                &&& p.select_sql@ == select_sql(kind@, str_views(ids@))
                &&& p.delete_sql@ == delete_sql(kind@, str_views(ids@))
            },
    {
        if !self.is_open() || ids.len() == 0 {
            return None;
        }
        Some(
            RemovePlan {
                select_sql: select_statement(kind, ids),
                delete_sql: delete_statement(kind, ids),
            },
        )
    }

    /// The statement that reads the entities of kind `kind`: all of them
    /// where `ids` is empty, else those whose id is in `ids`. `None` unless
    /// the store is opened.
    pub fn get_entities_of_kind(&self, kind: &str, ids: &Vec<&str>) -> (sql: Option<String>)
        ensures
            sql is Some <==> self@.state == StoreState::Opened,
            sql matches Some(text) ==> text@ == select_sql(kind@, str_views(ids@)),
    {
        if !self.is_open() {
            return None;
        }
        Some(select_statement(kind, ids))
    }

    /// The statement that reads the entities of kind `kind` whose index row
    /// for `property_name` satisfies `expr`. An expression that is no
    /// predicate is refused, whatever the state of the store; for a
    /// predicate there is a statement if the store is opened, and none
    /// otherwise.
    pub fn query_entities(&self, kind: &str, property_name: &str, expr: &str) -> (sql: Result<
        Option<String>,
        PredicateError,
    >)
        ensures
            sql is Ok <==> well_formed(expr@),
            sql matches Err(error) ==> error.expression@ == expr@,
            sql matches Ok(found) ==> (found is Some <==> self@.state == StoreState::Opened),
            sql matches Ok(Some(text)) ==> text@ == query_sql(kind@, property_name@, expr@),
    {
        match query_statement(kind, property_name, expr) {
            Some(text) => {
                if self.is_open() {
                    Ok(Some(text))
                } else {
                    Ok(None)
                }
            },
            None => Err(PredicateError { expression: owned(expr) }),
        }
    }

    /// The statements that empty the store: the tables are dropped, then
    /// created again. No statement unless the store is opened.
    pub fn clear(&self) -> (script: Vec<String>)
        ensures
            crate::text::texts(script@) == if self@.state == StoreState::Opened {
                seq![drop_tables_sql(), create_tables_sql()]
            } else {
                Seq::empty()
            },
    {
        let mut script: Vec<String> = Vec::new();
        if self.is_open() {
            script.push(owned(drop_tables_statement()));
            script.push(owned(create_tables_statement()));
            assert(crate::text::texts(script@) =~= seq![drop_tables_sql(), create_tables_sql()]);
        } else {
            assert(crate::text::texts(script@) =~= Seq::empty());
        }
        script
    }

    /// Closes the store. Returns whether there is a connection pool to
    /// release: `true` for an opened store, which is closed from then on,
    /// and `false` otherwise, with the store unchanged.
    pub fn close(&mut self) -> (release: bool)
        ensures
            release == (old(self)@.state == StoreState::Opened),
            final(self)@ == if release {
                StoreView { state: StoreState::Closed, ..old(self)@ }
            } else {
                old(self)@
            },
    {
        if self.is_open() {
            self.state = StoreState::Closed;
            true
        } else {
            false
        }
    }

    /// Keeps the entities that could be decoded, in their order, and drops
    /// the rest.
    pub fn decode_entities<E>(decoded: Vec<Option<E>>) -> (entities: Vec<E>)
        ensures
            entities@ == present(decoded@),
    {
        let mut entities: Vec<E> = Vec::new();
        let ghost mut seen: Seq<Option<E>> = Seq::empty();
        for item in it: decoded
            invariant
                seen == decoded@.take(it.index() as int),
                entities@ == present(seen),
        {
            proof {
                let next = seen.push(item);
                assert(next.drop_last() =~= seen);
                assert(next.last() == item);
                seen = next;
            }
            match item {
                Some(entity) => {
                    entities.push(entity);
                },
                None => {},
            }
        }
        assert(decoded@.take(decoded@.len() as int) =~= decoded@);
        entities
    }
}

} // verus!
