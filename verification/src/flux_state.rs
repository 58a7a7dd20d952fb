//! The persistent state behind a pipeline: one database file for each
//! shard, under a common root directory.

use vstd::prelude::*;
use vstd::string::*;
use crate::entity::Entity;
use crate::predicate::{well_formed, PredicateError};
use crate::sql::str_views;
use crate::store::{SQLiteEntityStore, StoreState, StoreView, UpdatePlan};
use crate::text::{owned, texts};

verus! {

/// The path of the database file of `shard` under `root`.
pub open spec fn shard_path(root: Seq<char>, shard: Seq<char>) -> Seq<char> {
    root + "/"@ + shard + ".db"@
}

/// The store over the file of `shard` under `root`, as it is made: not yet
/// opened.
pub open spec fn shard_store(root: Seq<char>, shard: Seq<char>) -> StoreView {
    StoreView {
        state: StoreState::Unopened,
        max_pool: 5,
        path: shard_path(root, shard),
        pragmas: None,
    }
}

/// The name of an event type, as a value that carries the type.
pub struct EventSchema<T> {
    pub name: &'static str,
    pub _marker: core::marker::PhantomData<T>,
}

/// An entity that goes through the pipeline as an event.
pub trait AxEvent: Entity {

}

/// The state of a pipeline: where its shards are kept.
pub struct FluxState {
    root_path: String,
}

impl FluxState {
    /// The directory under which the shards are kept.
    pub closed spec fn root(&self) -> Seq<char> {
        self.root_path@
    }

    pub fn new(root_path: &str) -> (state: Self)
        ensures
            state.root() == root_path@,
    {
        FluxState { root_path: owned(root_path) }
    }

    /// The store of `shard`. It is handed out unopened: until its caller
    /// has connected and opened it, it plans nothing.
    pub fn get_store(&self, shard: &str) -> (store: SQLiteEntityStore)
        ensures
            store@ == shard_store(self.root(), shard@),
    {
        let mut path = self.root_path.clone();
        path.append("/");
        path.append(shard);
        path.append(".db");
        SQLiteEntityStore::new(path.as_str())
    }

    /// Asks the store of `shard`, as `get_store` hands it out, to write
    /// `entities`. That store is not opened, so there is nothing to run.
    pub fn save<T: Entity>(
        &self,
        shard: &str,
        entities: &Vec<T>,
        encoded: &Vec<Option<Vec<u8>>>,
    ) -> (plan: Option<UpdatePlan>)
        ensures
            plan is None,
    {
        let store = self.get_store(shard);
        store.update_entities(entities, encoded)
    }

    /// Asks the store of `shard`, as `get_store` hands it out, for the
    /// entities `ids` of the kind that `kind` names. That store is not
    /// opened, so there is no statement to run and no entity to return.
    pub fn get_entities_of_kind<E>(
        &self,
        shard: &str,
        kind: &EventSchema<E>,
        ids: &Vec<&str>,
    ) -> (sql: Option<String>)
        ensures
            sql is None,
    {
        let store = self.get_store(shard);
        store.get_entities_of_kind(kind.name, ids)
    }

    /// Asks the store of `shard`, as `get_store` hands it out, for the
    /// entities of the kind that `kind` names whose index row for
    /// `property_name` satisfies `expr`. An expression that is no predicate
    /// is refused. For a predicate there is no statement to run and no
    /// entity to return, since that store is not opened.
    pub fn query_entities<E>(
        &self,
        shard: &str,
        kind: &EventSchema<E>,
        property_name: &str,
        expr: &str,
    ) -> (sql: Result<Option<String>, PredicateError>)
        ensures
            sql is Ok <==> well_formed(expr@),
            sql matches Err(error) ==> error.expression@ == expr@,
            sql matches Ok(found) ==> found is None,
    {
        let store = self.get_store(shard);
        store.query_entities(kind.name, property_name, expr)
    }
}

/// A query by property against one shard.
#[derive(Debug)]
pub struct StateQuery {
    pub shard: String,
    pub kind: String,
    pub property_name: String,
    pub expr: String,
}

impl StateQuery {
    pub fn new(shard: &str, kind: &str, property_name: &str, expr: &str) -> (query: Self)
        ensures
            query.shard@ == shard@,
            query.kind@ == kind@,
            query.property_name@ == property_name@,
            query.expr@ == expr@,
    {
        StateQuery {
            shard: owned(shard),
            kind: owned(kind),
            property_name: owned(property_name),
            expr: owned(expr),
        }
    }
}

/// A query by ids against one shard.
#[derive(Debug)]
pub struct StateGetEntities {
    pub shard: String,
    pub kind: String,
    pub ids: Vec<String>,
}

impl StateGetEntities {
    pub fn new(shard: &str, kind: &str, ids: Vec<&str>) -> (query: Self)
        ensures
            query.shard@ == shard@,
            query.kind@ == kind@,
            texts(query.ids@) == str_views(ids@),
    {
        let mut owned_ids: Vec<String> = Vec::new();
        let mut i: usize = 0;
        while i < ids.len()
            invariant
                i <= ids.len(),
                texts(owned_ids@) == str_views(ids@.take(i as int)),
            decreases ids.len() - i,
        {
            let ghost before = owned_ids@;
            let id = owned(ids[i]);
            owned_ids.push(id);
            assert(texts(owned_ids@) =~= texts(before).push(id@));
            assert(str_views(ids@.take(i + 1)) =~= str_views(ids@.take(i as int)).push(
                ids@[i as int]@,
            ));
            i = i + 1;
        }
        assert(ids@.take(ids@.len() as int) =~= ids@);
        StateGetEntities { shard: owned(shard), kind: owned(kind), ids: owned_ids }
    }
}

} // verus!
