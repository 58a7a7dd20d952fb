//! A plain datastore: one database file, with the statements that create
//! and drop its tables given by its owner.

use vstd::prelude::*;
use vstd::string::*;
use serde_json::Value;
use crate::store::{StoreOpenError, StoreState};
use crate::text::{owned, texts};

verus! {

/// A datastore as plain values.
pub struct DatastoreView {
    pub state: StoreState,
    pub max_pool: nat,
    pub path: Seq<char>,
    pub create_tables: Option<Seq<char>>,
    pub drop_tables: Option<Seq<char>>,
    pub pragmas: Option<Seq<char>>,
}

/// The text of `text`, if there is one.
pub open spec fn text_of(text: Option<String>) -> Option<Seq<char>> {
    match text {
        Some(t) => Some(t@),
        None => None,
    }
}

/// Those of `texts` that are there, in order.
pub open spec fn given(texts: Seq<Option<Seq<char>>>) -> Seq<Seq<char>>
    decreases texts.len(),
{
    if texts.len() == 0 {
        Seq::empty()
    } else if texts.last() is Some {
        given(texts.drop_last()).push(texts.last()->0)
    } else {
        given(texts.drop_last())
    }
}

/// What one batch of inserts runs: `sql` once for each entry of `rows`, in
/// one transaction, with the values of the entry as its parameters.
#[derive(Debug)]
pub struct BatchInsert {
    pub sql: String,
    pub rows: Vec<Vec<Value>>,
}

/// A datastore over one database file.
pub struct SQLiteDatastore {
    state: StoreState,
    max_pool: usize,
    path: String,
    create_tables: Option<String>,
    drop_tables: Option<String>,
    pragmas: Option<String>,
}

impl View for SQLiteDatastore {
    type V = DatastoreView;

    closed spec fn view(&self) -> DatastoreView {
        DatastoreView {
            state: self.state,
            max_pool: self.max_pool as nat,
            path: self.path@,
            create_tables: text_of(self.create_tables),
            drop_tables: text_of(self.drop_tables),
            pragmas: text_of(self.pragmas),
        }
    }
}

impl SQLiteDatastore {
    /// An unopened datastore over the database file at `path`, with room
    /// for five connections and nothing to run.
    pub fn new(path: &str) -> (store: Self)
        ensures
            store@ == (DatastoreView {
                state: StoreState::Unopened,
                max_pool: 5,
                path: path@,
                create_tables: None,
                drop_tables: None,
                pragmas: None,
            }),
    {
        SQLiteDatastore {
            state: StoreState::Unopened,
            max_pool: 5,
            path: owned(path),
            create_tables: None,
            drop_tables: None,
            pragmas: None,
        }
    }

    pub fn with_pragmas(self, pragmas: &str) -> (store: Self)
        ensures
            store@ == (DatastoreView { pragmas: Some(pragmas@), ..self@ }),
    {
        let mut store = self;
        store.pragmas = Some(owned(pragmas));
        store
    }

    pub fn with_create_tables(self, create_tables: &str) -> (store: Self)
        ensures
            store@ == (DatastoreView { create_tables: Some(create_tables@), ..self@ }),
    {
        let mut store = self;
        store.create_tables = Some(owned(create_tables));
        store
    }

    pub fn with_drop_tables(self, drop_tables: &str) -> (store: Self)
        ensures
            store@ == (DatastoreView { drop_tables: Some(drop_tables@), ..self@ }),
    {
        let mut store = self;
        store.drop_tables = Some(owned(drop_tables));
        store
    }

    /// The number of connections that the datastore's pool may hold.
    pub fn max_connections(&self) -> (n: usize)
        ensures
            n == self@.max_pool,
    {
        self.max_pool
    }

    /// The address of the database: `sqlite:` and the path.
    pub fn database_url(&self) -> (url: String)
        ensures
            url@ == "sqlite:"@ + self@.path,
    {
        let mut url = owned("sqlite:");
        url.append(self.path.as_str());
        url
    }

    /// Takes the outcome of connecting to the database. On success the
    /// datastore is opened and the statements to run first are returned:
    /// the pragmas, then the creation of the tables, as far as they were
    /// given. On failure the datastore stays as it was and the failure is
    /// returned.
    pub fn open(&mut self, connected: Result<(), String>) -> (script: Result<
        Vec<String>,
        StoreOpenError,
    >)
        ensures
            match connected {
                Ok(_) => script is Ok && texts(script->Ok_0@) == given(
                    seq![old(self)@.pragmas, old(self)@.create_tables],
                ) && final(self)@ == (DatastoreView { state: StoreState::Opened, ..old(self)@ }),
                Err(message) => script is Err && script->Err_0.message == message && final(self)@
                    == old(self)@,
            },
    {
        match connected {
            Ok(_) => {
                let mut script: Vec<String> = Vec::new();
                match &self.pragmas {
                    Some(text) => {
                        script.push(text.clone());
                    },
                    None => {},
                }
                match &self.create_tables {
                    Some(text) => {
                        script.push(text.clone());
                    },
                    None => {},
                }
                self.state = StoreState::Opened;
                proof {
                    let wanted = seq![old(self)@.pragmas, old(self)@.create_tables];
                    assert(wanted.drop_last() =~= seq![old(self)@.pragmas]);
                    assert(wanted.drop_last().drop_last() =~= Seq::<Option<Seq<char>>>::empty());
                    reveal_with_fuel(given, 3);
                    assert(texts(script@) =~= given(wanted));
                }
                Ok(script)
            },
            Err(message) => Err(StoreOpenError { message }),
        }
    }

    /// Plans a batch of inserts: `sql_command` once for each entry of
    /// `rows`. Nothing is planned unless the datastore is opened.
    pub fn execute_batch_insert(&self, sql_command: &str, rows: Vec<Vec<Value>>) -> (plan: Option<
        BatchInsert,
    >)
        ensures
            plan is Some <==> self@.state == StoreState::Opened,
            plan matches Some(p) ==> p.sql@ == sql_command@ && p.rows == rows,
    {
        match self.state {
            StoreState::Opened => Some(BatchInsert { sql: owned(sql_command), rows }),
            _ => None,
        }
    }

    /// The statements that empty the datastore: those that drop its tables,
    /// if they were given. No statement unless the datastore is opened.
    pub fn clear(&self) -> (script: Vec<String>)
        ensures
            texts(script@) == if self@.state == StoreState::Opened {
                given(seq![self@.drop_tables])
            } else {
                Seq::empty()
            },
    {
        let mut script: Vec<String> = Vec::new();
        match self.state {
            StoreState::Opened => {
                match &self.drop_tables {
                    Some(text) => {
                        script.push(text.clone());
                    },
                    None => {},
                }
                proof {
                    let wanted = seq![self@.drop_tables];
                    assert(wanted.drop_last() =~= Seq::<Option<Seq<char>>>::empty());
                    reveal_with_fuel(given, 2);
                    assert(texts(script@) =~= given(wanted));
                }
            },
            _ => {
                assert(texts(script@) =~= Seq::empty());
            },
        }
        script
    }

    /// Closes the datastore. Returns whether there is a connection pool to
    /// release: `true` for an opened datastore, which is closed from then
    /// on, and `false` otherwise, with the datastore unchanged.
    pub fn close(&mut self) -> (release: bool)
        ensures
            release == (old(self)@.state == StoreState::Opened),
            final(self)@ == if release {
                DatastoreView { state: StoreState::Closed, ..old(self)@ }
            } else {
                old(self)@
            },
    {
        match self.state {
            StoreState::Opened => {
                self.state = StoreState::Closed;
                true
            },
            _ => false,
        }
    }
}

} // verus!
