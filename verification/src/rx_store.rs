//! The reactive store: an entity store, a dispatcher and the context of the
//! application, tied together.
//!
//! Every write is followed by a dispatch of the written batch under
//! `Update`; every removal is followed by a dispatch, under `Delete`, of the
//! entities that were removed. Requests that arrive in an envelope are
//! turned into the one operation that they ask for.

use vstd::prelude::*;
use vstd::string::*;
use serde_json::Value;
use crate::action::EntityAction;
use crate::dispatcher::{
    bound, first_kind, registered, selected, DataHookHandler, Dispatcher, SignalError,
    SignalHookHandler,
};
use crate::entity::{Entity, EntitySchema};
use crate::text::contains_text;
use crate::json::{event_kind, json_kind};
use crate::predicate::{is_predicate, malformed_message, well_formed, PredicateError};
use crate::rx::{
    malformed_predicate, unmatched_signal, unmatched_signal_message, RxAction, RxResponse,
};
use crate::sql::{
    clear_index_sql, create_tables_sql, delete_sql, drop_tables_sql, index_script,
    insert_entity_sql, query_sql,
    select_sql, str_views,
};
use crate::text::texts;
use crate::store::{
    entity_rows, open_script, row_keys, row_views, stored_index_rows, RemovePlan,
    SQLiteEntityStore,
    StoreOpenError, StoreState, StoreView, UpdatePlan,
};

verus! {

/// What a handler is given besides its batch: the store that it may save
/// to, delete from and query, and through it the context of the
/// application.
#[verifier::reject_recursive_types(G)]
pub struct DispatchPayload<'a, C, F, G> {
    pub store: &'a RxStore<C, F, G>,
}

impl<'a, C, F, G> DispatchPayload<'a, C, F, G> {
    pub fn new(r: &'a RxStore<C, F, G>) -> (payload: Self)
        ensures
            payload.store == r,
    {
        DispatchPayload { store: r }
    }

    pub fn get_context(&self) -> (context: &C)
        ensures
            *context == self.store.context(),
    {
        self.store.get_context()
    }
}

/// What one save runs: the write, where the store is opened, and then the
/// handlers that the written batch reaches.
pub struct SavePlan<'a, F> {
    pub update: Option<UpdatePlan>,
    pub handlers: Option<&'a Vec<DataHookHandler<F>>>,
}

/// The one operation that a request in an envelope asks for. Each step
/// names the function that turns its outcome into the answer.
#[derive(Debug)]
pub enum ActionStep {
    /// Read the value as entities of the kind and save them; the answer is
    /// `write_response` of how the save went.
    Save { kind: String, values: Value },
    /// Delete the entities of the kind with these ids; the answer is
    /// `write_response` of how the deletion went.
    Delete { kind: String, ids: Vec<String> },
    /// Read the entities of the kind with these ids; the answer is
    /// `query_response` of what was read.
    Get { kind: String, ids: Vec<String> },
    /// Read the entities of the kind by property; the expression is a
    /// predicate. The answer is `query_response` of what was read.
    Query { kind: String, property_name: String, expression: String },
    /// Read the value as a request of the kind and send it to its signal
    /// handler; the answer is `signal_action_response` of what came back.
    Signal { kind: String, request: Value },
    /// Run nothing; the answer is this.
    Respond(RxResponse),
}

/// The step that `action` asks of a store that knows the kinds `kinds`.
/// A write, a deletion or a read of an unknown kind runs nothing and is
/// answered with `Success`. A query by property whose expression is no
/// predicate, and a signal whose request declares no kind or an unknown
/// one, are answered with a failure.
pub open spec fn step_of(kinds: Seq<Seq<char>>, action: RxAction, step: ActionStep) -> bool {
    match action {
        RxAction::UpdateEntities(kind, values) => if kinds.contains(kind@) {
            step matches ActionStep::Save { kind: k, values: v } && k == kind && v == values
        } else {
            step matches ActionStep::Respond(RxResponse::Success())
        },
        RxAction::DeleteEntities(kind, ids) => if kinds.contains(kind@) {
            step matches ActionStep::Delete { kind: k, ids: i } && k == kind && i == ids
        } else {
            step matches ActionStep::Respond(RxResponse::Success())
        },
        RxAction::QueryIds(kind, ids) => if kinds.contains(kind@) {
            step matches ActionStep::Get { kind: k, ids: i } && k == kind && i == ids
        } else {
            step matches ActionStep::Respond(RxResponse::Success())
        },
        RxAction::QueryProperty(kind, property_name, expression) => if !kinds.contains(kind@) {
            step matches ActionStep::Respond(RxResponse::Success())
        } else if well_formed(expression@) {
            step matches ActionStep::Query { kind: k, property_name: p, expression: e } && k == kind
                && p == property_name && e == expression
        } else {
            step matches ActionStep::Respond(RxResponse::Failure(m)) && m@ == malformed_message(
                expression@,
            )
        },
        RxAction::Signal(request) => match json_kind(request) {
            Some(kind) => if kinds.contains(kind) {
                step matches ActionStep::Signal { kind: k, request: r } && k@ == kind && r
                    == request
            } else {
                step matches ActionStep::Respond(RxResponse::Failure(m)) && m@
                    == unmatched_signal_message(kind)
            },
            None => step matches ActionStep::Respond(RxResponse::Failure(m)) && m@
                == unmatched_signal_message(Seq::empty()),
        },
    }
}

/// A reactive store over the context `C`, with entity handlers that are
/// run by an `F` and signal handlers that are run by a `G`.
#[verifier::reject_recursive_types(G)]
pub struct RxStore<C, F, G> {
    dispatcher: Dispatcher<F, G>,
    store: SQLiteEntityStore,
    context: C,
    kinds: Vec<String>,
}

/// The reactive store, by its other name.
pub type ReactiveStore<C, F, G> = RxStore<C, F, G>;

impl<C, F, G> RxStore<C, F, G> {
    /// The store is consistent: every value of this type that the
    /// functions below hand out is.
    pub closed spec fn wf(&self) -> bool {
        self.dispatcher.wf()
    }

    /// The context of the application.
    pub closed spec fn context(&self) -> C {
        self.context
    }

    /// The entity store.
    pub closed spec fn store(&self) -> StoreView {
        self.store@
    }

    /// The kinds of entity that requests in an envelope may name.
    pub closed spec fn kinds(&self) -> Seq<Seq<char>> {
        texts(self.kinds@)
    }

    /// The entity handlers by dispatch key.
    pub closed spec fn data_hooks(&self) -> Map<Seq<char>, Seq<DataHookHandler<F>>> {
        self.dispatcher.data_hooks()
    }

    /// The signal handlers by request kind.
    pub closed spec fn signal_hooks(&self) -> Map<Seq<char>, SignalHookHandler<G>> {
        self.dispatcher.signal_hooks()
    }

    /// A reactive store over the database file at `path`, unopened and
    /// without handlers, that knows the kinds `kinds`.
    pub fn new(context: C, path: &str, kinds: Vec<String>) -> (rx: Self)
        ensures
            rx.wf(),
            rx.context() == context,
            rx.kinds() == texts(kinds@),
            rx.store() == (StoreView {
                state: StoreState::Unopened,
                max_pool: 5,
                path: path@,
                pragmas: None,
            }),
            rx.data_hooks() == Map::<Seq<char>, Seq<DataHookHandler<F>>>::empty(),
            rx.signal_hooks() == Map::<Seq<char>, SignalHookHandler<G>>::empty(),
    {
        RxStore {
            dispatcher: Dispatcher::new(),
            store: SQLiteEntityStore::new(path),
            context,
            kinds,
        }
    }

    pub fn get_context(&self) -> (context: &C)
        ensures
            *context == self.context(),
    {
        &self.context
    }

    /// The number of connections that the pool of the entity store may
    /// hold.
    pub fn max_connections(&self) -> (n: usize)
        ensures
            n == self.store().max_pool,
    {
        self.store.max_connections()
    }

    /// The address of the database of the entity store.
    pub fn database_url(&self) -> (url: String)
        ensures
            url@ == "sqlite:"@ + self.store().path,
    {
        self.store.database_url()
    }

    /// Opens the entity store on the outcome `connected` of connecting to
    /// its database, as `SQLiteEntityStore::open` does.
    pub fn open(&mut self, connected: Result<(), String>) -> (script: Result<
        Vec<String>,
        StoreOpenError,
    >)
        requires
            old(self).wf(),
        ensures
            final(self).wf(),
            final(self).context() == old(self).context(),
            final(self).kinds() == old(self).kinds(),
            final(self).data_hooks() == old(self).data_hooks(),
            final(self).signal_hooks() == old(self).signal_hooks(),
            match connected {
                Ok(_) => script is Ok && texts(script->Ok_0@) == open_script(
                    old(self).store().pragmas,
                ) && final(self).store() == (StoreView {
                    state: StoreState::Opened,
                    ..old(self).store()
                }),
                Err(message) => script is Err && script->Err_0.message == message
                    && final(self).store() == old(self).store(),
            },
    {
        self.store.open(connected)
    }

    /// The statements that empty the entity store, as
    /// `SQLiteEntityStore::clear` gives them.
    pub fn clear(&self) -> (script: Vec<String>)
        ensures
            texts(script@) == if self.store().state == StoreState::Opened {
                seq![drop_tables_sql(), create_tables_sql()]
            } else {
                Seq::empty()
            },
    {
        self.store.clear()
    }

    /// Closes the entity store, as `SQLiteEntityStore::close` does.
    pub fn close(&mut self) -> (release: bool)
        requires
            old(self).wf(),
        ensures
            final(self).wf(),
            final(self).context() == old(self).context(),
            final(self).kinds() == old(self).kinds(),
            final(self).data_hooks() == old(self).data_hooks(),
            final(self).signal_hooks() == old(self).signal_hooks(),
            release == (old(self).store().state == StoreState::Opened),
            final(self).store() == if release {
                StoreView { state: StoreState::Closed, ..old(self).store() }
            } else {
                old(self).store()
            },
    {
        self.store.close()
    }

    /// This store with `hooks` registered as entity handlers.
    pub fn with_entity_hooks(self, hooks: Vec<DataHookHandler<F>>) -> (rx: Self)
        requires
            self.wf(),
        ensures
            rx.wf(),
            rx.data_hooks() == registered(self.data_hooks(), hooks@),
            rx.signal_hooks() == self.signal_hooks(),
            rx.context() == self.context(),
            rx.kinds() == self.kinds(),
            rx.store() == self.store(),
    {
        let mut rx = self;
        rx.dispatcher.register_entity_hooks(hooks);
        rx
    }

    /// This store with `hooks` bound as signal handlers.
    pub fn with_signal_hooks(self, hooks: Vec<SignalHookHandler<G>>) -> (rx: Self)
        requires
            self.wf(),
        ensures
            rx.wf(),
            rx.signal_hooks() == bound(self.signal_hooks(), hooks@),
            rx.data_hooks() == self.data_hooks(),
            rx.context() == self.context(),
            rx.kinds() == self.kinds(),
            rx.store() == self.store(),
    {
        let mut rx = self;
        rx.dispatcher.register_signal_hooks(hooks);
        rx
    }

    /// Plans the save of `entities`, whose encodings are `encoded`: the
    /// write, as `SQLiteEntityStore::update_entities` plans it, and then the
    /// dispatch of the batch under `Update`. The handlers are reached
    /// whether or not anything was written.
    pub fn save_entities<T: Entity>(&self, entities: &Vec<T>, encoded: &Vec<Option<Vec<u8>>>) -> (plan:
        SavePlan<'_, F>)
        requires
            self.wf(),
        ensures
            plan.update is Some <==> self.store().state == StoreState::Opened,
            plan.update matches Some(p) ==> {
                &&& p.insert_sql@ == insert_entity_sql()
                &&& row_views(p.rows@) == entity_rows(entities@, encoded@)
                &&& p.clear_index_sql@ == clear_index_sql(
                    row_keys(entity_rows(entities@, encoded@)),
                )
                &&& p.index_sql@ == index_script(stored_index_rows(entities@, encoded@))
            },
            plan.handlers is Some <==> selected(
                self.data_hooks(),
                EntityAction::Update,
                first_kind(entities@),
            ).len() > 0,
            plan.handlers matches Some(list) ==> list@ == selected(
                self.data_hooks(),
                EntityAction::Update,
                first_kind(entities@),
            ),
    {
        let update = self.store.update_entities(entities, encoded);
        let handlers = self.dispatcher.dispatch_entity_hook(EntityAction::Update, entities);
        SavePlan { update, handlers }
    }

    /// Plans the removal of the entities `ids` of the kind that `kind`
    /// names, as `SQLiteEntityStore::remove_entities` does. The entities
    /// that the plan's read returns are the removed ones; `removed_entities`
    /// says whom to tell.
    pub fn delete_entities<T>(&self, kind: &EntitySchema<T>, ids: &Vec<&str>) -> (plan:
        Option<RemovePlan>)
        ensures
            plan is Some <==> self.store().state == StoreState::Opened && ids@.len() > 0,
            plan matches Some(p) ==> {
                &&& p.select_sql@ == select_sql(kind.name@, str_views(ids@))
                &&& p.delete_sql@ == delete_sql(kind.name@, str_views(ids@))
            },
    {
        self.store.remove_entities(kind.name, ids)
    }

    /// The handlers that the removed batch `removed` reaches: those
    /// registered under `Delete` for the kind of its first entity.
    pub fn removed_entities<T: Entity>(&self, removed: &Vec<T>) -> (handlers: Option<&Vec<DataHookHandler<F>>>)
        requires
            self.wf(),
        ensures
            handlers is Some <==> selected(
                self.data_hooks(),
                EntityAction::Delete,
                first_kind(removed@),
            ).len() > 0,
            handlers matches Some(list) ==> list@ == selected(
                self.data_hooks(),
                EntityAction::Delete,
                first_kind(removed@),
            ),
    {
        self.dispatcher.dispatch_entity_hook(EntityAction::Delete, removed)
    }

    /// The statement that reads the entities `ids` of the kind that `kind`
    /// names, as `SQLiteEntityStore::get_entities_of_kind` gives it.
    pub fn get_entities<T>(&self, kind: &EntitySchema<T>, ids: &Vec<&str>) -> (sql: Option<
        String,
    >)
        ensures
            sql is Some <==> self.store().state == StoreState::Opened,
            sql matches Some(text) ==> text@ == select_sql(kind.name@, str_views(ids@)),
    {
        self.store.get_entities_of_kind(kind.name, ids)
    }

    /// The statement that reads the entities of the kind that `kind` names
    /// by property, as `SQLiteEntityStore::query_entities` gives it.
    pub fn query_property<T>(
        &self,
        kind: &EntitySchema<T>,
        property_name: &str,
        expression: &str,
    ) -> (sql: Result<Option<String>, PredicateError>)
        ensures
            sql is Ok <==> well_formed(expression@),
            sql matches Err(error) ==> error.expression@ == expression@,
            sql matches Ok(found) ==> (found is Some <==> self.store().state
                == StoreState::Opened),
            sql matches Ok(Some(text)) ==> text@ == query_sql(
                kind.name@,
                property_name@,
                expression@,
            ),
    {
        self.store.query_entities(kind.name, property_name, expression)
    }

    /// The handler that answers the request `signal_entity`, or
    /// `SignalError::NoHandler` where none is bound to its kind.
    pub fn signal<T: Entity>(&self, signal_entity: &T) -> (handler: Result<&SignalHookHandler<G>, SignalError>)
        requires
            self.wf(),
        ensures
            handler is Ok <==> self.signal_hooks().contains_key(signal_entity.kind()),
            handler matches Ok(h) ==> *h == self.signal_hooks()[signal_entity.kind()],
            handler matches Err(e) ==> e == SignalError::NoHandler,
    {
        self.dispatcher.dispatch_signal_hook(signal_entity)
    }

    /// Turns the request `action` into the one step that it asks for.
    pub fn execute_action(&self, action: RxAction) -> (step: ActionStep)
        ensures
            step_of(self.kinds(), action, step),
    {
        match action {
            RxAction::UpdateEntities(kind, values) => {
                if contains_text(&self.kinds, kind.as_str()) {
                    ActionStep::Save { kind, values }
                } else {
                    ActionStep::Respond(RxResponse::Success())
                }
            },
            RxAction::DeleteEntities(kind, ids) => {
                if contains_text(&self.kinds, kind.as_str()) {
                    ActionStep::Delete { kind, ids }
                } else {
                    ActionStep::Respond(RxResponse::Success())
                }
            },
            RxAction::QueryIds(kind, ids) => {
                if contains_text(&self.kinds, kind.as_str()) {
                    ActionStep::Get { kind, ids }
                } else {
                    ActionStep::Respond(RxResponse::Success())
                }
            },
            RxAction::QueryProperty(kind, property_name, expression) => {
                if !contains_text(&self.kinds, kind.as_str()) {
                    ActionStep::Respond(RxResponse::Success())
                } else if is_predicate(expression.as_str()) {
                    ActionStep::Query { kind, property_name, expression }
                } else {
                    ActionStep::Respond(malformed_predicate(expression.as_str()))
                }
            },
            RxAction::Signal(request) => {
                match event_kind(&request) {
                    Some(kind) => {
                        if contains_text(&self.kinds, kind.as_str()) {
                            ActionStep::Signal { kind, request }
                        } else {
                            ActionStep::Respond(unmatched_signal(kind.as_str()))
                        }
                    },
                    None => {
                        let response = unmatched_signal("");
                        proof {
                            reveal_strlit("");
                            assert(""@ =~= Seq::<char>::empty());
                        }
                        ActionStep::Respond(response)
                    },
                }
            },
        }
    }
}

} // verus!
