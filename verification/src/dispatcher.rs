//! Routing of entity batches and of signals to the handlers registered for
//! them.
//!
//! Entity handlers are kept in lists keyed by action and kind; a batch
//! reaches every handler of its key, in registration order. Signal handlers
//! are kept one to a request kind; a later registration under the same kind
//! replaces the earlier one.

use vstd::prelude::*;
use vstd::string::*;
use vstd::hash_map::StringHashMap;
use crate::action::EntityAction;
use crate::entity::Entity;
use crate::registry::{appended, hooks_at, Registry};
use crate::text::owned;

verus! {

/// A handler of entity batches: the action and kind that it is registered
/// for, and whatever runs it.
pub struct DataHookHandler<F> {
    pub action: EntityAction,
    pub entity_kind: String,
    pub handler: F,
}

impl<F> DataHookHandler<F> {
    pub fn get_action(&self) -> (action: EntityAction)
        ensures
            action == self.action,
    {
        self.action
    }

    pub fn get_entity_kind(&self) -> (kind: &str)
        ensures
            kind@ == self.entity_kind@,
    {
        self.entity_kind.as_str()
    }
}

/// A handler of signals: the request kind that it answers, and whatever
/// runs it.
pub struct SignalHookHandler<F> {
    pub name: String,
    pub handler: F,
}

impl<F> SignalHookHandler<F> {
    pub fn get_name(&self) -> (name: &str)
        ensures
            name@ == self.name@,
    {
        self.name.as_str()
    }
}

/// The key under which the handlers for `action` on entities of kind `kind`
/// are kept: the action's text, a `_`, the kind.
pub open spec fn dispatch_key(action: EntityAction, kind: Seq<char>) -> Seq<char> {
    action.text() + "_"@ + kind
}

/// Builds the dispatch key of `action` and `kind`.
pub fn make_dispatch_key(action: EntityAction, kind: &str) -> (key: String)
    ensures
        key@ == dispatch_key(action, kind@),
{
    let mut key = owned(action.get_text());
    key.append("_");
    key.append(kind);
    key
}

/// The key under which `handler` is registered.
pub open spec fn hook_key<F>(handler: DataHookHandler<F>) -> Seq<char> {
    dispatch_key(handler.action, handler.entity_kind@)
}

/// `map` after each of `hooks` was added, in order, behind the handlers
/// already under its key.
pub open spec fn registered<F>(
    map: Map<Seq<char>, Seq<DataHookHandler<F>>>,
    hooks: Seq<DataHookHandler<F>>,
) -> Map<Seq<char>, Seq<DataHookHandler<F>>>
    decreases hooks.len(),
{
    if hooks.len() == 0 {
        map
    } else {
        appended(registered(map, hooks.drop_last()), hook_key(hooks.last()), hooks.last())
    }
}

/// `map` after each of `hooks` was bound, in order, to its request kind; a
/// later handler replaces an earlier one of the same kind.
pub open spec fn bound<G>(
    map: Map<Seq<char>, SignalHookHandler<G>>,
    hooks: Seq<SignalHookHandler<G>>,
) -> Map<Seq<char>, SignalHookHandler<G>>
    decreases hooks.len(),
{
    if hooks.len() == 0 {
        map
    } else {
        bound(map, hooks.drop_last()).insert(hooks.last().name@, hooks.last())
    }
}

/// The handlers that a batch reaches under `action`, given the kind of its
/// first entity: none for an empty batch, which has no first entity, else
/// those registered for that kind.
pub open spec fn selected<D>(
    map: Map<Seq<char>, Seq<D>>,
    action: EntityAction,
    first_kind: Option<Seq<char>>,
) -> Seq<D> {
    match first_kind {
        Some(kind) => hooks_at(map, dispatch_key(action, kind)),
        None => Seq::empty(),
    }
}

/// The kind of the first of `entities`, if there is one.
pub open spec fn first_kind<T: Entity>(entities: Seq<T>) -> Option<Seq<char>> {
    if entities.len() == 0 {
        None
    } else {
        Some(entities[0].kind())
    }
}

/// Two dispatch keys are equal only if action and kind are: a handler is
/// reached by the batches of its own action and kind, and by no others.
pub proof fn lemma_dispatch_key_injective(
    a1: EntityAction,
    k1: Seq<char>,
    a2: EntityAction,
    k2: Seq<char>,
)
    requires
        dispatch_key(a1, k1) == dispatch_key(a2, k2),
    ensures
        a1 == a2,
        k1 == k2,
{
    reveal_strlit("update");
    reveal_strlit("delete");
    reveal_strlit("_");
    let x = dispatch_key(a1, k1);
    let y = dispatch_key(a2, k2);
    assert(a1.text().len() == 6 && a2.text().len() == 6);
    assert(x[0] == a1.text()[0]);
    assert(y[0] == a2.text()[0]);
    assert(a1 == a2);
    assert(x.len() == 7 + k1.len());
    assert(y.len() == 7 + k2.len());
    assert forall|j: int| 0 <= j < k1.len() implies k1[j] == k2[j] by {
        assert(x[7 + j] == k1[j]);
        assert(y[7 + j] == k2[j]);
    }
    assert(k1 =~= k2);
}

/// Fan-out. After `hooks` were registered, the handlers under a key are
/// those that were there before, followed by exactly those of `hooks` that
/// belong to the key: each of them once, in the order of registration.
pub proof fn lemma_registered_hooks<F>(
    map: Map<Seq<char>, Seq<DataHookHandler<F>>>,
    hooks: Seq<DataHookHandler<F>>,
    key: Seq<char>,
)
    ensures
        hooks_at(registered(map, hooks), key) == hooks_at(map, key) + hooks.filter(
            |handler: DataHookHandler<F>| hook_key(handler) == key,
        ),
    decreases hooks.len(),
{
    let belongs = |handler: DataHookHandler<F>| hook_key(handler) == key;
    if hooks.len() == 0 {
        assert(hooks.filter(belongs) =~= Seq::<DataHookHandler<F>>::empty()) by {
            reveal(Seq::filter);
        }
        assert(hooks_at(map, key) + Seq::<DataHookHandler<F>>::empty() =~= hooks_at(map, key));
    } else {
        let rest = hooks.drop_last();
        let last = hooks.last();
        lemma_registered_hooks(map, rest, key);
        rest.lemma_filter_push(last, belongs);
        assert(rest.push(last) =~= hooks);
        let before = registered(map, rest);
        if hook_key(last) == key {
            assert(hooks_at(registered(map, hooks), key) =~= hooks_at(before, key).push(last));
            assert(hooks_at(map, key) + rest.filter(belongs).push(last) =~= (hooks_at(map, key)
                + rest.filter(belongs)).push(last));
        } else {
            assert(hooks_at(registered(map, hooks), key) =~= hooks_at(before, key));
        }
    }
}

/// Fan-out for two handlers. Two handlers registered for the same action
/// and kind are both reached by a batch of that action and kind, each
/// once, behind the handlers that were registered before.
pub proof fn lemma_fan_out<F>(
    map: Map<Seq<char>, Seq<DataHookHandler<F>>>,
    first: DataHookHandler<F>,
    second: DataHookHandler<F>,
    action: EntityAction,
    kind: Seq<char>,
)
    requires
        first.action == action && first.entity_kind@ == kind,
        second.action == action && second.entity_kind@ == kind,
    ensures
        selected(registered(map, seq![first, second]), action, Some(kind)) == hooks_at(
            map,
            dispatch_key(action, kind),
        ) + seq![first, second],
{
    let key = dispatch_key(action, kind);
    let hooks = seq![first, second];
    assert(hooks.drop_last() =~= seq![first]);
    assert(seq![first].drop_last() =~= Seq::<DataHookHandler<F>>::empty());
    reveal_with_fuel(registered, 3);
    assert(hooks_at(registered(map, hooks), key) =~= hooks_at(map, key) + hooks);
}

/// Registering entity handlers leaves the handlers of every other key as
/// they were.
pub proof fn lemma_registered_elsewhere<F>(
    map: Map<Seq<char>, Seq<DataHookHandler<F>>>,
    hooks: Seq<DataHookHandler<F>>,
    key: Seq<char>,
)
    requires
        forall|i: int| 0 <= i < hooks.len() ==> hook_key(#[trigger] hooks[i]) != key,
    ensures
        hooks_at(registered(map, hooks), key) == hooks_at(map, key),
    decreases hooks.len(),
{
    if hooks.len() > 0 {
        lemma_registered_elsewhere(map, hooks.drop_last(), key);
    }
}

/// Last registration wins. After `hooks` were bound, the handler of a
/// request kind is the last of `hooks` that names the kind.
pub proof fn lemma_bound_last_wins<G>(
    map: Map<Seq<char>, SignalHookHandler<G>>,
    hooks: Seq<SignalHookHandler<G>>,
    i: int,
)
    requires
        0 <= i < hooks.len(),
        forall|j: int| i < j < hooks.len() ==> (#[trigger] hooks[j]).name@ != hooks[i].name@,
    ensures
        bound(map, hooks).contains_key(hooks[i].name@),
        bound(map, hooks)[hooks[i].name@] == hooks[i],
    decreases hooks.len(),
{
    if i < hooks.len() - 1 {
        let rest = hooks.drop_last();
        assert(rest[i] == hooks[i]);
        assert forall|j: int| i < j < rest.len() implies (#[trigger] rest[j]).name@
            != rest[i].name@ by {
            assert(rest[j] == hooks[j]);
        }
        lemma_bound_last_wins(map, rest, i);
        assert(hooks.last() == hooks[hooks.len() - 1]);
    }
}

/// A request kind has a handler after `hooks` were bound if and only if it
/// had one before or one of `hooks` names it.
pub proof fn lemma_bound_keys<G>(
    map: Map<Seq<char>, SignalHookHandler<G>>,
    hooks: Seq<SignalHookHandler<G>>,
    name: Seq<char>,
)
    ensures
        bound(map, hooks).contains_key(name) <==> map.contains_key(name) || exists|i: int|
            0 <= i < hooks.len() && (#[trigger] hooks[i]).name@ == name,
    decreases hooks.len(),
{
    if hooks.len() > 0 {
        let rest = hooks.drop_last();
        lemma_bound_keys(map, rest, name);
        if bound(map, hooks).contains_key(name) {
            if hooks.last().name@ == name {
                assert(hooks[hooks.len() - 1].name@ == name);
            } else if !map.contains_key(name) {
                let i = choose|i: int| 0 <= i < rest.len() && (#[trigger] rest[i]).name@ == name;
                assert(hooks[i] == rest[i]);
            }
        }
        if exists|i: int| 0 <= i < hooks.len() && (#[trigger] hooks[i]).name@ == name {
            let i = choose|i: int| 0 <= i < hooks.len() && (#[trigger] hooks[i]).name@ == name;
            if i < rest.len() {
                assert(rest[i] == hooks[i]);
            }
        }
    }
}

/// Why a signal got no answer of the expected type.
#[derive(Debug)]
pub enum SignalError {
    /// No handler is registered for the kind of the request.
    NoHandler,
    /// The handler answered with a value of another type than the caller
    /// expects.
    Downcast,
    /// The handler itself reported a failure, with this message.
    Handler(String),
}

impl SignalError {
    /// The message of an error as text.
    pub open spec fn message(self) -> Seq<char> {
        match self {
            SignalError::NoHandler => "Unable to find signal handler"@,
            SignalError::Downcast => "Downcast error"@,
            SignalError::Handler(message) => message@,
        }
    }

    /// Returns the message of this error.
    pub fn into_message(self) -> (message: String)
        ensures
            message@ == self.message(),
    {
        match self {
            SignalError::NoHandler => owned("Unable to find signal handler"),
            SignalError::Downcast => owned("Downcast error"),
            SignalError::Handler(message) => message,
        }
    }
}

/// What a signal yields, given what its handler returned: `Err` with the
/// handler's message where the handler failed, `Ok(None)` where its answer
/// is not of the type that the caller expects, `Ok(Some(..))` with the
/// answer otherwise. A handler's failure is told apart from an answer of
/// the wrong type.
pub fn signal_response<R>(answer: Result<Option<R>, String>) -> (response: Result<R, SignalError>)
    ensures
        response == match answer {
            Ok(Some(value)) => Ok::<R, SignalError>(value),
            Ok(None) => Err(SignalError::Downcast),
            Err(message) => Err(SignalError::Handler(message)),
        },
{
    match answer {
        Ok(Some(value)) => Ok(value),
        Ok(None) => Err(SignalError::Downcast),
        Err(message) => Err(SignalError::Handler(message)),
    }
}

/// The handlers of a process: entity handlers that are run by an `F`, and
/// signal handlers that are run by a `G`.
#[verifier::reject_recursive_types(G)]
pub struct Dispatcher<F, G> {
    data_hooks: Registry<DataHookHandler<F>>,
    signal_hook: StringHashMap<SignalHookHandler<G>>,
}

impl<F, G> Dispatcher<F, G> {
    /// The dispatcher is consistent: every value of this type that the
    /// functions below hand out is.
    pub closed spec fn wf(&self) -> bool {
        self.data_hooks.wf()
    }

    /// For each dispatch key the entity handlers registered under it, in
    /// registration order.
    pub closed spec fn data_hooks(&self) -> Map<Seq<char>, Seq<DataHookHandler<F>>> {
        self.data_hooks@
    }

    /// For each request kind the signal handler bound to it.
    pub closed spec fn signal_hooks(&self) -> Map<Seq<char>, SignalHookHandler<G>> {
        self.signal_hook@
    }

    /// A dispatcher without handlers.
    pub fn new() -> (dispatcher: Self)
        ensures
            dispatcher.wf(),
            dispatcher.data_hooks() == Map::<Seq<char>, Seq<DataHookHandler<F>>>::empty(),
            dispatcher.signal_hooks() == Map::<Seq<char>, SignalHookHandler<G>>::empty(),
    {
        Dispatcher { data_hooks: Registry::new(), signal_hook: StringHashMap::new() }
    }

    /// Adds each of `hooks`, in order, behind the handlers already
    /// registered for its action and kind. No handler is replaced.
    pub fn register_entity_hooks(&mut self, hooks: Vec<DataHookHandler<F>>)
        requires
            old(self).wf(),
        ensures
            final(self).wf(),
            final(self).data_hooks() == registered(old(self).data_hooks(), hooks@),
            final(self).signal_hooks() == old(self).signal_hooks(),
    {
        let ghost mut seen: Seq<DataHookHandler<F>> = Seq::empty();
        for handler in it: hooks
            invariant
                self.wf(),
                seen == hooks@.take(it.index() as int),
                self.data_hooks() == registered(old(self).data_hooks(), seen),
                self.signal_hooks() == old(self).signal_hooks(),
        {
            proof {
                let next = seen.push(handler);
                assert(next.drop_last() =~= seen);
                assert(next.last() == handler);
                seen = next;
            }
            let key = make_dispatch_key(handler.get_action(), handler.get_entity_kind());
            self.data_hooks.register(key, handler);
        }
        assert(hooks@.take(hooks@.len() as int) =~= hooks@);
    }

    /// Binds each of `hooks`, in order, to the request kind it names. A
    /// handler already bound to that kind is replaced.
    pub fn register_signal_hooks(&mut self, hooks: Vec<SignalHookHandler<G>>)
        requires
            old(self).wf(),
        ensures
            final(self).wf(),
            final(self).signal_hooks() == bound(old(self).signal_hooks(), hooks@),
            final(self).data_hooks() == old(self).data_hooks(),
    {
        let ghost mut seen: Seq<SignalHookHandler<G>> = Seq::empty();
        for handler in it: hooks
            invariant
                self.wf(),
                seen == hooks@.take(it.index() as int),
                self.signal_hooks() == bound(old(self).signal_hooks(), seen),
                self.data_hooks() == old(self).data_hooks(),
        {
            proof {
                let next = seen.push(handler);
                assert(next.drop_last() =~= seen);
                assert(next.last() == handler);
                seen = next;
            }
            let name = owned(handler.get_name());
            self.signal_hook.insert(name, handler);
        }
        assert(hooks@.take(hooks@.len() as int) =~= hooks@);
    }

    /// The handlers that the batch `value` reaches under `action`, in the
    /// order in which they are to be started: those registered for `action`
    /// and the kind of the first entity. `None` where the batch is empty or
    /// nothing is registered for its key. The batch is taken to be of one
    /// kind; its other entities are not looked at.
    pub fn dispatch_entity_hook<T: Entity>(&self, action: EntityAction, value: &Vec<T>) -> (handlers:
        Option<&Vec<DataHookHandler<F>>>)
        requires
            self.wf(),
        ensures
            handlers is Some <==> selected(self.data_hooks(), action, first_kind(value@)).len() > 0,
            handlers matches Some(list) ==> list@ == selected(
                self.data_hooks(),
                action,
                first_kind(value@),
            ),
    {
        if value.len() == 0 {
            return None;
        }
        let key = make_dispatch_key(action, value[0].get_kind());
        self.data_hooks.get(key.as_str())
    }

    /// The handler bound to the kind of `signal_entity`, or
    /// `SignalError::NoHandler` where none is.
    pub fn dispatch_signal_hook<T: Entity>(&self, signal_entity: &T) -> (handler: Result<
        &SignalHookHandler<G>,
        SignalError,
    >)
        requires
            self.wf(),
        ensures
            handler is Ok <==> self.signal_hooks().contains_key(signal_entity.kind()),
            handler matches Ok(h) ==> *h == self.signal_hooks()[signal_entity.kind()],
            handler matches Err(e) ==> e == SignalError::NoHandler,
    {
        match self.signal_hook.get(signal_entity.get_kind()) {
            Some(handler) => Ok(handler),
            None => Err(SignalError::NoHandler),
        }
    }
}

} // verus!
