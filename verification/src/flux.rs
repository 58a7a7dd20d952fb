//! The cascading event pipeline.
//!
//! An event reaches every handler registered for its kind. Each handler
//! answers with a `HookResponse`; the entities that successful answers
//! carry are events in turn and go through the pipeline again, before the
//! outer call returns. What comes back is the list of the outer answers
//! followed by the answers that the emitted events gave rise to.

use vstd::prelude::*;
use vstd::string::*;
use serde_json::Value;
use crate::entity::Entity;
use crate::json::{event_kind, json_kind};
use crate::registry::{appended, hooks_at, Registry};
use crate::text::{contains_text, owned, texts};

verus! {

/// What one handler answers to one event.
#[derive(Debug)]
pub struct HookResponse {
    pub success: bool,
    pub handler: String,
    pub entities: Vec<Value>,
    pub message: String,
}

impl HookResponse {
    /// Names the handler that gave this answer.
    pub fn set_handler(&mut self, handler: &str)
        ensures
            final(self).handler@ == handler@,
            final(self).success == old(self).success,
            final(self).entities == old(self).entities,
            final(self).message == old(self).message,
    {
        self.handler = owned(handler);
    }

    /// A failed answer with `message`: no handler named, no entities.
    pub fn error(message: &str) -> (response: Self)
        ensures
            !response.success,
            response.handler@ == Seq::<char>::empty(),
            response.entities@ == Seq::<Value>::empty(),
            response.message@ == message@,
    {
        HookResponse {
            success: false,
            handler: String::new(),
            entities: Vec::new(),
            message: owned(message),
        }
    }

    /// A successful answer that emits nothing.
    pub fn ok() -> (response: Self)
        ensures
            response.success,
            response.handler@ == Seq::<char>::empty(),
            response.entities@ == Seq::<Value>::empty(),
            response.message@ == Seq::<char>::empty(),
    {
        HookResponse {
            success: true,
            handler: String::new(),
            entities: Vec::new(),
            message: String::new(),
        }
    }

    /// A successful answer that emits the one entity `entity`.
    pub fn entity(entity: Value) -> (response: Self)
        ensures
            response.success,
            response.handler@ == Seq::<char>::empty(),
            response.entities@ == seq![entity],
            response.message@ == Seq::<char>::empty(),
    {
        let mut entities: Vec<Value> = Vec::new();
        entities.push(entity);
        HookResponse { success: true, handler: String::new(), entities, message: String::new() }
    }

    /// This answer with `entity` added behind the entities it emits already.
    pub fn with_entity(self, entity: Value) -> (response: Self)
        ensures
            response.success == self.success,
            response.handler == self.handler,
            response.entities@ == self.entities@.push(entity),
            response.message == self.message,
    {
        let mut response = self;
        response.entities.push(entity);
        response
    }
}

/// The answer of the handler `handler` to an event. `answer` is what the
/// handler returned, or `None` where the event was not of the type that the
/// handler takes: that is a failed answer, not a crash.
pub fn hook_response(handler: &str, answer: Option<HookResponse>) -> (response: HookResponse)
    ensures
        response.handler@ == handler@,
        match answer {
            Some(given) => {
                &&& response.success == given.success
                &&& response.entities == given.entities
                &&& response.message == given.message
            },
            None => {
                &&& !response.success
                &&& response.entities@ == Seq::<Value>::empty()
                &&& response.message@ == "Action downcast error"@
            },
        },
{
    let mut response = match answer {
        Some(given) => given,
        None => HookResponse::error("Action downcast error"),
    };
    response.set_handler(handler);
    response
}

/// The entities that `responses` emit: those of every successful answer, in
/// the order of the answers and, within one, in the order given.
pub open spec fn emitted(responses: Seq<HookResponse>) -> Seq<Value>
    decreases responses.len(),
{
    if responses.len() == 0 {
        Seq::empty()
    } else if responses.last().success {
        emitted(responses.drop_last()) + responses.last().entities@
    } else {
        emitted(responses.drop_last())
    }
}

/// All of `lists`, one after another.
pub open spec fn concatenated(lists: Seq<Vec<HookResponse>>) -> Seq<HookResponse>
    decreases lists.len(),
{
    if lists.len() == 0 {
        Seq::empty()
    } else {
        concatenated(lists.drop_last()) + lists.last()@
    }
}

/// The values behind `items`.
pub open spec fn values_of(items: Seq<&Value>) -> Seq<Value> {
    items.map_values(|item: &Value| *item)
}

/// Collects the events that go through the pipeline next: the entities of
/// every successful answer among `responses`. A failed answer emits
/// nothing, whatever it carries.
pub fn emitted_entities(responses: &Vec<HookResponse>) -> (events: Vec<&Value>)
    ensures
        values_of(events@) == emitted(responses@),
{
    let mut events: Vec<&Value> = Vec::new();
    let mut i: usize = 0;
    while i < responses.len()
        invariant
            i <= responses.len(),
            values_of(events@) == emitted(responses@.take(i as int)),
        decreases responses.len() - i,
    {
        let response = &responses[i];
        let ghost start = events@;
        assert(responses@.take(i + 1).drop_last() =~= responses@.take(i as int));
        assert(responses@.take(i + 1).last() == responses@[i as int]);
        if response.success {
            let mut j: usize = 0;
            while j < response.entities.len()
                invariant
                    j <= response.entities.len(),
                    values_of(events@) == values_of(start) + response.entities@.take(j as int),
                decreases response.entities.len() - j,
            {
                let ghost before = events@;
                events.push(&response.entities[j]);
                assert(values_of(events@) =~= values_of(before).push(response.entities@[j as int]));
                assert(response.entities@.take(j + 1) =~= response.entities@.take(j as int).push(
                    response.entities@[j as int],
                ));
                j = j + 1;
            }
            assert(response.entities@.take(response.entities@.len() as int)
                =~= response.entities@);
        }
        i = i + 1;
    }
    assert(responses@.take(responses@.len() as int) =~= responses@);
    events
}

/// The answers of one call of the pipeline: `outer`, the answers to the
/// event itself, followed by `nested`, the answers that each emitted event
/// gave rise to, in the order of the emitted events.
pub fn collect_responses(outer: Vec<HookResponse>, nested: Vec<Vec<HookResponse>>) -> (all: Vec<
    HookResponse,
>)
    ensures
        all@ == outer@ + concatenated(nested@),
{
    let mut all = outer;
    let ghost mut seen: Seq<Vec<HookResponse>> = Seq::empty();
    for list in it: nested
        invariant
            seen == nested@.take(it.index() as int),
            all@ == outer@ + concatenated(seen),
    {
        proof {
            let next = seen.push(list);
            assert(next.drop_last() =~= seen);
            assert(next.last() == list);
            seen = next;
        }
        let mut list = list;
        all.append(&mut list);
        assert(all@ =~= outer@ + concatenated(seen));
    }
    assert(nested@.take(nested@.len() as int) =~= nested@);
    all
}

/// What one handler answers to one event, in the plain form: at most one
/// value, which is an event in turn.
#[derive(Debug)]
pub struct AxResponse {
    pub success: bool,
    pub handler: String,
    pub value: Option<Value>,
}

/// The values that `responses` emit: that of every successful answer that
/// has one, in the order of the answers.
pub open spec fn next_values(responses: Seq<AxResponse>) -> Seq<Value>
    decreases responses.len(),
{
    if responses.len() == 0 {
        Seq::empty()
    } else if responses.last().success && responses.last().value is Some {
        next_values(responses.drop_last()).push(responses.last().value->0)
    } else {
        next_values(responses.drop_last())
    }
}

/// Collects the events that go through the pipeline next: the value of
/// every successful answer among `responses` that has one.
pub fn next_events(responses: &Vec<AxResponse>) -> (events: Vec<&Value>)
    ensures
        values_of(events@) == next_values(responses@),
{
    let mut events: Vec<&Value> = Vec::new();
    let mut i: usize = 0;
    while i < responses.len()
        invariant
            i <= responses.len(),
            values_of(events@) == next_values(responses@.take(i as int)),
        decreases responses.len() - i,
    {
        let response = &responses[i];
        assert(responses@.take(i + 1).drop_last() =~= responses@.take(i as int));
        assert(responses@.take(i + 1).last() == responses@[i as int]);
        if response.success {
            match &response.value {
                Some(value) => {
                    let ghost before = events@;
                    events.push(value);
                    assert(values_of(events@) =~= values_of(before).push(*value));
                },
                None => {},
            }
        }
        i = i + 1;
    }
    assert(responses@.take(responses@.len() as int) =~= responses@);
    events
}

/// A handler of events of one kind: the kind, the handler's own name, and
/// whatever runs it.
pub struct EventHandler<F> {
    handler_func: F,
    kind: String,
    handler_id: String,
}

impl<F> EventHandler<F> {
    /// The kind of events that this handler takes.
    pub closed spec fn kind(&self) -> Seq<char> {
        self.kind@
    }

    /// The name of this handler.
    pub closed spec fn action_id(&self) -> Seq<char> {
        self.handler_id@
    }

    /// What runs this handler.
    pub closed spec fn func(&self) -> F {
        self.handler_func
    }

    pub fn new(handler_func: F, kind: &str, handler_id: &str) -> (handler: Self)
        ensures
            handler.func() == handler_func,
            handler.kind() == kind@,
            handler.action_id() == handler_id@,
    {
        EventHandler { handler_func, kind: owned(kind), handler_id: owned(handler_id) }
    }

    pub fn get_kind(&self) -> (kind: &str)
        ensures
            kind@ == self.kind(),
    {
        self.kind.as_str()
    }

    pub fn get_action_id(&self) -> (id: &str)
        ensures
            id@ == self.action_id(),
    {
        self.handler_id.as_str()
    }

    pub fn get_handler(&self) -> (handler_func: &F)
        ensures
            *handler_func == self.func(),
    {
        &self.handler_func
    }
}

/// An event handler, by its other name.
pub type ActionHandler<F> = EventHandler<F>;

/// `map` after each of `handlers` was added, in order, behind the handlers
/// already registered for its kind.
pub open spec fn added<F>(
    map: Map<Seq<char>, Seq<EventHandler<F>>>,
    handlers: Seq<EventHandler<F>>,
) -> Map<Seq<char>, Seq<EventHandler<F>>>
    decreases handlers.len(),
{
    if handlers.len() == 0 {
        map
    } else {
        appended(added(map, handlers.drop_last()), handlers.last().kind(), handlers.last())
    }
}

/// The kind as which the event `event` at depth `depth` goes through a
/// pipeline that takes the kinds `kinds` and follows emitted events down to
/// depth `max_depth`: the kind that it declares, where the pipeline takes
/// that kind and the event is not too deep. `None` says that the event is
/// dropped.
pub open spec fn followed(
    kinds: Seq<Seq<char>>,
    max_depth: nat,
    event: Value,
    depth: nat,
) -> Option<Seq<char>> {
    if depth > max_depth {
        None
    } else {
        match json_kind(event) {
            Some(kind) => if kinds.contains(kind) {
                Some(kind)
            } else {
                None
            },
            None => None,
        }
    }
}

/// The answers of one call of the pipeline for the event `event` of kind
/// `kind` at depth `depth`, where `answers` says what the handlers of a
/// kind answer to an event: their answers to `event`, followed by the
/// answers of the calls for the events that those answers emit, one level
/// deeper.
pub open spec fn pushed(
    answers: spec_fn(Seq<char>, Value) -> Seq<HookResponse>,
    kinds: Seq<Seq<char>>,
    max_depth: nat,
    kind: Seq<char>,
    event: Value,
    depth: nat,
) -> Seq<HookResponse>
    decreases max_depth + 1 - depth, 0nat,
{
    let outer = answers(kind, event);
    if depth < max_depth {
        outer + cascaded(answers, kinds, max_depth, emitted(outer), depth + 1)
    } else {
        outer
    }
}

/// The answers that the emitted events `events`, which are at depth
/// `depth`, give rise to, in the order of the events: for each event that is
/// followed the answers of its own call, and nothing for one that is
/// dropped.
pub open spec fn cascaded(
    answers: spec_fn(Seq<char>, Value) -> Seq<HookResponse>,
    kinds: Seq<Seq<char>>,
    max_depth: nat,
    events: Seq<Value>,
    depth: nat,
) -> Seq<HookResponse>
    decreases max_depth + 1 - depth, 1 + events.len(),
{
    if events.len() == 0 || depth > max_depth {
        Seq::empty()
    } else {
        cascaded(answers, kinds, max_depth, events.drop_last(), depth) + match followed(
            kinds,
            max_depth,
            events.last(),
            depth,
        ) {
            Some(kind) => pushed(answers, kinds, max_depth, kind, events.last(), depth),
            None => Seq::empty(),
        }
    }
}

/// Cascading. Where the one handler of an event answers with success and
/// emits one entity of a kind that the pipeline takes, the answers of that
/// entity's handlers are part of the answers of the same call: they follow
/// the answer that emitted the entity.
pub proof fn lemma_cascade(
    answers: spec_fn(Seq<char>, Value) -> Seq<HookResponse>,
    kinds: Seq<Seq<char>>,
    max_depth: nat,
    kind: Seq<char>,
    event: Value,
    depth: nat,
    answer: HookResponse,
    emitted_kind: Seq<char>,
)
    requires
        depth < max_depth,
        answers(kind, event) == seq![answer],
        answer.success,
        answer.entities@.len() == 1,
        json_kind(answer.entities@[0]) == Some(emitted_kind),
        kinds.contains(emitted_kind),
    ensures
        pushed(answers, kinds, max_depth, kind, event, depth) == seq![answer] + pushed(
            answers,
            kinds,
            max_depth,
            emitted_kind,
            answer.entities@[0],
            depth + 1,
        ),
        answers(emitted_kind, answer.entities@[0]).is_prefix_of(
            pushed(answers, kinds, max_depth, emitted_kind, answer.entities@[0], depth + 1),
        ),
{
    let outer = seq![answer];
    let next = answer.entities@[0];
    assert(outer.drop_last() =~= Seq::<HookResponse>::empty());
    reveal_with_fuel(emitted, 2);
    assert(emitted(outer) =~= seq![next]);
    assert(seq![next].drop_last() =~= Seq::<Value>::empty());
    assert(seq![next].last() == next);
    reveal_with_fuel(cascaded, 2);
    let deeper = pushed(answers, kinds, max_depth, emitted_kind, next, depth + 1);
    assert(cascaded(answers, kinds, max_depth, seq![next], depth + 1) =~= deeper);
}

/// How many levels of emitted events a pipeline follows unless it is told
/// otherwise.
pub const DEFAULT_MAX_DEPTH: usize = 16;

/// The pipeline of one application: its context, the kinds of event that it
/// takes from outside, its handlers by kind, and how deep it follows
/// emitted events.
///
/// An event that comes from outside is at depth 0; an event that a handler
/// emits is one level deeper than the event that the handler answered.
/// Events deeper than the pipeline's limit are not followed, so two
/// handlers that emit each other's kind cannot keep a call from returning.
pub struct Flux<C, F> {
    context: C,
    kinds: Vec<String>,
    action_handlers: Registry<EventHandler<F>>,
    max_depth: usize,
}

impl<C, F> Flux<C, F> {
    /// The pipeline is consistent: every value of this type that the
    /// functions below hand out is.
    pub closed spec fn wf(&self) -> bool {
        self.action_handlers.wf()
    }

    /// The context of the application.
    pub closed spec fn context(&self) -> C {
        self.context
    }

    /// The kinds of event that the pipeline takes as JSON.
    pub closed spec fn kinds(&self) -> Seq<Seq<char>> {
        texts(self.kinds@)
    }

    /// For each kind the handlers registered for it, in registration order.
    pub closed spec fn handlers(&self) -> Map<Seq<char>, Seq<EventHandler<F>>> {
        self.action_handlers@
    }

    /// The depth of the deepest emitted events that the pipeline follows.
    pub closed spec fn max_depth(&self) -> usize {
        self.max_depth
    }

    /// A pipeline over `context` that takes the event kinds `kinds` as JSON
    /// and starts with the handlers `hooks`.
    pub fn new(context: C, kinds: Vec<String>, hooks: Vec<EventHandler<F>>) -> (flux: Self)
        ensures
            flux.wf(),
            flux.context() == context,
            flux.kinds() == texts(kinds@),
            flux.handlers() == added(Map::empty(), hooks@),
            flux.max_depth() == DEFAULT_MAX_DEPTH,
    {
        let mut flux = Flux {
            context,
            kinds,
            action_handlers: Registry::new(),
            max_depth: DEFAULT_MAX_DEPTH,
        };
        flux.add_action_handlers(hooks);
        flux
    }

    /// This pipeline with the limit `max_depth` on the depth of the emitted
    /// events that it follows. With 0 it follows none.
    pub fn with_max_depth(self, max_depth: usize) -> (flux: Self)
        requires
            self.wf(),
        ensures
            flux.wf(),
            flux.max_depth() == max_depth,
            flux.context() == self.context(),
            flux.kinds() == self.kinds(),
            flux.handlers() == self.handlers(),
    {
        let mut flux = self;
        flux.max_depth = max_depth;
        flux
    }

    pub fn get_context(&self) -> (context: &C)
        ensures
            *context == self.context(),
    {
        &self.context
    }

    /// Adds each of `handlers`, in order, behind the handlers already
    /// registered for its kind.
    pub fn add_action_handlers(&mut self, handlers: Vec<EventHandler<F>>)
        requires
            old(self).wf(),
        ensures
            final(self).wf(),
            final(self).handlers() == added(old(self).handlers(), handlers@),
            final(self).context() == old(self).context(),
            final(self).kinds() == old(self).kinds(),
            final(self).max_depth() == old(self).max_depth(),
    {
        let ghost mut seen: Seq<EventHandler<F>> = Seq::empty();
        for handler in it: handlers
            invariant
                self.wf(),
                seen == handlers@.take(it.index() as int),
                self.handlers() == added(old(self).handlers(), seen),
                self.context() == old(self).context(),
                self.kinds() == old(self).kinds(),
                self.max_depth() == old(self).max_depth(),
        {
            proof {
                let next = seen.push(handler);
                assert(next.drop_last() =~= seen);
                assert(next.last() == handler);
                seen = next;
            }
            let kind = owned(handler.get_kind());
            self.action_handlers.register(kind, handler);
        }
        assert(handlers@.take(handlers@.len() as int) =~= handlers@);
    }

    /// The handlers that the event `action` reaches, in the order in which
    /// they are to be started: those registered for its kind. `None` where
    /// there are none.
    pub fn dispatch_event<T: Entity>(&self, action: &T) -> (handlers: Option<&Vec<EventHandler<F>>>)
        requires
            self.wf(),
        ensures
            handlers is Some <==> hooks_at(self.handlers(), action.kind()).len() > 0,
            handlers matches Some(list) ==> list@ == hooks_at(self.handlers(), action.kind()),
    {
        self.action_handlers.get(action.get_kind())
    }

    /// The kind as which the JSON event `event` enters the pipeline from
    /// outside: the kind that it declares, where the pipeline takes that
    /// kind. An event that declares no kind, or one that the pipeline does
    /// not take, enters nowhere and has no answers.
    pub fn dispatch_json_event(&self, event: &Value) -> (kind: Option<String>)
        ensures
            match kind {
                Some(text) => followed(self.kinds(), self.max_depth() as nat, *event, 0) == Some(
                    text@,
                ),
                None => followed(self.kinds(), self.max_depth() as nat, *event, 0) is None,
            },
    {
        self.cascade_event(event, 0)
    }

    /// The depth of the events that the answers to an event at depth
    /// `depth` emit, where the pipeline still follows them: one more than
    /// `depth`, as long as `depth` is below the limit. `None` says that what
    /// those answers emit is not followed.
    pub fn deeper(&self, depth: usize) -> (next: Option<usize>)
        ensures
            next is Some <==> depth < self.max_depth(),
            next matches Some(d) ==> d == depth + 1,
    {
        if depth < self.max_depth {
            Some(depth + 1)
        } else {
            None
        }
    }

    /// The kind as which the JSON event `event`, emitted at depth `depth`,
    /// goes through the pipeline again: as `dispatch_json_event` says, as
    /// long as `depth` is within the pipeline's limit. A deeper event is
    /// dropped.
    pub fn cascade_event(&self, event: &Value, depth: usize) -> (kind: Option<String>)
        ensures
            match kind {
                Some(text) => followed(
                    self.kinds(),
                    self.max_depth() as nat,
                    *event,
                    depth as nat,
                ) == Some(text@),
                None => followed(self.kinds(), self.max_depth() as nat, *event, depth as nat)
                    is None,
            },
    {
        if depth > self.max_depth {
            return None;
        }
        match event_kind(event) {
            Some(kind) => {
                if contains_text(&self.kinds, kind.as_str()) {
                    Some(kind)
                } else {
                    None
                }
            },
            None => None,
        }
    }
}

/// The pipeline, by its other name.
pub type ActionDispatcher<C, F> = Flux<C, F>;

} // verus!
