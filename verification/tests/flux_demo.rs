use std::cell::RefCell;

use alchemix_rx::demo::{execute_add, AddAction, Sum};
use alchemix_rx::entity::{Entity, EntityRecord};
use alchemix_rx::flux::{
    collect_responses, emitted_entities, hook_response, next_events, ActionDispatcher,
    ActionHandler, AxResponse, EventHandler, Flux, HookResponse,
};
use alchemix_rx::flux_state::{EventSchema, FluxState, StateGetEntities, StateQuery};
use alchemix_rx::json::event_kind;
use alchemix_rx::store::StoreState;
use serde_json::{Number, Value};

pub struct TestContext {
    log: RefCell<Vec<String>>,
}

impl TestContext {
    pub fn new() -> Self {
        Self { log: RefCell::new(vec![]) }
    }

    pub fn log(&self, text: &str) {
        self.log.borrow_mut().push(text.to_string());
    }
}

type Hook = fn(&Value, &TestContext) -> Option<HookResponse>;

fn number(value: &Value, name: &str) -> Option<u16> {
    Some(value.get(name)?.as_u64()? as u16)
}

fn add_action_json(action: &AddAction) -> Value {
    let mut object = serde_json::Map::new();
    object.insert("id".to_string(), Value::String(action.id.clone()));
    object.insert("kind".to_string(), Value::String(action.kind.clone()));
    object.insert("left".to_string(), Value::Number(Number::from(action.left)));
    object.insert("right".to_string(), Value::Number(Number::from(action.right)));
    Value::Object(object)
}

fn sum_json(sum: &Sum) -> Value {
    let mut object = serde_json::Map::new();
    object.insert("id".to_string(), Value::String(sum.id.clone()));
    object.insert("kind".to_string(), Value::String(sum.kind.clone()));
    object.insert("result".to_string(), Value::Number(Number::from(sum.result)));
    Value::Object(object)
}

fn add_action(event: &Value, context: &TestContext) -> Option<HookResponse> {
    let action = AddAction::new_with_id(
        event.get("id")?.as_str()?,
        number(event, "left")?,
        number(event, "right")?,
    );
    if action.left.checked_add(action.right).is_none() {
        return Some(HookResponse::error("the sum does not fit"));
    }
    let sum = execute_add(&action);
    context.log(&format!("Add: {} + {} = {}", action.left, action.right, sum.result));
    Some(HookResponse::entity(sum_json(&sum)))
}

fn sum_history(event: &Value, context: &TestContext) -> Option<HookResponse> {
    let result = number(event, "result")?;
    context.log(&format!("SUM History: {}", result));
    Some(HookResponse::ok())
}

fn failing(_event: &Value, _context: &TestContext) -> Option<HookResponse> {
    Some(HookResponse::error("refused").with_entity(Value::String("lost".to_string())))
}

fn hooks() -> Vec<EventHandler<Hook>> {
    vec![
        EventHandler::new(add_action as Hook, "AddAction", "AddAction"),
        EventHandler::new(sum_history as Hook, "Sum", "SumHistory"),
    ]
}

fn kinds() -> Vec<String> {
    vec!["AddAction".to_string(), "Sum".to_string()]
}

fn push(
    flux: &Flux<TestContext, Hook>,
    event: &EntityRecord,
    payload: &Value,
    depth: usize,
) -> Vec<HookResponse> {
    let outer: Vec<HookResponse> = match flux.dispatch_event(event) {
        Some(handlers) => handlers
            .iter()
            .map(|h| hook_response(h.get_action_id(), (h.get_handler())(payload, flux.get_context())))
            .collect(),
        None => vec![],
    };
    let nested: Vec<Vec<HookResponse>> = match flux.deeper(depth) {
        Some(next) => {
            emitted_entities(&outer).into_iter().map(|value| cascade(flux, value, next)).collect()
        }
        None => vec![],
    };
    collect_responses(outer, nested)
}

fn cascade(flux: &Flux<TestContext, Hook>, event: &Value, depth: usize) -> Vec<HookResponse> {
    match flux.cascade_event(event, depth) {
        Some(kind) => {
            let id = event.get("id").and_then(|id| id.as_str()).unwrap_or("");
            push(flux, &EntityRecord::new(&kind, id, vec![]), event, depth)
        }
        None => vec![],
    }
}

fn push_json(flux: &Flux<TestContext, Hook>, event: &Value) -> Vec<HookResponse> {
    assert_eq!(flux.dispatch_json_event(event), flux.cascade_event(event, 0));
    cascade(flux, event, 0)
}

fn of_kind(kind: &str) -> Value {
    let mut object = serde_json::Map::new();
    object.insert("kind".to_string(), Value::String(kind.to_string()));
    Value::Object(object)
}

fn ping(_event: &Value, context: &TestContext) -> Option<HookResponse> {
    context.log("ping");
    Some(HookResponse::entity(of_kind("Pong")))
}

fn pong(_event: &Value, context: &TestContext) -> Option<HookResponse> {
    context.log("pong");
    Some(HookResponse::entity(of_kind("Ping")))
}

#[test]
pub fn handlers_that_emit_each_other_come_to_an_end() {
    let cycle = || {
        vec![
            EventHandler::new(ping as Hook, "Ping", "Ping"),
            EventHandler::new(pong as Hook, "Pong", "Pong"),
        ]
    };
    let kinds = || vec!["Ping".to_string(), "Pong".to_string()];

    let flux = Flux::new(TestContext::new(), kinds(), cycle()).with_max_depth(3);
    let res = push_json(&flux, &of_kind("Ping"));
    let names: Vec<&str> = res.iter().map(|r| r.handler.as_str()).collect();
    assert_eq!(names, vec!["Ping", "Pong", "Ping", "Pong"]);
    assert_eq!(flux.get_context().log.borrow().len(), 4);

    let flux = Flux::new(TestContext::new(), kinds(), cycle()).with_max_depth(0);
    assert_eq!(push_json(&flux, &of_kind("Pong")).len(), 1);

    let flux = Flux::new(TestContext::new(), kinds(), cycle());
    assert_eq!(push_json(&flux, &of_kind("Ping")).len(), 17);
    assert!(flux.cascade_event(&of_kind("Ping"), 16).is_some());
    assert!(flux.cascade_event(&of_kind("Ping"), 17).is_none());
    assert!(flux.cascade_event(&of_kind("Ping"), usize::MAX).is_none());
    assert_eq!(flux.deeper(0), Some(1));
    assert_eq!(flux.deeper(15), Some(16));
    assert_eq!(flux.deeper(16), None);
    assert_eq!(flux.deeper(usize::MAX), None);
    let open_ended = Flux::new(TestContext::new(), kinds(), cycle()).with_max_depth(usize::MAX);
    assert_eq!(open_ended.deeper(usize::MAX - 1), Some(usize::MAX));
    assert_eq!(open_ended.deeper(usize::MAX), None);
}

#[test]
pub fn test_flux() {
    let context = TestContext::new();
    let flux = Flux::new(context, kinds(), hooks());

    let action = AddAction::new(2, 3);
    assert_eq!(action.get_kind(), "AddAction");

    let res = push_json(&flux, &add_action_json(&action));
    println!("Res : {:?}", res);

    assert_eq!(res.len(), 2);
    assert!(res[0].success);
    assert_eq!(res[0].handler, "AddAction");
    assert_eq!(res[0].entities.len(), 1);
    assert_eq!(event_kind(&res[0].entities[0]), Some("Sum".to_string()));
    assert_eq!(res[0].entities[0].get("result").unwrap().as_u64(), Some(5));
    assert!(res[1].success);
    assert_eq!(res[1].handler, "SumHistory");
    assert!(res[1].entities.is_empty());
    assert_eq!(
        *flux.get_context().log.borrow(),
        vec!["Add: 2 + 3 = 5".to_string(), "SUM History: 5".to_string()]
    );

    let state = FluxState::new("test-data/out/flux-state");
    let query = StateQuery::new("default", "Sum", "result", "value == 5");
    assert_eq!(query.shard, "default");
    assert_eq!(query.kind, "Sum");
    assert_eq!(query.property_name, "result");
    assert_eq!(query.expr, "value == 5");
    let sum: EventSchema<Sum> = EventSchema { name: "Sum", _marker: std::marker::PhantomData };
    assert!(state.query_entities("default", &sum, "result", "value == 5").unwrap().is_none());
    assert!(state.query_entities("default", &sum, "result", "value is 5").is_err());

    let query = StateGetEntities::new("default", "Sum", vec![]);
    assert!(query.ids.is_empty());
    assert!(state.get_entities_of_kind("default", &sum, &vec![]).is_none());
    let sums = vec![Sum::new(5)];
    assert!(state.save("default", &sums, &vec![Some(vec![1, 2, 3])]).is_none());

    let store = state.get_store("default");
    assert_eq!(store.database_url(), "sqlite:test-data/out/flux-state/default.db");
    assert_eq!(store.state(), StoreState::Unopened);
    assert_eq!(store.max_connections(), 5);
}

#[test]
pub fn cascade_skips_failed_answers_and_unknown_kinds() {
    let mut flux = Flux::new(TestContext::new(), vec!["AddAction".to_string()], hooks());
    flux.add_action_handlers(vec![EventHandler::new(failing as Hook, "AddAction", "Failing")]);

    let action = AddAction::new_with_id("a1", 7, 8);
    let res = push_json(&flux, &add_action_json(&action));

    // The sum is emitted, but this pipeline does not take `Sum` from outside:
    // nobody answers it. The failed answer's entity goes nowhere.
    assert_eq!(res.len(), 2);
    assert_eq!(res[0].handler, "AddAction");
    assert!(res[0].success);
    assert_eq!(res[1].handler, "Failing");
    assert!(!res[1].success);
    assert_eq!(res[1].message, "refused");
    assert_eq!(emitted_entities(&res).len(), 1);
    assert_eq!(*flux.get_context().log.borrow(), vec!["Add: 7 + 8 = 15".to_string()]);

    assert!(push_json(&flux, &Value::Null).is_empty());
    assert!(push_json(&flux, &Value::String("AddAction".to_string())).is_empty());
    let mut object = serde_json::Map::new();
    object.insert("kind".to_string(), Value::Number(Number::from(1u8)));
    assert!(push_json(&flux, &Value::Object(object)).is_empty());
}

#[test]
pub fn answer_of_the_wrong_type_is_a_failed_response() {
    let flux = Flux::new(TestContext::new(), kinds(), hooks());
    let mut object = serde_json::Map::new();
    object.insert("kind".to_string(), Value::String("AddAction".to_string()));
    object.insert("left".to_string(), Value::String("two".to_string()));
    let res = push_json(&flux, &Value::Object(object));
    assert_eq!(res.len(), 1);
    assert!(!res[0].success);
    assert_eq!(res[0].handler, "AddAction");
    assert_eq!(res[0].message, "Action downcast error");
    assert!(res[0].entities.is_empty());
}

#[test]
pub fn a_sum_that_does_not_fit_is_a_failed_answer() {
    let flux = Flux::new(TestContext::new(), kinds(), hooks());
    let action = AddAction::new_with_id("big", 65535, 1);
    let res = push_json(&flux, &add_action_json(&action));
    assert_eq!(res.len(), 1);
    assert!(!res[0].success);
    assert_eq!(res[0].message, "the sum does not fit");
    let action = AddAction::new_with_id("edge", 65535, 0);
    let res = push_json(&flux, &add_action_json(&action));
    assert_eq!(res.len(), 2);
    assert_eq!(res[0].entities[0].get("result").unwrap().as_u64(), Some(65535));
}

#[test]
pub fn hook_response_builders() {
    let ok = HookResponse::ok();
    assert!(ok.success && ok.handler.is_empty() && ok.entities.is_empty() && ok.message.is_empty());
    let error = HookResponse::error("bad");
    assert!(!error.success && error.handler.is_empty() && error.entities.is_empty());
    assert_eq!(error.message, "bad");
    let mut one = HookResponse::entity(Value::Bool(true));
    assert!(one.success && one.message.is_empty());
    assert_eq!(one.entities, vec![Value::Bool(true)]);
    one.set_handler("h");
    assert_eq!(one.handler, "h");
    let two = one.with_entity(Value::Null);
    assert_eq!(two.entities, vec![Value::Bool(true), Value::Null]);
    assert_eq!(two.handler, "h");

    let all = collect_responses(
        vec![HookResponse::ok()],
        vec![vec![], vec![HookResponse::error("a"), HookResponse::error("b")], vec![two]],
    );
    let messages: Vec<&str> = all.iter().map(|r| r.message.as_str()).collect();
    assert_eq!(messages, vec!["", "a", "b", ""]);
    assert_eq!(emitted_entities(&all), vec![&Value::Bool(true), &Value::Null]);
}

// ---- the plain pipeline, whose answers carry at most one value ----

type AxHook = fn(&Value) -> AxResponse;

fn execute_add_handler(event: &Value) -> AxResponse {
    let sum = match (number(event, "left"), number(event, "right")) {
        (Some(left), Some(right)) if left.checked_add(right).is_some() => {
            Some(execute_add(&AddAction::new(left, right)))
        }
        _ => None,
    };
    AxResponse {
        success: sum.is_some(),
        handler: "execute_add".to_string(),
        value: sum.map(|sum| sum_json(&sum)),
    }
}

fn sum_history_handler(_event: &Value) -> AxResponse {
    AxResponse { success: true, handler: "sum_history".to_string(), value: None }
}

fn trigger(dispatcher: &ActionDispatcher<(), AxHook>, kind: &str, event: &Value, calls: &mut Vec<String>) -> Vec<AxResponse> {
    let res: Vec<AxResponse> = match dispatcher.dispatch_event(&EntityRecord::new(kind, "000", vec![])) {
        Some(handlers) => handlers
            .iter()
            .map(|h| {
                calls.push(h.get_action_id().to_string());
                (h.get_handler())(event)
            })
            .collect(),
        None => vec![],
    };
    for next in next_events(&res) {
        if let Some(kind) = dispatcher.dispatch_json_event(next) {
            trigger(dispatcher, &kind, next, calls);
        }
    }
    res
}

#[test]
pub fn test_action() {
    let mut dispatcher: ActionDispatcher<(), AxHook> = Flux::new((), vec![], vec![]);
    dispatcher.add_action_handlers(vec![ActionHandler::new(
        execute_add_handler as AxHook,
        "AddAction",
        "execute_add",
    )]);

    let add_action = AddAction { id: "000".to_string(), kind: "AddAction".to_string(), left: 2, right: 3 };
    let mut calls = vec![];
    let res = trigger(&dispatcher, "AddAction", &add_action_json(&add_action), &mut calls);

    println!("Res : {:?}", res);
    assert_eq!(res.len(), 1);
    assert!(res[0].success);
    assert_eq!(res[0].handler, "execute_add");
    assert_eq!(res[0].value.as_ref().unwrap().get("result").unwrap().as_u64(), Some(5));
    assert_eq!(calls, vec!["execute_add".to_string()]);
}

#[test]
pub fn test_ax() {
    let mut dispatcher: ActionDispatcher<(), AxHook> =
        Flux::new((), vec!["AddAction".to_string(), "Sum".to_string()], vec![]);
    dispatcher.add_action_handlers(vec![
        ActionHandler::new(execute_add_handler as AxHook, "AddAction", "add_action"),
        ActionHandler::new(sum_history_handler as AxHook, "Sum", "sum_history"),
    ]);

    let action = AddAction::new(2, 3);
    let mut calls = vec![];
    let res = trigger(&dispatcher, "AddAction", &add_action_json(&action), &mut calls);

    println!("Res : {:?}", res);
    assert_eq!(res.len(), 1);
    assert_eq!(calls, vec!["add_action".to_string(), "sum_history".to_string()]);

    let failed = AxResponse { success: false, handler: "x".to_string(), value: Some(Value::Null) };
    let silent = AxResponse { success: true, handler: "y".to_string(), value: None };
    let loud = AxResponse { success: true, handler: "z".to_string(), value: Some(Value::Bool(false)) };
    assert_eq!(next_events(&vec![failed, silent, loud]), vec![&Value::Bool(false)]);
}
