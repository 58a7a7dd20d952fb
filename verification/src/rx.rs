//! The envelope in which requests reach the core from outside, and the
//! shape of its answers.

use vstd::prelude::*;
use vstd::string::*;
use serde_json::Value;
use crate::predicate::malformed_message;
use crate::text::owned;

verus! {

/// One request to a reactive store.
#[derive(Debug)]
pub enum RxAction {
    /// Write the entities of the given kind that the value holds.
    UpdateEntities(String, Value),
    /// Delete the entities of the given kind with the given ids.
    DeleteEntities(String, Vec<String>),
    /// Read the entities of the given kind with the given ids, or all of the
    /// kind where no id is given.
    QueryIds(String, Vec<String>),
    /// Read the entities of the given kind whose index row for the given
    /// property satisfies the given expression.
    QueryProperty(String, String, String),
    /// Send the request that the value holds to its signal handler.
    Signal(Value),
}

impl RxAction {
    pub fn new_update_action(kind: &str, entities: Value) -> (action: Self)
        ensures
            action matches RxAction::UpdateEntities(k, v) && k@ == kind@ && v == entities,
    {
        RxAction::UpdateEntities(owned(kind), entities)
    }

    pub fn new_delete_action(kind: &str, ids: Vec<String>) -> (action: Self)
        ensures
            action matches RxAction::DeleteEntities(k, i) && k@ == kind@ && i == ids,
    {
        RxAction::DeleteEntities(owned(kind), ids)
    }

    pub fn new_query_ids(kind: &str, ids: Vec<String>) -> (action: Self)
        ensures
            action matches RxAction::QueryIds(k, i) && k@ == kind@ && i == ids,
    {
        RxAction::QueryIds(owned(kind), ids)
    }

    pub fn new_query_property(kind: &str, property_name: &str, expression: &str) -> (action: Self)
        ensures
            action matches RxAction::QueryProperty(k, p, e) && k@ == kind@ && p@ == property_name@
                && e@ == expression@,
    {
        RxAction::QueryProperty(owned(kind), owned(property_name), owned(expression))
    }

    pub fn new_signal(signal: Value) -> (action: Self)
        ensures
            action matches RxAction::Signal(v) && v == signal,
    {
        RxAction::Signal(signal)
    }
}

/// A named action with its payload.
#[derive(Debug)]
pub struct Action {
    pub action: String,
    pub payload: Value,
}

impl Action {
    pub fn new(action: &str, payload: Value) -> (named: Self)
        ensures
            named.action@ == action@,
            named.payload == payload,
    {
        Action { action: owned(action), payload }
    }
}

/// The answer to one request.
#[derive(Debug)]
pub enum RxResponse {
    Success(),
    QueryResponse(Value),
    SignalResponse(Value),
    Failure(String),
}

/// The message for a signal whose request matches no kind that the store
/// knows.
pub open spec fn unmatched_signal_message(kind: Seq<char>) -> Seq<char> {
    "Unable to match signal - Unknown kind "@ + kind
}

/// The answer to a write or a deletion, given how it went: `Success` where
/// it ran, `Failure` with the message where the database refused.
pub fn write_response(outcome: Result<(), String>) -> (response: RxResponse)
    ensures
        match outcome {
            Ok(_) => response matches RxResponse::Success(),
            Err(message) => response matches RxResponse::Failure(m) && m == message,
        },
{
    match outcome {
        Ok(_) => RxResponse::Success(),
        Err(message) => RxResponse::Failure(message),
    }
}

/// The answer to a read, given how it went: `QueryResponse` with the
/// entities as JSON where it ran, `Failure` with the message where the
/// database refused.
pub fn query_response(outcome: Result<Value, String>) -> (response: RxResponse)
    ensures
        match outcome {
            Ok(value) => response matches RxResponse::QueryResponse(v) && v == value,
            Err(message) => response matches RxResponse::Failure(m) && m == message,
        },
{
    match outcome {
        Ok(value) => RxResponse::QueryResponse(value),
        Err(message) => RxResponse::Failure(message),
    }
}

/// The answer to a query by property whose expression `expr` is no
/// predicate.
pub fn malformed_predicate(expr: &str) -> (response: RxResponse)
    ensures
        response matches RxResponse::Failure(m) && m@ == malformed_message(expr@),
{
    let mut message = owned("Malformed predicate: ");
    message.append(expr);
    RxResponse::Failure(message)
}

/// The answer to a signal whose request could not be matched to the kind
/// `kind`.
pub fn unmatched_signal(kind: &str) -> (response: RxResponse)
    ensures
        response matches RxResponse::Failure(m) && m@ == unmatched_signal_message(kind@),
{
    let mut message = owned("Unable to match signal - Unknown kind ");
    message.append(kind);
    RxResponse::Failure(message)
}

/// The answer to a signal of kind `kind` that came in as JSON. `outcome` is
/// `None` where the request could not be read as an entity of that kind,
/// else what the handler round trip gave: the answer as JSON, or the
/// message of its failure.
pub fn signal_action_response(kind: &str, outcome: Option<Result<Value, String>>) -> (response:
    RxResponse)
    ensures
        match outcome {
            Some(Ok(value)) => response matches RxResponse::SignalResponse(v) && v == value,
            Some(Err(message)) => response matches RxResponse::Failure(m) && m == message,
            None => response matches RxResponse::Failure(m) && m@ == unmatched_signal_message(
                kind@,
            ),
        },
{
    match outcome {
        Some(Ok(value)) => RxResponse::SignalResponse(value),
        Some(Err(message)) => RxResponse::Failure(message),
        None => unmatched_signal(kind),
    }
}

} // verus!
