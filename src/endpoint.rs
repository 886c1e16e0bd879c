use vstd::prelude::*;

use crate::error::{error_status, error_text, RequestError};
use crate::record::{
    map_rows, records_json, records_view, rows_records, rows_view, to_json, RawRow, RawRowView,
    UserRecord,
};

verus! {

/// The status and body of an HTTP response.
pub struct Reply {
    pub status: u16,
    pub body: String,
}

/// The status that answers a request whose records were written out.
pub const STATUS_OK: u16 = 200;

/// The response body for rows that the query returned: the JSON array of their
/// records, or the error that stopped it.
pub open spec fn rows_body(rows: Seq<RawRowView>) -> Result<Seq<char>, RequestError> {
    match rows_records(rows) {
        None => Err(RequestError::RowMappingError),
        Some(records) => match records_json(records) {
            None => Err(RequestError::SerializationError),
            Some(text) => Ok(text),
        },
    }
}

/// The status and body that answer a request, given what the query gave.
pub open spec fn reply_for(outcome: Result<Seq<RawRowView>, RequestError>) -> (u16, Seq<char>) {
    let body = match outcome {
        Err(e) => Err(e),
        Ok(rows) => rows_body(rows),
    };
    match body {
        Ok(text) => (STATUS_OK, text),
        Err(e) => (error_status(e), error_text(e)),
    }
}

pub open spec fn outcome_view(outcome: Result<Vec<RawRow>, RequestError>) -> Result<
    Seq<RawRowView>,
    RequestError,
> {
    match outcome {
        Ok(rows) => Ok(rows_view(rows@)),
        Err(e) => Err(e),
    }
}

/// Where one request stands while it is served.
pub enum Stage {
    Received,
    ConnectionAcquired,
    QueryExecuted(Vec<RawRow>),
    RowsMapped(Vec<UserRecord>),
    Serialized(String),
    ResponseReady(Reply),
    Failed(RequestError),
}

/// What the outside work of a request reports.
pub enum Event {
    /// The pool handed out a connection.
    Acquired,
    /// The query on that connection returned these rows.
    QueryReturned(Vec<RawRow>),
    /// The work failed.
    Failed(RequestError),
}

pub open spec fn is_terminal(stage: Stage) -> bool {
    stage is ResponseReady || stage is Failed
}

/// The stage that an event leads to. A terminal stage stays as it is, and so
/// does a stage that the event does not apply to.
pub open spec fn after_event(stage: Stage, event: Event) -> Stage {
    if is_terminal(stage) {
        stage
    } else {
        match (stage, event) {
            (_, Event::Failed(e)) => Stage::Failed(e),
            (Stage::Received, Event::Acquired) => Stage::ConnectionAcquired,
            (Stage::ConnectionAcquired, Event::QueryReturned(rows)) => Stage::QueryExecuted(rows),
            _ => stage,
        }
    }
}

/// Applies an event to a stage.
pub fn on_event(stage: Stage, event: Event) -> (r: Stage)
    ensures
        r == after_event(stage, event),
{
    match stage {
        Stage::ResponseReady(_) | Stage::Failed(_) => stage,
        _ => match event {
            Event::Failed(e) => Stage::Failed(e),
            Event::Acquired => match stage {
                Stage::Received => Stage::ConnectionAcquired,
                _ => stage,
            },
            Event::QueryReturned(rows) => match stage {
                Stage::ConnectionAcquired => Stage::QueryExecuted(rows),
                _ => stage,
            },
        },
    }
}

/// Takes the step that needs no outside work: rows to records, records to
/// JSON text, text to a response. Any other stage stays as it is.
pub fn step(stage: Stage) -> (r: Stage)
    ensures
        match stage {
            Stage::QueryExecuted(rows) => match rows_records(rows_view(rows@)) {
                Some(records) => r matches Stage::RowsMapped(v) && records_view(v@) == records,
                None => r == Stage::Failed(RequestError::RowMappingError),
            },
            Stage::RowsMapped(v) => match records_json(records_view(v@)) {
                Some(text) => r matches Stage::Serialized(t) && t@ == text,
                None => r == Stage::Failed(RequestError::SerializationError),
            },
            Stage::Serialized(t) => r == Stage::ResponseReady(Reply { status: STATUS_OK, body: t }),
            _ => r == stage,
        },
{
    match stage {
        Stage::QueryExecuted(rows) => match map_rows(&rows) {
            Ok(records) => Stage::RowsMapped(records),
            Err(e) => Stage::Failed(e),
        },
        Stage::RowsMapped(records) => match to_json(&records) {
            Ok(text) => Stage::Serialized(text),
            Err(e) => Stage::Failed(e),
        },
        Stage::Serialized(text) => Stage::ResponseReady(Reply { status: STATUS_OK, body: text }),
        _ => stage,
    }
}

/// The response that a finished request is answered with: the ready response,
/// or the status and description of the failure.
pub fn finish(stage: Stage) -> (r: Reply)
    requires
        is_terminal(stage),
    ensures
        match stage {
            Stage::ResponseReady(reply) => r == reply,
            Stage::Failed(e) => r.status == error_status(e) && r.body@ == error_text(e),
            _ => false,
        },
{
    match stage {
        Stage::ResponseReady(reply) => reply,
        Stage::Failed(e) => Reply { status: e.status(), body: e.describe() },
        _ => Reply { status: STATUS_OK, body: String::new() },
    }
}

/// Builds the response to a request from the outcome of its query, by running
/// the request through its stages: 200 with the JSON array of records, or the
/// status and description of the first failure.
pub fn respond(outcome: Result<Vec<RawRow>, RequestError>) -> (r: Reply)
    ensures
        (r.status, r.body@) == reply_for(outcome_view(outcome)),
{
    let mut stage = Stage::Received;
    match outcome {
        Err(e) => {
            stage = on_event(stage, Event::Failed(e));
        },
        Ok(rows) => {
            stage = on_event(stage, Event::Acquired);
            stage = on_event(stage, Event::QueryReturned(rows));
            stage = step(stage);
            stage = step(stage);
            stage = step(stage);
        },
    }
    finish(stage)
}

} // verus!
