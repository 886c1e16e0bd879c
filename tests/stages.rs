use user_service::endpoint::{finish, on_event, step, Event, Stage};
use user_service::error::RequestError;
use user_service::record::RawRow;

fn row(id: i32, email: &str, password: &str) -> RawRow {
    RawRow { id: Some(id), email: Some(email.to_string()), password: Some(password.to_string()) }
}

#[test]
fn stages_run_in_order_to_a_response() {
    let stage = on_event(Stage::Received, Event::Acquired);
    assert!(matches!(stage, Stage::ConnectionAcquired));
    let stage = on_event(stage, Event::QueryReturned(vec![row(5, "e@x.com", "h5")]));
    assert!(matches!(stage, Stage::QueryExecuted(_)));
    let stage = step(stage);
    match &stage {
        Stage::RowsMapped(records) => {
            assert_eq!(records.len(), 1);
            assert_eq!(records[0].id, 5);
        }
        _ => panic!("rows were not mapped"),
    }
    let stage = step(stage);
    match &stage {
        Stage::Serialized(text) => {
            assert_eq!(text, "[{\"id\":5,\"email\":\"e@x.com\",\"password\":\"h5\"}]")
        }
        _ => panic!("records were not serialized"),
    }
    let stage = step(stage);
    assert!(matches!(stage, Stage::ResponseReady(_)));
    let reply = finish(stage);
    assert_eq!(reply.status, 200);
    assert_eq!(reply.body, "[{\"id\":5,\"email\":\"e@x.com\",\"password\":\"h5\"}]");
}

#[test]
fn failure_is_terminal() {
    let stage = on_event(Stage::Received, Event::Failed(RequestError::PoolTimeout));
    assert!(matches!(stage, Stage::Failed(RequestError::PoolTimeout)));
    let stage = on_event(stage, Event::Acquired);
    assert!(matches!(stage, Stage::Failed(RequestError::PoolTimeout)));
    let stage = step(stage);
    assert!(matches!(stage, Stage::Failed(RequestError::PoolTimeout)));
    let reply = finish(stage);
    assert_eq!(reply.status, 503);
}

#[test]
fn query_failure_after_acquisition() {
    let stage = on_event(Stage::Received, Event::Acquired);
    let stage = on_event(stage, Event::Failed(RequestError::QueryError));
    assert!(matches!(stage, Stage::Failed(RequestError::QueryError)));
    assert_eq!(finish(stage).status, 500);
}

#[test]
fn event_out_of_order_is_ignored() {
    let stage = on_event(Stage::Received, Event::QueryReturned(Vec::new()));
    assert!(matches!(stage, Stage::Received));
    let stage = step(stage);
    assert!(matches!(stage, Stage::Received));
}

#[test]
fn incomplete_row_fails_the_mapping_step() {
    let bad = RawRow { id: Some(1), email: Some("a".to_string()), password: None };
    let stage = step(Stage::QueryExecuted(vec![bad]));
    assert!(matches!(stage, Stage::Failed(RequestError::RowMappingError)));
}
