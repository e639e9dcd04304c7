use parquet_query::api::{respond, Envelope, QueryRequest};
use parquet_query::block::{Column, ColumnData, DataBlock};
use parquet_query::config::AppConfig;
use parquet_query::pipeline::{step, Action, ErrorKind, Event, ExecutionError, Outcome, Request, Stage};
use parquet_query::value::Value;

fn failure_of(action: Action) -> ExecutionError {
    match action {
        Action::Respond(Outcome::Failure(e)) => e,
        other => panic!("expected a failure, got {:?}", other),
    }
}

#[test]
fn happy_path_runs_stages_in_order() {
    let (s, a) = step(Stage::Idle, Event::Start);
    assert_eq!(s, Stage::Registering);
    assert!(matches!(a, Action::Perform(Request::Register)));
    let (s, a) = step(s, Event::Registered);
    assert_eq!(s, Stage::Planning);
    assert!(matches!(a, Action::Perform(Request::Plan)));
    let (s, a) = step(s, Event::Planned);
    assert_eq!(s, Stage::Executing);
    assert!(matches!(a, Action::Perform(Request::Execute)));
    let block = DataBlock {
        fields: vec!["id".to_string()],
        columns: vec![Column { nulls: vec![false], data: ColumnData::Int32(vec![5]) }],
        num_rows: 1,
    };
    let (s, a) = step(s, Event::Collected(vec![block]));
    assert_eq!(s, Stage::Done);
    match a {
        Action::Respond(Outcome::Rows(rows)) => {
            assert_eq!(rows, vec![vec![("id".to_string(), Value::Int32(5))]]);
        }
        other => panic!("expected rows, got {:?}", other),
    }
}

#[test]
fn missing_file_is_a_registration_error() {
    let (s, a) = step(Stage::Registering, Event::RegistrationFailed("No such file".to_string()));
    assert_eq!(s, Stage::Failed);
    let err = failure_of(a);
    assert_eq!(err.kind, ErrorKind::SourceRegistration);
    assert_eq!(err.message(), "Failed registration: No such file");
    let (s2, a2) = step(s, Event::PlanFailed("late".to_string()));
    assert_eq!(s2, Stage::Failed);
    assert!(matches!(a2, Action::Wait));
}

#[test]
fn invalid_sql_is_a_plan_error_before_any_scan() {
    let (s, a) = step(Stage::Planning, Event::PlanFailed("syntax error".to_string()));
    assert_eq!(s, Stage::Failed);
    let err = failure_of(a);
    assert_eq!(err.kind, ErrorKind::QueryPlan);
    let (s2, a2) = step(s, Event::Planned);
    assert_eq!(s2, Stage::Failed);
    assert!(matches!(a2, Action::Wait));
}

#[test]
fn unknown_column_never_succeeds() {
    let (s, a) = step(Stage::Planning, Event::PlanFailed("column nonexistent not found".to_string()));
    assert_eq!(s, Stage::Failed);
    match respond(match a {
        Action::Respond(o) => o,
        other => panic!("expected an answer, got {:?}", other),
    }) {
        Envelope::Error(m) => assert_eq!(m, "Invalid SQL: column nonexistent not found"),
        Envelope::Result(_) => panic!("a failed query gave rows"),
    }
    let (s, a) = step(Stage::Executing, Event::ExecutionFailed("cast failed".to_string()));
    assert_eq!(s, Stage::Failed);
    let err = failure_of(a);
    assert_eq!(err.kind, ErrorKind::QueryExecution);
    assert_eq!(err.message(), "Execution error: cast failed");
    let (s2, a2) = step(s, Event::Collected(vec![]));
    assert_eq!(s2, Stage::Failed);
    assert!(matches!(a2, Action::Wait));
}

#[test]
fn out_of_order_events_are_ignored() {
    let (s, a) = step(Stage::Idle, Event::Planned);
    assert_eq!(s, Stage::Idle);
    assert!(matches!(a, Action::Wait));
    let (s, a) = step(Stage::Done, Event::Start);
    assert_eq!(s, Stage::Done);
    assert!(matches!(a, Action::Wait));
}

#[test]
fn error_labels_by_kind() {
    let e = |kind| ExecutionError { kind, detail: "m".to_string() };
    assert_eq!(e(ErrorKind::SourceRegistration).label(), "Failed registration");
    assert_eq!(e(ErrorKind::QueryPlan).label(), "Invalid SQL");
    assert_eq!(e(ErrorKind::QueryExecution).label(), "Execution error");
    assert_eq!(e(ErrorKind::QueryPlan).message(), "Invalid SQL: m");
}

#[test]
fn rows_pass_through_the_envelope() {
    let rows = vec![vec![("ok".to_string(), Value::Boolean(true))]];
    match respond(Outcome::Rows(rows.clone())) {
        Envelope::Result(r) => assert_eq!(r, rows),
        Envelope::Error(m) => panic!("unexpected error {}", m),
    }
}

#[test]
fn query_request_holds_its_sql() {
    let req = QueryRequest { sql: "SELECT 1".to_string() };
    assert_eq!(req.sql, "SELECT 1");
}

#[test]
fn config_defaults() {
    let c = AppConfig::from_env(None, None, None).unwrap();
    assert_eq!(c.port, 3000);
    assert_eq!(c.parquet_path, "data/ejemplo.parquet");
    assert_eq!(c.rust_log, "info");
}

#[test]
fn config_takes_given_values() {
    let c = AppConfig::from_env(Some("8080".to_string()), Some("t.parquet".to_string()), Some("debug".to_string()))
        .unwrap();
    assert_eq!(c.port, 8080);
    assert_eq!(c.parquet_path, "t.parquet");
    assert_eq!(c.rust_log, "debug");
    assert_eq!(AppConfig::from_env(Some("+65535".to_string()), None, None).unwrap().port, 65535);
    assert_eq!(AppConfig::from_env(Some("0".to_string()), None, None).unwrap().port, 0);
}

#[test]
fn config_rejects_bad_ports() {
    for bad in ["", "+", "-1", "65536", "abc", "12a", " 80"] {
        assert!(AppConfig::from_env(Some(bad.to_string()), None, None).is_none(), "{}", bad);
    }
}
