use chrono::Utc;
use evented_worker::activities::{echo, fixed_output};
use evented_worker::api::activities::{
    Activity, ActivityCore, ActivityEvent, AsyncActivity, CompletedActivity, RanActivity,
    SyncActivity, SyncCompleted, SyncNew,
};
use evented_worker::api::events::{Event, EventStream, SystemErrorData, SystemEvent};
use evented_worker::api::execution::{
    DefaultExecutionState, ExecutionState, ExecutionStateError, ExecutionStatus,
};
use evented_worker::api::{EventStore, Facade};
use evented_worker::clock::Timestamp;
use evented_worker::runner::{
    append_activity_state, apply_policy, get_execution_status, process, process_result, reduce,
    resolve_prior_output, restore, scheduler, update, update_graph, Controller, Registry,
};
use evented_worker::InMemoryEventStore;
use serde_json::Value;

fn text(s: &str) -> Value {
    Value::String(s.to_string())
}

fn message(s: &str) -> Value {
    serde_json::from_str(&format!("{{\"message\": \"{}\"}}", s)).unwrap()
}

fn sync_core(id: &str) -> ActivityCore {
    ActivityCore {
        id: id.to_string(),
        kind: "alpha".to_string(),
        config: None,
        depends_on: None,
        attempt: 0,
        failure_count: 0,
        error_count: 0,
    }
}

fn make_ready_activity(id: &str, kind: &str) -> Activity {
    let mut core = sync_core(id);
    core.kind = kind.to_string();
    Activity::from(SyncActivity::from(SyncNew::new(core).make_ready(None)))
}

fn make_new_activity_with_deps(id: &str, kind: &str, depends_on: Vec<String>) -> Activity {
    let mut core = sync_core(id);
    core.kind = kind.to_string();
    core.depends_on = Some(depends_on);
    Activity::from(SyncActivity::from(SyncNew::new(core)))
}

/// Runs the modules of the built-in activities, and one that always errors.
fn run_module(kind: &&'static str, config: &Value, input: &Value) -> Result<Value, Vec<String>> {
    match *kind {
        "echo" => echo::execute(config, input),
        "fixed_output" => fixed_output::execute(config, input),
        _ => Err(vec!["error".to_string(), "again".to_string()]),
    }
}

fn test_registry() -> Registry<&'static str> {
    let mut registry = Registry::new();
    registry.register_module("echo", "echo").unwrap();
    registry.register_module("fixed_output", "fixed_output").unwrap();
    registry.register_module("error", "error").unwrap();
    registry
}

// ── activity modules ──

#[test]
fn passes_input_through_to_output() {
    let input = message("hello");
    let output = echo::execute(&Value::Null, &input);
    assert_eq!(output.unwrap(), input);
}

#[test]
fn null_input_returns_null() {
    let output = echo::execute(&Value::Null, &Value::Null);
    assert_eq!(output.unwrap(), Value::Null);
}

#[test]
fn returns_config_as_output() {
    let config = message("hello");
    let output = fixed_output::execute(&config, &Value::Null);
    assert_eq!(output.unwrap(), config);
}

#[test]
fn null_config_returns_null() {
    let output = fixed_output::execute(&Value::Null, &Value::Null);
    assert_eq!(output.unwrap(), Value::Null);
}

// ── events ──

#[test]
fn test_add_sync() {
    let event = Event::add_sync("1", "echo", None, None);
    assert_eq!(event, Event::add_sync("1", "echo", None, None));
}

#[test]
fn test_add_async() {
    let event = Event::add_async("1", "echo", None);
    assert_eq!(event, Event::add_async("1", "echo", None));
}

#[test]
fn event_constructors_carry_their_activity_id() {
    let events = vec![
        ActivityEvent::add_sync("a", "echo", None, None),
        ActivityEvent::add_async("b", "echo", None),
        ActivityEvent::start("c"),
        ActivityEvent::complete("d", Some(text("x"))),
        ActivityEvent::failed("e", Some("why".to_string())),
        ActivityEvent::error("f", None),
        ActivityEvent::retry("g"),
    ];
    let ids: Vec<String> = events.iter().map(|e| e.activity_id().clone()).collect();
    assert_eq!(ids, vec!["a", "b", "c", "d", "e", "f", "g"]);
    assert_eq!(Event::from(ActivityEvent::start("c")), Event::start("c"));
}

// ── execution state ──

#[test]
fn activity_dependents() {
    let empty_execution_state = DefaultExecutionState::new(None);
    assert!(empty_execution_state.activity_dependents("1".to_string()).is_empty());
}

#[test]
fn test_execution_status() {
    let execution_state = DefaultExecutionState::new(None);
    assert_eq!(execution_state.status(), ExecutionStatus::New);
}

#[test]
fn later_activity_with_same_id_takes_its_place() {
    let state = DefaultExecutionState::new(Some(vec![
        make_ready_activity("1", "alpha"),
        make_ready_activity("2", "beta"),
        make_ready_activity("1", "gamma"),
    ]));
    assert_eq!(state.activity_count(), 2);
    assert_eq!(state.get_activity_state("1").unwrap().kind(), "gamma");
    assert_eq!(state.activities()[0].id(), "1");
    assert_eq!(state.max_retries(), 3);
}

#[test]
fn append_activity_state_with_duplicate_id_error() {
    let execution_state = DefaultExecutionState::new(Some(vec![make_ready_activity("1", "alpha")]));

    let result = append_activity_state(execution_state, make_ready_activity("1", "beta"));
    assert!(result.is_err());
}

#[test]
fn append_activity_state_with_dependents() {
    let execution_state = DefaultExecutionState::new(Some(vec![make_ready_activity("1", "alpha")]));
    let activity = make_new_activity_with_deps("2", "beta", vec!["1".into()]);
    let result = append_activity_state(execution_state, activity);
    assert!(result.is_ok());
}

#[test]
fn self_referential_dependency_error() {
    let execution_state = DefaultExecutionState::new(None);
    let activity = make_new_activity_with_deps("1", "alpha", vec!["1".into()]);
    let result = append_activity_state(execution_state, activity);
    assert!(matches!(result, Err(ExecutionStateError::SelfReferentialDependency)));
}

#[test]
fn updating_finished_activity_error() {
    let completed = SyncCompleted {
        core: sync_core("1"),
        completed: CompletedActivity {
            ran: RanActivity {
                started_at: Timestamp { secs: Utc::now().timestamp(), nanos: 0 },
                input: None,
            },
            output: None,
        },
    };
    let execution_state =
        DefaultExecutionState::new(Some(vec![Activity::from(SyncActivity::from(completed))]));

    let ready = SyncNew::new(sync_core("1")).make_ready(None);
    let result = update(execution_state, Activity::from(SyncActivity::from(ready)));
    assert!(result.is_err());
}

#[test]
fn update_errors_name_their_cause() {
    let empty = DefaultExecutionState::new(None);
    let result = update(empty, make_ready_activity("1", "alpha"));
    assert!(matches!(result, Err(ExecutionStateError::InvalidActivityTransition)));

    let state = DefaultExecutionState::new(Some(vec![make_ready_activity("1", "alpha")]));
    let result = update(state, make_ready_activity("2", "alpha"));
    assert!(matches!(result, Err(ExecutionStateError::InvalidActivityTransition)));

    let state = DefaultExecutionState::new(Some(vec![make_ready_activity("1", "alpha")]));
    let result = update(state, make_new_activity_with_deps("1", "alpha", vec![]));
    assert!(result.is_ok());
    assert!(matches!(
        result.unwrap().get_activity_state("1"),
        Some(Activity::Sync(SyncActivity::New(_)))
    ));
    assert_eq!(
        ExecutionStateError::TransitionOnClosedExecutionState.message(),
        "Attempt to transition on closed execution state"
    );
}

// ── restore ──

#[test]
fn test_adding_a_single_activity() {
    let event_stream = vec![Event::add_sync("1", "alpha", None, None)];
    let execution_state = restore(&event_stream);
    assert_eq!(execution_state.activity_count(), 1);
    assert!(execution_state.get_activity_state("1").is_some());
}

#[test]
fn test_adding_multiple_activities() {
    let event_stream = vec![
        Event::add_sync("1", "alpha", None, None),
        Event::add_sync("2", "beta", None, None),
        Event::add_sync("3", "gamma", None, None),
    ];
    let execution_state = restore(&event_stream);
    assert_eq!(execution_state.activity_count(), 3);
}

#[test]
fn single_activity_progression() {
    let event_stream = vec![
        Event::add_sync("1", "alpha", None, None),
        Event::start("1"),
        Event::complete("1", None),
    ];
    let execution_state = restore(&event_stream);
    assert_eq!(execution_state.activity_count(), 1);
    assert!(matches!(
        execution_state.get_activity_state("1"),
        Some(Activity::Sync(SyncActivity::Completed(_)))
    ));
}

#[test]
fn two_activity_progression() {
    let event_stream = vec![
        Event::add_sync("1", "alpha", None, None),
        Event::start("1"),
        Event::complete("1", None),
        Event::add_sync("2", "beta", None, None),
        Event::start("2"),
        Event::complete("2", None),
    ];
    let execution_state = restore(&event_stream);
    assert_eq!(execution_state.activity_count(), 2);
    assert!(matches!(
        execution_state.get_activity_state("1"),
        Some(Activity::Sync(SyncActivity::Completed(_)))
    ));
    assert!(matches!(
        execution_state.get_activity_state("2"),
        Some(Activity::Sync(SyncActivity::Completed(_)))
    ));
}

#[test]
fn three_activity_failure() {
    let event_stream = vec![
        Event::add_sync("1", "alpha", None, None),
        Event::start("1"),
        Event::complete("1", None),
        Event::add_sync("2", "beta", None, Some(vec!["1".into()])),
        Event::start("2"),
        Event::complete("2", None),
        Event::add_sync("3", "gamma", None, Some(vec!["1".into(), "2".into()])),
        Event::start("3"),
        Event::failed("3", Some("something went wrong".into())),
    ];
    let execution_state = restore(&event_stream);
    assert_eq!(execution_state.activity_count(), 3);
    assert!(matches!(
        execution_state.get_activity_state("1"),
        Some(Activity::Sync(SyncActivity::Completed(_)))
    ));
    assert!(matches!(
        execution_state.get_activity_state("2"),
        Some(Activity::Sync(SyncActivity::Completed(_)))
    ));
    assert!(matches!(
        execution_state.get_activity_state("3"),
        Some(Activity::Sync(SyncActivity::Failed(_)))
    ));

    assert_eq!(execution_state.status(), ExecutionStatus::Failed);
}

#[test]
fn async_activity_start_running() {
    let event_stream = vec![Event::add_async("1", "fetch", None), Event::start("1")];
    let execution_state = restore(&event_stream);
    assert_eq!(execution_state.activity_count(), 1);
    assert!(matches!(
        execution_state.get_activity_state("1"),
        Some(Activity::Async(AsyncActivity::Running(_)))
    ));
}

#[test]
fn dependencies_wait_until_completed() {
    let mut log = vec![
        Event::add_sync("1", "alpha", None, None),
        Event::add_sync("2", "beta", None, Some(vec!["1".into()])),
    ];
    let state = restore(&log);
    assert!(matches!(
        state.get_activity_state("2"),
        Some(Activity::Sync(SyncActivity::UnfulfilledDependencies(_)))
    ));
    assert_eq!(scheduler(&state), Some("1".to_string()));
    log.push(Event::start("1"));
    log.push(Event::complete("1", Some(text("out"))));
    let state = restore(&log);
    assert!(matches!(state.get_activity_state("2"), Some(Activity::Sync(SyncActivity::Ready(_)))));
    assert_eq!(scheduler(&state), Some("2".to_string()));
    assert_eq!(resolve_prior_output(&state, "2"), Some(text("out")));
    assert_eq!(resolve_prior_output(&state, "1"), None);
    assert_eq!(resolve_prior_output(&state, "missing"), None);
}

#[test]
fn dependency_graph_follows_the_activities() {
    let log = vec![
        Event::add_sync("1", "alpha", None, None),
        Event::add_sync("2", "beta", None, Some(vec!["1".into(), "missing".into()])),
        Event::add_sync("3", "gamma", None, Some(vec!["1".into(), "2".into()])),
    ];
    let state = restore(&log);
    let graph = state.execution_graph();
    assert_eq!(graph.node_count(), 3);
    assert_eq!(graph.edge_count(), 3);
    let weights: Vec<String> = graph.node_weights().cloned().collect();
    assert_eq!(weights, vec!["1", "2", "3"]);
    let edges: Vec<(usize, usize)> = graph
        .raw_edges()
        .iter()
        .map(|e| (e.source().index(), e.target().index()))
        .collect();
    assert_eq!(edges, vec![(0, 1), (0, 2), (1, 2)]);
}

#[test]
fn replaying_in_two_parts_gives_the_same_state() {
    let log = vec![
        Event::add_sync("1", "alpha", None, None),
        Event::start("1"),
        Event::complete("1", Some(text("a"))),
        Event::add_async("2", "beta", None),
    ];
    let whole = restore(&log);
    let first = restore(&log[..2].to_vec());
    let mut rest = first;
    for e in &log[2..] {
        rest = reduce(rest, e);
    }
    assert_eq!(whole.activity_count(), rest.activity_count());
    assert_eq!(whole.status(), rest.status());
    assert!(matches!(rest.get_activity_state("1"), Some(Activity::Sync(SyncActivity::Completed(_)))));
    assert!(matches!(rest.get_activity_state("2"), Some(Activity::Async(AsyncActivity::Ready(_)))));
}

#[test]
fn system_and_retry_events_change_nothing() {
    let log = vec![
        Event::add_sync("1", "alpha", None, None),
        Event::System(SystemEvent::NoProvider("alpha".to_string())),
        Event::Activity(ActivityEvent::retry("1")),
    ];
    let state = restore(&log);
    assert_eq!(state.activity_count(), 1);
    assert!(matches!(state.get_activity_state("1"), Some(Activity::Sync(SyncActivity::Ready(_)))));
    assert!(state.get_activity_state("1").unwrap().input().is_none());
}

#[test]
fn statuses_follow_the_activities() {
    let mut log = vec![Event::add_sync("1", "a", None, None), Event::add_sync("2", "b", None, None)];
    assert_eq!(get_execution_status(&restore(&log)), ExecutionStatus::Running);
    log.push(Event::start("1"));
    log.push(Event::error("1", Some("boom".to_string())));
    let state = restore(&log);
    assert_eq!(state.status(), ExecutionStatus::Error);
    assert!(state.is_stopped());
}

// ── policy ──

#[test]
fn retry_only_failed_or_errored_activities() {
    let log = vec![
        Event::add_sync("1", "alpha", None, None),
        Event::start("1"),
        Event::failed("1", None),
        Event::add_sync("2", "beta", None, None),
    ];
    let state = restore(&log);
    assert_eq!(apply_policy(&state, "1"), Some(ActivityEvent::retry("1")));
    assert_eq!(apply_policy(&state, "2"), None);
    assert_eq!(apply_policy(&state, "3"), None);
}

// ── processor ──

#[test]
fn processor_test_executor() {
    let registry = test_registry();
    let state = restore(&vec![Event::add_sync("1", "echo", Some(text("cfg")), None)]);
    let result = process(&state, &registry, &ActivityEvent::complete("1", None), &run_module);
    assert_eq!(
        result,
        Event::System(SystemEvent::Error(SystemErrorData {
            activity_id: "1".to_string(),
            source: "processor::process".to_string(),
            errors: vec!["Invalid event sent to processor".to_string()],
        }))
    );
}

#[test]
fn process_runs_the_registered_module() {
    let registry = test_registry();
    let log = vec![
        Event::add_sync("1", "fixed_output", Some(text("DATA")), None),
        Event::add_sync("2", "echo", None, None),
        Event::add_sync("3", "error", None, None),
        Event::add_sync("4", "unknown", None, None),
    ];
    let state = restore(&log);
    let start = |id: &str| process(&state, &registry, &ActivityEvent::start(id), &run_module);
    assert_eq!(start("1"), Event::complete("1", Some(text("DATA"))));
    assert_eq!(start("2"), Event::complete("2", Some(Value::Null)));
    assert_eq!(start("3"), Event::error("3", Some("error,again".to_string())));
    assert_eq!(start("4"), Event::error("4", Some("Could not find activity module".to_string())));
}

#[test]
fn process_result_joins_errors_with_commas() {
    assert_eq!(
        process_result("9", Err(vec!["a".to_string(), "b".to_string(), "c".to_string()])),
        Event::error("9", Some("a,b,c".to_string()))
    );
    assert_eq!(process_result("9", Err(vec![])), Event::error("9", Some(String::new())));
    assert_eq!(process_result("9", Ok(text("v"))), Event::complete("9", Some(text("v"))));
}

// ── registry ──

#[test]
fn registry_refuses_a_second_module_with_one_id() {
    let mut registry: Registry<u8> = Registry::new();
    assert_eq!(registry.register_module("echo", 1), Ok(()));
    assert_eq!(
        registry.register_module("echo", 2),
        Err("Module with id echo already exists".to_string())
    );
    assert_eq!(registry.get_module("echo"), Some(&1));
    assert_eq!(registry.get_module("shell"), None);
}

// ── controller ──

#[test]
fn test_controller_start() {
    let event_log = vec![Event::add_sync("1", "echo", Some(message("hello")), None)];
    let mut controller: Controller<&'static str> = Controller::new(Registry::new(), event_log);
    controller.start(&run_module);
}

#[test]
fn controller_chains_activities_and_records_every_event() {
    let event_log = vec![
        Event::add_sync("0", "fixed_output", Some(text("DATA")), None),
        Event::add_sync("1", "echo", None, Some(vec!["0".into()])),
        Event::add_sync("2", "echo", None, Some(vec!["1".into()])),
    ];
    let mut controller = Controller::new(test_registry(), event_log);
    let state = controller.start(&run_module);
    assert_eq!(state.status(), ExecutionStatus::Finished);
    assert_eq!(controller.event_log().len(), 9);
    assert_eq!(controller.event_log()[3], Event::start("0"));
    assert_eq!(controller.event_log()[4], Event::complete("0", Some(text("DATA"))));
    assert_eq!(controller.event_log()[5], Event::start("1"));
    assert_eq!(controller.event_log()[6], Event::complete("1", Some(text("DATA"))));
    assert_eq!(controller.event_log()[8], Event::complete("2", Some(text("DATA"))));
    let restored = restore(controller.event_log());
    assert_eq!(restored.status(), ExecutionStatus::Finished);
    assert_eq!(restored.activity_count(), 3);
    let again = controller.start(&run_module);
    assert_eq!(again.status(), ExecutionStatus::Finished);
    assert_eq!(controller.event_log().len(), 9);
}

#[test]
fn chained_activities_receive_the_prior_output() {
    let event_log = vec![
        Event::add_sync("0", "fixed_output", Some(text("DATA")), None),
        Event::add_sync("1", "echo", None, None),
        Event::add_sync("2", "echo", None, None),
    ];
    let mut controller = Controller::new(test_registry(), event_log);
    let state = controller.start(&run_module);
    assert_eq!(state.status(), ExecutionStatus::Finished);
    assert_eq!(controller.event_log()[4], Event::complete("0", Some(text("DATA"))));
    assert_eq!(controller.event_log()[6], Event::complete("1", Some(text("DATA"))));
    assert_eq!(controller.event_log()[8], Event::complete("2", Some(text("DATA"))));
    assert_eq!(resolve_prior_output(&state, "2"), Some(text("DATA")));
}

#[test]
fn an_activity_becomes_ready_with_the_prior_output() {
    let log = vec![
        Event::add_sync("0", "alpha", None, None),
        Event::add_sync("1", "beta", None, None),
        Event::add_async("2", "fetch", None),
        Event::start("0"),
        Event::complete("0", Some(text("out0"))),
    ];
    let state = restore(&log);
    match state.get_activity_state("1") {
        Some(Activity::Sync(SyncActivity::Ready(r))) => assert_eq!(r.input, Some(text("out0"))),
        _ => panic!("activity 1 is not ready"),
    }
    let mut log = log;
    log.push(Event::start("1"));
    log.push(Event::complete("1", Some(text("out1"))));
    log.push(Event::start("2"));
    let state = restore(&log);
    match state.get_activity_state("2") {
        Some(Activity::Async(AsyncActivity::Running(r))) => assert_eq!(r.ran.input, Some(text("out1"))),
        _ => panic!("activity 2 is not running"),
    }
}

#[test]
fn rebuilding_twice_changes_nothing_more() {
    let log = vec![
        Event::add_sync("0", "alpha", None, None),
        Event::add_sync("1", "beta", None, Some(vec!["0".into()])),
        Event::add_sync("2", "gamma", None, None),
        Event::start("0"),
        Event::complete("0", Some(text("out0"))),
    ];
    let once = update_graph(restore(&log));
    let ids = ["0", "1", "2"];
    let before: Vec<String> =
        ids.iter().map(|id| format!("{:?}", once.get_activity_state(id))).collect();
    let edges = once.execution_graph().edge_count();
    assert_eq!(edges, 1);
    let twice = update_graph(once);
    let after: Vec<String> =
        ids.iter().map(|id| format!("{:?}", twice.get_activity_state(id))).collect();
    assert_eq!(before, after);
    assert_eq!(twice.activity_count(), 3);
    assert_eq!(twice.execution_graph().edge_count(), edges);
    assert_eq!(twice.execution_graph().node_count(), 3);
}

#[test]
fn controller_stops_after_an_error() {
    let event_log = vec![
        Event::add_sync("0", "error", None, None),
        Event::add_sync("1", "echo", None, None),
    ];
    let mut controller = Controller::new(test_registry(), event_log);
    let state = controller.start(&run_module);
    assert_eq!(state.status(), ExecutionStatus::Error);
    assert!(matches!(state.get_activity_state("1"), Some(Activity::Sync(SyncActivity::Ready(_)))));
    assert_eq!(controller.event_log().len(), 4);
    assert_eq!(controller.event_log()[3], Event::error("0", Some("error,again".to_string())));
}

#[test]
fn started_activities_record_a_start_time() {
    let log = vec![Event::add_sync("1", "alpha", None, None), Event::start("1")];
    let state = restore(&log);
    match state.get_activity_state("1") {
        Some(Activity::Sync(SyncActivity::Running(r))) => assert!(r.ran.started_at.secs > 0),
        _ => panic!("activity 1 is not running"),
    }
}

#[test]
fn failing_and_erroring_keep_the_start_time() {
    let log = vec![
        Event::add_sync("1", "alpha", None, None),
        Event::add_async("2", "fetch", None),
        Event::start("1"),
        Event::start("2"),
    ];
    let state = restore(&log);
    let started_1 = match state.get_activity_state("1") {
        Some(Activity::Sync(SyncActivity::Running(r))) => r.ran.started_at,
        _ => panic!("activity 1 is not running"),
    };
    let started_2 = match state.get_activity_state("2") {
        Some(Activity::Async(AsyncActivity::Running(r))) => r.ran.started_at,
        _ => panic!("activity 2 is not running"),
    };
    let state = reduce(state, &Event::error("2", Some("broken".to_string())));
    match state.get_activity_state("2") {
        Some(Activity::Async(AsyncActivity::Error(f))) => {
            assert_eq!(f.failed.ran.started_at, started_2)
        }
        _ => panic!("activity 2 is not in error"),
    }
    match state.get_activity_state("1") {
        Some(Activity::Sync(SyncActivity::Running(r))) => assert_eq!(r.ran.started_at, started_1),
        _ => panic!("activity 1 is not running"),
    }
}

#[test]
fn controller_records_missing_module_errors() {
    let event_log = vec![Event::add_sync("1", "nowhere", None, None)];
    let mut controller = Controller::new(test_registry(), event_log);
    let state = controller.start(&run_module);
    assert_eq!(state.status(), ExecutionStatus::Error);
    assert_eq!(controller.event_log().len(), 3);
    assert_eq!(controller.event_log()[1], Event::start("1"));
    assert_eq!(
        controller.event_log()[2],
        Event::error("1", Some("Could not find activity module".to_string()))
    );
}

// ── event store ──

#[test]
fn in_memory_store_gives_back_what_was_persisted() {
    let mut store = InMemoryEventStore::new();
    assert!(store.get_events().is_empty());
    assert_eq!(store.persist(Event::add_sync("1", "echo", None, Some(vec!["0".into()]))), Ok(()));
    assert_eq!(store.persist(Event::start("1")), Ok(()));
    let events: EventStream = store.get_events();
    assert_eq!(events, vec![Event::add_sync("1", "echo", None, Some(vec!["0".into()])), Event::start("1")]);
    let from = InMemoryEventStore::from_events(events.clone());
    assert_eq!(from.get_events(), events);
}

// ── facade ──

#[test]
fn it_works() {
    let _facade = Facade::new();
}
