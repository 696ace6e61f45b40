use auto_gippity::agent_backend::{filter_probe_safe_routes, AgentBackendDeveloper, CodeRewrite};
use auto_gippity::basic_agent::AgentState;
use auto_gippity::errors::AgentError;
use auto_gippity::factsheet::{FactSheet, RouteObject};
use auto_gippity::probe::ProbeAction;

fn route(path: &str, method: &str) -> RouteObject {
    RouteObject::new(path.to_string(), method.to_string(), None, None)
}

/// Drive a fresh stage to the point where a build outcome is awaited.
fn stage_awaiting_build(factsheet: &mut FactSheet) -> AgentBackendDeveloper {
    let mut agent = AgentBackendDeveloper::new();
    agent.apply_initial_code(factsheet, "initial code".to_string());
    assert_eq!(
        agent.get_attributes_from_agent().get_state(),
        &AgentState::Working
    );
    agent.apply_rewritten_code(factsheet, "improved code".to_string());
    assert_eq!(
        agent.get_attributes_from_agent().get_state(),
        &AgentState::UnitTesting
    );
    agent.apply_safety_confirmation(true).unwrap();
    agent
}

#[test]
fn test_work_kind_follows_bug_count() {
    let mut factsheet = FactSheet::new("a todo app".to_string());
    let mut agent = AgentBackendDeveloper::new();
    agent.apply_initial_code(&mut factsheet, "initial code".to_string());
    assert_eq!(agent.work_kind(), CodeRewrite::Improve);
    agent.apply_rewritten_code(&mut factsheet, "improved code".to_string());
    agent.apply_safety_confirmation(true).unwrap();
    agent.apply_build_failure("mismatched types".to_string()).unwrap();
    assert_eq!(agent.work_kind(), CodeRewrite::Fix);
}

#[test]
fn test_declined_confirmation_aborts() {
    let mut factsheet = FactSheet::new("a todo app".to_string());
    let mut agent = AgentBackendDeveloper::new();
    agent.apply_initial_code(&mut factsheet, "initial code".to_string());
    agent.apply_rewritten_code(&mut factsheet, "improved code".to_string());
    let r = agent.apply_safety_confirmation(false);
    assert_eq!(r.unwrap_err(), AgentError::OperatorAbort);
}

#[test]
fn test_bug_count_resets_after_successful_build() {
    let mut factsheet = FactSheet::new("a todo app".to_string());
    let mut agent = stage_awaiting_build(&mut factsheet);
    agent.apply_build_failure("expected semicolon".to_string()).unwrap();
    assert_eq!(agent.bug_count, 1);
    agent.apply_rewritten_code(&mut factsheet, "fixed code".to_string());
    agent.apply_safety_confirmation(true).unwrap();
    agent.apply_build_success();
    assert_eq!(agent.bug_count, 0);
}

#[test]
fn test_three_consecutive_build_failures_are_fatal() {
    let mut factsheet = FactSheet::new("a todo app".to_string());
    let mut agent = stage_awaiting_build(&mut factsheet);

    agent.apply_build_failure("error one".to_string()).unwrap();
    assert_eq!(agent.bug_count, 1);
    assert_eq!(
        agent.get_attributes_from_agent().get_state(),
        &AgentState::Working
    );

    agent.apply_rewritten_code(&mut factsheet, "first fix".to_string());
    agent.apply_safety_confirmation(true).unwrap();
    agent.apply_build_failure("error two".to_string()).unwrap();
    assert_eq!(agent.bug_count, 2);

    agent.apply_rewritten_code(&mut factsheet, "second fix".to_string());
    agent.apply_safety_confirmation(true).unwrap();
    let r = agent.apply_build_failure("error three".to_string());
    assert_eq!(r.unwrap_err(), AgentError::BuildError);
    assert_eq!(agent.bug_count, 3);
    assert!(agent.aborted);
    // The run process is never spawned: no probe session exists on this path.
    assert!(factsheet.api_endpoint_schema.is_none());
    assert_eq!(agent.bug_errors.as_deref(), Some("error three"));
}

#[test]
fn test_schema_filter_keeps_only_static_get() {
    let routes = vec![
        route("/status", "GET"),
        route("/item/{id}", "DELETE"),
        route("/item/{id}", "GET"),
        route("/signup", "POST"),
        route("/crypto", "GET"),
    ];
    let kept = filter_probe_safe_routes(&routes);
    assert_eq!(kept.len(), 2);
    assert_eq!(kept[0].route, "/status");
    assert_eq!(kept[1].route, "/crypto");
    assert!(kept.iter().all(|r| r.method == "GET" && !r.is_dynamic));
}

#[test]
fn test_schema_filter_is_idempotent() {
    let routes = vec![
        route("/status", "GET"),
        route("/item/{id}", "DELETE"),
        route("/crypto", "GET"),
    ];
    let once = filter_probe_safe_routes(&routes);
    let twice = filter_probe_safe_routes(&once);
    assert_eq!(once.len(), twice.len());
    for (a, b) in once.iter().zip(twice.iter()) {
        assert_eq!(a.route, b.route);
        assert_eq!(a.method, b.method);
        assert_eq!(a.is_dynamic, b.is_dynamic);
    }
}

#[test]
fn test_successful_round_probes_only_retained_route() {
    let mut factsheet = FactSheet::new("a status service".to_string());
    let mut agent = stage_awaiting_build(&mut factsheet);
    agent.apply_build_success();

    let extracted = vec![route("/status", "GET"), route("/item/{id}", "DELETE")];
    let mut session = agent.accept_api_endpoints(&mut factsheet, extracted);

    let stored = factsheet.api_endpoint_schema.as_ref().unwrap();
    assert_eq!(stored.len(), 1);
    assert_eq!(stored[0].route, "/status");
    assert_eq!(stored[0].method, "GET");
    assert!(!stored[0].is_dynamic);

    match session.next_action() {
        ProbeAction::Probe(url) => assert_eq!(url, "http://localhost:8080/status"),
        _ => panic!("expected a probe of the retained route"),
    }
    let warn = session.record_status(200);
    assert!(!warn);

    assert!(matches!(session.next_action(), ProbeAction::Persist));
    session.record_persisted();
    assert!(matches!(session.next_action(), ProbeAction::Terminate));
    session.record_terminated();
    assert!(matches!(session.next_action(), ProbeAction::Done));

    agent.complete_testing(&session);
    assert_eq!(
        agent.get_attributes_from_agent().get_state(),
        &AgentState::Finished
    );
}

#[test]
fn test_non_success_status_warns_but_continues() {
    let mut factsheet = FactSheet::new("two endpoints".to_string());
    let mut agent = stage_awaiting_build(&mut factsheet);
    agent.apply_build_success();
    let extracted = vec![route("/a", "GET"), route("/b", "GET")];
    let mut session = agent.accept_api_endpoints(&mut factsheet, extracted);

    assert!(matches!(session.next_action(), ProbeAction::Probe(_)));
    let warn = session.record_status(500);
    assert!(warn);
    // Probing continues with the next endpoint despite the warning.
    match session.next_action() {
        ProbeAction::Probe(url) => assert_eq!(url, "http://localhost:8080/b"),
        _ => panic!("expected the second probe"),
    }
    assert!(!session.record_status(204));
    assert!(matches!(session.next_action(), ProbeAction::Persist));
}

#[test]
fn test_transport_error_terminates_exactly_once() {
    let mut factsheet = FactSheet::new("two endpoints".to_string());
    let mut agent = stage_awaiting_build(&mut factsheet);
    agent.apply_build_success();
    let extracted = vec![route("/a", "GET"), route("/b", "GET")];
    let mut session = agent.accept_api_endpoints(&mut factsheet, extracted);

    assert!(matches!(session.next_action(), ProbeAction::Probe(_)));
    session.record_transport_error();

    // The process is terminated immediately, the schema still persisted, and
    // no second termination is directed.
    let mut terminations: usize = 0;
    loop {
        match session.next_action() {
            ProbeAction::Probe(_) => panic!("probing must stop after a transport error"),
            ProbeAction::Terminate => {
                terminations += 1;
                session.record_terminated();
            }
            ProbeAction::Persist => session.record_persisted(),
            ProbeAction::Done => break,
        }
    }
    assert_eq!(terminations, 1);
    assert!(session.persisted);
    agent.complete_testing(&session);
    assert_eq!(
        agent.get_attributes_from_agent().get_state(),
        &AgentState::Finished
    );
}

#[test]
fn test_backend_identity() {
    let agent = AgentBackendDeveloper::new();
    let attrs = agent.get_attributes_from_agent();
    assert_eq!(attrs.get_position().as_str(), "Backend Developer");
    assert_eq!(attrs.get_state(), &AgentState::Discovery);
    assert_eq!(agent.bug_count, 0);
    assert!(agent.bug_errors.is_none());
}
