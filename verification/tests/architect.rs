use auto_gippity::agent_architect::{filter_checked_urls, AgentSolutionArchitect};
use auto_gippity::basic_agent::AgentState;
use auto_gippity::factsheet::{FactSheet, ProjectScope};

fn urls(list: &[&str]) -> Vec<String> {
    list.iter().map(|u| u.to_string()).collect()
}

#[test]
fn test_filter_drops_only_non_200_urls() {
    let original = urls(&["https://a.example", "https://b.example", "https://c.example"]);
    let statuses = vec![Some(200u16), Some(404u16), Some(200u16)];
    let kept = filter_checked_urls(&original, &statuses);
    assert_eq!(kept, urls(&["https://a.example", "https://c.example"]));
}

#[test]
fn test_filter_keeps_url_on_transport_error() {
    let original = urls(&["https://a.example", "https://b.example"]);
    let statuses = vec![None, Some(500u16)];
    let kept = filter_checked_urls(&original, &statuses);
    assert_eq!(kept, urls(&["https://a.example"]));
}

#[test]
fn test_filter_keeps_everything_when_all_200() {
    let original = urls(&["https://a.example", "https://b.example"]);
    let statuses = vec![Some(200u16), Some(200u16)];
    let kept = filter_checked_urls(&original, &statuses);
    assert_eq!(kept, original);
}

#[test]
fn test_architect_skips_url_validation_when_not_required() {
    let mut agent = AgentSolutionArchitect::new();
    let mut factsheet = FactSheet::new("simple health-check service".to_string());
    assert_eq!(
        agent.get_attributes_from_agent().get_state(),
        &AgentState::Discovery
    );
    let scope = ProjectScope {
        requires_crud: false,
        requires_login: false,
        requires_external_urls: false,
    };
    let needs_urls = agent.apply_project_scope(&mut factsheet, scope);
    assert!(!needs_urls);
    assert_eq!(
        agent.get_attributes_from_agent().get_state(),
        &AgentState::Finished
    );
    assert_eq!(factsheet.project_scope, Some(scope));
    assert!(factsheet.external_urls.is_none());
}

#[test]
fn test_architect_validates_urls_and_finishes() {
    let mut agent = AgentSolutionArchitect::new();
    let mut factsheet = FactSheet::new("a forex dashboard".to_string());
    let scope = ProjectScope {
        requires_crud: false,
        requires_login: true,
        requires_external_urls: true,
    };
    let needs_urls = agent.apply_project_scope(&mut factsheet, scope);
    assert!(needs_urls);
    assert_eq!(
        agent.get_attributes_from_agent().get_state(),
        &AgentState::Discovery
    );

    agent.apply_external_urls(
        &mut factsheet,
        urls(&["https://a.example", "https://b.example", "https://c.example"]),
    );
    assert_eq!(
        agent.get_attributes_from_agent().get_state(),
        &AgentState::UnitTesting
    );

    let statuses = vec![Some(200u16), Some(503u16), Some(200u16)];
    agent.apply_url_checks(&mut factsheet, &statuses);
    assert_eq!(
        agent.get_attributes_from_agent().get_state(),
        &AgentState::Finished
    );
    assert_eq!(
        factsheet.external_urls,
        Some(urls(&["https://a.example", "https://c.example"]))
    );
}

#[test]
fn test_architect_empty_url_list() {
    let mut agent = AgentSolutionArchitect::new();
    let mut factsheet = FactSheet::new("anything".to_string());
    let scope = ProjectScope {
        requires_crud: false,
        requires_login: false,
        requires_external_urls: true,
    };
    agent.apply_project_scope(&mut factsheet, scope);
    agent.apply_external_urls(&mut factsheet, urls(&[]));
    let statuses: Vec<Option<u16>> = Vec::new();
    agent.apply_url_checks(&mut factsheet, &statuses);
    assert_eq!(
        agent.get_attributes_from_agent().get_state(),
        &AgentState::Finished
    );
    assert_eq!(factsheet.external_urls, Some(urls(&[])));
}

#[test]
fn test_architect_defensive_default_finishes() {
    // A stage put into the one state it does not handle finishes directly.
    let mut agent = AgentSolutionArchitect::new();
    agent.attributes.update_state(AgentState::Working);
    agent.finish_defensively();
    assert_eq!(
        agent.get_attributes_from_agent().get_state(),
        &AgentState::Finished
    );
}

#[test]
fn test_architect_identity() {
    let agent = AgentSolutionArchitect::new();
    let attrs = agent.get_attributes_from_agent();
    assert_eq!(attrs.get_position().as_str(), "Solution Architect");
    assert_eq!(
        attrs.get_objective().as_str(),
        "Gathers information and design solutions for website development"
    );
    assert!(attrs.get_memory().is_empty());
}
