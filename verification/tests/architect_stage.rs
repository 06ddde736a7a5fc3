use gippity::agent_traits::{FactSheet, ProjectScope};
use gippity::basic_agent::AgentState;
use gippity::instructions::InstructionKey;
use gippity::session::{AgentError, ModelScript};
use gippity::solution_architect::{AgentSolutionArchitect, ArchitectSession};

fn scope(crud: bool, login: bool, external: bool) -> ProjectScope {
    ProjectScope {
        is_crud_required: crud,
        is_user_login_and_logout: login,
        is_external_urls_required: external,
    }
}

#[test]
fn gathers_initial_spec() {
    // The classification decodes: the scope lands on the record and the
    // stage finishes without a URL call.
    let mut agent = AgentSolutionArchitect::new();
    let mut factsheet = FactSheet::new(
        "Build a full stack website with user login and logout".to_string(),
    );
    let mut session = ArchitectSession::new(
        ModelScript::new(vec![Some("scope json".to_string())]),
        vec![Some(scope(true, true, false))],
        vec![],
    );
    agent.execute(&mut factsheet, &mut session).expect("Unable to execute running agent");
    assert!(factsheet.project_scope.is_some());
    assert_eq!(factsheet.project_scope, Some(scope(true, true, false)));
    assert!(factsheet.external_urls.is_none());
    assert_eq!(agent.attributes.state, AgentState::Finished);
    assert_eq!(session.model.calls, vec![InstructionKey::PrintProjectScope]);
}

#[test]
fn architect_gathers_urls_when_external_data_is_needed() {
    let mut agent = AgentSolutionArchitect::new();
    let mut factsheet = FactSheet::new(
        "Build a website that shows latest Forex prices".to_string(),
    );
    let mut session = ArchitectSession::new(
        ModelScript::new(vec![
            Some("scope json".to_string()),
            Some("urls json".to_string()),
        ]),
        vec![Some(scope(true, true, true))],
        vec![Some(vec!["https://api.exchange.example/latest".to_string()])],
    );
    agent.execute(&mut factsheet, &mut session).expect("Unable to execute running agent");
    assert!(factsheet.project_scope.is_some());
    assert_eq!(
        factsheet.external_urls,
        Some(vec!["https://api.exchange.example/latest".to_string()])
    );
    assert_eq!(
        session.model.calls,
        vec![InstructionKey::PrintProjectScope, InstructionKey::PrintSiteUrls]
    );
    assert_eq!(
        session.states,
        vec![AgentState::UnitTesting, AgentState::Finished]
    );
}

#[test]
fn architect_scope_decode_failure_is_fatal() {
    // Malformed classification output aborts the stage with no retry; the
    // record keeps no scope.
    let mut agent = AgentSolutionArchitect::new();
    let mut factsheet = FactSheet::new("a site".to_string());
    let mut session = ArchitectSession::new(
        ModelScript::new(vec![Some("not the schema".to_string())]),
        vec![None],
        vec![],
    );
    let result = agent.execute(&mut factsheet, &mut session);
    assert_eq!(result, Err(AgentError::DecodeFailure));
    assert!(factsheet.project_scope.is_none());
}

#[test]
fn architect_url_decode_failure_keeps_the_scope() {
    let mut agent = AgentSolutionArchitect::new();
    let mut factsheet = FactSheet::new("a site".to_string());
    let mut session = ArchitectSession::new(
        ModelScript::new(vec![
            Some("scope json".to_string()),
            Some("urls json".to_string()),
        ]),
        vec![Some(scope(false, false, true))],
        vec![None],
    );
    let result = agent.execute(&mut factsheet, &mut session);
    assert_eq!(result, Err(AgentError::DecodeFailure));
    assert_eq!(factsheet.project_scope, Some(scope(false, false, true)));
    assert!(factsheet.external_urls.is_none());
}

#[test]
fn architect_refuses_an_all_false_classification() {
    // A classification with no capability flag set violates the record's
    // invariant: the stage aborts and stores nothing.
    let mut agent = AgentSolutionArchitect::new();
    let mut factsheet = FactSheet::new("a site".to_string());
    let mut session = ArchitectSession::new(
        ModelScript::new(vec![Some("scope json".to_string())]),
        vec![Some(scope(false, false, false))],
        vec![],
    );
    let result = agent.execute(&mut factsheet, &mut session);
    assert_eq!(result, Err(AgentError::InvalidScope));
    assert!(factsheet.project_scope.is_none());
}
