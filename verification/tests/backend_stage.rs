use gippity::agent_traits::{FactSheet, ProjectScope, RouteObject, testable_routes};
use gippity::backend_developer::{AgentBackendDeveloper, BackendSession};
use gippity::basic_agent::AgentState;
use gippity::general::Workspace;
use gippity::instructions::InstructionKey;
use gippity::session::{AgentError, BuildOutcome, ModelScript, ProbeOutcome};

fn scoped_factsheet(crud: bool, login: bool, external: bool) -> FactSheet {
    let mut factsheet = FactSheet::new("Build a fitness tracking app".to_string());
    factsheet.project_scope = Some(ProjectScope {
        is_crud_required: crud,
        is_user_login_and_logout: login,
        is_external_urls_required: external,
    });
    factsheet
}

fn route(path: &str, method: &str, dynamic: &str) -> RouteObject {
    RouteObject {
        is_route_dynamic: dynamic.to_string(),
        method: method.to_string(),
        request_body: "null".to_string(),
        response: "null".to_string(),
        route: path.to_string(),
    }
}

fn build_ok() -> BuildOutcome {
    BuildOutcome { success: true, diagnostics: String::new() }
}

fn build_fail(diag: &str) -> BuildOutcome {
    BuildOutcome { success: false, diagnostics: diag.to_string() }
}

#[test]
fn backend_skips_work_when_no_backend_needed() {
    // Scope needing neither CRUD nor login: finish at once, no model call,
    // the record untouched.
    let mut agent = AgentBackendDeveloper::new();
    let mut factsheet = scoped_factsheet(false, false, true);
    let mut workspace = Workspace::new("template".to_string());
    let mut session =
        BackendSession::new(ModelScript::new(vec![]), vec![], vec![], vec![], vec![]);
    let result = agent.execute(&mut factsheet, &mut workspace, &mut session);
    assert!(result.is_ok());
    assert_eq!(agent.attributes.state, AgentState::Finished);
    assert!(factsheet.backend_code.is_none());
    assert_eq!(session.model.calls.len(), 0);
    assert_eq!(session.model.attempts, 0);
}

#[test]
fn backend_requires_project_scope() {
    let mut agent = AgentBackendDeveloper::new();
    let mut factsheet = FactSheet::new("an app".to_string());
    let mut workspace = Workspace::new("template".to_string());
    let mut session =
        BackendSession::new(ModelScript::new(vec![]), vec![], vec![], vec![], vec![]);
    let result = agent.execute(&mut factsheet, &mut workspace, &mut session);
    assert_eq!(result, Err(AgentError::ScopeMissing));
}

#[test]
fn backend_aborts_after_bounded_repairs() {
    // A build verifier that always fails: one improve call, then exactly
    // two fix calls, then the stage aborts instead of looping.
    let mut agent = AgentBackendDeveloper::new();
    let mut factsheet = scoped_factsheet(true, true, false);
    let mut workspace = Workspace::new("template".to_string());
    let model = ModelScript::new(vec![
        Some("initial code".to_string()),
        Some("improved code".to_string()),
        Some("fix one".to_string()),
        Some("fix two".to_string()),
    ]);
    let mut session = BackendSession::new(
        model,
        vec![true, true, true],
        vec![build_fail("e1"), build_fail("e2"), build_fail("e3")],
        vec![],
        vec![],
    );
    let result = agent.execute(&mut factsheet, &mut workspace, &mut session);
    assert_eq!(result, Err(AgentError::TooManyBugs));
    assert_eq!(agent.bug_count, 3);
    assert_eq!(
        session.model.calls,
        vec![
            InstructionKey::PrintBackendWebserverCode,
            InstructionKey::PrintImprovedWebserverCode,
            InstructionKey::PrintFixedCode,
            InstructionKey::PrintFixedCode,
        ]
    );
    assert_eq!(agent.bug_errors, Some("e3".to_string()));
}

#[test]
fn backend_happy_path_runs_two_model_calls() {
    // Compile passes first try: exactly two completion-service calls, the
    // expected state sequence, and a clean bug count at the end.
    let mut agent = AgentBackendDeveloper::new();
    let mut factsheet = scoped_factsheet(true, true, true);
    let mut workspace = Workspace::new("template".to_string());
    let model = ModelScript::new(vec![
        Some("initial code".to_string()),
        Some("improved code".to_string()),
    ]);
    let routes = vec![route("/items", "get", "false")];
    let mut session = BackendSession::new(
        model,
        vec![true],
        vec![build_ok()],
        vec![Some(routes)],
        vec![ProbeOutcome::Status(200)],
    );
    let result = agent.execute(&mut factsheet, &mut workspace, &mut session);
    assert!(result.is_ok());
    assert_eq!(agent.attributes.state, AgentState::Finished);
    assert_eq!(agent.bug_count, 0);
    assert_eq!(session.model.attempts, 2);
    assert_eq!(
        session.model.calls,
        vec![
            InstructionKey::PrintBackendWebserverCode,
            InstructionKey::PrintImprovedWebserverCode,
        ]
    );
    assert_eq!(
        session.states,
        vec![AgentState::Working, AgentState::UnitTesting, AgentState::Finished]
    );
    assert_eq!(factsheet.backend_code, Some("improved code".to_string()));
    assert_eq!(workspace.backend_code, Some("improved code".to_string()));
}

#[test]
fn backend_persists_full_schema_but_probes_static_gets_only() {
    // A static GET and a dynamic GET: both land in the persisted schema,
    // only the static one is probed.
    let mut agent = AgentBackendDeveloper::new();
    let mut factsheet = scoped_factsheet(true, false, false);
    let mut workspace = Workspace::new("template".to_string());
    let model = ModelScript::new(vec![
        Some("initial code".to_string()),
        Some("improved code".to_string()),
    ]);
    let routes = vec![route("/items", "get", "false"), route("/items/{id}", "get", "true")];
    let mut session = BackendSession::new(
        model,
        vec![true],
        vec![build_ok()],
        vec![Some(routes.clone())],
        vec![ProbeOutcome::Status(200)],
    );
    let result = agent.execute(&mut factsheet, &mut workspace, &mut session);
    assert!(result.is_ok());
    let schema = factsheet.api_endpoint_schema.expect("schema on the record");
    assert_eq!(schema.len(), 2);
    assert_eq!(schema[0].route, "/items");
    assert_eq!(schema[1].route, "/items/{id}");
    let stored = workspace.api_schema.expect("schema persisted");
    assert_eq!(stored.len(), 2);
    // Exactly one probe outcome was consumed: the dynamic route was not
    // probed.
    assert_eq!(session.next_probe, 1);
    let probed = testable_routes(&schema);
    assert_eq!(probed.len(), 1);
    assert_eq!(probed[0].route, "/items");
}

#[test]
fn backend_operator_rejection_is_fatal() {
    let mut agent = AgentBackendDeveloper::new();
    let mut factsheet = scoped_factsheet(true, true, false);
    let mut workspace = Workspace::new("template".to_string());
    let model = ModelScript::new(vec![
        Some("initial code".to_string()),
        Some("improved code".to_string()),
    ]);
    let mut session = BackendSession::new(model, vec![false], vec![build_ok()], vec![], vec![]);
    let result = agent.execute(&mut factsheet, &mut workspace, &mut session);
    assert_eq!(result, Err(AgentError::OperatorRejected));
}

#[test]
fn backend_retries_model_once_then_gives_up() {
    // First attempt of the initial call fails, the retry answers; then the
    // improve call fails twice, which is fatal.
    let mut agent = AgentBackendDeveloper::new();
    let mut factsheet = scoped_factsheet(true, true, false);
    let mut workspace = Workspace::new("template".to_string());
    let model = ModelScript::new(vec![None, Some("initial code".to_string()), None, None]);
    let mut session = BackendSession::new(model, vec![true], vec![build_ok()], vec![], vec![]);
    let result = agent.execute(&mut factsheet, &mut workspace, &mut session);
    assert_eq!(result, Err(AgentError::ModelFailure));
    assert_eq!(session.model.attempts, 4);
    assert_eq!(factsheet.backend_code, Some("initial code".to_string()));
}

#[test]
fn backend_schema_decode_failure_is_fatal() {
    let mut agent = AgentBackendDeveloper::new();
    let mut factsheet = scoped_factsheet(true, true, false);
    let mut workspace = Workspace::new("template".to_string());
    let model = ModelScript::new(vec![
        Some("initial code".to_string()),
        Some("improved code".to_string()),
    ]);
    let mut session = BackendSession::new(model, vec![true], vec![build_ok()], vec![None], vec![]);
    let result = agent.execute(&mut factsheet, &mut workspace, &mut session);
    assert_eq!(result, Err(AgentError::DecodeFailure));
}

#[test]
fn backend_tests_written_code_from_unit_testing() {
    // Entering at UnitTesting: the operator gate and one passing build
    // lead straight to schema extraction, probing and Finished, with no
    // code-producing model call.
    let mut agent = AgentBackendDeveloper::new();
    agent.attributes.update_state(AgentState::UnitTesting);
    let mut factsheet = scoped_factsheet(true, true, true);
    let mut workspace = Workspace::new("template".to_string());
    workspace.save_backend_code("already written code".to_string());
    let mut session = BackendSession::new(
        ModelScript::new(vec![]),
        vec![true],
        vec![build_ok()],
        vec![Some(vec![route("/items", "get", "false")])],
        vec![ProbeOutcome::Status(200)],
    );
    let result = agent.execute(&mut factsheet, &mut workspace, &mut session);
    assert!(result.is_ok());
    assert_eq!(agent.attributes.state, AgentState::Finished);
    assert_eq!(session.model.calls.len(), 0);
    assert!(factsheet.api_endpoint_schema.is_some());
    assert!(workspace.api_schema.is_some());
}

#[test]
fn backend_recovers_after_single_build_failure() {
    let mut agent = AgentBackendDeveloper::new();
    let mut factsheet = scoped_factsheet(true, true, false);
    let mut workspace = Workspace::new("template".to_string());
    let model = ModelScript::new(vec![
        Some("initial code".to_string()),
        Some("improved code".to_string()),
        Some("fixed code".to_string()),
    ]);
    let mut session = BackendSession::new(
        model,
        vec![true, true],
        vec![build_fail("missing semicolon"), build_ok()],
        vec![Some(vec![])],
        vec![],
    );
    let result = agent.execute(&mut factsheet, &mut workspace, &mut session);
    assert!(result.is_ok());
    assert_eq!(agent.bug_count, 0);
    assert_eq!(factsheet.backend_code, Some("fixed code".to_string()));
    assert_eq!(
        session.model.calls,
        vec![
            InstructionKey::PrintBackendWebserverCode,
            InstructionKey::PrintImprovedWebserverCode,
            InstructionKey::PrintFixedCode,
        ]
    );
}

#[test]
fn backend_failure_bookkeeping_matches_the_ceiling() {
    // The counter decisions a live runner drives the loop with: improve
    // first, fix after a failure, abort on the failure beyond the ceiling.
    let mut agent = AgentBackendDeveloper::new();
    assert_eq!(
        agent.next_code_instruction(),
        InstructionKey::PrintImprovedWebserverCode
    );
    assert!(!agent.register_build_failure("e1".to_string()));
    assert_eq!(agent.next_code_instruction(), InstructionKey::PrintFixedCode);
    assert_eq!(agent.bug_errors, Some("e1".to_string()));
    assert!(!agent.register_build_failure("e2".to_string()));
    assert!(agent.register_build_failure("e3".to_string()));
    assert_eq!(agent.bug_count, 3);
    agent.register_build_success();
    assert_eq!(agent.bug_count, 0);
}
