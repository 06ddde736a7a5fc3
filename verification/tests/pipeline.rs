use gippity::agent_traits::{ProjectScope, RouteObject};
use gippity::backend_developer::BackendSession;
use gippity::basic_agent::AgentState;
use gippity::frontend_developer::{
    APIAssignment, FrontendSession, PageRouteAssignment, SitePages,
};
use gippity::general::Workspace;
use gippity::managing_agent::{ManagingAgent, PipelineSession};
use gippity::session::{BuildOutcome, ModelScript, ProbeOutcome};
use gippity::solution_architect::ArchitectSession;
use gippity::url_manager::UrlSession;

#[test]
fn executes_building_a_website() {
    // End to end against deterministic collaborator scripts: the four
    // stages finish in order and the record carries every artifact.
    let usr_request: &str =
        "need a full stack app that fetches and tracks my fitness progress";
    let mut manager_model = ModelScript::new(vec![Some("Build a fitness tracker".to_string())]);
    let mut managing_agent =
        ManagingAgent::new(usr_request.to_string(), &mut manager_model).expect(
            "Error creating agent",
        );

    let architect = ArchitectSession::new(
        ModelScript::new(vec![
            Some("scope json".to_string()),
            Some("urls json".to_string()),
        ]),
        vec![Some(ProjectScope {
            is_crud_required: true,
            is_user_login_and_logout: true,
            is_external_urls_required: true,
        })],
        vec![Some(vec![
            "https://api.exchange.example/latest".to_string(),
            "https://api.broken.example/latest".to_string(),
        ])],
    );
    let urls = UrlSession::new(vec![ProbeOutcome::Status(200), ProbeOutcome::Status(500)]);
    let backend = BackendSession::new(
        ModelScript::new(vec![
            Some("initial backend".to_string()),
            Some("improved backend".to_string()),
        ]),
        vec![true],
        vec![BuildOutcome { success: true, diagnostics: String::new() }],
        vec![Some(vec![RouteObject {
            is_route_dynamic: "false".to_string(),
            method: "get".to_string(),
            request_body: "null".to_string(),
            response: "null".to_string(),
            route: "/fitness_progress".to_string(),
        }])],
        vec![ProbeOutcome::Status(200)],
    );
    let frontend_responses: Vec<Option<String>> =
        (0..10).map(|i| Some(format!("component {}", i))).collect();
    let frontend = FrontendSession::new(
        ModelScript::new(frontend_responses),
        vec![Some(vec![
            SitePages {
                page_name: "home_page".to_string(),
                suggested_content_sections: "[\"hero\"]".to_string(),
            },
            SitePages {
                page_name: "progress_page".to_string(),
                suggested_content_sections: "[\"charts\"]".to_string(),
            },
        ])],
        vec![Some(vec![PageRouteAssignment {
            page_name: "progress_page".to_string(),
            routes: vec![APIAssignment {
                api_route: "/fitness_progress".to_string(),
                method: "get".to_string(),
                route_type: "internal".to_string(),
            }],
        }])],
        vec![Some(vec!["#0a0a23".to_string(), "#ffaa00".to_string()])],
        (0..6).map(|_| BuildOutcome { success: true, diagnostics: String::new() }).collect(),
    );
    let mut session = PipelineSession { architect, urls, backend, frontend };
    let mut workspace = Workspace::new("starter template".to_string());

    let result = managing_agent.execute_project(&mut workspace, &mut session);
    assert!(result.is_ok());
    assert_eq!(managing_agent.architect.attributes.state, AgentState::Finished);
    assert_eq!(managing_agent.url_manager.attributes.state, AgentState::Finished);
    assert_eq!(managing_agent.backend_developer.attributes.state, AgentState::Finished);
    assert_eq!(managing_agent.frontend_developer.attributes.state, AgentState::Finished);
    // The URL that answered 500 was pruned before the backend ran.
    assert_eq!(
        managing_agent.factsheet.external_urls,
        Some(vec!["https://api.exchange.example/latest".to_string()])
    );
    assert_eq!(
        managing_agent.factsheet.backend_code,
        Some("improved backend".to_string())
    );
    assert_eq!(
        managing_agent.factsheet.api_endpoint_schema.as_ref().map(|s| s.len()),
        Some(1)
    );
    assert_eq!(workspace.frontend_files.len(), 6);
    assert_eq!(managing_agent.backend_developer.bug_count, 0);
}

#[test]
fn pipeline_stops_at_a_fatal_architect_error() {
    let mut manager_model = ModelScript::new(vec![Some("Build a site".to_string())]);
    let mut managing_agent =
        ManagingAgent::new("a site".to_string(), &mut manager_model).expect(
            "Error creating agent",
        );
    // The scope answer fails to decode: the run aborts before any other
    // stage consumes anything.
    let architect = ArchitectSession::new(
        ModelScript::new(vec![Some("scope json".to_string())]),
        vec![None],
        vec![],
    );
    let mut session = PipelineSession {
        architect,
        urls: UrlSession::new(vec![]),
        backend: BackendSession::new(ModelScript::new(vec![]), vec![], vec![], vec![], vec![]),
        frontend: FrontendSession::new(ModelScript::new(vec![]), vec![], vec![], vec![], vec![]),
    };
    let mut workspace = Workspace::new("starter template".to_string());
    let result = managing_agent.execute_project(&mut workspace, &mut session);
    assert!(result.is_err());
    assert_eq!(session.backend.model.calls.len(), 0);
    assert_eq!(session.frontend.model.calls.len(), 0);
}
