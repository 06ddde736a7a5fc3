use gippity::backend_developer::AgentBackendDeveloper;
use gippity::basic_agent::AgentState;
use gippity::frontend_developer::AgentFrontendDeveloper;
use gippity::managing_agent::ManagingAgent;
use gippity::session::ModelScript;
use gippity::solution_architect::AgentSolutionArchitect;
use gippity::url_manager::AgentUrlManager;

#[test]
fn creates_new_agen_db_architect() {
    let agent: AgentBackendDeveloper = AgentBackendDeveloper::new();
    assert_eq!(agent.attributes.position, "Backend Developer");
}

#[test]
fn creates_new_agent_solution_architect() {
    let agent: AgentSolutionArchitect = AgentSolutionArchitect::new();
    assert_eq!(agent.attributes.position, "Solutions Architect");
}

#[test]
fn creates_new_agent_url_manager() {
    let agent: AgentUrlManager = AgentUrlManager::new();
    assert_eq!(agent.attributes.position, "URL Manager");
}

#[test]
fn creates_new_frontend_developer() {
    let agent: AgentFrontendDeveloper = AgentFrontendDeveloper::new();
    assert_eq!(agent.attributes.position, "Frontend Developer");
    assert_eq!(agent.attributes.state, AgentState::Discovery);
    assert_eq!(agent.bug_count, 0);
}

#[test]
fn creates_new_managing_agent() {
    let usr_request: &str = "need a website that looks great and handles storing user data";
    let mut model = ModelScript::new(vec![Some(
        "Build a great-looking website that stores user data".to_string(),
    )]);
    let managing_agent =
        ManagingAgent::new(usr_request.to_string(), &mut model).expect("Error creating agent");
    assert_eq!(managing_agent.attributes.position, "Project Manager");
    assert_eq!(
        managing_agent.factsheet.project_description,
        "Build a great-looking website that stores user data"
    );
    assert!(managing_agent.factsheet.project_scope.is_none());
}

#[test]
fn managing_agent_fails_without_completion() {
    let mut model = ModelScript::new(vec![None]);
    let result = ManagingAgent::new("build me a site".to_string(), &mut model);
    assert!(result.is_err());
}
