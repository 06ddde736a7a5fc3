use gippity::agent_frontend_comp::BuildComponent;
use gippity::agent_traits::{FactSheet, RouteObject};
use gippity::basic_agent::AgentState;
use gippity::frontend_developer::{
    APIAssignment, AgentFrontendDeveloper, FrontendSession, PageRouteAssignment, SitePages,
};
use gippity::general::Workspace;
use gippity::session::{AgentError, BuildOutcome, ModelScript};

fn prepared_workspace() -> Workspace {
    let mut workspace = Workspace::new("template".to_string());
    workspace.save_backend_code("backend source".to_string());
    workspace.save_api_endpoints(vec![RouteObject {
        is_route_dynamic: "false".to_string(),
        method: "get".to_string(),
        request_body: "null".to_string(),
        response: "null".to_string(),
        route: "/items".to_string(),
    }]);
    workspace
}

fn page(name: &str) -> SitePages {
    SitePages {
        page_name: name.to_string(),
        suggested_content_sections: "[\"hero\"]".to_string(),
    }
}

fn assignment(name: &str, route: &str) -> PageRouteAssignment {
    PageRouteAssignment {
        page_name: name.to_string(),
        routes: vec![APIAssignment {
            api_route: route.to_string(),
            method: "get".to_string(),
            route_type: "internal".to_string(),
        }],
    }
}

fn ok_builds(n: usize) -> Vec<BuildOutcome> {
    (0..n).map(|_| BuildOutcome { success: true, diagnostics: String::new() }).collect()
}

fn discovery_scripts() -> (Vec<Option<Vec<SitePages>>>, Vec<Option<Vec<PageRouteAssignment>>>, Vec<Option<Vec<String>>>) {
    (
        vec![Some(vec![page("home_page"), page("about_page")])],
        vec![Some(vec![assignment("home_page", "/items")])],
        vec![Some(vec!["#112233".to_string(), "#445566".to_string()])],
    )
}

fn full_session() -> FrontendSession {
    // Three discovery answers, then seven component answers (the logo is
    // two chained calls), every build passing.
    let responses: Vec<Option<String>> =
        (0..10).map(|i| Some(format!("source {}", i))).collect();
    let (pages, maps, colours) = discovery_scripts();
    FrontendSession::new(ModelScript::new(responses), pages, maps, colours, ok_builds(6))
}

#[test]
fn frontend_discovery_is_deterministic() {
    // The same record, stored artifacts and collaborator script twice:
    // the page list and the route assignment come out identical.
    let mut first = AgentFrontendDeveloper::new();
    let mut second = AgentFrontendDeveloper::new();
    let mut factsheet = FactSheet::new("fitness tracker".to_string());
    let mut workspace_a = prepared_workspace();
    let mut workspace_b = prepared_workspace();
    let mut session_a = full_session();
    let mut session_b = full_session();
    let run_a = first.execute(&mut factsheet, &mut workspace_a, &mut session_a);
    let run_b = second.execute(&mut factsheet, &mut workspace_b, &mut session_b);
    assert!(run_a.is_ok());
    assert!(run_b.is_ok());
    assert_eq!(first.buildsheet.pages, second.buildsheet.pages);
    assert_eq!(first.buildsheet.api_assignments, second.buildsheet.api_assignments);
    assert_eq!(first.buildsheet.brand_colours, second.buildsheet.brand_colours);
    assert_eq!(
        first.buildsheet.pages,
        Some(vec!["home_page".to_string(), "about_page".to_string()])
    );
}

#[test]
fn frontend_builds_all_components_in_order() {
    let mut agent = AgentFrontendDeveloper::new();
    let mut factsheet = FactSheet::new("fitness tracker".to_string());
    let mut workspace = prepared_workspace();
    let mut session = full_session();
    let result = agent.execute(&mut factsheet, &mut workspace, &mut session);
    assert!(result.is_ok());
    assert_eq!(agent.attributes.state, AgentState::Finished);
    assert_eq!(agent.bug_count, 0);
    // One stored source per catalog entry.
    assert_eq!(workspace.frontend_files.len(), 6);
    assert_eq!(workspace.frontend_files[0].path, "/src/components/shared/Logo.tsx");
    assert_eq!(workspace.frontend_files[5].path, "/src/components/pages/PageTwo.tsx");
    // Ten completion calls: three discovery, two for the logo, one for
    // each remaining component.
    assert_eq!(session.model.attempts, 10);
}

#[test]
fn frontend_discovery_needs_stored_backend_code() {
    let mut agent = AgentFrontendDeveloper::new();
    let mut factsheet = FactSheet::new("fitness tracker".to_string());
    let mut workspace = Workspace::new("template".to_string());
    let mut session = full_session();
    let result = agent.execute(&mut factsheet, &mut workspace, &mut session);
    assert_eq!(result, Err(AgentError::StorageMissing));
}

#[test]
fn frontend_aborts_after_two_cumulative_build_failures() {
    // The logo build fails, its single repair is retested, and that
    // failure terminates the whole stage.
    let mut agent = AgentFrontendDeveloper::new();
    let mut factsheet = FactSheet::new("fitness tracker".to_string());
    let mut workspace = prepared_workspace();
    let responses: Vec<Option<String>> =
        (0..6).map(|i| Some(format!("source {}", i))).collect();
    let (pages, maps, colours) = discovery_scripts();
    let builds = vec![
        BuildOutcome { success: false, diagnostics: "broken import".to_string() },
        BuildOutcome { success: false, diagnostics: "still broken".to_string() },
    ];
    let mut session =
        FrontendSession::new(ModelScript::new(responses), pages, maps, colours, builds);
    let result = agent.execute(&mut factsheet, &mut workspace, &mut session);
    assert_eq!(result, Err(AgentError::TooManyComponentFailures));
    assert_eq!(agent.bug_count, 2);
    // The produced logo and its repaired version were both stored.
    assert_eq!(workspace.frontend_files.len(), 2);
    assert_eq!(workspace.frontend_files[0].path, "/src/components/shared/Logo.tsx");
    assert_eq!(workspace.frontend_files[1].path, "/src/components/shared/Logo.tsx");
}

#[test]
fn frontend_recovers_when_the_repair_builds() {
    let mut agent = AgentFrontendDeveloper::new();
    let mut factsheet = FactSheet::new("fitness tracker".to_string());
    let mut workspace = prepared_workspace();
    let responses: Vec<Option<String>> =
        (0..11).map(|i| Some(format!("source {}", i))).collect();
    let (pages, maps, colours) = discovery_scripts();
    let mut builds = vec![BuildOutcome {
        success: false,
        diagnostics: "broken import".to_string(),
    }];
    builds.extend(ok_builds(6));
    let mut session =
        FrontendSession::new(ModelScript::new(responses), pages, maps, colours, builds);
    let result = agent.execute(&mut factsheet, &mut workspace, &mut session);
    assert!(result.is_ok());
    assert_eq!(agent.bug_count, 0);
    // Six components stored plus one repaired logo.
    assert_eq!(workspace.frontend_files.len(), 7);
}

#[test]
fn frontend_per_page_components_need_their_pages() {
    // Entering the component loop with no page list: the shared
    // components still build, the first per-page component is refused.
    let mut agent = AgentFrontendDeveloper::new();
    agent.attributes.update_state(AgentState::Working);
    let mut factsheet = FactSheet::new("fitness tracker".to_string());
    let mut workspace = prepared_workspace();
    let responses: Vec<Option<String>> =
        (0..5).map(|i| Some(format!("source {}", i))).collect();
    let mut session =
        FrontendSession::new(ModelScript::new(responses), vec![], vec![], vec![], ok_builds(4));
    let result = agent.execute(&mut factsheet, &mut workspace, &mut session);
    assert_eq!(result, Err(AgentError::MissingPages));
    assert_eq!(agent.operation_focus, BuildComponent::PageContent1);
    assert_eq!(workspace.frontend_files.len(), 4);
}

#[test]
fn works_on_shared_components() {
    // Entering the component loop with the page list already on the
    // sheet: every catalog entry builds and is stored.
    let mut agent = AgentFrontendDeveloper::new();
    agent.attributes.update_state(AgentState::Working);
    agent.buildsheet.pages = Some(vec!["home_page".to_string(), "about_page".to_string()]);
    agent.buildsheet.pages_descriptions = Some(vec![page("home_page"), page("about_page")]);
    let mut factsheet = FactSheet::new("Build a todo app for a fitness tracking goal".to_string());
    let mut workspace = prepared_workspace();
    let responses: Vec<Option<String>> =
        (0..7).map(|i| Some(format!("source {}", i))).collect();
    let mut session =
        FrontendSession::new(ModelScript::new(responses), vec![], vec![], vec![], ok_builds(6));
    agent.execute(&mut factsheet, &mut workspace, &mut session).expect(
        "Unable to execute running agent",
    );
    assert_eq!(agent.attributes.state, AgentState::Finished);
    assert_eq!(workspace.frontend_files.len(), 6);
}

#[test]
fn component_catalog_names_and_paths() {
    let all = BuildComponent::all();
    assert_eq!(all.len(), 6);
    assert_eq!(all[0], BuildComponent::Logo);
    assert_eq!(BuildComponent::Logo.name(), "Logo");
    assert_eq!(BuildComponent::NavHeader.name(), "NavHeader");
    assert_eq!(BuildComponent::NavFooter.filepath(), "/src/components/shared/Footer.tsx");
    assert_eq!(BuildComponent::ReactHook.filepath(), "/src/hooks/useCall.tsx");
    assert_eq!(BuildComponent::PageContent1.name(), "PageContent1");
    assert_eq!(BuildComponent::PageContent2.filepath(), "/src/components/pages/PageTwo.tsx");
}

#[test]
fn frontend_failure_bookkeeping_matches_the_ceiling() {
    // One failure is tolerated (and repaired); the next reaches the
    // ceiling and aborts the stage. A passing build resets the count.
    let mut agent = AgentFrontendDeveloper::new();
    assert!(!agent.register_build_failure());
    assert_eq!(agent.bug_count, 1);
    assert!(agent.register_build_failure());
    assert_eq!(agent.bug_count, 2);
    agent.register_build_success();
    assert_eq!(agent.bug_count, 0);
}
