use gippity::agent_traits::{ProjectScope, RouteObject, testable_routes};
use gippity::command_line::{PrintCommand, StatementColour, interpret_confirmation};
use gippity::general::{Workspace, extend_ai_function};
use gippity::instructions::{
    fix_context, initial_backend_context, navigation_context, render_bool, render_quoted,
    render_scope, render_str_list,
};
use gippity::llm::{APIResponse, ApiChoice, ApiMessage, build_chat_completion,
    first_choice_content};

#[test]
fn extend_ai_function_frames_the_instruction() {
    let msg = extend_ai_function("fn print_it(input: &str)", "build a site");
    assert_eq!(msg.role, "system");
    let expected = format!(
        "FUNCTION: {}\nINSTRUCTION: You are a function printer. You only print the results of functions. Nothing else. No commentary. Here is the input to the function: '{}'. Print out what the function will return.",
        "fn print_it(input: &str)", "build a site"
    );
    assert_eq!(msg.content, expected);
}

#[test]
fn chat_completion_targets_the_fixed_model() {
    let msg = extend_ai_function("fn f()", "input");
    let completion = build_chat_completion(vec![msg]);
    assert_eq!(completion.model, "gpt-4");
    assert_eq!(completion.messages.len(), 1);
}

#[test]
fn first_choice_reads_the_first_answer() {
    let res = APIResponse {
        choices: vec![
            ApiChoice { message: ApiMessage { content: "first".to_string() } },
            ApiChoice { message: ApiMessage { content: "second".to_string() } },
        ],
    };
    assert_eq!(first_choice_content(&res), Some("first".to_string()));
    let empty = APIResponse { choices: vec![] };
    assert_eq!(first_choice_content(&empty), None);
}

#[test]
fn confirmation_answers_are_interpreted_exactly() {
    assert_eq!(interpret_confirmation("1"), Some(true));
    assert_eq!(interpret_confirmation("ok"), Some(true));
    assert_eq!(interpret_confirmation("y"), Some(true));
    assert_eq!(interpret_confirmation("2"), Some(false));
    assert_eq!(interpret_confirmation("no"), Some(false));
    assert_eq!(interpret_confirmation("n"), Some(false));
    assert_eq!(interpret_confirmation("maybe"), None);
    assert_eq!(interpret_confirmation(""), None);
}

#[test]
fn statement_colours_follow_the_command_kind() {
    assert_eq!(PrintCommand::AICall.statement_colour(), StatementColour::Cyan);
    assert_eq!(PrintCommand::UnitTest.statement_colour(), StatementColour::Magenta);
    assert_eq!(PrintCommand::Issue.statement_colour(), StatementColour::Red);
}

#[test]
fn renderers_produce_exact_text() {
    assert_eq!(render_bool(true), "true");
    assert_eq!(render_bool(false), "false");
    assert_eq!(render_quoted("hi"), "\"hi\"");
    assert_eq!(render_str_list(&vec![]), "[]");
    assert_eq!(
        render_str_list(&vec!["a".to_string(), "b".to_string()]),
        "[\"a\", \"b\"]"
    );
    let scope = ProjectScope {
        is_crud_required: true,
        is_user_login_and_logout: false,
        is_external_urls_required: true,
    };
    assert_eq!(
        render_scope(scope),
        "{ \"is_crud_required\": true, \"is_user_login_and_logout\": false, \"is_external_urls_required\": true }"
    );
}

#[test]
fn initial_backend_context_adds_the_scope_clauses() {
    let all_clauses = initial_backend_context(
        "template code",
        "a shop",
        ProjectScope {
            is_crud_required: false,
            is_user_login_and_logout: false,
            is_external_urls_required: true,
        },
    );
    assert!(all_clauses.starts_with("CODE_TEMPLATE: template code\nPROJECT_DESCRIPTION: a shop\n"));
    assert!(all_clauses.contains("IMPORTANT IGNORE EXTERNAL DATA"));
    assert!(all_clauses.contains("IMPORTANT IGNORE USER REGISTRATION AND LOGIN"));
    assert!(all_clauses.contains("IMPORTANT IGNORE CRUD"));
    let no_clauses = initial_backend_context(
        "template code",
        "a shop",
        ProjectScope {
            is_crud_required: true,
            is_user_login_and_logout: true,
            is_external_urls_required: false,
        },
    );
    assert_eq!(no_clauses, "CODE_TEMPLATE: template code\nPROJECT_DESCRIPTION: a shop\n");
}

#[test]
fn fix_context_carries_code_and_diagnostics() {
    let text = fix_context("broken source", "expected semicolon");
    assert_eq!(
        text,
        "BROKEN_CODE: broken source, ERROR_BUGS: expected semicolon. THIS FUNCTION ONLY OUTPUTS CODE. JUST OUTPUT THE CODE."
    );
}

#[test]
fn navigation_context_lists_pages_and_colours() {
    let text = navigation_context(
        "a shop",
        &vec!["home".to_string()],
        &vec!["#112233".to_string()],
    );
    assert_eq!(
        text,
        "WEBSITE_SPECIFICATION: { PROJECT_DESCRIPTION: a shop, PAGES_WHICH_NEED_LINKS: [\"home\"], COLOUR_SCHEME: [\"#112233\"] }"
    );
}

#[test]
fn testable_routes_keep_only_static_gets() {
    let mk = |route: &str, method: &str, dynamic: &str| RouteObject {
        is_route_dynamic: dynamic.to_string(),
        method: method.to_string(),
        request_body: "null".to_string(),
        response: "null".to_string(),
        route: route.to_string(),
    };
    let routes = vec![
        mk("/items", "get", "false"),
        mk("/items/{id}", "get", "true"),
        mk("/items", "post", "false"),
    ];
    let probed = testable_routes(&routes);
    assert_eq!(probed.len(), 1);
    assert_eq!(probed[0].route, "/items");
    assert_eq!(probed[0].method, "get");
}

#[test]
fn workspace_reads_back_the_latest_stored_source() {
    let mut workspace = Workspace::new("template".to_string());
    assert!(workspace.read_frontend_code("/src/a.tsx").is_none());
    workspace.save_frontend_code("/src/a.tsx".to_string(), "first".to_string());
    workspace.save_frontend_code("/src/b.tsx".to_string(), "other".to_string());
    workspace.save_frontend_code("/src/a.tsx".to_string(), "second".to_string());
    assert_eq!(workspace.read_frontend_code("/src/a.tsx"), Some("second".to_string()));
    assert_eq!(workspace.read_frontend_code("/src/b.tsx"), Some("other".to_string()));
    assert!(workspace.read_frontend_code("/src/c.tsx").is_none());
}
