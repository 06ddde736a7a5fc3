use gippity::agent_traits::FactSheet;
use gippity::basic_agent::AgentState;
use gippity::session::{AgentError, ProbeOutcome};
use gippity::url_manager::{AgentUrlManager, UrlSession, prune_urls};

fn urls(items: &[&str]) -> Vec<String> {
    items.iter().map(|s| s.to_string()).collect()
}

#[test]
fn pruning_removes_urls_that_fail_their_probe() {
    // Probe of the second URL answers 404: the survivors are the first and
    // third, order preserved.
    let candidates = urls(&["u1", "u2", "u3"]);
    let outcomes = vec![
        ProbeOutcome::Status(200),
        ProbeOutcome::Status(404),
        ProbeOutcome::Status(200),
    ];
    let kept = prune_urls(&candidates, &outcomes);
    assert_eq!(kept, urls(&["u1", "u3"]));
}

#[test]
fn pruning_removes_urls_with_transport_errors() {
    let candidates = urls(&["https://a.example", "https://b.example"]);
    let outcomes = vec![ProbeOutcome::Status(200), ProbeOutcome::TransportFailure];
    let kept = prune_urls(&candidates, &outcomes);
    assert_eq!(kept, urls(&["https://a.example"]));
}

#[test]
fn pruning_keeps_everything_that_answers_200() {
    let candidates = urls(&["u1", "u2"]);
    let outcomes = vec![ProbeOutcome::Status(200), ProbeOutcome::Status(200)];
    assert_eq!(prune_urls(&candidates, &outcomes), candidates);
}

#[test]
fn url_manager_prunes_record_urls_in_order() {
    let mut agent = AgentUrlManager::new();
    let mut factsheet = FactSheet::new("crypto dashboard".to_string());
    factsheet.external_urls = Some(urls(&["u1", "u2", "u3"]));
    let mut session = UrlSession::new(vec![
        ProbeOutcome::Status(200),
        ProbeOutcome::Status(404),
        ProbeOutcome::Status(200),
    ]);
    let result = agent.execute(&mut factsheet, &mut session);
    assert!(result.is_ok());
    assert_eq!(agent.attributes.state, AgentState::Finished);
    assert_eq!(factsheet.external_urls, Some(urls(&["u1", "u3"])));
    assert_eq!(session.next_probe, 3);
}

#[test]
fn url_manager_finishes_quietly_without_candidates() {
    let mut agent = AgentUrlManager::new();
    let mut factsheet = FactSheet::new("plain site".to_string());
    let mut session = UrlSession::new(vec![]);
    let result = agent.execute(&mut factsheet, &mut session);
    assert!(result.is_ok());
    assert_eq!(agent.attributes.state, AgentState::Finished);
    assert!(factsheet.external_urls.is_none());
}

#[test]
fn url_manager_reports_missing_probe_outcomes() {
    let mut agent = AgentUrlManager::new();
    let mut factsheet = FactSheet::new("site".to_string());
    factsheet.external_urls = Some(urls(&["u1", "u2"]));
    let mut session = UrlSession::new(vec![ProbeOutcome::Status(200)]);
    let result = agent.execute(&mut factsheet, &mut session);
    assert_eq!(result, Err(AgentError::ScriptExhausted));
}
