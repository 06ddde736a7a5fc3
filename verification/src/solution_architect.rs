//! The solution architect stage: one classification call that sets the
//! project scope (a decode failure, and an all-false classification, are
//! fatal, with no retry), and - when the classification asks for external
//! data - one further call that gathers the candidate external URLs.

use vstd::prelude::*;
use crate::agent_traits::{FactSheet, ProjectScope, spec_opt_view, spec_scope_valid};
use crate::basic_agent::{AgentState, BasicAgent};
use crate::instructions::InstructionKey;
use crate::llm::Message;
use crate::session::{AgentError, ModelScript, spec_request_consumed, spec_request_result};

verus! {

/// The channels the architect consumes: the completion service, the
/// decode outcomes of the scope answer and of the URL-list answer, and the
/// trace of states entered.
#[derive(Debug, PartialEq)]
pub struct ArchitectSession {
    pub model: ModelScript,
    pub scopes: Vec<Option<ProjectScope>>,
    pub next_scope: usize,
    pub url_lists: Vec<Option<Vec<String>>>,
    pub next_urls: usize,
    pub states: Vec<AgentState>,
}

impl ArchitectSession {
    /// A session answering from the given scripts.
    pub fn new(
        model: ModelScript,
        scopes: Vec<Option<ProjectScope>>,
        url_lists: Vec<Option<Vec<String>>>,
    ) -> (r: ArchitectSession)
        ensures
            r.model == model,
            r.scopes == scopes,
            r.next_scope == 0,
            r.url_lists == url_lists,
            r.next_urls == 0,
            r.states@ == Seq::<AgentState>::empty(),
    {
        ArchitectSession { model, scopes, next_scope: 0, url_lists, next_urls: 0, states: Vec::new() }
    }
}

/// Everything one architect run settles: the result, the record fields it
/// owns, the states it enters and what it consumed from each channel.
pub struct ArchitectRun {
    pub result: Result<(), AgentError>,
    pub final_scope: Option<ProjectScope>,
    pub final_urls: Option<Seq<String>>,
    pub calls: Seq<InstructionKey>,
    pub attempts_consumed: int,
    pub scopes_consumed: int,
    pub urls_consumed: int,
    pub entered: Seq<AgentState>,
}

/// The outcome of running the architect's discovery step against the given
/// record and session, from the `Discovery` state.
pub open spec fn spec_architect_run(fs: FactSheet, session: ArchitectSession) -> ArchitectRun {
    let mr = spec_request_result(session.model.outcomes@, session.model.attempts as int);
    let c1 = spec_request_consumed(session.model.outcomes@, session.model.attempts as int);
    if mr is Err {
        ArchitectRun {
            result: Err(AgentError::ModelFailure),
            final_scope: fs.project_scope,
            final_urls: spec_opt_view(fs.external_urls),
            calls: seq![InstructionKey::PrintProjectScope],
            attempts_consumed: c1,
            scopes_consumed: 0,
            urls_consumed: 0,
            entered: Seq::<AgentState>::empty(),
        }
    } else if session.next_scope >= session.scopes@.len() {
        ArchitectRun {
            result: Err(AgentError::ScriptExhausted),
            final_scope: fs.project_scope,
            final_urls: spec_opt_view(fs.external_urls),
            calls: seq![InstructionKey::PrintProjectScope],
            attempts_consumed: c1,
            scopes_consumed: 0,
            urls_consumed: 0,
            entered: Seq::<AgentState>::empty(),
        }
    } else if session.scopes@[session.next_scope as int] is None {
        ArchitectRun {
            result: Err(AgentError::DecodeFailure),
            final_scope: fs.project_scope,
            final_urls: spec_opt_view(fs.external_urls),
            calls: seq![InstructionKey::PrintProjectScope],
            attempts_consumed: c1,
            scopes_consumed: 1,
            urls_consumed: 0,
            entered: Seq::<AgentState>::empty(),
        }
    } else {
        let scope = session.scopes@[session.next_scope as int].unwrap();
        if !spec_scope_valid(scope) {
            ArchitectRun {
                result: Err(AgentError::InvalidScope),
                final_scope: fs.project_scope,
                final_urls: spec_opt_view(fs.external_urls),
                calls: seq![InstructionKey::PrintProjectScope],
                attempts_consumed: c1,
                scopes_consumed: 1,
                urls_consumed: 0,
                entered: Seq::<AgentState>::empty(),
            }
        } else if !scope.is_external_urls_required {
            ArchitectRun {
                result: Ok(()),
                final_scope: Some(scope),
                final_urls: spec_opt_view(fs.external_urls),
                calls: seq![InstructionKey::PrintProjectScope],
                attempts_consumed: c1,
                scopes_consumed: 1,
                urls_consumed: 0,
                entered: seq![AgentState::Finished],
            }
        } else {
            let mr2 = spec_request_result(
                session.model.outcomes@,
                session.model.attempts + c1,
            );
            let c2 = spec_request_consumed(session.model.outcomes@, session.model.attempts + c1);
            if mr2 is Err {
                ArchitectRun {
                    result: Err(AgentError::ModelFailure),
                    final_scope: Some(scope),
                    final_urls: spec_opt_view(fs.external_urls),
                    calls: seq![InstructionKey::PrintProjectScope, InstructionKey::PrintSiteUrls],
                    attempts_consumed: c1 + c2,
                    scopes_consumed: 1,
                    urls_consumed: 0,
                    entered: Seq::<AgentState>::empty(),
                }
            } else if session.next_urls >= session.url_lists@.len() {
                ArchitectRun {
                    result: Err(AgentError::ScriptExhausted),
                    final_scope: Some(scope),
                    final_urls: spec_opt_view(fs.external_urls),
                    calls: seq![InstructionKey::PrintProjectScope, InstructionKey::PrintSiteUrls],
                    attempts_consumed: c1 + c2,
                    scopes_consumed: 1,
                    urls_consumed: 0,
                    entered: Seq::<AgentState>::empty(),
                }
            } else if session.url_lists@[session.next_urls as int] is None {
                ArchitectRun {
                    result: Err(AgentError::DecodeFailure),
                    final_scope: Some(scope),
                    final_urls: spec_opt_view(fs.external_urls),
                    calls: seq![InstructionKey::PrintProjectScope, InstructionKey::PrintSiteUrls],
                    attempts_consumed: c1 + c2,
                    scopes_consumed: 1,
                    urls_consumed: 1,
                    entered: Seq::<AgentState>::empty(),
                }
            } else {
                ArchitectRun {
                    result: Ok(()),
                    final_scope: Some(scope),
                    final_urls: Some(session.url_lists@[session.next_urls as int].unwrap()@),
                    calls: seq![InstructionKey::PrintProjectScope, InstructionKey::PrintSiteUrls],
                    attempts_consumed: c1 + c2,
                    scopes_consumed: 1,
                    urls_consumed: 1,
                    entered: seq![AgentState::UnitTesting, AgentState::Finished],
                }
            }
        }
    }
}

/// Everything the architect's `execute` guarantees, as one relation
/// between the stage, the record and the session before (`a0`, `fs0`,
/// `s0`) and after (`a1`, `fs1`, `s1`) the call, and its result.
pub open spec fn spec_architect_execute_holds(
    a0: AgentSolutionArchitect,
    fs0: FactSheet,
    s0: ArchitectSession,
    a1: AgentSolutionArchitect,
    fs1: FactSheet,
    s1: ArchitectSession,
    r: Result<(), AgentError>,
) -> bool {
    &&& fs1.project_description == fs0.project_description
    &&& fs1.backend_code == fs0.backend_code
    &&& fs1.api_endpoint_schema == fs0.api_endpoint_schema
    &&& s1.model.outcomes == s0.model.outcomes
    &&& s1.scopes == s0.scopes
    &&& s1.url_lists == s0.url_lists
    &&& (a0.attributes.state == AgentState::Finished ==> r is Ok && a1 == a0 && fs1 == fs0 && s1
        == s0)
    &&& (a0.attributes.state == AgentState::Working || a0.attributes.state
        == AgentState::UnitTesting ==> r is Ok && a1.attributes.state == AgentState::Finished
        && fs1 == fs0 && s1.model == s0.model)
    &&& (a0.attributes.state == AgentState::Discovery ==> {
        let run = spec_architect_run(fs0, s0);
        &&& r == run.result
        &&& fs1.project_scope == run.final_scope
        &&& spec_opt_view(fs1.external_urls) == run.final_urls
        &&& s1.model.calls@ == s0.model.calls@ + run.calls
        &&& s1.model.attempts == s0.model.attempts + run.attempts_consumed
        &&& s1.next_scope == s0.next_scope + run.scopes_consumed
        &&& s1.next_urls == s0.next_urls + run.urls_consumed
        &&& s1.states@ == s0.states@ + run.entered
        &&& (r is Ok ==> a1.attributes.state == AgentState::Finished)
    })
}

/// The solution architect stage.
#[derive(Debug, PartialEq)]
pub struct AgentSolutionArchitect {
    pub attributes: BasicAgent,
}

impl AgentSolutionArchitect {
    /// A fresh solution architect in the `Discovery` state.
    pub fn new() -> (r: AgentSolutionArchitect)
        ensures
            r.attributes.position@ == "Solutions Architect"@,
            r.attributes.objective@
                == "Gathers information and design solutions for website builds"@,
            r.attributes.state == AgentState::Discovery,
            r.attributes.memory@ == Seq::<Message>::empty(),
    {
        AgentSolutionArchitect {
            attributes: BasicAgent::new(
                String::from_str("Gathers information and design solutions for website builds"),
                String::from_str("Solutions Architect"),
            ),
        }
    }


    /// The stage's attributes, for the orchestrator's inspection.
    pub fn get_attributes_from_agent(&self) -> (r: &BasicAgent)
        ensures
            r == &self.attributes,
    {
        &self.attributes
    }

    /// Runs the stage. From `Discovery` the run behaves exactly as
    /// `spec_architect_run` lays out: the scope classification is stored
    /// whenever it decodes, the URL gathering happens only when the scope
    /// asks for external data, and every failure is fatal to the stage.
    #[verifier::rlimit(50)]
    pub fn execute(&mut self, factsheet: &mut FactSheet, session: &mut ArchitectSession) -> (r:
        Result<(), AgentError>)
        ensures
            spec_architect_execute_holds(
                *old(self),
                *old(factsheet),
                *old(session),
                *final(self),
                *final(factsheet),
                *final(session),
                r,
            ),
    {
        match self.attributes.state {
            AgentState::Finished => Ok(()),
            AgentState::Working | AgentState::UnitTesting => {
                self.attributes.update_state(AgentState::Finished);
                Ok(())
            },
            AgentState::Discovery => {
                proof {
                    assert(old(session).states@ + Seq::<AgentState>::empty()
                        =~= old(session).states@);
                }
                let scope_req: Result<String, AgentError> = session.model.request(
                    InstructionKey::PrintProjectScope,
                );
                proof {
                    assert(session.model.calls@ =~= old(session).model.calls@ + seq![
                        InstructionKey::PrintProjectScope,
                    ]);
                }
                let _scope_text: String = match scope_req {
                    Ok(text) => text,
                    Err(e) => {
                        return Err(e);
                    },
                };
                if session.next_scope >= session.scopes.len() {
                    return Err(AgentError::ScriptExhausted);
                }
                let decoded: Option<ProjectScope> = session.scopes[session.next_scope];
                session.next_scope = session.next_scope + 1;
                let scope: ProjectScope = match decoded {
                    Some(scope) => scope,
                    None => {
                        return Err(AgentError::DecodeFailure);
                    },
                };
                let valid: bool = scope.is_crud_required || scope.is_user_login_and_logout
                    || scope.is_external_urls_required;
                if !valid {
                    return Err(AgentError::InvalidScope);
                }
                factsheet.project_scope = Some(scope);
                if !scope.is_external_urls_required {
                    self.attributes.update_state(AgentState::Finished);
                    session.states.push(AgentState::Finished);
                    proof {
                        assert(session.states@ =~= old(session).states@ + seq![
                            AgentState::Finished,
                        ]);
                    }
                    return Ok(());
                }
                let urls_req: Result<String, AgentError> = session.model.request(
                    InstructionKey::PrintSiteUrls,
                );
                proof {
                    assert(session.model.calls@ =~= old(session).model.calls@ + seq![
                        InstructionKey::PrintProjectScope,
                        InstructionKey::PrintSiteUrls,
                    ]);
                }
                let _urls_text: String = match urls_req {
                    Ok(text) => text,
                    Err(e) => {
                        return Err(e);
                    },
                };
                if session.next_urls >= session.url_lists.len() {
                    return Err(AgentError::ScriptExhausted);
                }
                let has_urls: bool = session.url_lists[session.next_urls].is_some();
                if !has_urls {
                    session.next_urls = session.next_urls + 1;
                    return Err(AgentError::DecodeFailure);
                }
                let urls: Vec<String> = clone_url_list(&session.url_lists[session.next_urls]);
                session.next_urls = session.next_urls + 1;
                factsheet.external_urls = Some(urls);
                self.attributes.update_state(AgentState::UnitTesting);
                session.states.push(AgentState::UnitTesting);
                self.attributes.update_state(AgentState::Finished);
                session.states.push(AgentState::Finished);
                proof {
                    assert(session.states@ =~= old(session).states@ + seq![
                        AgentState::UnitTesting,
                        AgentState::Finished,
                    ]);
                }
                Ok(())
            },
        }
    }
}

/// Clones a decoded URL list out of its channel slot.
fn clone_url_list(slot: &Option<Vec<String>>) -> (r: Vec<String>)
    requires
        (*slot) is Some,
    ensures
        r@ == (*slot)->0@,
{
    match slot {
        Some(urls) => {
            let mut out: Vec<String> = Vec::new();
            let mut i: usize = 0;
            while i < urls.len()
                invariant
                    i <= urls@.len(),
                    out@ == urls@.take(i as int),
                    urls@ == (*slot)->0@,
                decreases urls@.len() - i,
            {
                out.push(urls[i].clone());
                proof {
                    assert(urls@.take(i + 1) =~= urls@.take(i as int).push(urls@[i as int]));
                }
                i = i + 1;
            }
            proof {
                assert(urls@.take(urls@.len() as int) =~= urls@);
            }
            out
        },
        None => Vec::new(),
    }
}

} // verus!
