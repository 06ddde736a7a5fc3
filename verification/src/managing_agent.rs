//! The orchestrator: one model round trip turns the raw user request into
//! the project description, then the four stages run strictly in their
//! fixed order - solution architect, URL manager, backend developer,
//! frontend developer - over the one shared record. Any fatal stage error
//! aborts the run.

use vstd::prelude::*;
use crate::agent_traits::FactSheet;
use crate::backend_developer::{AgentBackendDeveloper, BackendSession, spec_backend_execute_holds};
use crate::basic_agent::{AgentState, BasicAgent};
use crate::frontend_developer::{AgentFrontendDeveloper, FrontendSession, spec_frontend_execute_holds};
use crate::general::Workspace;
use crate::instructions::InstructionKey;
use crate::llm::Message;
use crate::session::{AgentError, ModelScript};
use crate::solution_architect::{AgentSolutionArchitect, ArchitectSession, spec_architect_execute_holds};
use crate::url_manager::{AgentUrlManager, UrlSession, spec_url_execute_holds};

verus! {

/// The channels of all four stages, answered independently so that each
/// stage's consumption stays exactly as its own contract lays it out.
#[derive(Debug, PartialEq)]
pub struct PipelineSession {
    pub architect: ArchitectSession,
    pub urls: UrlSession,
    pub backend: BackendSession,
    pub frontend: FrontendSession,
}

/// The orchestrator and everything it owns: its own attributes, the
/// shared record, and the four stages in their fixed execution order.
#[derive(Debug, PartialEq)]
pub struct ManagingAgent {
    pub attributes: BasicAgent,
    pub factsheet: FactSheet,
    pub architect: AgentSolutionArchitect,
    pub url_manager: AgentUrlManager,
    pub backend_developer: AgentBackendDeveloper,
    pub frontend_developer: AgentFrontendDeveloper,
}

/// One way a whole pipeline run fits together: the record as the
/// architect left it (`fs_a`), as the URL manager left it (`fs_u`), the
/// workspace as the backend left it (`ws_b`), and the three leading stage
/// results. Each stage's own `execute` relation must hold on its slice,
/// in the fixed order, and the first failing stage ends the run with its
/// error, leaving the later stages and their channels untouched.
pub open spec fn spec_pipeline_stitch(
    m0: ManagingAgent,
    ws0: Workspace,
    s0: PipelineSession,
    m1: ManagingAgent,
    ws1: Workspace,
    s1: PipelineSession,
    r: Result<(), AgentError>,
    fs_a: FactSheet,
    fs_u: FactSheet,
    ws_b: Workspace,
    r_a: Result<(), AgentError>,
    r_u: Result<(), AgentError>,
    r_b: Result<(), AgentError>,
) -> bool {
    &&& spec_architect_execute_holds(
        m0.architect,
        m0.factsheet,
        s0.architect,
        m1.architect,
        fs_a,
        s1.architect,
        r_a,
    )
    &&& (r_a is Err ==> r == r_a && m1.factsheet == fs_a && ws1 == ws0 && s1.urls == s0.urls
        && s1.backend == s0.backend && s1.frontend == s0.frontend && m1.url_manager
        == m0.url_manager && m1.backend_developer == m0.backend_developer
        && m1.frontend_developer == m0.frontend_developer)
    &&& (r_a is Ok ==> {
        &&& spec_url_execute_holds(
            m0.url_manager,
            fs_a,
            s0.urls,
            m1.url_manager,
            fs_u,
            s1.urls,
            r_u,
        )
        &&& (r_u is Err ==> r == r_u && m1.factsheet == fs_u && ws1 == ws0 && s1.backend
            == s0.backend && s1.frontend == s0.frontend && m1.backend_developer
            == m0.backend_developer && m1.frontend_developer == m0.frontend_developer)
        &&& (r_u is Ok ==> {
            &&& spec_backend_execute_holds(
                m0.backend_developer,
                fs_u,
                ws0,
                s0.backend,
                m1.backend_developer,
                m1.factsheet,
                ws_b,
                s1.backend,
                r_b,
            )
            &&& (r_b is Err ==> r == r_b && ws1 == ws_b && s1.frontend == s0.frontend
                && m1.frontend_developer == m0.frontend_developer)
            &&& (r_b is Ok ==> spec_frontend_execute_holds(
                m0.frontend_developer,
                m1.factsheet,
                ws_b,
                s0.frontend,
                m1.frontend_developer,
                m1.factsheet,
                ws1,
                s1.frontend,
                r,
            ))
        })
    })
}

impl ManagingAgent {
    /// Creates the orchestrator: one model round trip (no retry) converts
    /// the raw user request into the project description the record
    /// starts from; a failed round trip aborts.
    pub fn new(usr_req: String, model: &mut ModelScript) -> (r: Result<ManagingAgent, AgentError>)
        ensures
            final(model).outcomes == old(model).outcomes,
            final(model).calls@ == old(model).calls@.push(InstructionKey::ConvertUserInputToGoal),
            old(model).attempts < old(model).outcomes@.len() && old(model).outcomes@[old(
                model,
            ).attempts as int] is Some ==> final(model).attempts == old(model).attempts + 1
                && r is Ok,
            match r {
                Ok(agent) => {
                    &&& old(model).attempts < old(model).outcomes@.len()
                    &&& old(model).outcomes@[old(model).attempts as int] is Some
                    &&& agent.attributes.position@ == "Project Manager"@
                    &&& agent.attributes.objective@
                        == "manage agents who are building a website for an end user"@
                    &&& agent.attributes.state == AgentState::Discovery
                    &&& agent.attributes.memory@.len() == 1
                    &&& agent.attributes.memory@[0].role@ == "user"@
                    &&& agent.attributes.memory@[0].content == usr_req
                    &&& agent.factsheet.project_description == old(model).outcomes@[old(
                        model,
                    ).attempts as int]->0
                    &&& agent.factsheet.project_scope is None
                    &&& agent.factsheet.external_urls is None
                    &&& agent.factsheet.backend_code is None
                    &&& agent.factsheet.api_endpoint_schema is None
                    &&& agent.architect.attributes.state == AgentState::Discovery
                    &&& agent.url_manager.attributes.state == AgentState::Discovery
                    &&& agent.backend_developer.attributes.state == AgentState::Discovery
                    &&& agent.backend_developer.bug_count == 0
                    &&& agent.frontend_developer.attributes.state == AgentState::Discovery
                    &&& agent.frontend_developer.bug_count == 0
                },
                Err(e) => e == AgentError::ModelFailure && (old(model).attempts >= old(
                    model,
                ).outcomes@.len() || old(model).outcomes@[old(model).attempts as int] is None),
            },
    {
        model.calls.push(InstructionKey::ConvertUserInputToGoal);
        if model.attempts >= model.outcomes.len() {
            return Err(AgentError::ModelFailure);
        }
        let answered: bool = model.outcomes[model.attempts].is_some();
        if !answered {
            model.attempts = model.attempts + 1;
            return Err(AgentError::ModelFailure);
        }
        let project_description: String = match &model.outcomes[model.attempts] {
            Some(text) => text.clone(),
            None => String::new(),
        };
        model.attempts = model.attempts + 1;
        let mut attributes: BasicAgent = BasicAgent::new(
            String::from_str("manage agents who are building a website for an end user"),
            String::from_str("Project Manager"),
        );
        attributes.add_memory(Message { role: String::from_str("user"), content: usr_req });
        Ok(
            ManagingAgent {
                attributes,
                factsheet: FactSheet::new(project_description),
                architect: AgentSolutionArchitect::new(),
                url_manager: AgentUrlManager::new(),
                backend_developer: AgentBackendDeveloper::new(),
                frontend_developer: AgentFrontendDeveloper::new(),
            },
        )
    }

    /// Runs the four stages strictly in order over the shared record,
    /// stopping at the first fatal stage error: the run is a stitch of the
    /// four stage relations, with each later stage starting from exactly
    /// what the previous one left behind.
    pub fn execute_project(&mut self, workspace: &mut Workspace, session: &mut PipelineSession)
        -> (r: Result<(), AgentError>)
        ensures
            final(self).attributes == old(self).attributes,
            final(self).factsheet.project_description == old(self).factsheet.project_description,
            r is Ok ==> final(self).architect.attributes.state == AgentState::Finished
                && final(self).url_manager.attributes.state == AgentState::Finished
                && final(self).backend_developer.attributes.state == AgentState::Finished
                && final(self).frontend_developer.attributes.state == AgentState::Finished,
            exists|
                fs_a: FactSheet,
                fs_u: FactSheet,
                ws_b: Workspace,
                r_a: Result<(), AgentError>,
                r_u: Result<(), AgentError>,
                r_b: Result<(), AgentError>,
            |
                #[trigger] spec_pipeline_stitch(
                    *old(self),
                    *old(workspace),
                    *old(session),
                    *final(self),
                    *final(workspace),
                    *final(session),
                    r,
                    fs_a,
                    fs_u,
                    ws_b,
                    r_a,
                    r_u,
                    r_b,
                ),
    {
        let architect_run: Result<(), AgentError> = self.architect.execute(
            &mut self.factsheet,
            &mut session.architect,
        );
        let ghost fs_a = self.factsheet;
        if architect_run.is_err() {
            proof {
                assert(spec_pipeline_stitch(
                    *old(self),
                    *old(workspace),
                    *old(session),
                    *self,
                    *workspace,
                    *session,
                    architect_run,
                    fs_a,
                    fs_a,
                    *workspace,
                    architect_run,
                    Ok(()),
                    Ok(()),
                ));
            }
            return architect_run;
        }
        let urls_run: Result<(), AgentError> = self.url_manager.execute(
            &mut self.factsheet,
            &mut session.urls,
        );
        let ghost fs_u = self.factsheet;
        if urls_run.is_err() {
            proof {
                assert(spec_pipeline_stitch(
                    *old(self),
                    *old(workspace),
                    *old(session),
                    *self,
                    *workspace,
                    *session,
                    urls_run,
                    fs_a,
                    fs_u,
                    *workspace,
                    architect_run,
                    urls_run,
                    Ok(()),
                ));
            }
            return urls_run;
        }
        let backend_run: Result<(), AgentError> = self.backend_developer.execute(
            &mut self.factsheet,
            workspace,
            &mut session.backend,
        );
        let ghost ws_b = *workspace;
        if backend_run.is_err() {
            proof {
                assert(spec_pipeline_stitch(
                    *old(self),
                    *old(workspace),
                    *old(session),
                    *self,
                    *workspace,
                    *session,
                    backend_run,
                    fs_a,
                    fs_u,
                    ws_b,
                    architect_run,
                    urls_run,
                    backend_run,
                ));
            }
            return backend_run;
        }
        let frontend_run: Result<(), AgentError> = self.frontend_developer.execute(
            &mut self.factsheet,
            workspace,
            &mut session.frontend,
        );
        proof {
            assert(spec_pipeline_stitch(
                *old(self),
                *old(workspace),
                *old(session),
                *self,
                *workspace,
                *session,
                frontend_run,
                fs_a,
                fs_u,
                ws_b,
                architect_run,
                urls_run,
                backend_run,
            ));
        }
        frontend_run
    }
}

} // verus!
