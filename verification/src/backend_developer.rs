//! The backend developer stage, the heart of the engine: synthesize server
//! code, gate it behind the operator, build it, repair it under a bounded
//! bug ceiling, then extract and persist its route schema and probe the
//! safely testable routes.
//!
//! The stage's transition table:
//! `Discovery -> Working -> UnitTesting -> { Working on failure | Finished }`.
//! Every decision is pinned by `spec_backend_cycle` (the repair loop) and
//! `spec_backend_post` (the schema and probe phase). The context each
//! instruction sends is the corresponding builder in `instructions`.

use vstd::prelude::*;
use crate::agent_traits::{
    FactSheet, RouteObject, scope_needs_backend, spec_testable_routes, testable_routes,
};
use crate::basic_agent::{AgentState, BasicAgent};
use crate::general::Workspace;
use crate::instructions::InstructionKey;
use crate::llm::Message;
use crate::session::{
    AgentError, BuildOutcome, ModelScript, ProbeOutcome, spec_request_consumed,
    spec_request_result,
};

verus! {

/// How many consecutive build failures the repair loop tolerates before
/// one more failure aborts the stage.
pub const BACKEND_BUG_CEILING: u8 = 2;

/// The channels the backend developer consumes: the completion service,
/// the operator gate, the build verifier, the route-schema extractor and
/// the route prober, plus the trace of states entered.
#[derive(Debug, PartialEq)]
pub struct BackendSession {
    pub model: ModelScript,
    pub confirmations: Vec<bool>,
    pub next_confirmation: usize,
    pub builds: Vec<BuildOutcome>,
    pub next_build: usize,
    pub extractions: Vec<Option<Vec<RouteObject>>>,
    pub next_extraction: usize,
    pub probes: Vec<ProbeOutcome>,
    pub next_probe: usize,
    pub states: Vec<AgentState>,
}

impl BackendSession {
    /// A session answering from the given scripts.
    pub fn new(
        model: ModelScript,
        confirmations: Vec<bool>,
        builds: Vec<BuildOutcome>,
        extractions: Vec<Option<Vec<RouteObject>>>,
        probes: Vec<ProbeOutcome>,
    ) -> (r: BackendSession)
        ensures
            r.model == model,
            r.confirmations == confirmations,
            r.next_confirmation == 0,
            r.builds == builds,
            r.next_build == 0,
            r.extractions == extractions,
            r.next_extraction == 0,
            r.probes == probes,
            r.next_probe == 0,
            r.states@ == Seq::<AgentState>::empty(),
    {
        BackendSession {
            model,
            confirmations,
            next_confirmation: 0,
            builds,
            next_build: 0,
            extractions,
            next_extraction: 0,
            probes,
            next_probe: 0,
            states: Vec::new(),
        }
    }
}

/// Everything one pass of the repair cycle settles, starting from the
/// `Working` state: result, channel consumption, the instruction calls
/// made, and how the stage's own fields end up. `final_code` and
/// `final_errors` are `None` when the run never overwrote that field.
pub struct CycleRun {
    pub result: Result<(), AgentError>,
    pub calls: Seq<InstructionKey>,
    pub attempts_consumed: int,
    pub confirms_consumed: int,
    pub builds_consumed: int,
    pub final_bug_count: int,
    pub final_code: Option<Seq<char>>,
    pub final_errors: Option<Seq<char>>,
    pub final_state: AgentState,
    pub entered: Seq<AgentState>,
}

/// The repair cycle, `Working <-> UnitTesting`, played out against the
/// scripts: ask for improved code (or, once there are bugs on record, for
/// fixed code), gate it, build it; a failing build increments the bug
/// count and loops back, one failure beyond the ceiling aborts, a passing
/// build resets the bug count and hands over to the post phase.
pub open spec fn spec_backend_cycle(
    bug: int,
    outcomes: Seq<Option<String>>,
    attempts: int,
    confirms: Seq<bool>,
    nc: int,
    builds: Seq<BuildOutcome>,
    nb: int,
) -> CycleRun
    decreases builds.len() - nb,
{
    let key = if bug == 0 {
        InstructionKey::PrintImprovedWebserverCode
    } else {
        InstructionKey::PrintFixedCode
    };
    let mr = spec_request_result(outcomes, attempts);
    let c1 = spec_request_consumed(outcomes, attempts);
    if mr is Err {
        CycleRun {
            result: Err(AgentError::ModelFailure),
            calls: seq![key],
            attempts_consumed: c1,
            confirms_consumed: 0,
            builds_consumed: 0,
            final_bug_count: bug,
            final_code: None,
            final_errors: None,
            final_state: AgentState::Working,
            entered: Seq::<AgentState>::empty(),
        }
    } else {
        let code = mr->Ok_0@;
        if nc >= confirms.len() {
            CycleRun {
                result: Err(AgentError::ScriptExhausted),
                calls: seq![key],
                attempts_consumed: c1,
                confirms_consumed: 0,
                builds_consumed: 0,
                final_bug_count: bug,
                final_code: Some(code),
                final_errors: None,
                final_state: AgentState::UnitTesting,
                entered: seq![AgentState::UnitTesting],
            }
        } else if !confirms[nc] {
            CycleRun {
                result: Err(AgentError::OperatorRejected),
                calls: seq![key],
                attempts_consumed: c1,
                confirms_consumed: 1,
                builds_consumed: 0,
                final_bug_count: bug,
                final_code: Some(code),
                final_errors: None,
                final_state: AgentState::UnitTesting,
                entered: seq![AgentState::UnitTesting],
            }
        } else if nb >= builds.len() {
            CycleRun {
                result: Err(AgentError::ScriptExhausted),
                calls: seq![key],
                attempts_consumed: c1,
                confirms_consumed: 1,
                builds_consumed: 0,
                final_bug_count: bug,
                final_code: Some(code),
                final_errors: None,
                final_state: AgentState::UnitTesting,
                entered: seq![AgentState::UnitTesting],
            }
        } else if builds[nb].success {
            CycleRun {
                result: Ok(()),
                calls: seq![key],
                attempts_consumed: c1,
                confirms_consumed: 1,
                builds_consumed: 1,
                final_bug_count: 0,
                final_code: Some(code),
                final_errors: None,
                final_state: AgentState::UnitTesting,
                entered: seq![AgentState::UnitTesting],
            }
        } else if bug + 1 > BACKEND_BUG_CEILING as int {
            CycleRun {
                result: Err(AgentError::TooManyBugs),
                calls: seq![key],
                attempts_consumed: c1,
                confirms_consumed: 1,
                builds_consumed: 1,
                final_bug_count: bug + 1,
                final_code: Some(code),
                final_errors: Some(builds[nb].diagnostics@),
                final_state: AgentState::UnitTesting,
                entered: seq![AgentState::UnitTesting],
            }
        } else {
            let rest = spec_backend_cycle(bug + 1, outcomes, attempts + c1, confirms, nc + 1, builds, nb + 1);
            CycleRun {
                result: rest.result,
                calls: seq![key] + rest.calls,
                attempts_consumed: c1 + rest.attempts_consumed,
                confirms_consumed: 1 + rest.confirms_consumed,
                builds_consumed: 1 + rest.builds_consumed,
                final_bug_count: rest.final_bug_count,
                final_code: if rest.final_code is Some {
                    rest.final_code
                } else {
                    Some(code)
                },
                final_errors: if rest.final_errors is Some {
                    rest.final_errors
                } else {
                    Some(builds[nb].diagnostics@)
                },
                final_state: rest.final_state,
                entered: seq![AgentState::UnitTesting, AgentState::Working] + rest.entered,
            }
        }
    }
}

/// A repair cycle that hands over (`Ok`) always does so from
/// `UnitTesting`, with the bug count reset to zero.
pub proof fn lemma_cycle_ok_state(
    bug: int,
    outcomes: Seq<Option<String>>,
    attempts: int,
    confirms: Seq<bool>,
    nc: int,
    builds: Seq<BuildOutcome>,
    nb: int,
)
    ensures
        ({
            let run = spec_backend_cycle(bug, outcomes, attempts, confirms, nc, builds, nb);
            run.result is Ok ==> run.final_state == AgentState::UnitTesting
                && run.final_bug_count == 0
        }),
    decreases builds.len() - nb,
{
    let mr = spec_request_result(outcomes, attempts);
    let c1 = spec_request_consumed(outcomes, attempts);
    if mr is Ok && nc < confirms.len() && confirms[nc] && nb < builds.len()
        && !builds[nb].success && bug + 1 <= BACKEND_BUG_CEILING as int {
        lemma_cycle_ok_state(bug + 1, outcomes, attempts + c1, confirms, nc + 1, builds, nb + 1);
    }
}

/// Everything the post-build phase settles: result, channel consumption,
/// and the route schema as it lands on the record and in durable storage.
pub struct PostRun {
    pub result: Result<(), AgentError>,
    pub extractions_consumed: int,
    pub probes_consumed: int,
    pub record_schema: Option<Seq<RouteObject>>,
    pub stored_schema: Option<Seq<RouteObject>>,
    pub entered: Seq<AgentState>,
}

/// The post-build phase, from `UnitTesting` after a passing build: re-read
/// the stored backend source, have its route schema extracted (a decode
/// failure is fatal), store the unfiltered schema on the record, probe
/// each safely testable route once (outcomes are advisory), persist the
/// schema, finish.
pub open spec fn spec_backend_post(
    stored_present: bool,
    extractions: Seq<Option<Vec<RouteObject>>>,
    ne: int,
    probes: Seq<ProbeOutcome>,
    np: int,
) -> PostRun {
    if !stored_present {
        PostRun {
            result: Err(AgentError::StorageMissing),
            extractions_consumed: 0,
            probes_consumed: 0,
            record_schema: None,
            stored_schema: None,
            entered: Seq::<AgentState>::empty(),
        }
    } else if ne >= extractions.len() {
        PostRun {
            result: Err(AgentError::ScriptExhausted),
            extractions_consumed: 0,
            probes_consumed: 0,
            record_schema: None,
            stored_schema: None,
            entered: Seq::<AgentState>::empty(),
        }
    } else if extractions[ne] is None {
        PostRun {
            result: Err(AgentError::DecodeFailure),
            extractions_consumed: 1,
            probes_consumed: 0,
            record_schema: None,
            stored_schema: None,
            entered: Seq::<AgentState>::empty(),
        }
    } else {
        let routes = extractions[ne]->0@;
        let testable = spec_testable_routes(routes);
        if np + testable.len() > probes.len() {
            PostRun {
                result: Err(AgentError::ScriptExhausted),
                extractions_consumed: 1,
                probes_consumed: 0,
                record_schema: Some(routes),
                stored_schema: None,
                entered: Seq::<AgentState>::empty(),
            }
        } else {
            PostRun {
                result: Ok(()),
                extractions_consumed: 1,
                probes_consumed: testable.len() as int,
                record_schema: Some(routes),
                stored_schema: Some(routes),
                entered: seq![AgentState::Finished],
            }
        }
    }
}

/// The backend developer stage.
#[derive(Debug, PartialEq)]
pub struct AgentBackendDeveloper {
    pub attributes: BasicAgent,
    pub bug_errors: Option<String>,
    pub bug_count: u8,
}

impl AgentBackendDeveloper {
    /// A fresh backend developer in the `Discovery` state with no bugs on
    /// record.
    pub fn new() -> (r: AgentBackendDeveloper)
        ensures
            r.attributes.position@ == "Backend Developer"@,
            r.attributes.objective@ == "Develops backend code for webserver and json database"@,
            r.attributes.state == AgentState::Discovery,
            r.attributes.memory@ == Seq::<Message>::empty(),
            r.bug_errors is None,
            r.bug_count == 0,
    {
        AgentBackendDeveloper {
            attributes: BasicAgent::new(
                String::from_str("Develops backend code for webserver and json database"),
                String::from_str("Backend Developer"),
            ),
            bug_errors: None,
            bug_count: 0,
        }
    }


    /// The stage's attributes, for the orchestrator's inspection.
    pub fn get_attributes_from_agent(&self) -> (r: &BasicAgent)
        ensures
            r == &self.attributes,
    {
        &self.attributes
    }

    /// Which code-producing instruction the `Working` state issues next:
    /// improve when no bugs are on record, fix otherwise.
    pub fn next_code_instruction(&self) -> (key: InstructionKey)
        ensures
            key == (if self.bug_count == 0 {
                InstructionKey::PrintImprovedWebserverCode
            } else {
                InstructionKey::PrintFixedCode
            }),
    {
        if self.bug_count == 0 {
            InstructionKey::PrintImprovedWebserverCode
        } else {
            InstructionKey::PrintFixedCode
        }
    }

    /// Records a passing build: the bug count resets.
    pub fn register_build_success(&mut self)
        ensures
            final(self).bug_count == 0,
            final(self).bug_errors == old(self).bug_errors,
            final(self).attributes == old(self).attributes,
    {
        self.bug_count = 0;
    }

    /// Records a failing build: the diagnostics land on the stage, the
    /// bug count rises, and the answer says whether the ceiling is now
    /// exceeded and the stage must abort.
    pub fn register_build_failure(&mut self, diagnostics: String) -> (abort: bool)
        ensures
            final(self).bug_errors == Some(diagnostics),
            final(self).attributes == old(self).attributes,
            abort == (old(self).bug_count >= BACKEND_BUG_CEILING),
            !abort ==> final(self).bug_count == old(self).bug_count + 1,
            abort ==> final(self).bug_count == BACKEND_BUG_CEILING + 1,
    {
        self.bug_errors = Some(diagnostics);
        if self.bug_count >= BACKEND_BUG_CEILING {
            self.bug_count = BACKEND_BUG_CEILING + 1;
            true
        } else {
            self.bug_count = self.bug_count + 1;
            false
        }
    }

    /// One repair cycle from `Working`, exactly as `spec_backend_cycle`
    /// lays it out.
    fn run_cycle(
        &mut self,
        factsheet: &mut FactSheet,
        workspace: &mut Workspace,
        session: &mut BackendSession,
    ) -> (r: Result<(), AgentError>)
        requires
            old(self).attributes.state == AgentState::Working,
            old(self).bug_count < 255,
        ensures
            ({
                let run = spec_backend_cycle(
                    old(self).bug_count as int,
                    old(session).model.outcomes@,
                    old(session).model.attempts as int,
                    old(session).confirmations@,
                    old(session).next_confirmation as int,
                    old(session).builds@,
                    old(session).next_build as int,
                );
                &&& r == run.result
                &&& final(session).model.outcomes == old(session).model.outcomes
                &&& final(session).model.calls@ == old(session).model.calls@ + run.calls
                &&& final(session).model.attempts == old(session).model.attempts
                    + run.attempts_consumed
                &&& final(session).confirmations == old(session).confirmations
                &&& final(session).next_confirmation == old(session).next_confirmation
                    + run.confirms_consumed
                &&& final(session).builds == old(session).builds
                &&& final(session).next_build == old(session).next_build + run.builds_consumed
                &&& final(session).extractions == old(session).extractions
                &&& final(session).next_extraction == old(session).next_extraction
                &&& final(session).probes == old(session).probes
                &&& final(session).next_probe == old(session).next_probe
                &&& final(session).states@ == old(session).states@ + run.entered
                &&& final(self).bug_count as int == run.final_bug_count
                &&& final(self).attributes.state == run.final_state
                &&& final(self).attributes.position == old(self).attributes.position
                &&& final(self).attributes.objective == old(self).attributes.objective
                &&& final(self).attributes.memory == old(self).attributes.memory
                &&& match run.final_code {
                    Some(v) => final(factsheet).backend_code is Some
                        && final(factsheet).backend_code->0@ == v
                        && final(workspace).backend_code is Some
                        && final(workspace).backend_code->0@ == v,
                    None => final(factsheet).backend_code == old(factsheet).backend_code
                        && final(workspace).backend_code == old(workspace).backend_code,
                }
                &&& match run.final_errors {
                    Some(d) => final(self).bug_errors is Some && final(self).bug_errors->0@ == d,
                    None => final(self).bug_errors == old(self).bug_errors,
                }
                &&& final(factsheet).project_description == old(factsheet).project_description
                &&& final(factsheet).project_scope == old(factsheet).project_scope
                &&& final(factsheet).external_urls == old(factsheet).external_urls
                &&& final(factsheet).api_endpoint_schema == old(factsheet).api_endpoint_schema
                &&& final(workspace).code_template == old(workspace).code_template
                &&& final(workspace).api_schema == old(workspace).api_schema
                &&& final(workspace).frontend_files == old(workspace).frontend_files
            }),
        decreases old(session).builds@.len() - old(session).next_build,
    {
        let key: InstructionKey = if self.bug_count == 0 {
            InstructionKey::PrintImprovedWebserverCode
        } else {
            InstructionKey::PrintFixedCode
        };
        let req: Result<String, AgentError> = session.model.request(key);
        proof {
            assert(session.model.calls@ =~= old(session).model.calls@ + seq![key]);
        }
        let code: String = match req {
            Ok(code) => code,
            Err(e) => {
                return Err(e);
            },
        };
        workspace.save_backend_code(code.clone());
        factsheet.backend_code = Some(code);
        self.attributes.update_state(AgentState::UnitTesting);
        session.states.push(AgentState::UnitTesting);
        proof {
            assert(session.states@ =~= old(session).states@ + seq![AgentState::UnitTesting]);
        }
        if session.next_confirmation >= session.confirmations.len() {
            return Err(AgentError::ScriptExhausted);
        }
        let confirmed: bool = session.confirmations[session.next_confirmation];
        session.next_confirmation = session.next_confirmation + 1;
        if !confirmed {
            return Err(AgentError::OperatorRejected);
        }
        if session.next_build >= session.builds.len() {
            return Err(AgentError::ScriptExhausted);
        }
        let build: BuildOutcome = session.builds[session.next_build].clone();
        session.next_build = session.next_build + 1;
        if build.success {
            self.bug_count = 0;
            return Ok(());
        }
        self.bug_count = self.bug_count + 1;
        self.bug_errors = Some(build.diagnostics);
        if self.bug_count > BACKEND_BUG_CEILING {
            return Err(AgentError::TooManyBugs);
        }
        self.attributes.update_state(AgentState::Working);
        session.states.push(AgentState::Working);
        proof {
            assert(session.states@ =~= old(session).states@ + seq![
                AgentState::UnitTesting,
                AgentState::Working,
            ]);
        }
        let r: Result<(), AgentError> = self.run_cycle(factsheet, workspace, session);
        proof {
            let run = spec_backend_cycle(
                old(self).bug_count as int,
                old(session).model.outcomes@,
                old(session).model.attempts as int,
                old(session).confirmations@,
                old(session).next_confirmation as int,
                old(session).builds@,
                old(session).next_build as int,
            );
            assert(session.model.calls@ =~= old(session).model.calls@ + run.calls);
            assert(session.states@ =~= old(session).states@ + run.entered);
        }
        r
    }

    /// The post-build phase from `UnitTesting`, exactly as
    /// `spec_backend_post` lays it out.
    fn run_post(
        &mut self,
        factsheet: &mut FactSheet,
        workspace: &mut Workspace,
        session: &mut BackendSession,
    ) -> (r: Result<(), AgentError>)
        requires
            old(self).attributes.state == AgentState::UnitTesting,
        ensures
            ({
                let run = spec_backend_post(
                    old(workspace).backend_code is Some,
                    old(session).extractions@,
                    old(session).next_extraction as int,
                    old(session).probes@,
                    old(session).next_probe as int,
                );
                &&& r == run.result
                &&& final(session).model == old(session).model
                &&& final(session).confirmations == old(session).confirmations
                &&& final(session).next_confirmation == old(session).next_confirmation
                &&& final(session).builds == old(session).builds
                &&& final(session).next_build == old(session).next_build
                &&& final(session).extractions == old(session).extractions
                &&& final(session).next_extraction == old(session).next_extraction
                    + run.extractions_consumed
                &&& final(session).probes == old(session).probes
                &&& final(session).next_probe == old(session).next_probe + run.probes_consumed
                &&& final(session).states@ == old(session).states@ + run.entered
                &&& final(self).bug_count == old(self).bug_count
                &&& final(self).bug_errors == old(self).bug_errors
                &&& final(self).attributes.position == old(self).attributes.position
                &&& final(self).attributes.objective == old(self).attributes.objective
                &&& final(self).attributes.memory == old(self).attributes.memory
                &&& final(self).attributes.state == (if r is Ok {
                    AgentState::Finished
                } else {
                    old(self).attributes.state
                })
                &&& match run.record_schema {
                    Some(s) => final(factsheet).api_endpoint_schema is Some
                        && final(factsheet).api_endpoint_schema->0@ == s,
                    None => final(factsheet).api_endpoint_schema
                        == old(factsheet).api_endpoint_schema,
                }
                &&& match run.stored_schema {
                    Some(s) => final(workspace).api_schema is Some
                        && final(workspace).api_schema->0@ == s,
                    None => final(workspace).api_schema == old(workspace).api_schema,
                }
                &&& final(factsheet).project_description == old(factsheet).project_description
                &&& final(factsheet).project_scope == old(factsheet).project_scope
                &&& final(factsheet).external_urls == old(factsheet).external_urls
                &&& final(factsheet).backend_code == old(factsheet).backend_code
                &&& final(workspace).code_template == old(workspace).code_template
                &&& final(workspace).backend_code == old(workspace).backend_code
                &&& final(workspace).frontend_files == old(workspace).frontend_files
            }),
    {
        if workspace.backend_code.is_none() {
            return Err(AgentError::StorageMissing);
        }
        if session.next_extraction >= session.extractions.len() {
            return Err(AgentError::ScriptExhausted);
        }
        let has_routes: bool = session.extractions[session.next_extraction].is_some();
        if !has_routes {
            session.next_extraction = session.next_extraction + 1;
            return Err(AgentError::DecodeFailure);
        }
        let routes: Vec<RouteObject> = clone_route_list(
            &session.extractions[session.next_extraction],
        );
        session.next_extraction = session.next_extraction + 1;
        let testable: Vec<RouteObject> = testable_routes(&routes);
        factsheet.api_endpoint_schema = Some(clone_routes(&routes));
        let enough: bool = session.next_probe <= session.probes.len() && session.probes.len()
            - session.next_probe >= testable.len();
        if !enough {
            return Err(AgentError::ScriptExhausted);
        }
        session.next_probe = session.next_probe + testable.len();
        workspace.save_api_endpoints(routes);
        self.attributes.update_state(AgentState::Finished);
        session.states.push(AgentState::Finished);
        proof {
            assert(session.states@ =~= old(session).states@ + seq![AgentState::Finished]);
        }
        Ok(())
    }
}

/// Everything the backend developer's `execute` guarantees, as one
/// relation between the stage, the record, the workspace and the session
/// before (`a0`, `fs0`, `ws0`, `s0`) and after (`a1`, `fs1`, `ws1`, `s1`)
/// the call, and its result.
pub open spec fn spec_backend_execute_holds(
    a0: AgentBackendDeveloper,
    fs0: FactSheet,
    ws0: Workspace,
    s0: BackendSession,
    a1: AgentBackendDeveloper,
    fs1: FactSheet,
    ws1: Workspace,
    s1: BackendSession,
    r: Result<(), AgentError>,
) -> bool {
    &&& s1.model.outcomes == s0.model.outcomes
    &&& s1.confirmations == s0.confirmations
    &&& s1.builds == s0.builds
    &&& s1.extractions == s0.extractions
    &&& s1.probes == s0.probes
    &&& fs1.project_description == fs0.project_description
    &&& fs1.project_scope == fs0.project_scope
    &&& fs1.external_urls == fs0.external_urls
    &&& ws1.code_template == ws0.code_template
    &&& ws1.frontend_files == ws0.frontend_files
    &&& a1.attributes.position == a0.attributes.position
    &&& a1.attributes.objective == a0.attributes.objective
    &&& a1.attributes.memory == a0.attributes.memory
    &&& (r is Ok ==> a1.attributes.state == AgentState::Finished)
    &&& (a0.attributes.state == AgentState::Finished ==> r is Ok && a1 == a0 && fs1 == fs0 && ws1
        == ws0 && s1 == s0)
    &&& (a0.attributes.state != AgentState::Finished && fs0.project_scope is None ==> r
        == Err::<(), AgentError>(AgentError::ScopeMissing) && a1 == a0 && fs1 == fs0 && ws1 == ws0
        && s1 == s0)
    &&& (a0.attributes.state == AgentState::Discovery && fs0.project_scope is Some
        && !scope_needs_backend(fs0.project_scope->0) ==> r is Ok && fs1 == fs0 && ws1 == ws0
        && s1.model == s0.model && s1.next_confirmation == s0.next_confirmation && s1.next_build
        == s0.next_build && s1.next_extraction == s0.next_extraction && s1.next_probe
        == s0.next_probe && s1.states@ == s0.states@.push(AgentState::Finished) && a1.bug_count
        == a0.bug_count && a1.bug_errors == a0.bug_errors)
    &&& (a0.attributes.state == AgentState::Discovery && fs0.project_scope is Some
        && scope_needs_backend(fs0.project_scope->0) && a0.bug_count > BACKEND_BUG_CEILING ==> r
        == Err::<(), AgentError>(AgentError::TooManyBugs) && a1 == a0 && fs1 == fs0 && ws1 == ws0
        && s1 == s0)
    &&& (a0.attributes.state == AgentState::Discovery && fs0.project_scope is Some
        && scope_needs_backend(fs0.project_scope->0) && a0.bug_count <= BACKEND_BUG_CEILING
        ==> spec_backend_run_holds(a0, fs0, ws0, s0, a1, fs1, ws1, s1, r))
    &&& (a0.attributes.state == AgentState::Working && fs0.project_scope is Some && a0.bug_count
        <= BACKEND_BUG_CEILING ==> spec_backend_resume_holds(a0, fs0, ws0, s0, a1, fs1, ws1, s1, r))
    &&& (a0.attributes.state == AgentState::Working && fs0.project_scope is Some && a0.bug_count
        > BACKEND_BUG_CEILING ==> r == Err::<(), AgentError>(AgentError::TooManyBugs) && a1 == a0
        && fs1 == fs0 && ws1 == ws0 && s1 == s0)
    &&& (a0.attributes.state == AgentState::UnitTesting && fs0.project_scope is Some && r is Ok
        ==> a1.bug_count == 0 && fs1.api_endpoint_schema is Some && ws1.api_schema is Some)
    &&& (a0.attributes.state == AgentState::UnitTesting && fs0.project_scope is Some
        ==> spec_backend_ut_holds(a0, fs0, ws0, s0, a1, fs1, ws1, s1, r))
}

impl AgentBackendDeveloper {
    /// Runs the stage. The guard comes first: without a project scope the
    /// stage refuses to run, and a scope needing neither CRUD nor login
    /// finishes at once, touching nothing and calling no model. Otherwise
    /// the initial code call, the repair cycle and the post-build phase
    /// play out exactly as `spec_backend_cycle` and `spec_backend_post`
    /// lay out. A bug count already beyond the ceiling aborts at once.
    pub fn execute(
        &mut self,
        factsheet: &mut FactSheet,
        workspace: &mut Workspace,
        session: &mut BackendSession,
    ) -> (r: Result<(), AgentError>)
        ensures
            spec_backend_execute_holds(
                *old(self),
                *old(factsheet),
                *old(workspace),
                *old(session),
                *final(self),
                *final(factsheet),
                *final(workspace),
                *final(session),
                r,
            ),
    {
        match self.attributes.state {
            AgentState::Finished => Ok(()),
            AgentState::Discovery => {
                let scope = match factsheet.project_scope {
                    Some(scope) => scope,
                    None => {
                        return Err(AgentError::ScopeMissing);
                    },
                };
                if !scope.is_crud_required && !scope.is_user_login_and_logout {
                    self.attributes.update_state(AgentState::Finished);
                    session.states.push(AgentState::Finished);
                    return Ok(());
                }
                if self.bug_count > BACKEND_BUG_CEILING {
                    return Err(AgentError::TooManyBugs);
                }
                let req: Result<String, AgentError> = session.model.request(
                    InstructionKey::PrintBackendWebserverCode,
                );
                proof {
                    assert(session.model.calls@ =~= old(session).model.calls@ + seq![
                        InstructionKey::PrintBackendWebserverCode,
                    ]);
                }
                let code: String = match req {
                    Ok(code) => code,
                    Err(e) => {
                        return Err(e);
                    },
                };
                workspace.save_backend_code(code.clone());
                factsheet.backend_code = Some(code);
                self.attributes.update_state(AgentState::Working);
                session.states.push(AgentState::Working);
                proof {
                    assert(session.states@ =~= old(session).states@ + seq![AgentState::Working]);
                }
                let cycled: Result<(), AgentError> = self.run_cycle(factsheet, workspace, session);
                proof {
                    let cyc = spec_backend_cycle(
                        old(self).bug_count as int,
                        old(session).model.outcomes@,
                        old(session).model.attempts + spec_request_consumed(
                            old(session).model.outcomes@,
                            old(session).model.attempts as int,
                        ),
                        old(session).confirmations@,
                        old(session).next_confirmation as int,
                        old(session).builds@,
                        old(session).next_build as int,
                    );
                    assert(session.model.calls@ =~= old(session).model.calls@ + seq![
                        InstructionKey::PrintBackendWebserverCode,
                    ] + cyc.calls);
                    assert(session.states@ =~= old(session).states@ + seq![AgentState::Working]
                        + cyc.entered);
                }
                if cycled.is_err() {
                    return cycled;
                }
                proof {
                    lemma_cycle_ok_state(
                        old(self).bug_count as int,
                        old(session).model.outcomes@,
                        old(session).model.attempts + spec_request_consumed(
                            old(session).model.outcomes@,
                            old(session).model.attempts as int,
                        ),
                        old(session).confirmations@,
                        old(session).next_confirmation as int,
                        old(session).builds@,
                        old(session).next_build as int,
                    );
                }
                let ghost states_before_post = session.states@;
                let posted: Result<(), AgentError> = self.run_post(factsheet, workspace, session);
                proof {
                    let post = spec_backend_post(
                        true,
                        old(session).extractions@,
                        old(session).next_extraction as int,
                        old(session).probes@,
                        old(session).next_probe as int,
                    );
                    assert(session.states@ =~= states_before_post + post.entered);
                }
                posted
            },
            AgentState::Working => {
                if factsheet.project_scope.is_none() {
                    return Err(AgentError::ScopeMissing);
                }
                if self.bug_count > BACKEND_BUG_CEILING {
                    return Err(AgentError::TooManyBugs);
                }
                let cycled: Result<(), AgentError> = self.run_cycle(factsheet, workspace, session);
                if cycled.is_err() {
                    return cycled;
                }
                proof {
                    lemma_cycle_ok_state(
                        old(self).bug_count as int,
                        old(session).model.outcomes@,
                        old(session).model.attempts as int,
                        old(session).confirmations@,
                        old(session).next_confirmation as int,
                        old(session).builds@,
                        old(session).next_build as int,
                    );
                }
                self.run_post(factsheet, workspace, session)
            },
            AgentState::UnitTesting => {
                if factsheet.project_scope.is_none() {
                    return Err(AgentError::ScopeMissing);
                }
                if session.next_confirmation >= session.confirmations.len() {
                    return Err(AgentError::ScriptExhausted);
                }
                let confirmed: bool = session.confirmations[session.next_confirmation];
                session.next_confirmation = session.next_confirmation + 1;
                if !confirmed {
                    return Err(AgentError::OperatorRejected);
                }
                if session.next_build >= session.builds.len() {
                    return Err(AgentError::ScriptExhausted);
                }
                let build: BuildOutcome = session.builds[session.next_build].clone();
                session.next_build = session.next_build + 1;
                if build.success {
                    self.bug_count = 0;
                    return self.run_post(factsheet, workspace, session);
                }
                self.bug_errors = Some(build.diagnostics);
                if self.bug_count >= BACKEND_BUG_CEILING {
                    self.bug_count = BACKEND_BUG_CEILING + 1;
                    return Err(AgentError::TooManyBugs);
                }
                self.bug_count = self.bug_count + 1;
                self.attributes.update_state(AgentState::Working);
                session.states.push(AgentState::Working);
                let ghost bug_pre = self.bug_count as int;
                let ghost session_pre = *session;
                let cycled: Result<(), AgentError> = self.run_cycle(factsheet, workspace, session);
                proof {
                    let cyc = spec_backend_cycle(
                        bug_pre,
                        session_pre.model.outcomes@,
                        session_pre.model.attempts as int,
                        session_pre.confirmations@,
                        session_pre.next_confirmation as int,
                        session_pre.builds@,
                        session_pre.next_build as int,
                    );
                    assert(session.states@ =~= old(session).states@ + seq![AgentState::Working]
                        + cyc.entered);
                    assert(session.model.calls@ =~= old(session).model.calls@ + cyc.calls);
                }
                if cycled.is_err() {
                    return cycled;
                }
                proof {
                    lemma_cycle_ok_state(
                        bug_pre,
                        session_pre.model.outcomes@,
                        session_pre.model.attempts as int,
                        session_pre.confirmations@,
                        session_pre.next_confirmation as int,
                        session_pre.builds@,
                        session_pre.next_build as int,
                    );
                }
                let ghost states_mid = session.states@;
                let posted: Result<(), AgentError> = self.run_post(factsheet, workspace, session);
                proof {
                    let post = spec_backend_post(
                        workspace.backend_code is Some,
                        session_pre.extractions@,
                        session_pre.next_extraction as int,
                        session_pre.probes@,
                        session_pre.next_probe as int,
                    );
                    assert(session.states@ =~= states_mid + post.entered);
                }
                posted
            },
        }
    }
}

/// How the record, the workspace, the session and the stage end up when
/// the backend developer starts fresh in `Discovery` on a scope that needs
/// backend work: the initial code call, then the repair cycle, then - if
/// the cycle hands over - the post-build phase.
pub open spec fn spec_backend_run_holds(
    agent0: AgentBackendDeveloper,
    fs0: FactSheet,
    ws0: Workspace,
    s0: BackendSession,
    agent1: AgentBackendDeveloper,
    fs1: FactSheet,
    ws1: Workspace,
    s1: BackendSession,
    r: Result<(), AgentError>,
) -> bool {
    let o = s0.model.outcomes@;
    let a0 = s0.model.attempts as int;
    let mr1 = spec_request_result(o, a0);
    let c1 = spec_request_consumed(o, a0);
    &&& (mr1 is Err ==> {
        &&& r == Err::<(), AgentError>(AgentError::ModelFailure)
        &&& s1.model.calls@ == s0.model.calls@ + seq![
            InstructionKey::PrintBackendWebserverCode,
        ]
        &&& s1.model.attempts == a0 + c1
        &&& fs1.backend_code == fs0.backend_code
        &&& ws1.backend_code == ws0.backend_code
        &&& s1.states@ == s0.states@
        &&& s1.next_confirmation == s0.next_confirmation
        &&& s1.next_build == s0.next_build
        &&& s1.next_extraction == s0.next_extraction
        &&& s1.next_probe == s0.next_probe
    })
    &&& (mr1 is Ok ==> {
        let cyc = spec_backend_cycle(
            agent0.bug_count as int,
            o,
            a0 + c1,
            s0.confirmations@,
            s0.next_confirmation as int,
            s0.builds@,
            s0.next_build as int,
        );
        &&& s1.model.calls@ == s0.model.calls@ + seq![
            InstructionKey::PrintBackendWebserverCode,
        ] + cyc.calls
        &&& s1.model.attempts == a0 + c1 + cyc.attempts_consumed
        &&& s1.next_confirmation == s0.next_confirmation + cyc.confirms_consumed
        &&& s1.next_build == s0.next_build + cyc.builds_consumed
        &&& agent1.bug_count as int == cyc.final_bug_count
        &&& fs1.backend_code is Some
        &&& ws1.backend_code is Some
        &&& fs1.backend_code->0@ == (match cyc.final_code {
            Some(v) => v,
            None => mr1->Ok_0@,
        })
        &&& ws1.backend_code->0@ == fs1.backend_code->0@
        &&& (cyc.result is Err ==> {
            &&& r == cyc.result
            &&& s1.states@ == s0.states@ + seq![AgentState::Working] + cyc.entered
            &&& s1.next_extraction == s0.next_extraction
            &&& s1.next_probe == s0.next_probe
            &&& fs1.api_endpoint_schema == fs0.api_endpoint_schema
            &&& ws1.api_schema == ws0.api_schema
            &&& agent1.attributes.state == cyc.final_state
        })
        &&& (cyc.result is Ok ==> {
            let post = spec_backend_post(
                true,
                s0.extractions@,
                s0.next_extraction as int,
                s0.probes@,
                s0.next_probe as int,
            );
            &&& r == post.result
            &&& s1.states@ == s0.states@ + seq![AgentState::Working] + cyc.entered + post.entered
            &&& s1.next_extraction == s0.next_extraction + post.extractions_consumed
            &&& s1.next_probe == s0.next_probe + post.probes_consumed
            &&& (match post.record_schema {
                Some(sch) => fs1.api_endpoint_schema is Some && fs1.api_endpoint_schema->0@
                    == sch,
                None => fs1.api_endpoint_schema == fs0.api_endpoint_schema,
            })
            &&& (match post.stored_schema {
                Some(sch) => ws1.api_schema is Some && ws1.api_schema->0@ == sch,
                None => ws1.api_schema == ws0.api_schema,
            })
        })
    })
}

/// How everything ends up when the stage resumes from `Working` with a
/// bug count still within the ceiling: the repair cycle from the current
/// bug count, then - if it hands over - the post-build phase.
pub open spec fn spec_backend_resume_holds(
    agent0: AgentBackendDeveloper,
    fs0: FactSheet,
    ws0: Workspace,
    s0: BackendSession,
    agent1: AgentBackendDeveloper,
    fs1: FactSheet,
    ws1: Workspace,
    s1: BackendSession,
    r: Result<(), AgentError>,
) -> bool {
    let cyc = spec_backend_cycle(
        agent0.bug_count as int,
        s0.model.outcomes@,
        s0.model.attempts as int,
        s0.confirmations@,
        s0.next_confirmation as int,
        s0.builds@,
        s0.next_build as int,
    );
    &&& s1.model.calls@ == s0.model.calls@ + cyc.calls
    &&& s1.model.attempts == s0.model.attempts + cyc.attempts_consumed
    &&& s1.next_confirmation == s0.next_confirmation + cyc.confirms_consumed
    &&& s1.next_build == s0.next_build + cyc.builds_consumed
    &&& agent1.bug_count as int == cyc.final_bug_count
    &&& (match cyc.final_code {
        Some(v) => fs1.backend_code is Some && fs1.backend_code->0@ == v
            && ws1.backend_code is Some && ws1.backend_code->0@ == v,
        None => fs1.backend_code == fs0.backend_code && ws1.backend_code == ws0.backend_code,
    })
    &&& (match cyc.final_errors {
        Some(d) => agent1.bug_errors is Some && agent1.bug_errors->0@ == d,
        None => agent1.bug_errors == agent0.bug_errors,
    })
    &&& (cyc.result is Err ==> r == cyc.result && s1.states@ == s0.states@ + cyc.entered)
    &&& (cyc.result is Ok ==> {
        let post = spec_backend_post(
            (match cyc.final_code {
                Some(v) => true,
                None => ws0.backend_code is Some,
            }),
            s0.extractions@,
            s0.next_extraction as int,
            s0.probes@,
            s0.next_probe as int,
        );
        &&& r == post.result
        &&& s1.states@ == s0.states@ + cyc.entered + post.entered
        &&& s1.next_extraction == s0.next_extraction + post.extractions_consumed
        &&& s1.next_probe == s0.next_probe + post.probes_consumed
        &&& (match post.record_schema {
            Some(sch) => fs1.api_endpoint_schema is Some && fs1.api_endpoint_schema->0@ == sch,
            None => fs1.api_endpoint_schema == fs0.api_endpoint_schema,
        })
        &&& (match post.stored_schema {
            Some(sch) => ws1.api_schema is Some && ws1.api_schema->0@ == sch,
            None => ws1.api_schema == ws0.api_schema,
        })
    })
}

/// Against a build verifier that always fails (with the operator
/// approving and the completion service answering every request), the
/// repair cycle from a clean bug count invokes the improve instruction
/// once, then the fix instruction exactly `BACKEND_BUG_CEILING` times, and
/// then aborts with `TooManyBugs` - it never loops unboundedly.
pub proof fn lemma_backend_repair_bounded(
    outcomes: Seq<Option<String>>,
    attempts: int,
    confirms: Seq<bool>,
    nc: int,
    builds: Seq<BuildOutcome>,
    nb: int,
)
    requires
        0 <= attempts,
        attempts + 3 <= outcomes.len(),
        forall|i: int| attempts <= i < attempts + 3 ==> outcomes[i] is Some,
        0 <= nc,
        nc + 3 <= confirms.len(),
        forall|i: int| nc <= i < nc + 3 ==> confirms[i],
        0 <= nb,
        nb + 3 <= builds.len(),
        forall|i: int| nb <= i < nb + 3 ==> !builds[i].success,
    ensures
        ({
            let run = spec_backend_cycle(0, outcomes, attempts, confirms, nc, builds, nb);
            &&& run.result == Err::<(), AgentError>(AgentError::TooManyBugs)
            &&& run.calls == seq![
                InstructionKey::PrintImprovedWebserverCode,
                InstructionKey::PrintFixedCode,
                InstructionKey::PrintFixedCode,
            ]
            &&& run.final_bug_count == BACKEND_BUG_CEILING as int + 1
            &&& run.attempts_consumed == 3
            &&& run.confirms_consumed == 3
            &&& run.builds_consumed == 3
        }),
{
    assert(outcomes[attempts] is Some);
    assert(outcomes[attempts + 1] is Some);
    assert(outcomes[attempts + 2] is Some);
    assert(confirms[nc] && confirms[nc + 1] && confirms[nc + 2]);
    assert(!builds[nb].success && !builds[nb + 1].success && !builds[nb + 2].success);
    let r2 = spec_backend_cycle(2, outcomes, attempts + 2, confirms, nc + 2, builds, nb + 2);
    assert(r2.result == Err::<(), AgentError>(AgentError::TooManyBugs));
    assert(r2.calls =~= seq![InstructionKey::PrintFixedCode]);
    let r1 = spec_backend_cycle(1, outcomes, attempts + 1, confirms, nc + 1, builds, nb + 1);
    assert(r1.calls =~= seq![InstructionKey::PrintFixedCode, InstructionKey::PrintFixedCode]);
    let r0 = spec_backend_cycle(0, outcomes, attempts, confirms, nc, builds, nb);
    assert(r0.calls =~= seq![
        InstructionKey::PrintImprovedWebserverCode,
        InstructionKey::PrintFixedCode,
        InstructionKey::PrintFixedCode,
    ]);
}

/// How everything ends up when the stage resumes from `UnitTesting`: the
/// operator gate, one build check, and then - depending on its outcome -
/// either the post-build phase directly, or one more repair cycle and the
/// post-build phase after it.
pub open spec fn spec_backend_ut_holds(
    agent0: AgentBackendDeveloper,
    fs0: FactSheet,
    ws0: Workspace,
    s0: BackendSession,
    agent1: AgentBackendDeveloper,
    fs1: FactSheet,
    ws1: Workspace,
    s1: BackendSession,
    r: Result<(), AgentError>,
) -> bool {
    let nc0 = s0.next_confirmation as int;
    let nb0 = s0.next_build as int;
    if nc0 >= s0.confirmations@.len() {
        &&& r == Err::<(), AgentError>(AgentError::ScriptExhausted)
        &&& agent1 == agent0
        &&& fs1 == fs0
        &&& ws1 == ws0
        &&& s1 == s0
    } else if !s0.confirmations@[nc0] {
        &&& r == Err::<(), AgentError>(AgentError::OperatorRejected)
        &&& agent1 == agent0
        &&& fs1 == fs0
        &&& ws1 == ws0
        &&& s1.next_confirmation == nc0 + 1
        &&& s1.next_build == nb0
        &&& s1.model == s0.model
        &&& s1.states == s0.states
    } else if nb0 >= s0.builds@.len() {
        &&& r == Err::<(), AgentError>(AgentError::ScriptExhausted)
        &&& agent1 == agent0
        &&& fs1 == fs0
        &&& ws1 == ws0
        &&& s1.next_confirmation == nc0 + 1
        &&& s1.next_build == nb0
        &&& s1.model == s0.model
    } else if s0.builds@[nb0].success {
        let post = spec_backend_post(
            ws0.backend_code is Some,
            s0.extractions@,
            s0.next_extraction as int,
            s0.probes@,
            s0.next_probe as int,
        );
        &&& r == post.result
        &&& agent1.bug_count == 0
        &&& agent1.bug_errors == agent0.bug_errors
        &&& fs1.backend_code == fs0.backend_code
        &&& ws1.backend_code == ws0.backend_code
        &&& s1.next_confirmation == nc0 + 1
        &&& s1.next_build == nb0 + 1
        &&& s1.model == s0.model
        &&& s1.next_extraction == s0.next_extraction + post.extractions_consumed
        &&& s1.next_probe == s0.next_probe + post.probes_consumed
        &&& s1.states@ == s0.states@ + post.entered
        &&& (match post.record_schema {
            Some(sch) => fs1.api_endpoint_schema is Some && fs1.api_endpoint_schema->0@ == sch,
            None => fs1.api_endpoint_schema == fs0.api_endpoint_schema,
        })
        &&& (match post.stored_schema {
            Some(sch) => ws1.api_schema is Some && ws1.api_schema->0@ == sch,
            None => ws1.api_schema == ws0.api_schema,
        })
    } else if agent0.bug_count >= BACKEND_BUG_CEILING {
        &&& r == Err::<(), AgentError>(AgentError::TooManyBugs)
        &&& agent1.bug_count == BACKEND_BUG_CEILING + 1
        &&& agent1.bug_errors is Some
        &&& agent1.bug_errors->0@ == s0.builds@[nb0].diagnostics@
        &&& fs1 == fs0
        &&& ws1 == ws0
        &&& s1.next_confirmation == nc0 + 1
        &&& s1.next_build == nb0 + 1
        &&& s1.model == s0.model
    } else {
        let cyc = spec_backend_cycle(
            agent0.bug_count + 1,
            s0.model.outcomes@,
            s0.model.attempts as int,
            s0.confirmations@,
            nc0 + 1,
            s0.builds@,
            nb0 + 1,
        );
        &&& s1.model.calls@ == s0.model.calls@ + cyc.calls
        &&& s1.model.attempts == s0.model.attempts + cyc.attempts_consumed
        &&& s1.next_confirmation == nc0 + 1 + cyc.confirms_consumed
        &&& s1.next_build == nb0 + 1 + cyc.builds_consumed
        &&& agent1.bug_count as int == cyc.final_bug_count
        &&& (match cyc.final_code {
            Some(v) => fs1.backend_code is Some && fs1.backend_code->0@ == v
                && ws1.backend_code is Some && ws1.backend_code->0@ == v,
            None => fs1.backend_code == fs0.backend_code && ws1.backend_code == ws0.backend_code,
        })
        &&& agent1.bug_errors is Some
        &&& agent1.bug_errors->0@ == (match cyc.final_errors {
            Some(d) => d,
            None => s0.builds@[nb0].diagnostics@,
        })
        &&& (cyc.result is Err ==> r == cyc.result && s1.states@ == s0.states@ + seq![
            AgentState::Working,
        ] + cyc.entered)
        &&& (cyc.result is Ok ==> {
            let post = spec_backend_post(
                (match cyc.final_code {
                    Some(v) => true,
                    None => ws0.backend_code is Some,
                }),
                s0.extractions@,
                s0.next_extraction as int,
                s0.probes@,
                s0.next_probe as int,
            );
            &&& r == post.result
            &&& s1.states@ == s0.states@ + seq![AgentState::Working] + cyc.entered + post.entered
            &&& s1.next_extraction == s0.next_extraction + post.extractions_consumed
            &&& s1.next_probe == s0.next_probe + post.probes_consumed
            &&& (match post.record_schema {
                Some(sch) => fs1.api_endpoint_schema is Some && fs1.api_endpoint_schema->0@
                    == sch,
                None => fs1.api_endpoint_schema == fs0.api_endpoint_schema,
            })
            &&& (match post.stored_schema {
                Some(sch) => ws1.api_schema is Some && ws1.api_schema->0@ == sch,
                None => ws1.api_schema == ws0.api_schema,
            })
        })
    }
}

/// Clones a decoded route schema out of its channel slot.
fn clone_route_list(slot: &Option<Vec<RouteObject>>) -> (r: Vec<RouteObject>)
    requires
        (*slot) is Some,
    ensures
        r@ == (*slot)->0@,
{
    match slot {
        Some(routes) => clone_routes(routes),
        None => Vec::new(),
    }
}

/// Clones a route schema element by element.
fn clone_routes(routes: &Vec<RouteObject>) -> (r: Vec<RouteObject>)
    ensures
        r@ == routes@,
{
    let mut out: Vec<RouteObject> = Vec::new();
    let mut i: usize = 0;
    while i < routes.len()
        invariant
            i <= routes@.len(),
            out@ == routes@.take(i as int),
        decreases routes@.len() - i,
    {
        out.push(routes[i].clone());
        proof {
            assert(routes@.take(i + 1) =~= routes@.take(i as int).push(routes@[i as int]));
        }
        i = i + 1;
    }
    proof {
        assert(routes@.take(routes@.len() as int) =~= routes@);
    }
    out
}

} // verus!
