//! The frontend developer stage: three sequential, data-dependent
//! discovery calls that plan the site (pages, route assignments, brand
//! colours), then the fixed component catalog built in order, each
//! component build-checked and repaired at most once, under a strict
//! cumulative failure ceiling.

use vstd::prelude::*;
use crate::agent_traits::FactSheet;
use crate::agent_frontend_comp::{
    BuildComponent, spec_component_catalog, spec_component_filepath,
};
use crate::basic_agent::{AgentState, BasicAgent};
use crate::general::{Workspace, spec_read_frontend_code};
use crate::instructions::InstructionKey;
use crate::llm::Message;
use crate::session::{
    AgentError, BuildOutcome, ModelScript, spec_request_consumed, spec_request_result,
};

verus! {

/// One more build failure beyond this cumulative count terminates the
/// whole stage. The count resets whenever a component build passes.
pub const FRONTEND_FAILURE_CEILING: u8 = 2;

/// What part of the frontend build the stage is working on.
#[derive(Debug, Clone, Copy, PartialEq, Eq, Structural)]
pub enum FrontendBuildMode {
    Infrastructure,
    PageComponents,
    Completion,
}

/// How far the per-page component work has progressed.
#[derive(Debug, Clone, Copy, PartialEq, Eq, Structural)]
pub enum FrontendPageStage {
    Content,
    Wireframing,
    Developing,
    APIIntegration,
    Styling,
}

/// One route assigned to a page.
#[derive(Debug, PartialEq)]
pub struct APIAssignment {
    pub api_route: String,
    pub method: String,
    pub route_type: String,
}

impl Clone for APIAssignment {
    fn clone(&self) -> (res: Self)
        ensures
            res == *self,
    {
        APIAssignment {
            api_route: self.api_route.clone(),
            method: self.method.clone(),
            route_type: self.route_type.clone(),
        }
    }
}

/// The ordered route assignment of one page.
#[derive(Debug, PartialEq)]
pub struct PageAPIAssign {
    pub page: Vec<APIAssignment>,
}

impl Clone for PageAPIAssign {
    fn clone(&self) -> (res: Self)
        ensures
            res.page@ == self.page@,
    {
        PageAPIAssign { page: clone_assignments(&self.page) }
    }
}

/// Clones a route-assignment list element by element.
fn clone_assignments(items: &Vec<APIAssignment>) -> (r: Vec<APIAssignment>)
    ensures
        r@ == items@,
{
    let mut out: Vec<APIAssignment> = Vec::new();
    let mut i: usize = 0;
    while i < items.len()
        invariant
            i <= items@.len(),
            out@ == items@.take(i as int),
        decreases items@.len() - i,
    {
        out.push(items[i].clone());
        proof {
            assert(items@.take(i + 1) =~= items@.take(i as int).push(items@[i as int]));
        }
        i = i + 1;
    }
    proof {
        assert(items@.take(items@.len() as int) =~= items@);
    }
    out
}

/// One recommended page and its suggested content sections (opaque
/// structured value kept as its JSON text).
#[derive(Debug, PartialEq)]
pub struct SitePages {
    pub page_name: String,
    pub suggested_content_sections: String,
}

impl Clone for SitePages {
    fn clone(&self) -> (res: Self)
        ensures
            res == *self,
    {
        SitePages {
            page_name: self.page_name.clone(),
            suggested_content_sections: self.suggested_content_sections.clone(),
        }
    }
}

/// The ordered route assignment of one named page, as the route-assignment
/// call's answer decodes.
#[derive(Debug, PartialEq)]
pub struct PageRouteAssignment {
    pub page_name: String,
    pub routes: Vec<APIAssignment>,
}

impl Clone for PageRouteAssignment {
    fn clone(&self) -> (res: Self)
        ensures
            res.page_name == self.page_name,
            res.routes@ == self.routes@,
    {
        PageRouteAssignment {
            page_name: self.page_name.clone(),
            routes: clone_assignments(&self.routes),
        }
    }
}

/// A route-assignment list seen as plain values: each page name with the
/// sequence of its assigned routes.
pub open spec fn spec_assignments_view(items: Seq<PageRouteAssignment>) -> Seq<
    (String, Seq<APIAssignment>),
> {
    items.map_values(|a: PageRouteAssignment| (a.page_name, a.routes@))
}

/// The design the discovery step fills in and the component loop consumes.
#[derive(Debug, PartialEq)]
pub struct DesignBuildSheet {
    pub pages: Option<Vec<String>>,
    pub pages_descriptions: Option<Vec<SitePages>>,
    pub api_assignments: Option<Vec<PageRouteAssignment>>,
    pub brand_colours: Option<Vec<String>>,
    pub build_mode: FrontendBuildMode,
}

impl DesignBuildSheet {
    /// An empty sheet in infrastructure mode.
    pub fn new() -> (r: DesignBuildSheet)
        ensures
            r.pages is None,
            r.pages_descriptions is None,
            r.api_assignments is None,
            r.brand_colours is None,
            r.build_mode == FrontendBuildMode::Infrastructure,
    {
        DesignBuildSheet {
            pages: None,
            pages_descriptions: None,
            api_assignments: None,
            brand_colours: None,
            build_mode: FrontendBuildMode::Infrastructure,
        }
    }
}

/// The channels the frontend developer consumes: the completion service,
/// the decode outcomes of the three discovery answers, the build verifier,
/// and the trace of states entered.
#[derive(Debug, PartialEq)]
pub struct FrontendSession {
    pub model: ModelScript,
    pub page_lists: Vec<Option<Vec<SitePages>>>,
    pub next_page_list: usize,
    pub route_maps: Vec<Option<Vec<PageRouteAssignment>>>,
    pub next_route_map: usize,
    pub colour_lists: Vec<Option<Vec<String>>>,
    pub next_colour_list: usize,
    pub builds: Vec<BuildOutcome>,
    pub next_build: usize,
    pub states: Vec<AgentState>,
}

impl FrontendSession {
    /// A session answering from the given scripts.
    pub fn new(
        model: ModelScript,
        page_lists: Vec<Option<Vec<SitePages>>>,
        route_maps: Vec<Option<Vec<PageRouteAssignment>>>,
        colour_lists: Vec<Option<Vec<String>>>,
        builds: Vec<BuildOutcome>,
    ) -> (r: FrontendSession)
        ensures
            r.model == model,
            r.page_lists == page_lists,
            r.next_page_list == 0,
            r.route_maps == route_maps,
            r.next_route_map == 0,
            r.colour_lists == colour_lists,
            r.next_colour_list == 0,
            r.builds == builds,
            r.next_build == 0,
            r.states@ == Seq::<AgentState>::empty(),
    {
        FrontendSession {
            model,
            page_lists,
            next_page_list: 0,
            route_maps,
            next_route_map: 0,
            colour_lists,
            next_colour_list: 0,
            builds,
            next_build: 0,
            states: Vec::new(),
        }
    }
}

/// The frontend developer stage.
#[derive(Debug, PartialEq)]
pub struct AgentFrontendDeveloper {
    pub attributes: BasicAgent,
    pub buildsheet: DesignBuildSheet,
    pub bug_count: u8,
    pub operation_focus: BuildComponent,
}

impl AgentFrontendDeveloper {
    /// A fresh frontend developer in the `Discovery` state with an empty
    /// build sheet.
    pub fn new() -> (r: AgentFrontendDeveloper)
        ensures
            r.attributes.position@ == "Frontend Developer"@,
            r.attributes.objective@ == "Develops frontend code for website"@,
            r.attributes.state == AgentState::Discovery,
            r.attributes.memory@ == Seq::<Message>::empty(),
            r.buildsheet.pages is None,
            r.buildsheet.pages_descriptions is None,
            r.buildsheet.api_assignments is None,
            r.buildsheet.brand_colours is None,
            r.buildsheet.build_mode == FrontendBuildMode::Infrastructure,
            r.bug_count == 0,
            r.operation_focus == BuildComponent::Logo,
    {
        AgentFrontendDeveloper {
            attributes: BasicAgent::new(
                String::from_str("Develops frontend code for website"),
                String::from_str("Frontend Developer"),
            ),
            buildsheet: DesignBuildSheet::new(),
            bug_count: 0,
            operation_focus: BuildComponent::Logo,
        }
    }


    /// The stage's attributes, for the orchestrator's inspection.
    pub fn get_attributes_from_agent(&self) -> (r: &BasicAgent)
        ensures
            r == &self.attributes,
    {
        &self.attributes
    }

    /// Records a passing component build: the cumulative failure count
    /// resets.
    pub fn register_build_success(&mut self)
        ensures
            final(self).bug_count == 0,
            final(self).attributes == old(self).attributes,
            final(self).buildsheet == old(self).buildsheet,
            final(self).operation_focus == old(self).operation_focus,
    {
        self.bug_count = 0;
    }

    /// Records a failing component build: the cumulative failure count
    /// rises, and the answer says whether the ceiling is now reached and
    /// the whole stage must abort.
    pub fn register_build_failure(&mut self) -> (abort: bool)
        ensures
            final(self).attributes == old(self).attributes,
            final(self).buildsheet == old(self).buildsheet,
            final(self).operation_focus == old(self).operation_focus,
            abort == (old(self).bug_count >= FRONTEND_FAILURE_CEILING - 1),
            !abort ==> final(self).bug_count == old(self).bug_count + 1,
            abort ==> final(self).bug_count == FRONTEND_FAILURE_CEILING,
    {
        if self.bug_count >= FRONTEND_FAILURE_CEILING - 1 {
            self.bug_count = FRONTEND_FAILURE_CEILING;
            true
        } else {
            self.bug_count = self.bug_count + 1;
            false
        }
    }

    /// The build-mode label the stage announces when it starts working.
    pub fn confirm_stage(&self) -> (r: &'static str)
        ensures
            r@ == match self.buildsheet.build_mode {
                FrontendBuildMode::Infrastructure => "[Working on Frontend Infrastructure]"@,
                FrontendBuildMode::PageComponents => "[Working on Frontend Page Components]"@,
                FrontendBuildMode::Completion => "[Working on Frontend Completion Items]"@,
            },
    {
        match self.buildsheet.build_mode {
            FrontendBuildMode::Infrastructure => "[Working on Frontend Infrastructure]",
            FrontendBuildMode::PageComponents => "[Working on Frontend Page Components]",
            FrontendBuildMode::Completion => "[Working on Frontend Completion Items]",
        }
    }
}

/// Everything one discovery pass settles: result, calls made, channel
/// consumption, and the sheet fields it fills (each `None` when the pass
/// failed before reaching it).
pub struct DiscoveryRun {
    pub result: Result<(), AgentError>,
    pub calls: Seq<InstructionKey>,
    pub attempts_consumed: int,
    pub page_lists_consumed: int,
    pub route_maps_consumed: int,
    pub colour_lists_consumed: int,
    pub pages: Option<Seq<String>>,
    pub descriptions: Option<Seq<SitePages>>,
    pub assignments: Option<Seq<(String, Seq<APIAssignment>)>>,
    pub colours: Option<Seq<String>>,
    pub entered: Seq<AgentState>,
}

/// The discovery pass, played out against the scripts: read the stored
/// backend source, obtain the page list, then the page-to-route
/// assignment (which also needs the persisted route schema), then the
/// brand palette. Any model failure, decode failure or missing stored
/// artifact is fatal to the stage; whatever was already decoded stays on
/// the sheet.
pub open spec fn spec_frontend_discovery(ws: Workspace, session: FrontendSession) -> DiscoveryRun {
    let no_run = DiscoveryRun {
        result: Ok(()),
        calls: Seq::<InstructionKey>::empty(),
        attempts_consumed: 0,
        page_lists_consumed: 0,
        route_maps_consumed: 0,
        colour_lists_consumed: 0,
        pages: None,
        descriptions: None,
        assignments: None,
        colours: None,
        entered: Seq::<AgentState>::empty(),
    };
    if ws.backend_code is None {
        DiscoveryRun { result: Err(AgentError::StorageMissing), ..no_run }
    } else {
        let o = session.model.outcomes@;
        let a0 = session.model.attempts as int;
        let mr1 = spec_request_result(o, a0);
        let c1 = spec_request_consumed(o, a0);
        if mr1 is Err {
            DiscoveryRun {
                result: Err(AgentError::ModelFailure),
                calls: seq![InstructionKey::PrintRecommendedSitePages],
                attempts_consumed: c1,
                ..no_run
            }
        } else if session.next_page_list >= session.page_lists@.len() {
            DiscoveryRun {
                result: Err(AgentError::ScriptExhausted),
                calls: seq![InstructionKey::PrintRecommendedSitePages],
                attempts_consumed: c1,
                ..no_run
            }
        } else if session.page_lists@[session.next_page_list as int] is None {
            DiscoveryRun {
                result: Err(AgentError::DecodeFailure),
                calls: seq![InstructionKey::PrintRecommendedSitePages],
                attempts_consumed: c1,
                page_lists_consumed: 1,
                ..no_run
            }
        } else {
            let sp = session.page_lists@[session.next_page_list as int]->0@;
            let pages = sp.map_values(|p: SitePages| p.page_name);
            let step1 = DiscoveryRun {
                calls: seq![InstructionKey::PrintRecommendedSitePages],
                attempts_consumed: c1,
                page_lists_consumed: 1,
                pages: Some(pages),
                descriptions: Some(sp),
                ..no_run
            };
            if ws.api_schema is None {
                DiscoveryRun { result: Err(AgentError::StorageMissing), ..step1 }
            } else {
                let mr2 = spec_request_result(o, a0 + c1);
                let c2 = spec_request_consumed(o, a0 + c1);
                if mr2 is Err {
                    DiscoveryRun {
                        result: Err(AgentError::ModelFailure),
                        calls: seq![
                            InstructionKey::PrintRecommendedSitePages,
                            InstructionKey::PrintRecommendedSitePagesWithApis,
                        ],
                        attempts_consumed: c1 + c2,
                        ..step1
                    }
                } else if session.next_route_map >= session.route_maps@.len() {
                    DiscoveryRun {
                        result: Err(AgentError::ScriptExhausted),
                        calls: seq![
                            InstructionKey::PrintRecommendedSitePages,
                            InstructionKey::PrintRecommendedSitePagesWithApis,
                        ],
                        attempts_consumed: c1 + c2,
                        ..step1
                    }
                } else if session.route_maps@[session.next_route_map as int] is None {
                    DiscoveryRun {
                        result: Err(AgentError::DecodeFailure),
                        calls: seq![
                            InstructionKey::PrintRecommendedSitePages,
                            InstructionKey::PrintRecommendedSitePagesWithApis,
                        ],
                        attempts_consumed: c1 + c2,
                        route_maps_consumed: 1,
                        ..step1
                    }
                } else {
                    let asg = spec_assignments_view(
                        session.route_maps@[session.next_route_map as int]->0@,
                    );
                    let step2 = DiscoveryRun {
                        calls: seq![
                            InstructionKey::PrintRecommendedSitePages,
                            InstructionKey::PrintRecommendedSitePagesWithApis,
                        ],
                        attempts_consumed: c1 + c2,
                        route_maps_consumed: 1,
                        assignments: Some(asg),
                        ..step1
                    };
                    let mr3 = spec_request_result(o, a0 + c1 + c2);
                    let c3 = spec_request_consumed(o, a0 + c1 + c2);
                    if mr3 is Err {
                        DiscoveryRun {
                            result: Err(AgentError::ModelFailure),
                            calls: step2.calls + seq![
                                InstructionKey::PrintRecommendedSiteMainColours,
                            ],
                            attempts_consumed: c1 + c2 + c3,
                            ..step2
                        }
                    } else if session.next_colour_list >= session.colour_lists@.len() {
                        DiscoveryRun {
                            result: Err(AgentError::ScriptExhausted),
                            calls: step2.calls + seq![
                                InstructionKey::PrintRecommendedSiteMainColours,
                            ],
                            attempts_consumed: c1 + c2 + c3,
                            ..step2
                        }
                    } else if session.colour_lists@[session.next_colour_list as int] is None {
                        DiscoveryRun {
                            result: Err(AgentError::DecodeFailure),
                            calls: step2.calls + seq![
                                InstructionKey::PrintRecommendedSiteMainColours,
                            ],
                            attempts_consumed: c1 + c2 + c3,
                            colour_lists_consumed: 1,
                            ..step2
                        }
                    } else {
                        DiscoveryRun {
                            result: Ok(()),
                            calls: step2.calls + seq![
                                InstructionKey::PrintRecommendedSiteMainColours,
                            ],
                            attempts_consumed: c1 + c2 + c3,
                            colour_lists_consumed: 1,
                            colours: Some(
                                session.colour_lists@[session.next_colour_list as int]->0@,
                            ),
                            entered: seq![AgentState::Working],
                            ..step2
                        }
                    }
                }
            }
        }
    }
}

/// Re-running discovery with an unchanged project record, unchanged
/// stored artifacts and the same deterministic collaborator script yields
/// an identical page list and route-assignment mapping.
pub proof fn lemma_frontend_discovery_deterministic(
    ws1: Workspace,
    s1: FrontendSession,
    ws2: Workspace,
    s2: FrontendSession,
)
    requires
        ws1.backend_code is Some <==> ws2.backend_code is Some,
        ws1.api_schema is Some <==> ws2.api_schema is Some,
        s1.model.outcomes@ == s2.model.outcomes@,
        s1.model.attempts == s2.model.attempts,
        s1.page_lists@ == s2.page_lists@,
        s1.next_page_list == s2.next_page_list,
        s1.route_maps@ == s2.route_maps@,
        s1.next_route_map == s2.next_route_map,
        s1.colour_lists@ == s2.colour_lists@,
        s1.next_colour_list == s2.next_colour_list,
    ensures
        spec_frontend_discovery(ws1, s1).pages == spec_frontend_discovery(ws2, s2).pages,
        spec_frontend_discovery(ws1, s1).assignments == spec_frontend_discovery(
            ws2,
            s2,
        ).assignments,
        spec_frontend_discovery(ws1, s1).colours == spec_frontend_discovery(ws2, s2).colours,
        spec_frontend_discovery(ws1, s1).result == spec_frontend_discovery(ws2, s2).result,
{
}

/// Clones a decoded page list out of its channel slot.
fn clone_site_pages(slot: &Option<Vec<SitePages>>) -> (r: Vec<SitePages>)
    requires
        (*slot) is Some,
    ensures
        r@ == (*slot)->0@,
{
    match slot {
        Some(items) => {
            let mut out: Vec<SitePages> = Vec::new();
            let mut i: usize = 0;
            while i < items.len()
                invariant
                    i <= items@.len(),
                    out@ == items@.take(i as int),
                    items@ == (*slot)->0@,
                decreases items@.len() - i,
            {
                out.push(items[i].clone());
                proof {
                    assert(items@.take(i + 1) =~= items@.take(i as int).push(items@[i as int]));
                }
                i = i + 1;
            }
            proof {
                assert(items@.take(items@.len() as int) =~= items@);
            }
            out
        },
        None => Vec::new(),
    }
}

/// The page names of a decoded page list, in order.
fn extract_page_names(items: &Vec<SitePages>) -> (r: Vec<String>)
    ensures
        r@ == items@.map_values(|p: SitePages| p.page_name),
{
    let ghost m: Seq<String> = items@.map_values(|p: SitePages| p.page_name);
    let mut out: Vec<String> = Vec::new();
    let mut i: usize = 0;
    while i < items.len()
        invariant
            i <= m.len(),
            m.len() == items@.len(),
            forall|j: int| 0 <= j < m.len() ==> m[j] == items@[j].page_name,
            out@ == m.take(i as int),
        decreases m.len() - i,
    {
        out.push(items[i].page_name.clone());
        proof {
            assert(m.take(i + 1) =~= m.take(i as int).push(m[i as int]));
        }
        i = i + 1;
    }
    proof {
        assert(m.take(m.len() as int) =~= m);
    }
    out
}

/// Clones a decoded route-assignment list out of its channel slot,
/// preserving its plain-value view.
fn clone_route_map(slot: &Option<Vec<PageRouteAssignment>>) -> (r: Vec<PageRouteAssignment>)
    requires
        (*slot) is Some,
    ensures
        spec_assignments_view(r@) == spec_assignments_view((*slot)->0@),
{
    match slot {
        Some(items) => {
            let mut out: Vec<PageRouteAssignment> = Vec::new();
            let mut i: usize = 0;
            while i < items.len()
                invariant
                    i <= items@.len(),
                    out@.len() == i,
                    forall|j: int| 0 <= j < i ==> (#[trigger] out@[j]).page_name
                        == items@[j].page_name && out@[j].routes@ == items@[j].routes@,
                    items@ == (*slot)->0@,
                decreases items@.len() - i,
            {
                out.push(items[i].clone());
                i = i + 1;
            }
            proof {
                assert(spec_assignments_view(out@) =~= spec_assignments_view(items@));
            }
            out
        },
        None => Vec::new(),
    }
}

/// Clones a decoded text list out of its channel slot.
fn clone_string_list(slot: &Option<Vec<String>>) -> (r: Vec<String>)
    requires
        (*slot) is Some,
    ensures
        r@ == (*slot)->0@,
{
    match slot {
        Some(items) => {
            let mut out: Vec<String> = Vec::new();
            let mut i: usize = 0;
            while i < items.len()
                invariant
                    i <= items@.len(),
                    out@ == items@.take(i as int),
                    items@ == (*slot)->0@,
                decreases items@.len() - i,
            {
                out.push(items[i].clone());
                proof {
                    assert(items@.take(i + 1) =~= items@.take(i as int).push(items@[i as int]));
                }
                i = i + 1;
            }
            proof {
                assert(items@.take(items@.len() as int) =~= items@);
            }
            out
        },
        None => Vec::new(),
    }
}

impl AgentFrontendDeveloper {
    /// The discovery pass, exactly as `spec_frontend_discovery` lays it
    /// out.
    fn run_discovery(&mut self, workspace: &Workspace, session: &mut FrontendSession) -> (r:
        Result<(), AgentError>)
        requires
            old(self).attributes.state == AgentState::Discovery,
        ensures
            ({
                let run = spec_frontend_discovery(*workspace, *old(session));
                &&& r == run.result
                &&& final(session).model.outcomes == old(session).model.outcomes
                &&& final(session).model.calls@ == old(session).model.calls@ + run.calls
                &&& final(session).model.attempts == old(session).model.attempts
                    + run.attempts_consumed
                &&& final(session).page_lists == old(session).page_lists
                &&& final(session).next_page_list == old(session).next_page_list
                    + run.page_lists_consumed
                &&& final(session).route_maps == old(session).route_maps
                &&& final(session).next_route_map == old(session).next_route_map
                    + run.route_maps_consumed
                &&& final(session).colour_lists == old(session).colour_lists
                &&& final(session).next_colour_list == old(session).next_colour_list
                    + run.colour_lists_consumed
                &&& final(session).builds == old(session).builds
                &&& final(session).next_build == old(session).next_build
                &&& final(session).states@ == old(session).states@ + run.entered
                &&& match run.pages {
                    Some(p) => final(self).buildsheet.pages is Some
                        && final(self).buildsheet.pages->0@ == p,
                    None => final(self).buildsheet.pages == old(self).buildsheet.pages,
                }
                &&& match run.descriptions {
                    Some(d) => final(self).buildsheet.pages_descriptions is Some
                        && final(self).buildsheet.pages_descriptions->0@ == d,
                    None => final(self).buildsheet.pages_descriptions
                        == old(self).buildsheet.pages_descriptions,
                }
                &&& match run.assignments {
                    Some(a) => final(self).buildsheet.api_assignments is Some
                        && spec_assignments_view(final(self).buildsheet.api_assignments->0@) == a,
                    None => final(self).buildsheet.api_assignments
                        == old(self).buildsheet.api_assignments,
                }
                &&& match run.colours {
                    Some(c) => final(self).buildsheet.brand_colours is Some
                        && final(self).buildsheet.brand_colours->0@ == c,
                    None => final(self).buildsheet.brand_colours
                        == old(self).buildsheet.brand_colours,
                }
                &&& final(self).attributes.state == (if r is Ok {
                    AgentState::Working
                } else {
                    AgentState::Discovery
                })
                &&& final(self).attributes.position == old(self).attributes.position
                &&& final(self).attributes.objective == old(self).attributes.objective
                &&& final(self).attributes.memory == old(self).attributes.memory
                &&& final(self).bug_count == old(self).bug_count
                &&& final(self).operation_focus == old(self).operation_focus
                &&& final(self).buildsheet.build_mode == old(self).buildsheet.build_mode
            }),
    {
        if workspace.backend_code.is_none() {
            return Err(AgentError::StorageMissing);
        }
        let req1: Result<String, AgentError> = session.model.request(
            InstructionKey::PrintRecommendedSitePages,
        );
        proof {
            assert(session.model.calls@ =~= old(session).model.calls@ + seq![
                InstructionKey::PrintRecommendedSitePages,
            ]);
        }
        if req1.is_err() {
            return Err(AgentError::ModelFailure);
        }
        if session.next_page_list >= session.page_lists.len() {
            return Err(AgentError::ScriptExhausted);
        }
        let has_pages: bool = session.page_lists[session.next_page_list].is_some();
        if !has_pages {
            session.next_page_list = session.next_page_list + 1;
            return Err(AgentError::DecodeFailure);
        }
        let descriptions: Vec<SitePages> = clone_site_pages(
            &session.page_lists[session.next_page_list],
        );
        session.next_page_list = session.next_page_list + 1;
        let pages: Vec<String> = extract_page_names(&descriptions);
        self.buildsheet.pages = Some(pages);
        self.buildsheet.pages_descriptions = Some(descriptions);
        if workspace.api_schema.is_none() {
            return Err(AgentError::StorageMissing);
        }
        let req2: Result<String, AgentError> = session.model.request(
            InstructionKey::PrintRecommendedSitePagesWithApis,
        );
        proof {
            assert(session.model.calls@ =~= old(session).model.calls@ + seq![
                InstructionKey::PrintRecommendedSitePages,
                InstructionKey::PrintRecommendedSitePagesWithApis,
            ]);
        }
        if req2.is_err() {
            return Err(AgentError::ModelFailure);
        }
        if session.next_route_map >= session.route_maps.len() {
            return Err(AgentError::ScriptExhausted);
        }
        let has_map: bool = session.route_maps[session.next_route_map].is_some();
        if !has_map {
            session.next_route_map = session.next_route_map + 1;
            return Err(AgentError::DecodeFailure);
        }
        let assignments: Vec<PageRouteAssignment> = clone_route_map(
            &session.route_maps[session.next_route_map],
        );
        session.next_route_map = session.next_route_map + 1;
        self.buildsheet.api_assignments = Some(assignments);
        let req3: Result<String, AgentError> = session.model.request(
            InstructionKey::PrintRecommendedSiteMainColours,
        );
        proof {
            assert(session.model.calls@ =~= old(session).model.calls@ + seq![
                InstructionKey::PrintRecommendedSitePages,
                InstructionKey::PrintRecommendedSitePagesWithApis,
                InstructionKey::PrintRecommendedSiteMainColours,
            ]);
            assert(seq![
                InstructionKey::PrintRecommendedSitePages,
                InstructionKey::PrintRecommendedSitePagesWithApis,
            ] + seq![InstructionKey::PrintRecommendedSiteMainColours] =~= seq![
                InstructionKey::PrintRecommendedSitePages,
                InstructionKey::PrintRecommendedSitePagesWithApis,
                InstructionKey::PrintRecommendedSiteMainColours,
            ]);
        }
        if req3.is_err() {
            return Err(AgentError::ModelFailure);
        }
        if session.next_colour_list >= session.colour_lists.len() {
            return Err(AgentError::ScriptExhausted);
        }
        let has_colours: bool = session.colour_lists[session.next_colour_list].is_some();
        if !has_colours {
            session.next_colour_list = session.next_colour_list + 1;
            return Err(AgentError::DecodeFailure);
        }
        let colours: Vec<String> = clone_string_list(
            &session.colour_lists[session.next_colour_list],
        );
        session.next_colour_list = session.next_colour_list + 1;
        self.buildsheet.brand_colours = Some(colours);
        self.attributes.update_state(AgentState::Working);
        session.states.push(AgentState::Working);
        proof {
            assert(session.states@ =~= old(session).states@ + seq![AgentState::Working]);
        }
        Ok(())
    }
}

/// Everything one build-check-and-repair pass settles: result, calls
/// made, channel consumption, the final bug count, and the repaired
/// source stored (when a repair happened).
pub struct TestRun {
    pub result: Result<(), AgentError>,
    pub calls: Seq<InstructionKey>,
    pub attempts_consumed: int,
    pub builds_consumed: int,
    pub final_bug: int,
    pub repaired: Option<Seq<char>>,
}

/// The build check after a component is produced: a passing build resets
/// the bug count; a failing build increments it, and when that reaches
/// the ceiling the stage aborts. Below the ceiling the previous source and
/// the diagnostics go through a single repair instruction and one retest,
/// whose failure likewise aborts.
pub open spec fn spec_test_and_repair(
    bug: int,
    outcomes: Seq<Option<String>>,
    attempts: int,
    builds: Seq<BuildOutcome>,
    nb: int,
) -> TestRun {
    if nb >= builds.len() {
        TestRun {
            result: Err(AgentError::ScriptExhausted),
            calls: Seq::<InstructionKey>::empty(),
            attempts_consumed: 0,
            builds_consumed: 0,
            final_bug: bug,
            repaired: None,
        }
    } else if builds[nb].success {
        TestRun {
            result: Ok(()),
            calls: Seq::<InstructionKey>::empty(),
            attempts_consumed: 0,
            builds_consumed: 1,
            final_bug: 0,
            repaired: None,
        }
    } else if bug + 1 >= FRONTEND_FAILURE_CEILING as int {
        TestRun {
            result: Err(AgentError::TooManyComponentFailures),
            calls: Seq::<InstructionKey>::empty(),
            attempts_consumed: 0,
            builds_consumed: 1,
            final_bug: FRONTEND_FAILURE_CEILING as int,
            repaired: None,
        }
    } else {
        let mr = spec_request_result(outcomes, attempts);
        let c = spec_request_consumed(outcomes, attempts);
        if mr is Err {
            TestRun {
                result: Err(AgentError::ModelFailure),
                calls: seq![InstructionKey::PrintCodeBugsResolution],
                attempts_consumed: c,
                builds_consumed: 1,
                final_bug: bug + 1,
                repaired: None,
            }
        } else {
            let code = mr->Ok_0@;
            if nb + 1 >= builds.len() {
                TestRun {
                    result: Err(AgentError::ScriptExhausted),
                    calls: seq![InstructionKey::PrintCodeBugsResolution],
                    attempts_consumed: c,
                    builds_consumed: 1,
                    final_bug: bug + 1,
                    repaired: Some(code),
                }
            } else if builds[nb + 1].success {
                TestRun {
                    result: Ok(()),
                    calls: seq![InstructionKey::PrintCodeBugsResolution],
                    attempts_consumed: c,
                    builds_consumed: 2,
                    final_bug: 0,
                    repaired: Some(code),
                }
            } else {
                TestRun {
                    result: Err(AgentError::TooManyComponentFailures),
                    calls: seq![InstructionKey::PrintCodeBugsResolution],
                    attempts_consumed: c,
                    builds_consumed: 2,
                    final_bug: FRONTEND_FAILURE_CEILING as int,
                    repaired: Some(code),
                }
            }
        }
    }
}

impl AgentFrontendDeveloper {
    /// One build check with its bounded repair, exactly as
    /// `spec_test_and_repair` lays it out. A repaired source is stored at
    /// the component's path.
    fn test_and_repair(
        &mut self,
        workspace: &mut Workspace,
        session: &mut FrontendSession,
        component: BuildComponent,
    ) -> (r: Result<(), AgentError>)
        ensures
            ({
                let run = spec_test_and_repair(
                    old(self).bug_count as int,
                    old(session).model.outcomes@,
                    old(session).model.attempts as int,
                    old(session).builds@,
                    old(session).next_build as int,
                );
                &&& r == run.result
                &&& final(session).model.outcomes == old(session).model.outcomes
                &&& final(session).model.calls@ == old(session).model.calls@ + run.calls
                &&& final(session).model.attempts == old(session).model.attempts
                    + run.attempts_consumed
                &&& final(session).page_lists == old(session).page_lists
                &&& final(session).next_page_list == old(session).next_page_list
                &&& final(session).route_maps == old(session).route_maps
                &&& final(session).next_route_map == old(session).next_route_map
                &&& final(session).colour_lists == old(session).colour_lists
                &&& final(session).next_colour_list == old(session).next_colour_list
                &&& final(session).builds == old(session).builds
                &&& final(session).next_build == old(session).next_build + run.builds_consumed
                &&& final(session).states == old(session).states
                &&& final(self).bug_count as int == run.final_bug
                &&& final(self).attributes == old(self).attributes
                &&& final(self).buildsheet == old(self).buildsheet
                &&& final(self).operation_focus == old(self).operation_focus
                &&& (r is Ok ==> final(self).bug_count == 0)
                &&& match run.repaired {
                    Some(v) => final(workspace).frontend_files@.len()
                        == old(workspace).frontend_files@.len() + 1
                        && final(workspace).frontend_files@.last().path@
                            == spec_component_filepath(component)
                        && final(workspace).frontend_files@.last().code@ == v
                        && final(workspace).frontend_files@.drop_last()
                            == old(workspace).frontend_files@,
                    None => final(workspace).frontend_files == old(workspace).frontend_files,
                }
                &&& final(workspace).code_template == old(workspace).code_template
                &&& final(workspace).backend_code == old(workspace).backend_code
                &&& final(workspace).api_schema == old(workspace).api_schema
            }),
    {
        if session.next_build >= session.builds.len() {
            return Err(AgentError::ScriptExhausted);
        }
        let build: BuildOutcome = session.builds[session.next_build].clone();
        session.next_build = session.next_build + 1;
        if build.success {
            self.bug_count = 0;
            return Ok(());
        }
        if self.bug_count >= FRONTEND_FAILURE_CEILING - 1 {
            self.bug_count = FRONTEND_FAILURE_CEILING;
            return Err(AgentError::TooManyComponentFailures);
        }
        self.bug_count = self.bug_count + 1;
        let req: Result<String, AgentError> = session.model.request(
            InstructionKey::PrintCodeBugsResolution,
        );
        proof {
            assert(session.model.calls@ =~= old(session).model.calls@ + seq![
                InstructionKey::PrintCodeBugsResolution,
            ]);
        }
        let repaired: String = match req {
            Ok(code) => code,
            Err(e) => {
                return Err(e);
            },
        };
        workspace.save_frontend_code(component.filepath(), repaired);
        if session.next_build >= session.builds.len() {
            return Err(AgentError::ScriptExhausted);
        }
        let retest: BuildOutcome = session.builds[session.next_build].clone();
        session.next_build = session.next_build + 1;
        if retest.success {
            self.bug_count = 0;
            Ok(())
        } else {
            self.bug_count = FRONTEND_FAILURE_CEILING;
            Err(AgentError::TooManyComponentFailures)
        }
    }
}

/// Everything one catalog entry's build settles: result, calls made,
/// channel consumption, the final bug count, and the sources stored (the
/// produced one, and the repaired one if a repair happened).
pub struct ComponentRun {
    pub result: Result<(), AgentError>,
    pub calls: Seq<InstructionKey>,
    pub attempts_consumed: int,
    pub builds_consumed: int,
    pub final_bug: int,
    pub first_code: Option<Seq<char>>,
    pub repaired_code: Option<Seq<char>>,
}

/// What stops a component before any call is made: the data-fetch hook
/// needs the persisted route schema, and a per-page component needs its
/// page to exist on the sheet.
pub open spec fn spec_component_ready_error(
    c: BuildComponent,
    pages: Option<Seq<String>>,
    schema_present: bool,
) -> Option<AgentError> {
    match c {
        BuildComponent::ReactHook => if !schema_present {
            Some(AgentError::StorageMissing)
        } else {
            None
        },
        BuildComponent::PageContent1 => if pages is None || pages->0.len() < 1 {
            Some(AgentError::MissingPages)
        } else {
            None
        },
        BuildComponent::PageContent2 => if pages is None || pages->0.len() < 2 {
            Some(AgentError::MissingPages)
        } else {
            None
        },
        _ => None,
    }
}

/// The instruction chain that produces a component's source: the logo is
/// two chained calls (the icon, then the wrapper component), every other
/// entry is one.
pub open spec fn spec_component_keys(c: BuildComponent) -> Seq<InstructionKey> {
    match c {
        BuildComponent::Logo => seq![
            InstructionKey::PrintSvgLogo,
            InstructionKey::PrintCompletedLogoWithBrandNameReactComponent,
        ],
        BuildComponent::NavHeader => seq![InstructionKey::PrintHeaderNavigationReactComponent],
        BuildComponent::NavFooter => seq![InstructionKey::PrintFooterNavigationReactComponent],
        BuildComponent::ReactHook => seq![InstructionKey::PrintReactTypescriptHookComponent],
        BuildComponent::PageContent1 => seq![InstructionKey::CreateFrontendWebsitePageContent],
        BuildComponent::PageContent2 => seq![InstructionKey::CreateFrontendWebsitePageContent],
    }
}

/// One catalog entry, played out against the scripts: the readiness
/// check, the production call chain, the stored source, and the build
/// check with its bounded repair.
pub open spec fn spec_component_run(
    c: BuildComponent,
    bug: int,
    pages: Option<Seq<String>>,
    schema_present: bool,
    outcomes: Seq<Option<String>>,
    attempts: int,
    builds: Seq<BuildOutcome>,
    nb: int,
) -> ComponentRun {
    match spec_component_ready_error(c, pages, schema_present) {
        Some(e) => ComponentRun {
            result: Err(e),
            calls: Seq::<InstructionKey>::empty(),
            attempts_consumed: 0,
            builds_consumed: 0,
            final_bug: bug,
            first_code: None,
            repaired_code: None,
        },
        None => {
            let keys = spec_component_keys(c);
            let mr1 = spec_request_result(outcomes, attempts);
            let c1 = spec_request_consumed(outcomes, attempts);
            if mr1 is Err {
                ComponentRun {
                    result: Err(AgentError::ModelFailure),
                    calls: seq![keys[0]],
                    attempts_consumed: c1,
                    builds_consumed: 0,
                    final_bug: bug,
                    first_code: None,
                    repaired_code: None,
                }
            } else if keys.len() == 2 {
                let mr2 = spec_request_result(outcomes, attempts + c1);
                let c2 = spec_request_consumed(outcomes, attempts + c1);
                if mr2 is Err {
                    ComponentRun {
                        result: Err(AgentError::ModelFailure),
                        calls: keys,
                        attempts_consumed: c1 + c2,
                        builds_consumed: 0,
                        final_bug: bug,
                        first_code: None,
                        repaired_code: None,
                    }
                } else {
                    let t = spec_test_and_repair(bug, outcomes, attempts + c1 + c2, builds, nb);
                    ComponentRun {
                        result: t.result,
                        calls: keys + t.calls,
                        attempts_consumed: c1 + c2 + t.attempts_consumed,
                        builds_consumed: t.builds_consumed,
                        final_bug: t.final_bug,
                        first_code: Some(mr2->Ok_0@),
                        repaired_code: t.repaired,
                    }
                }
            } else {
                let t = spec_test_and_repair(bug, outcomes, attempts + c1, builds, nb);
                ComponentRun {
                    result: t.result,
                    calls: keys + t.calls,
                    attempts_consumed: c1 + t.attempts_consumed,
                    builds_consumed: t.builds_consumed,
                    final_bug: t.final_bug,
                    first_code: Some(mr1->Ok_0@),
                    repaired_code: t.repaired,
                }
            }
        },
    }
}

/// A stored-file list seen as plain values: each entry's path and source
/// text.
pub open spec fn spec_file_views(files: Seq<crate::general::SavedFile>) -> Seq<
    (Seq<char>, Seq<char>),
> {
    files.map_values(|f: crate::general::SavedFile| (f.path@, f.code@))
}

/// The files one catalog entry stores, in order: the produced source,
/// then - when a repair happened - the repaired source, both at the
/// component's path.
pub open spec fn spec_component_files(c: BuildComponent, run: ComponentRun) -> Seq<
    (Seq<char>, Seq<char>),
> {
    (match run.first_code {
        Some(v) => seq![(spec_component_filepath(c), v)],
        None => Seq::<(Seq<char>, Seq<char>)>::empty(),
    }) + (match run.repaired_code {
        Some(w) => seq![(spec_component_filepath(c), w)],
        None => Seq::<(Seq<char>, Seq<char>)>::empty(),
    })
}

/// Everything the whole component pass settles: result, calls made,
/// channel consumption, and the files stored, across the catalog in build
/// order.
pub struct ComponentsRun {
    pub result: Result<(), AgentError>,
    pub calls: Seq<InstructionKey>,
    pub attempts_consumed: int,
    pub builds_consumed: int,
    pub final_bug: int,
    pub files: Seq<(Seq<char>, Seq<char>)>,
}

/// The component catalog from entry `i` on, played out against the
/// scripts: each entry runs as `spec_component_run` lays out, and the
/// first failing entry stops the pass.
pub open spec fn spec_frontend_components(
    i: int,
    bug: int,
    pages: Option<Seq<String>>,
    schema_present: bool,
    outcomes: Seq<Option<String>>,
    attempts: int,
    builds: Seq<BuildOutcome>,
    nb: int,
) -> ComponentsRun
    decreases spec_component_catalog().len() - i,
{
    if i < 0 || i >= spec_component_catalog().len() {
        ComponentsRun {
            result: Ok(()),
            calls: Seq::<InstructionKey>::empty(),
            attempts_consumed: 0,
            builds_consumed: 0,
            final_bug: bug,
            files: Seq::<(Seq<char>, Seq<char>)>::empty(),
        }
    } else {
        let cr = spec_component_run(
            spec_component_catalog()[i],
            bug,
            pages,
            schema_present,
            outcomes,
            attempts,
            builds,
            nb,
        );
        if cr.result is Err {
            ComponentsRun {
                result: cr.result,
                calls: cr.calls,
                attempts_consumed: cr.attempts_consumed,
                builds_consumed: cr.builds_consumed,
                final_bug: cr.final_bug,
                files: spec_component_files(spec_component_catalog()[i], cr),
            }
        } else {
            let rest = spec_frontend_components(
                i + 1,
                cr.final_bug,
                pages,
                schema_present,
                outcomes,
                attempts + cr.attempts_consumed,
                builds,
                nb + cr.builds_consumed,
            );
            ComponentsRun {
                result: rest.result,
                calls: cr.calls + rest.calls,
                attempts_consumed: cr.attempts_consumed + rest.attempts_consumed,
                builds_consumed: cr.builds_consumed + rest.builds_consumed,
                final_bug: rest.final_bug,
                files: spec_component_files(spec_component_catalog()[i], cr) + rest.files,
            }
        }
    }
}

impl AgentFrontendDeveloper {
    /// Builds one catalog entry, exactly as `spec_component_run` lays it
    /// out: produce the source, store it at the component's path, then
    /// build-check it with at most one repair.
    fn build_one_component(
        &mut self,
        workspace: &mut Workspace,
        session: &mut FrontendSession,
        component: BuildComponent,
    ) -> (r: Result<(), AgentError>)
        ensures
            ({
                let run = spec_component_run(
                    component,
                    old(self).bug_count as int,
                    crate::agent_traits::spec_opt_view(old(self).buildsheet.pages),
                    old(workspace).api_schema is Some,
                    old(session).model.outcomes@,
                    old(session).model.attempts as int,
                    old(session).builds@,
                    old(session).next_build as int,
                );
                &&& r == run.result
                &&& final(session).model.outcomes == old(session).model.outcomes
                &&& final(session).model.calls@ == old(session).model.calls@ + run.calls
                &&& final(session).model.attempts == old(session).model.attempts
                    + run.attempts_consumed
                &&& final(session).page_lists == old(session).page_lists
                &&& final(session).next_page_list == old(session).next_page_list
                &&& final(session).route_maps == old(session).route_maps
                &&& final(session).next_route_map == old(session).next_route_map
                &&& final(session).colour_lists == old(session).colour_lists
                &&& final(session).next_colour_list == old(session).next_colour_list
                &&& final(session).builds == old(session).builds
                &&& final(session).next_build == old(session).next_build + run.builds_consumed
                &&& final(session).states == old(session).states
                &&& final(self).bug_count as int == run.final_bug
                &&& final(self).attributes == old(self).attributes
                &&& final(self).buildsheet == old(self).buildsheet
                &&& final(self).operation_focus == old(self).operation_focus
                &&& (run.first_code is None
                    ==> final(workspace).frontend_files == old(workspace).frontend_files)
                &&& (run.first_code is Some && run.repaired_code is None
                    ==> final(workspace).frontend_files@.len()
                        == old(workspace).frontend_files@.len() + 1
                    && final(workspace).frontend_files@.last().path@
                        == spec_component_filepath(component)
                    && final(workspace).frontend_files@.last().code@ == run.first_code->0
                    && final(workspace).frontend_files@.drop_last()
                        == old(workspace).frontend_files@)
                &&& (run.first_code is Some && run.repaired_code is Some
                    ==> final(workspace).frontend_files@.len()
                        == old(workspace).frontend_files@.len() + 2
                    && final(workspace).frontend_files@.last().path@
                        == spec_component_filepath(component)
                    && final(workspace).frontend_files@.last().code@ == run.repaired_code->0
                    && final(workspace).frontend_files@.drop_last().last().path@
                        == spec_component_filepath(component)
                    && final(workspace).frontend_files@.drop_last().last().code@
                        == run.first_code->0
                    && final(workspace).frontend_files@.drop_last().drop_last()
                        == old(workspace).frontend_files@)
                &&& final(workspace).code_template == old(workspace).code_template
                &&& final(workspace).backend_code == old(workspace).backend_code
                &&& final(workspace).api_schema == old(workspace).api_schema
                &&& (r == Err::<(), AgentError>(AgentError::TooManyComponentFailures)
                    ==> final(self).bug_count == FRONTEND_FAILURE_CEILING)
                &&& (r is Ok ==> final(self).bug_count == 0)
            }),
    {
        match component {
            BuildComponent::ReactHook => {
                if workspace.api_schema.is_none() {
                    return Err(AgentError::StorageMissing);
                }
            },
            BuildComponent::PageContent1 => {
                let ready: bool = match &self.buildsheet.pages {
                    Some(pages) => pages.len() >= 1,
                    None => false,
                };
                if !ready {
                    return Err(AgentError::MissingPages);
                }
            },
            BuildComponent::PageContent2 => {
                let ready: bool = match &self.buildsheet.pages {
                    Some(pages) => pages.len() >= 2,
                    None => false,
                };
                if !ready {
                    return Err(AgentError::MissingPages);
                }
            },
            _ => {},
        }
        let key1: InstructionKey = match component {
            BuildComponent::Logo => InstructionKey::PrintSvgLogo,
            BuildComponent::NavHeader => InstructionKey::PrintHeaderNavigationReactComponent,
            BuildComponent::NavFooter => InstructionKey::PrintFooterNavigationReactComponent,
            BuildComponent::ReactHook => InstructionKey::PrintReactTypescriptHookComponent,
            BuildComponent::PageContent1 => InstructionKey::CreateFrontendWebsitePageContent,
            BuildComponent::PageContent2 => InstructionKey::CreateFrontendWebsitePageContent,
        };
        let req1: Result<String, AgentError> = session.model.request(key1);
        proof {
            assert(session.model.calls@ =~= old(session).model.calls@ + seq![key1]);
        }
        let code1: String = match req1 {
            Ok(code) => code,
            Err(e) => {
                return Err(e);
            },
        };
        let code: String = if matches!(component, BuildComponent::Logo) {
            let req2: Result<String, AgentError> = session.model.request(
                InstructionKey::PrintCompletedLogoWithBrandNameReactComponent,
            );
            proof {
                assert(session.model.calls@ =~= old(session).model.calls@
                    + spec_component_keys(component));
            }
            match req2 {
                Ok(code) => code,
                Err(e) => {
                    return Err(e);
                },
            }
        } else {
            code1
        };
        workspace.save_frontend_code(component.filepath(), code.clone());
        let tested: Result<(), AgentError> = self.test_and_repair(workspace, session, component);
        proof {
            let run = spec_component_run(
                component,
                old(self).bug_count as int,
                crate::agent_traits::spec_opt_view(old(self).buildsheet.pages),
                old(workspace).api_schema is Some,
                old(session).model.outcomes@,
                old(session).model.attempts as int,
                old(session).builds@,
                old(session).next_build as int,
            );
            assert(session.model.calls@ =~= old(session).model.calls@ + run.calls);
        }
        tested
    }

    /// Works through the component catalog in order, then finishes the
    /// stage.
    fn run_components(&mut self, workspace: &mut Workspace, session: &mut FrontendSession) -> (r:
        Result<(), AgentError>)
        requires
            old(self).attributes.state == AgentState::Working,
        ensures
            final(session).model.outcomes == old(session).model.outcomes,
            final(session).page_lists == old(session).page_lists,
            final(session).next_page_list == old(session).next_page_list,
            final(session).route_maps == old(session).route_maps,
            final(session).next_route_map == old(session).next_route_map,
            final(session).colour_lists == old(session).colour_lists,
            final(session).next_colour_list == old(session).next_colour_list,
            final(session).builds == old(session).builds,
            final(workspace).code_template == old(workspace).code_template,
            final(workspace).backend_code == old(workspace).backend_code,
            final(workspace).api_schema == old(workspace).api_schema,
            final(self).buildsheet == old(self).buildsheet,
            final(self).attributes.position == old(self).attributes.position,
            final(self).attributes.objective == old(self).attributes.objective,
            final(self).attributes.memory == old(self).attributes.memory,
            r is Ok ==> final(self).attributes.state == AgentState::Finished
                && final(self).bug_count == 0,
            r is Ok ==> forall|j: int| 0 <= j < spec_component_catalog().len()
                ==> #[trigger] spec_read_frontend_code(
                    final(workspace).frontend_files@,
                    spec_component_filepath(spec_component_catalog()[j]),
                ) is Some,
            r is Err ==> final(self).attributes.state == AgentState::Working,
            r == Err::<(), AgentError>(AgentError::TooManyComponentFailures)
                ==> final(self).bug_count == FRONTEND_FAILURE_CEILING,
            ({
                let total = spec_frontend_components(
                    0,
                    old(self).bug_count as int,
                    crate::agent_traits::spec_opt_view(old(self).buildsheet.pages),
                    old(workspace).api_schema is Some,
                    old(session).model.outcomes@,
                    old(session).model.attempts as int,
                    old(session).builds@,
                    old(session).next_build as int,
                );
                &&& r == total.result
                &&& final(session).model.calls@ == old(session).model.calls@ + total.calls
                &&& final(session).model.attempts == old(session).model.attempts
                    + total.attempts_consumed
                &&& final(session).next_build == old(session).next_build + total.builds_consumed
                &&& final(self).bug_count as int == total.final_bug
                &&& spec_file_views(final(workspace).frontend_files@) == spec_file_views(
                    old(workspace).frontend_files@,
                ) + total.files
            }),
            final(session).states@ == old(session).states@ + (if r is Ok {
                seq![AgentState::Finished]
            } else {
                Seq::<AgentState>::empty()
            }),
    {
        let catalog: Vec<BuildComponent> = BuildComponent::all();
        let mut idx: usize = 0;
        while idx < catalog.len()
            invariant
                idx <= catalog@.len(),
                catalog@ == spec_component_catalog(),
                self.attributes.state == AgentState::Working,
                self.attributes.position == old(self).attributes.position,
                self.attributes.objective == old(self).attributes.objective,
                self.attributes.memory == old(self).attributes.memory,
                self.buildsheet == old(self).buildsheet,
                session.model.outcomes == old(session).model.outcomes,
                session.page_lists == old(session).page_lists,
                session.next_page_list == old(session).next_page_list,
                session.route_maps == old(session).route_maps,
                session.next_route_map == old(session).next_route_map,
                session.colour_lists == old(session).colour_lists,
                session.next_colour_list == old(session).next_colour_list,
                session.builds == old(session).builds,
                workspace.code_template == old(workspace).code_template,
                workspace.backend_code == old(workspace).backend_code,
                workspace.api_schema == old(workspace).api_schema,
                idx > 0 ==> self.bug_count == 0,
                forall|j: int| 0 <= j < idx ==> #[trigger] spec_read_frontend_code(
                    workspace.frontend_files@,
                    spec_component_filepath(catalog@[j]),
                ) is Some,
                ({
                    let total = spec_frontend_components(
                        0,
                        old(self).bug_count as int,
                        crate::agent_traits::spec_opt_view(old(self).buildsheet.pages),
                        old(workspace).api_schema is Some,
                        old(session).model.outcomes@,
                        old(session).model.attempts as int,
                        old(session).builds@,
                        old(session).next_build as int,
                    );
                    let rem = spec_frontend_components(
                        idx as int,
                        self.bug_count as int,
                        crate::agent_traits::spec_opt_view(old(self).buildsheet.pages),
                        old(workspace).api_schema is Some,
                        old(session).model.outcomes@,
                        session.model.attempts as int,
                        old(session).builds@,
                        session.next_build as int,
                    );
                    &&& total.result == rem.result
                    &&& session.model.calls@ + rem.calls == old(session).model.calls@
                        + total.calls
                    &&& session.model.attempts + rem.attempts_consumed == old(
                        session,
                    ).model.attempts + total.attempts_consumed
                    &&& session.next_build + rem.builds_consumed == old(session).next_build
                        + total.builds_consumed
                    &&& total.final_bug == rem.final_bug
                    &&& spec_file_views(workspace.frontend_files@) + rem.files == spec_file_views(
                        old(workspace).frontend_files@,
                    ) + total.files
                }),
                session.states == old(session).states,
            decreases catalog@.len() - idx,
        {
            self.operation_focus = catalog[idx];
            let ghost files_before = workspace.frontend_files@;
            let ghost bug_pre = self.bug_count as int;
            let ghost session_pre = *session;
            let res: Result<(), AgentError> = self.build_one_component(
                workspace,
                session,
                catalog[idx],
            );
            proof {
                let cr = spec_component_run(
                    catalog@[idx as int],
                    bug_pre,
                    crate::agent_traits::spec_opt_view(old(self).buildsheet.pages),
                    old(workspace).api_schema is Some,
                    old(session).model.outcomes@,
                    session_pre.model.attempts as int,
                    old(session).builds@,
                    session_pre.next_build as int,
                );
                assert(session.model.calls@ =~= session_pre.model.calls@ + cr.calls);
                assert(spec_file_views(workspace.frontend_files@) =~= spec_file_views(files_before)
                    + spec_component_files(catalog@[idx as int], cr));
            }
            if res.is_err() {
                return res;
            }
            proof {
                reveal_with_fuel(spec_read_frontend_code, 3);
                assert forall|j: int| 0 <= j < idx + 1 implies #[trigger] spec_read_frontend_code(
                    workspace.frontend_files@,
                    spec_component_filepath(catalog@[j]),
                ) is Some by {
                    if j < idx {
                        assert(spec_read_frontend_code(
                            files_before,
                            spec_component_filepath(catalog@[j]),
                        ) is Some);
                    }
                }
            }
            idx = idx + 1;
        }
        self.attributes.update_state(AgentState::Finished);
        session.states.push(AgentState::Finished);
        proof {
            assert(session.states@ =~= old(session).states@ + seq![AgentState::Finished]);
        }
        Ok(())
    }
}

/// Everything the frontend developer's `execute` guarantees, as one
/// relation between the stage, the record, the workspace and the session
/// before (`a0`, `fs0`, `ws0`, `s0`) and after (`a1`, `fs1`, `ws1`, `s1`)
/// the call, and its result.
pub open spec fn spec_frontend_execute_holds(
    a0: AgentFrontendDeveloper,
    fs0: FactSheet,
    ws0: Workspace,
    s0: FrontendSession,
    a1: AgentFrontendDeveloper,
    fs1: FactSheet,
    ws1: Workspace,
    s1: FrontendSession,
    r: Result<(), AgentError>,
) -> bool {
    &&& fs1 == fs0
    &&& s1.model.outcomes == s0.model.outcomes
    &&& s1.page_lists == s0.page_lists
    &&& s1.route_maps == s0.route_maps
    &&& s1.colour_lists == s0.colour_lists
    &&& s1.builds == s0.builds
    &&& ws1.code_template == ws0.code_template
    &&& ws1.backend_code == ws0.backend_code
    &&& ws1.api_schema == ws0.api_schema
    &&& a1.attributes.position == a0.attributes.position
    &&& a1.attributes.objective == a0.attributes.objective
    &&& a1.attributes.memory == a0.attributes.memory
    &&& (r is Ok ==> a1.attributes.state == AgentState::Finished)
    &&& ((a0.attributes.state == AgentState::Discovery || a0.attributes.state
        == AgentState::Working) && r is Ok ==> forall|j: int|
        0 <= j < spec_component_catalog().len() ==> #[trigger] spec_read_frontend_code(
            ws1.frontend_files@,
            spec_component_filepath(spec_component_catalog()[j]),
        ) is Some)
    &&& (r == Err::<(), AgentError>(AgentError::TooManyComponentFailures) ==> a1.bug_count
        == FRONTEND_FAILURE_CEILING)
    &&& (a0.attributes.state == AgentState::Finished ==> r is Ok && a1 == a0 && ws1 == ws0 && s1
        == s0)
    &&& (a0.attributes.state == AgentState::UnitTesting ==> r is Ok && ws1 == ws0 && s1 == s0
        && a1.buildsheet == a0.buildsheet && a1.bug_count == a0.bug_count)
    &&& (a0.attributes.state == AgentState::Working ==> {
        let total = spec_frontend_components(
            0,
            a0.bug_count as int,
            crate::agent_traits::spec_opt_view(a0.buildsheet.pages),
            ws0.api_schema is Some,
            s0.model.outcomes@,
            s0.model.attempts as int,
            s0.builds@,
            s0.next_build as int,
        );
        &&& r == total.result
        &&& s1.model.calls@ == s0.model.calls@ + total.calls
        &&& s1.model.attempts == s0.model.attempts + total.attempts_consumed
        &&& s1.next_build == s0.next_build + total.builds_consumed
        &&& a1.bug_count as int == total.final_bug
        &&& spec_file_views(ws1.frontend_files@) == spec_file_views(ws0.frontend_files@)
            + total.files
        &&& s1.states@ == s0.states@ + (if r is Ok {
            seq![AgentState::Finished]
        } else {
            Seq::<AgentState>::empty()
        })
        &&& a1.buildsheet == a0.buildsheet
    })
    &&& (a0.attributes.state == AgentState::Discovery ==> {
        let run = spec_frontend_discovery(ws0, s0);
        &&& (match run.pages {
            Some(p) => a1.buildsheet.pages is Some && a1.buildsheet.pages->0@ == p,
            None => a1.buildsheet.pages == a0.buildsheet.pages,
        })
        &&& (match run.descriptions {
            Some(d) => a1.buildsheet.pages_descriptions is Some
                && a1.buildsheet.pages_descriptions->0@ == d,
            None => a1.buildsheet.pages_descriptions == a0.buildsheet.pages_descriptions,
        })
        &&& (match run.assignments {
            Some(a) => a1.buildsheet.api_assignments is Some && spec_assignments_view(
                a1.buildsheet.api_assignments->0@,
            ) == a,
            None => a1.buildsheet.api_assignments == a0.buildsheet.api_assignments,
        })
        &&& (match run.colours {
            Some(c) => a1.buildsheet.brand_colours is Some && a1.buildsheet.brand_colours->0@
                == c,
            None => a1.buildsheet.brand_colours == a0.buildsheet.brand_colours,
        })
        &&& (run.result is Err ==> {
            &&& r == run.result
            &&& s1.model.calls@ == s0.model.calls@ + run.calls
            &&& s1.model.attempts == s0.model.attempts + run.attempts_consumed
            &&& s1.next_page_list == s0.next_page_list + run.page_lists_consumed
            &&& s1.next_route_map == s0.next_route_map + run.route_maps_consumed
            &&& s1.next_colour_list == s0.next_colour_list + run.colour_lists_consumed
            &&& s1.next_build == s0.next_build
            &&& s1.states@ == s0.states@ + run.entered
            &&& ws1.frontend_files == ws0.frontend_files
        })
        &&& (run.result is Ok ==> {
            let comps = spec_frontend_components(
                0,
                a0.bug_count as int,
                run.pages,
                ws0.api_schema is Some,
                s0.model.outcomes@,
                s0.model.attempts + run.attempts_consumed,
                s0.builds@,
                s0.next_build as int,
            );
            &&& r == comps.result
            &&& s1.model.calls@ == s0.model.calls@ + run.calls + comps.calls
            &&& s1.model.attempts == s0.model.attempts + run.attempts_consumed
                + comps.attempts_consumed
            &&& s1.next_build == s0.next_build + comps.builds_consumed
            &&& a1.bug_count as int == comps.final_bug
            &&& spec_file_views(ws1.frontend_files@) == spec_file_views(ws0.frontend_files@)
                + comps.files
            &&& s1.states@ == s0.states@ + run.entered + (if r is Ok {
                seq![AgentState::Finished]
            } else {
                Seq::<AgentState>::empty()
            })
            &&& s1.next_page_list == s0.next_page_list + run.page_lists_consumed
            &&& s1.next_route_map == s0.next_route_map + run.route_maps_consumed
            &&& s1.next_colour_list == s0.next_colour_list + run.colour_lists_consumed
        })
    })
}

impl AgentFrontendDeveloper {
    /// Runs the stage: the discovery pass fills the build sheet, then the
    /// component catalog is worked through in order. The record is only
    /// read, never written, by this stage.
    pub fn execute(
        &mut self,
        factsheet: &mut FactSheet,
        workspace: &mut Workspace,
        session: &mut FrontendSession,
    ) -> (r: Result<(), AgentError>)
        ensures
            spec_frontend_execute_holds(
                *old(self),
                *old(factsheet),
                *old(workspace),
                *old(session),
                *final(self),
                *final(factsheet),
                *final(workspace),
                *final(session),
                r,
            ),
    {
        match self.attributes.state {
            AgentState::Finished => Ok(()),
            AgentState::UnitTesting => {
                self.attributes.update_state(AgentState::Finished);
                Ok(())
            },
            AgentState::Discovery => {
                let discovered: Result<(), AgentError> = self.run_discovery(workspace, session);
                if discovered.is_err() {
                    return discovered;
                }
                let ghost session_mid = *session;
                let components: Result<(), AgentError> = self.run_components(workspace, session);
                proof {
                    let run = spec_frontend_discovery(*old(workspace), *old(session));
                    let comps = spec_frontend_components(
                        0,
                        old(self).bug_count as int,
                        run.pages,
                        old(workspace).api_schema is Some,
                        old(session).model.outcomes@,
                        old(session).model.attempts + run.attempts_consumed,
                        old(session).builds@,
                        old(session).next_build as int,
                    );
                    assert(session.model.calls@ =~= old(session).model.calls@ + run.calls
                        + comps.calls);
                }
                components
            },
            AgentState::Working => self.run_components(workspace, session),
        }
    }
}

} // verus!
