//! The URL manager stage: probes each candidate external URL once, in list
//! order, and prunes the ones that do not answer with HTTP 200. Pruning is
//! advisory - a bad URL never aborts the pipeline.

use vstd::prelude::*;
use crate::agent_traits::FactSheet;
use crate::basic_agent::{AgentState, BasicAgent};
use crate::llm::Message;
use crate::session::{AgentError, ProbeOutcome};

verus! {

/// A probed URL survives exactly when its probe answered with status 200;
/// any other status, and any transport error, removes it.
pub open spec fn spec_url_kept(outcome: ProbeOutcome) -> bool {
    outcome == ProbeOutcome::Status(200u16)
}

/// The candidate list after pruning: the URLs whose probe answered 200, in
/// their original order.
pub open spec fn spec_pruned_urls(urls: Seq<String>, outcomes: Seq<ProbeOutcome>) -> Seq<String>
    decreases urls.len(),
{
    if urls.len() == 0 {
        Seq::<String>::empty()
    } else {
        let rest = spec_pruned_urls(urls.drop_last(), outcomes.drop_last());
        if outcomes.len() == urls.len() && spec_url_kept(outcomes.last()) {
            rest.push(urls.last())
        } else {
            rest
        }
    }
}

/// Prunes a candidate URL list against the probe outcome of each entry:
/// the result holds exactly the URLs whose probe answered 200, order
/// preserved.
pub fn prune_urls(urls: &Vec<String>, outcomes: &Vec<ProbeOutcome>) -> (r: Vec<String>)
    requires
        urls@.len() == outcomes@.len(),
    ensures
        r@ == spec_pruned_urls(urls@, outcomes@),
{
    let mut out: Vec<String> = Vec::new();
    let mut i: usize = 0;
    while i < urls.len()
        invariant
            i <= urls@.len(),
            urls@.len() == outcomes@.len(),
            out@ == spec_pruned_urls(urls@.take(i as int), outcomes@.take(i as int)),
        decreases urls@.len() - i,
    {
        let kept: bool = match outcomes[i] {
            ProbeOutcome::Status(code) => code == 200,
            ProbeOutcome::TransportFailure => false,
        };
        if kept {
            out.push(urls[i].clone());
        }
        proof {
            assert(urls@.take(i + 1).drop_last() =~= urls@.take(i as int));
            assert(outcomes@.take(i + 1).drop_last() =~= outcomes@.take(i as int));
            assert(urls@.take(i + 1).last() == urls@[i as int]);
            assert(outcomes@.take(i + 1).last() == outcomes@[i as int]);
            assert(out@ == spec_pruned_urls(urls@.take(i + 1), outcomes@.take(i + 1)));
        }
        i = i + 1;
    }
    proof {
        assert(urls@.take(urls@.len() as int) =~= urls@);
        assert(outcomes@.take(outcomes@.len() as int) =~= outcomes@);
    }
    out
}

/// The probe channel the URL manager consumes: one outcome per candidate
/// URL, in list order, and the trace of states the stage has entered.
#[derive(Debug, PartialEq)]
pub struct UrlSession {
    pub probes: Vec<ProbeOutcome>,
    pub next_probe: usize,
    pub states: Vec<AgentState>,
}

impl UrlSession {
    /// A session answering probes from the given outcomes.
    pub fn new(probes: Vec<ProbeOutcome>) -> (r: UrlSession)
        ensures
            r.probes == probes,
            r.next_probe == 0,
            r.states@ == Seq::<AgentState>::empty(),
    {
        UrlSession { probes, next_probe: 0, states: Vec::new() }
    }
}

/// Everything the URL manager's `execute` guarantees, as one relation
/// between the stage, the record and the session before (`a0`, `fs0`,
/// `s0`) and after (`a1`, `fs1`, `s1`) the call, and its result.
pub open spec fn spec_url_execute_holds(
    a0: AgentUrlManager,
    fs0: FactSheet,
    s0: UrlSession,
    a1: AgentUrlManager,
    fs1: FactSheet,
    s1: UrlSession,
    r: Result<(), AgentError>,
) -> bool {
    &&& s1.probes == s0.probes
    &&& fs1.project_description == fs0.project_description
    &&& fs1.project_scope == fs0.project_scope
    &&& fs1.backend_code == fs0.backend_code
    &&& fs1.api_endpoint_schema == fs0.api_endpoint_schema
    &&& (a0.attributes.state == AgentState::Finished ==> r is Ok && a1 == a0 && fs1 == fs0 && s1
        == s0)
    &&& (r is Ok ==> a1.attributes.state == AgentState::Finished)
    &&& (a0.attributes.state != AgentState::Finished && fs0.external_urls is None ==> r is Ok
        && fs1.external_urls is None && s1.next_probe == s0.next_probe)
    &&& (a0.attributes.state != AgentState::Finished && fs0.external_urls is Some
        && s0.next_probe + fs0.external_urls->0@.len() <= s0.probes@.len() ==> r is Ok
        && s1.next_probe == s0.next_probe + fs0.external_urls->0@.len()
        && fs1.external_urls is Some
        && fs1.external_urls->0@ == spec_pruned_urls(
            fs0.external_urls->0@,
            s0.probes@.subrange(
                s0.next_probe as int,
                s0.next_probe + fs0.external_urls->0@.len(),
            ),
        ))
    &&& (r is Err ==> r == Err::<(), AgentError>(AgentError::ScriptExhausted))
}

/// The URL manager stage.
#[derive(Debug, PartialEq)]
pub struct AgentUrlManager {
    pub attributes: BasicAgent,
}

impl AgentUrlManager {
    /// A fresh URL manager in the `Discovery` state.
    pub fn new() -> (r: AgentUrlManager)
        ensures
            r.attributes.position@
                == "URL Manager"@,
            r.attributes.objective@
                == "detect what urls will be required for use within the website application"@,
            r.attributes.state == AgentState::Discovery,
            r.attributes.memory@ == Seq::<Message>::empty(),
    {
        AgentUrlManager {
            attributes: BasicAgent::new(
                String::from_str(
                    "detect what urls will be required for use within the website application",
                ),
                String::from_str("URL Manager"),
            ),
        }
    }


    /// The stage's attributes, for the orchestrator's inspection.
    pub fn get_attributes_from_agent(&self) -> (r: &BasicAgent)
        ensures
            r == &self.attributes,
    {
        &self.attributes
    }

    /// Runs the stage: with no candidate URLs on the record there is
    /// nothing to do; otherwise every candidate is probed once, in order,
    /// and the record keeps exactly the URLs whose probe answered 200.
    pub fn execute(&mut self, factsheet: &mut FactSheet, session: &mut UrlSession) -> (r: Result<
        (),
        AgentError,
    >)
        ensures
            spec_url_execute_holds(
                *old(self),
                *old(factsheet),
                *old(session),
                *final(self),
                *final(factsheet),
                *final(session),
                r,
            ),
    {
        if matches!(self.attributes.state, AgentState::Finished) {
            return Ok(());
        }
        match &factsheet.external_urls {
            None => {
                self.attributes.update_state(AgentState::Finished);
                session.states.push(AgentState::Finished);
                Ok(())
            },
            Some(urls) => {
                self.attributes.update_state(AgentState::UnitTesting);
                session.states.push(AgentState::UnitTesting);
                let enough: bool = session.next_probe <= session.probes.len()
                    && session.probes.len() - session.next_probe >= urls.len();
                if !enough {
                    return Err(AgentError::ScriptExhausted);
                }
                let plen: usize = session.probes.len();
                let mut outcomes: Vec<ProbeOutcome> = Vec::new();
                let mut i: usize = 0;
                while i < urls.len()
                    invariant
                        i <= urls@.len(),
                        plen == session.probes@.len(),
                        session.next_probe + urls@.len() <= plen,
                        outcomes@ == session.probes@.subrange(
                            session.next_probe as int,
                            session.next_probe + i,
                        ),
                    decreases urls@.len() - i,
                {
                    outcomes.push(session.probes[session.next_probe + i]);
                    i = i + 1;
                }
                let kept: Vec<String> = prune_urls(urls, &outcomes);
                session.next_probe = session.next_probe + urls.len();
                factsheet.external_urls = Some(kept);
                self.attributes.update_state(AgentState::Finished);
                session.states.push(AgentState::Finished);
                Ok(())
            },
        }
    }
}

} // verus!
