//! The collaborator model every stage runs against.
//!
//! A stage never performs I/O itself: each outside collaborator - the model
//! completion service, the operator gate, the build verifier, the
//! route-schema extractor and the HTTP prober - is a channel of plain
//! outcome values consumed in order. Tests and the proved laws run the
//! whole stage drivers against scripted channels; a deployed runner
//! performs the real collaborator actions in a loop of its own, taking
//! each decision, context text and counter update from this library's
//! verified functions.

use vstd::prelude::*;
use crate::instructions::InstructionKey;

verus! {

/// Why a stage run stopped short of `Finished`.
#[derive(Debug, Clone, Copy, PartialEq, Eq, Structural)]
pub enum AgentError {
    /// A stage that needs the project scope ran before it was set.
    ScopeMissing,
    /// The completion service failed twice in a row for one request.
    ModelFailure,
    /// A model answer did not decode against its expected schema.
    DecodeFailure,
    /// The decoded classification set none of the three scope flags, which
    /// the shared record's invariant forbids.
    InvalidScope,
    /// The operator rejected the generated code at the safety gate.
    OperatorRejected,
    /// The backend repair loop exceeded its bug ceiling.
    TooManyBugs,
    /// The frontend build checks exceeded their failure ceiling.
    TooManyComponentFailures,
    /// A durable artifact a step needs was never stored.
    StorageMissing,
    /// A per-page component was asked for a page that does not exist.
    MissingPages,
    /// A collaborator channel had no outcome left for a required step.
    ScriptExhausted,
}

/// One build verifier invocation's result.
#[derive(Debug, PartialEq)]
pub struct BuildOutcome {
    pub success: bool,
    pub diagnostics: String,
}

impl Clone for BuildOutcome {
    fn clone(&self) -> (res: Self)
        ensures
            res == *self,
    {
        BuildOutcome { success: self.success, diagnostics: self.diagnostics.clone() }
    }
}

/// One liveness probe's result: an HTTP status, or a transport error.
#[derive(Debug, Clone, Copy, PartialEq, Eq, Structural)]
pub enum ProbeOutcome {
    Status(u16),
    TransportFailure,
}

/// The result a model request settles on, given the outcomes of its first
/// attempt and - when the first fails - its one retry: the first completion
/// text available, or a failure after two misses.
pub open spec fn spec_request_result(outcomes: Seq<Option<String>>, next: int) -> Result<
    String,
    AgentError,
> {
    if next >= outcomes.len() {
        Err(AgentError::ModelFailure)
    } else if outcomes[next] is Some {
        Ok(outcomes[next]->0)
    } else if next + 1 >= outcomes.len() {
        Err(AgentError::ModelFailure)
    } else if outcomes[next + 1] is Some {
        Ok(outcomes[next + 1]->0)
    } else {
        Err(AgentError::ModelFailure)
    }
}

/// How many scripted outcomes a model request consumes: one per attempt.
pub open spec fn spec_request_consumed(outcomes: Seq<Option<String>>, next: int) -> int {
    if next >= outcomes.len() {
        0
    } else if outcomes[next] is Some {
        1
    } else if next + 1 >= outcomes.len() {
        1
    } else {
        2
    }
}

/// The model completion service, as the ordered outcomes of its attempts.
/// `None` is a transport or service failure. Every request a stage issues
/// is recorded, in order, in the append-only call log.
#[derive(Debug, PartialEq)]
pub struct ModelScript {
    /// Outcome of each attempt, in the order attempts are made.
    pub outcomes: Vec<Option<String>>,
    /// How many attempt outcomes have been consumed.
    pub attempts: usize,
    /// Which instructions have been requested, in order.
    pub calls: Vec<InstructionKey>,
}

impl ModelScript {
    /// A script that answers each attempt with the given outcomes.
    pub fn new(outcomes: Vec<Option<String>>) -> (r: ModelScript)
        ensures
            r.outcomes == outcomes,
            r.attempts == 0,
            r.calls@ == Seq::<InstructionKey>::empty(),
    {
        ModelScript { outcomes, attempts: 0, calls: Vec::new() }
    }

    /// How many requests have been issued so far.
    pub fn calls_made(&self) -> (n: usize)
        ensures
            n == self.calls@.len(),
    {
        self.calls.len()
    }

    /// Issues one request to the completion service: try once and, on a
    /// failure, retry exactly once before giving up. The request is logged
    /// whatever its outcome.
    pub fn request(&mut self, key: InstructionKey) -> (r: Result<String, AgentError>)
        ensures
            final(self).outcomes == old(self).outcomes,
            final(self).calls@ == old(self).calls@.push(key),
            r == spec_request_result(old(self).outcomes@, old(self).attempts as int),
            final(self).attempts == old(self).attempts + spec_request_consumed(
                old(self).outcomes@,
                old(self).attempts as int,
            ),
            r is Err ==> r == Err::<String, AgentError>(AgentError::ModelFailure),
    {
        self.calls.push(key);
        if self.attempts >= self.outcomes.len() {
            return Err(AgentError::ModelFailure);
        }
        let first: &Option<String> = &self.outcomes[self.attempts];
        self.attempts = self.attempts + 1;
        match first {
            Some(text) => Ok(text.clone()),
            None => {
                if self.attempts >= self.outcomes.len() {
                    return Err(AgentError::ModelFailure);
                }
                let second: &Option<String> = &self.outcomes[self.attempts];
                self.attempts = self.attempts + 1;
                match second {
                    Some(text) => Ok(text.clone()),
                    None => Err(AgentError::ModelFailure),
                }
            },
        }
    }
}

} // verus!
