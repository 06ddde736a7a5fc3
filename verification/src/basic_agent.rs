//! The attributes shared by every stage: an objective, a position label, the
//! state-machine cursor, and an append-only interaction log.

use vstd::prelude::*;
use crate::llm::Message;

verus! {

/// The state vocabulary shared by all stages. Each stage defines its own
/// transition table over these states.
#[derive(Debug, Clone, Copy, PartialEq, Eq, Structural)]
pub enum AgentState {
    Discovery,
    Working,
    UnitTesting,
    Finished,
}

/// Per-stage identity and cursor. The memory log is audit only: no control
/// decision ever reads it.
#[derive(Debug, Clone, PartialEq)]
pub struct BasicAgent {
    pub objective: String,
    pub position: String,
    pub state: AgentState,
    pub memory: Vec<Message>,
}

impl BasicAgent {
    /// Builds fresh attributes in the `Discovery` state with an empty log.
    pub fn new(objective: String, position: String) -> (r: BasicAgent)
        ensures
            r.objective == objective,
            r.position == position,
            r.state == AgentState::Discovery,
            r.memory@ == Seq::<Message>::empty(),
    {
        BasicAgent { objective, position, state: AgentState::Discovery, memory: Vec::new() }
    }

    /// Moves the state-machine cursor, leaving everything else unchanged.
    pub fn update_state(&mut self, state: AgentState)
        ensures
            final(self).state == state,
            final(self).objective == old(self).objective,
            final(self).position == old(self).position,
            final(self).memory == old(self).memory,
    {
        self.state = state;
    }

    /// Appends one message to the audit log, leaving everything else
    /// unchanged.
    pub fn add_memory(&mut self, message: Message)
        ensures
            final(self).memory@ == old(self).memory@.push(message),
            final(self).objective == old(self).objective,
            final(self).position == old(self).position,
            final(self).state == old(self).state,
    {
        self.memory.push(message);
    }
}

} // verus!
