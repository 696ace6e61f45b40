//! The four-state lifecycle shared by every stage agent, together with the
//! record of states the agent has passed through.
//!
//! Every agent starts in `Discovery`; `Finished` is terminal. The ghost
//! `history` field records each state the agent has held, so that the
//! lifecycle law (non-empty, starts at `Discovery`, never leaves `Finished`)
//! can be stated and proved of every agent the stages drive.

use crate::llm::Message;
use vstd::prelude::*;

verus! {

/// Lifecycle state of a stage agent.
#[derive(Clone, Copy, Debug, PartialEq, Eq, Structural)]
pub enum AgentState {
    Discovery,
    Working,
    UnitTesting,
    Finished,
}

/// The identity and lifecycle record of one stage agent.
pub struct BasicAgent {
    pub objective: String,
    pub position: String,
    pub state: AgentState,
    pub memory: Vec<Message>,
    /// Every state this agent has held, oldest first; the current state is
    /// the last entry.
    pub history: Ghost<Seq<AgentState>>,
}

impl BasicAgent {
    /// The lifecycle invariant: the state sequence is non-empty, starts at
    /// `Discovery`, ends at the current state, and holds `Finished` only in
    /// terminal position.
    pub open spec fn wf(&self) -> bool {
        &&& self.history@.len() >= 1
        &&& self.history@.first() == AgentState::Discovery
        &&& self.history@.last() == self.state
        &&& forall|i: int|
            0 <= i < self.history@.len() - 1 ==> self.history@[i] != AgentState::Finished
    }

    pub fn new(objective: String, position: String) -> (agent: BasicAgent)
        ensures
            agent.wf(),
            agent.state == AgentState::Discovery,
            agent.objective == objective,
            agent.position == position,
            agent.memory@ == Seq::<Message>::empty(),
            agent.history@ == seq![AgentState::Discovery],
    {
        let ghost initial_history: Seq<AgentState> = seq![AgentState::Discovery];
        BasicAgent {
            objective,
            position,
            state: AgentState::Discovery,
            memory: Vec::new(),
            history: Ghost(initial_history),
        }
    }

    /// Advance the lifecycle. A finished agent is never advanced, so
    /// `Finished` stays terminal in the recorded history.
    pub fn update_state(&mut self, new_state: AgentState)
        requires
            old(self).wf(),
            old(self).state != AgentState::Finished,
        ensures
            final(self).wf(),
            final(self).state == new_state,
            final(self).history@ == old(self).history@.push(new_state),
            final(self).objective == old(self).objective,
            final(self).position == old(self).position,
            final(self).memory == old(self).memory,
    {
        let ghost new_history: Seq<AgentState> = self.history@.push(new_state);
        proof {
            assert(new_history.last() == new_state);
            assert(forall|i: int|
                0 <= i < self.history@.len() ==> new_history[i] == self.history@[i]);
        }
        self.state = new_state;
        self.history = Ghost(new_history);
    }

    pub fn get_objective(&self) -> (r: &String)
        ensures
            r == &self.objective,
    {
        &self.objective
    }

    pub fn get_position(&self) -> (r: &String)
        ensures
            r == &self.position,
    {
        &self.position
    }

    pub fn get_state(&self) -> (r: &AgentState)
        ensures
            r == &self.state,
    {
        &self.state
    }

    pub fn get_memory(&self) -> (r: &Vec<Message>)
        ensures
            r == &self.memory,
    {
        &self.memory
    }
}

/// Lifecycle law: for every well-formed agent, the state sequence is
/// non-empty, starts at `Discovery`, and holds `Finished` only as its final
/// entry — once `Finished` is reached it is never left.
pub proof fn lemma_agent_state_sequence(agent: &BasicAgent)
    requires
        agent.wf(),
    ensures
        agent.history@.len() > 0,
        agent.history@.first() == AgentState::Discovery,
        forall|i: int|
            0 <= i < agent.history@.len() - 1 ==> agent.history@[i] != AgentState::Finished,
{
}

} // verus!
