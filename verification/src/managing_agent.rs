//! The orchestrator: owns the shared fact sheet, instantiates the stage
//! agents in their fixed order, and hands the document to one stage at a
//! time. Converting the raw user request into the project description is a
//! generation call and happens outside the library; the orchestrator is
//! constructed from its result.

use crate::agent_architect::AgentSolutionArchitect;
use crate::agent_backend::AgentBackendDeveloper;
use crate::basic_agent::{AgentState, BasicAgent};
use crate::factsheet::FactSheet;
use vstd::prelude::*;
use vstd::string::StringExecFns;

verus! {

/// The closed set of stage agents the orchestrator can run, in the fixed
/// pipeline order: the architect first, then the build-repair loop (which
/// subsumes the probe session).
pub enum StageAgent {
    Architect(AgentSolutionArchitect),
    Backend(AgentBackendDeveloper),
}

impl StageAgent {
    /// Whichever stage it is, its lifecycle record is well-formed and it has
    /// not started yet.
    pub open spec fn ready(&self) -> bool {
        match *self {
            StageAgent::Architect(ref a) => a.wf() && a.attributes.state == AgentState::Discovery,
            StageAgent::Backend(ref b) => b.wf() && b.attributes.state == AgentState::Discovery
                && !b.aborted && b.bug_count == 0,
        }
    }
}

/// The agent that bootstraps the shared document and runs the stages in
/// order; stages never run concurrently with each other.
pub struct ManagingAgent {
    pub attributes: BasicAgent,
    pub factsheet: FactSheet,
    pub agents: Vec<StageAgent>,
}

impl ManagingAgent {
    /// Bootstrap the pipeline around a normalized project description, with
    /// only the description populated and no stages instantiated yet.
    pub fn new(project_description: String) -> (manager: ManagingAgent)
        ensures
            manager.attributes.wf(),
            manager.attributes.state == AgentState::Discovery,
            manager.attributes.position@ == "Project Manager"@,
            manager.factsheet.project_description == project_description,
            manager.factsheet.project_scope is None,
            manager.factsheet.external_urls is None,
            manager.factsheet.backend_code is None,
            manager.factsheet.api_endpoint_schema is None,
            manager.agents@.len() == 0,
    {
        let attributes = BasicAgent::new(
            String::from_str("Manage agents who are building an excellent website for the user"),
            String::from_str("Project Manager"),
        );
        ManagingAgent { attributes, factsheet: FactSheet::new(project_description), agents: Vec::new() }
    }

    /// Append one stage to the ordered pipeline.
    pub fn add_agent(&mut self, agent: StageAgent)
        ensures
            final(self).agents@ == old(self).agents@.push(agent),
            final(self).attributes == old(self).attributes,
            final(self).factsheet == old(self).factsheet,
    {
        self.agents.push(agent);
    }

    /// Instantiate the stage agents in the fixed, non-configurable order:
    /// the architect, then the build-repair loop.
    pub fn create_agents(&mut self)
        ensures
            final(self).agents@.len() == old(self).agents@.len() + 2,
            forall|i: int|
                0 <= i < old(self).agents@.len() ==> final(self).agents@[i] == old(
                    self,
                ).agents@[i],
            final(self).agents@[old(self).agents@.len() as int] matches StageAgent::Architect(a)
                && a.wf() && a.attributes.state == AgentState::Discovery,
            final(self).agents@[old(self).agents@.len() + 1int] matches StageAgent::Backend(b)
                && b.wf() && b.attributes.state == AgentState::Discovery && !b.aborted
                && b.bug_count == 0,
            forall|i: int|
                old(self).agents@.len() <= i < final(self).agents@.len()
                    ==> #[trigger] final(self).agents@[i].ready(),
            final(self).attributes == old(self).attributes,
            final(self).factsheet == old(self).factsheet,
    {
        self.add_agent(StageAgent::Architect(AgentSolutionArchitect::new()));
        self.add_agent(StageAgent::Backend(AgentBackendDeveloper::new()));
    }
}

} // verus!
