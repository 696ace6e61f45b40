//! The architect stage: derives the structured project scope from the
//! description and, when the scope asks for them, gathers and validates the
//! external URLs.
//!
//! Network calls (the generation collaborator, the URL status checks) happen
//! outside the library; each result is handed back to the stage, which makes
//! the verified decision and advances its lifecycle.

use crate::basic_agent::{AgentState, BasicAgent};
use crate::factsheet::{FactSheet, ProjectScope};
use vstd::pervasive::unreached;
use vstd::prelude::*;
use vstd::string::StringExecFns;

verus! {

/// A URL is kept when its status check did not answer with a non-200 status:
/// a 200 keeps it, and so does a transport error, which is reported as a
/// warning but does not exclude the URL.
pub open spec fn keep_url(status: Option<u16>) -> bool {
    match status {
        Some(code) => code == 200,
        None => true,
    }
}

/// The URL list after validation: the original list minus the entries whose
/// status check answered with a non-200 status, in the original order.
/// `statuses[i]` is the outcome of checking `urls[i]`: the status code, or
/// `None` for a transport error.
pub open spec fn filtered_urls(urls: Seq<String>, statuses: Seq<Option<u16>>) -> Seq<String>
    recommends
        urls.len() == statuses.len(),
    decreases urls.len(),
{
    if urls.len() == 0 {
        Seq::empty()
    } else {
        let rest = filtered_urls(urls.drop_last(), statuses.drop_last());
        if keep_url(statuses.last()) {
            rest.push(urls.last())
        } else {
            rest
        }
    }
}

/// Keep the URLs whose checks did not answer with a non-200 status,
/// preserving their order.
pub fn filter_checked_urls(urls: &Vec<String>, statuses: &Vec<Option<u16>>) -> (kept: Vec<String>)
    requires
        urls@.len() == statuses@.len(),
    ensures
        kept@ == filtered_urls(urls@, statuses@),
{
    let ghost all_urls: Seq<String> = urls@;
    let ghost all_statuses: Seq<Option<u16>> = statuses@;
    let mut kept: Vec<String> = Vec::new();
    let mut i: usize = 0;
    while i < urls.len()
        invariant
            i <= urls@.len(),
            urls@.len() == statuses@.len(),
            kept@ == filtered_urls(urls@.take(i as int), statuses@.take(i as int)),
        decreases urls@.len() - i,
    {
        let keep = match statuses[i] {
            Some(code) => code == 200,
            None => true,
        };
        if keep {
            kept.push(urls[i].clone());
        }
        proof {
            let next = i + 1 as int;
            assert(urls@.take(next).drop_last() =~= urls@.take(i as int));
            assert(statuses@.take(next).drop_last() =~= statuses@.take(i as int));
            assert(urls@.take(next).last() == urls@[i as int]);
            assert(statuses@.take(next).last() == statuses@[i as int]);
        }
        i = i + 1;
    }
    proof {
        assert(urls@.take(urls@.len() as int) =~= urls@);
        assert(statuses@.take(statuses@.len() as int) =~= statuses@);
    }
    kept
}

/// The stage agent that turns the project description into a structured
/// scope and validates externally-referenced URLs.
pub struct AgentSolutionArchitect {
    pub attributes: BasicAgent,
}

impl AgentSolutionArchitect {
    pub open spec fn wf(&self) -> bool {
        self.attributes.wf()
    }

    pub fn new() -> (agent: AgentSolutionArchitect)
        ensures
            agent.wf(),
            agent.attributes.state == AgentState::Discovery,
            agent.attributes.history@ == seq![AgentState::Discovery],
            agent.attributes.position@ == "Solution Architect"@,
    {
        let attributes = BasicAgent::new(
            String::from_str("Gathers information and design solutions for website development"),
            String::from_str("Solution Architect"),
        );
        AgentSolutionArchitect { attributes }
    }

    pub fn get_attributes_from_agent(&self) -> (r: &BasicAgent)
        ensures
            r == &self.attributes,
    {
        &self.attributes
    }

    /// Record the scope the collaborator derived. When it asks for external
    /// URLs the stage stays in `Discovery` awaiting them; otherwise the stage
    /// is finished.
    pub fn apply_project_scope(
        &mut self,
        factsheet: &mut FactSheet,
        scope: ProjectScope,
    ) -> (needs_urls: bool)
        requires
            old(self).wf(),
            old(self).attributes.state == AgentState::Discovery,
        ensures
            final(self).wf(),
            needs_urls == scope.requires_external_urls,
            final(factsheet).project_scope == Some(scope),
            final(factsheet).project_description == old(factsheet).project_description,
            final(factsheet).external_urls == old(factsheet).external_urls,
            final(factsheet).backend_code == old(factsheet).backend_code,
            final(factsheet).api_endpoint_schema == old(factsheet).api_endpoint_schema,
            needs_urls ==> *final(self) == *old(self),
            !needs_urls ==> final(self).attributes.state == AgentState::Finished,
            !needs_urls ==> final(self).attributes.history@ == old(
                self,
            ).attributes.history@.push(AgentState::Finished),
    {
        factsheet.project_scope = Some(scope);
        if scope.requires_external_urls {
            true
        } else {
            self.attributes.update_state(AgentState::Finished);
            false
        }
    }

    /// Record the URL list the collaborator produced and move on to
    /// validating it.
    pub fn apply_external_urls(&mut self, factsheet: &mut FactSheet, urls: Vec<String>)
        requires
            old(self).wf(),
            old(self).attributes.state == AgentState::Discovery,
        ensures
            final(self).wf(),
            final(self).attributes.state == AgentState::UnitTesting,
            final(self).attributes.history@ == old(self).attributes.history@.push(
                AgentState::UnitTesting,
            ),
            final(factsheet).external_urls == Some(urls),
            final(factsheet).project_description == old(factsheet).project_description,
            final(factsheet).project_scope == old(factsheet).project_scope,
            final(factsheet).backend_code == old(factsheet).backend_code,
            final(factsheet).api_endpoint_schema == old(factsheet).api_endpoint_schema,
    {
        factsheet.external_urls = Some(urls);
        self.attributes.update_state(AgentState::UnitTesting);
    }

    /// Record the outcome of checking each URL, keep those not excluded, and
    /// finish the stage. `statuses[i]` belongs to the i-th stored URL.
    pub fn apply_url_checks(&mut self, factsheet: &mut FactSheet, statuses: &Vec<Option<u16>>)
        requires
            old(self).wf(),
            old(self).attributes.state == AgentState::UnitTesting,
            old(factsheet).external_urls matches Some(urls) && urls@.len() == statuses@.len(),
        ensures
            final(self).wf(),
            final(self).attributes.state == AgentState::Finished,
            final(self).attributes.history@ == old(self).attributes.history@.push(
                AgentState::Finished,
            ),
            final(factsheet).external_urls matches Some(kept) && kept@ == filtered_urls(
                old(factsheet).external_urls->Some_0@,
                statuses@,
            ),
            final(factsheet).project_description == old(factsheet).project_description,
            final(factsheet).project_scope == old(factsheet).project_scope,
            final(factsheet).backend_code == old(factsheet).backend_code,
            final(factsheet).api_endpoint_schema == old(factsheet).api_endpoint_schema,
    {
        let kept = match &factsheet.external_urls {
            Some(urls) => filter_checked_urls(urls, statuses),
            None => unreached(),
        };
        factsheet.external_urls = Some(kept);
        self.attributes.update_state(AgentState::Finished);
    }

    /// Defensive default for a state this stage does not handle: finish
    /// directly.
    pub fn finish_defensively(&mut self)
        requires
            old(self).wf(),
            old(self).attributes.state == AgentState::Working,
        ensures
            final(self).wf(),
            final(self).attributes.state == AgentState::Finished,
            final(self).attributes.history@ == old(self).attributes.history@.push(
                AgentState::Finished,
            ),
    {
        self.attributes.update_state(AgentState::Finished);
    }
}

} // verus!
