//! The build-repair loop: generates backend code, builds it, repairs it up to
//! the retry ceiling, filters the extracted endpoint schema to the
//! safe-to-probe subset, and hands the probe session to the driver.
//!
//! The generation calls, the build toolchain, the safety prompt and the probe
//! traffic all happen outside the library; each outcome is handed back to the
//! stage, which makes the verified decision and advances its lifecycle. The
//! stage never directs more than three build invocations — the initial one
//! and two repairs — before the failure becomes fatal.

use crate::basic_agent::{AgentState, BasicAgent};
use crate::errors::AgentError;
use crate::factsheet::{FactSheet, RouteObject};
use crate::probe::{probe_safe, ProbeSession};
use vstd::prelude::*;
use vstd::string::StringExecFns;

verus! {

/// The endpoint schema reduced to the entries that are safe to probe: only
/// static GET routes survive, in their original order.
pub open spec fn filtered_routes(routes: Seq<RouteObject>) -> Seq<RouteObject>
    decreases routes.len(),
{
    if routes.len() == 0 {
        Seq::empty()
    } else {
        let rest = filtered_routes(routes.drop_last());
        if probe_safe(routes.last()) {
            rest.push(routes.last())
        } else {
            rest
        }
    }
}

/// Every entry the filter keeps is safe to probe.
pub proof fn lemma_filtered_routes_safe(routes: Seq<RouteObject>)
    ensures
        forall|i: int|
            0 <= i < filtered_routes(routes).len() ==> probe_safe(
                #[trigger] filtered_routes(routes)[i],
            ),
    decreases routes.len(),
{
    if routes.len() > 0 {
        lemma_filtered_routes_safe(routes.drop_last());
        let rest = filtered_routes(routes.drop_last());
        if probe_safe(routes.last()) {
            assert(filtered_routes(routes) == rest.push(routes.last()));
            assert forall|i: int|
                0 <= i < filtered_routes(routes).len() implies probe_safe(
                #[trigger] filtered_routes(routes)[i],
            ) by {
                if i < rest.len() {
                    assert(filtered_routes(routes)[i] == rest[i]);
                } else {
                    assert(filtered_routes(routes)[i] == routes.last());
                }
            }
        } else {
            assert(filtered_routes(routes) == rest);
        }
    }
}

/// A schema whose entries are all safe to probe passes the filter unchanged.
pub proof fn lemma_filter_keeps_safe_schema(routes: Seq<RouteObject>)
    requires
        forall|i: int| 0 <= i < routes.len() ==> probe_safe(#[trigger] routes[i]),
    ensures
        filtered_routes(routes) == routes,
    decreases routes.len(),
{
    if routes.len() > 0 {
        assert(forall|i: int|
            0 <= i < routes.drop_last().len() ==> #[trigger] routes.drop_last()[i] == routes[i]);
        lemma_filter_keeps_safe_schema(routes.drop_last());
        assert(filtered_routes(routes) =~= routes);
    } else {
        assert(filtered_routes(routes) =~= routes);
    }
}

/// Filtering law: the safe-to-probe filter is idempotent — filtering a
/// schema twice yields the same entries as filtering it once.
pub proof fn lemma_filter_idempotent(routes: Seq<RouteObject>)
    ensures
        filtered_routes(filtered_routes(routes)) == filtered_routes(routes),
{
    lemma_filtered_routes_safe(routes);
    lemma_filter_keeps_safe_schema(filtered_routes(routes));
}

/// Keep only the entries that are safe to probe: static GET routes, in their
/// original order.
pub fn filter_probe_safe_routes(routes: &Vec<RouteObject>) -> (kept: Vec<RouteObject>)
    ensures
        kept@ == filtered_routes(routes@),
{
    let mut kept: Vec<RouteObject> = Vec::new();
    let mut i: usize = 0;
    while i < routes.len()
        invariant
            i <= routes@.len(),
            kept@ == filtered_routes(routes@.take(i as int)),
        decreases routes@.len() - i,
    {
        let route: &RouteObject = &routes[i];
        if crate::general::str_eq(route.method.as_str(), "GET") && !route.is_dynamic {
            kept.push(route.clone());
        }
        proof {
            let next = i + 1 as int;
            assert(routes@.take(next).drop_last() =~= routes@.take(i as int));
            assert(routes@.take(next).last() == routes@[i as int]);
        }
        i = i + 1;
    }
    proof {
        assert(routes@.take(routes@.len() as int) =~= routes@);
    }
    kept
}

/// Which rewrite the generation collaborator is asked for while the stage is
/// working.
#[derive(Clone, Copy, Debug, PartialEq, Eq, Structural)]
pub enum CodeRewrite {
    /// No build has failed since the last clean build: a feature-completion
    /// pass over the current code.
    Improve,
    /// A build failed: a fix of the current code against the captured errors.
    Fix,
}

/// The stage agent that produces compilable backend code and validates it.
pub struct AgentBackendDeveloper {
    pub attributes: BasicAgent,
    /// The build errors captured by the latest failed build.
    pub bug_errors: Option<String>,
    /// Failed build attempts since the last clean build.
    pub bug_count: usize,
    /// The operator has approved running the generated code this round.
    pub safety_confirmed: bool,
    /// The latest build of this round succeeded.
    pub build_passed: bool,
    /// The filtered endpoint schema has been written to the fact sheet.
    pub schema_stored: bool,
    /// The stage failed fatally (operator abort or repair budget exhausted).
    pub aborted: bool,
    /// Build invocations this stage has directed.
    pub build_attempts: Ghost<nat>,
}

impl AgentBackendDeveloper {
    /// The stage invariant. Wherever the stage stands, it has directed at
    /// most three build invocations; until a build succeeds, their count
    /// equals the failures seen, and never exceeds the ceiling.
    pub open spec fn wf(&self) -> bool {
        &&& self.attributes.wf()
        &&& self.build_attempts@ <= 3
        &&& !self.aborted ==> {
            &&& self.attributes.state == AgentState::Discovery ==> (self.bug_count == 0
                && self.build_attempts@ == 0 && !self.safety_confirmed && !self.build_passed
                && !self.schema_stored)
            &&& self.attributes.state == AgentState::Working ==> (self.bug_count <= 2
                && self.build_attempts@ == self.bug_count && !self.safety_confirmed
                && !self.build_passed && !self.schema_stored)
            &&& (self.attributes.state == AgentState::UnitTesting && !self.build_passed) ==> (
            self.bug_count <= 2 && self.build_attempts@ == self.bug_count && !self.schema_stored)
            &&& (self.attributes.state == AgentState::UnitTesting && self.build_passed)
                ==> self.bug_count == 0
        }
    }

    pub fn new() -> (agent: AgentBackendDeveloper)
        ensures
            agent.wf(),
            agent.attributes.state == AgentState::Discovery,
            agent.attributes.history@ == seq![AgentState::Discovery],
            agent.attributes.position@ == "Backend Developer"@,
            agent.bug_errors is None,
            agent.bug_count == 0,
            !agent.aborted,
            agent.build_attempts@ == 0,
    {
        let attributes = BasicAgent::new(
            String::from_str("Develops backend code for webserver and json database"),
            String::from_str("Backend Developer"),
        );
        let ghost no_builds: nat = 0nat;
        AgentBackendDeveloper {
            attributes,
            bug_errors: None,
            bug_count: 0,
            safety_confirmed: false,
            build_passed: false,
            schema_stored: false,
            aborted: false,
            build_attempts: Ghost(no_builds),
        }
    }

    pub fn get_attributes_from_agent(&self) -> (r: &BasicAgent)
        ensures
            r == &self.attributes,
    {
        &self.attributes
    }

    /// Record the initial generated code and start working on it.
    pub fn apply_initial_code(&mut self, factsheet: &mut FactSheet, code: String)
        requires
            old(self).wf(),
            !old(self).aborted,
            old(self).attributes.state == AgentState::Discovery,
        ensures
            final(self).wf(),
            !final(self).aborted,
            final(self).attributes.state == AgentState::Working,
            final(self).attributes.history@ == old(self).attributes.history@.push(
                AgentState::Working,
            ),
            final(self).bug_count == 0,
            final(self).build_attempts@ == 0,
            final(factsheet).backend_code == Some(code),
            final(factsheet).project_description == old(factsheet).project_description,
            final(factsheet).project_scope == old(factsheet).project_scope,
            final(factsheet).external_urls == old(factsheet).external_urls,
            final(factsheet).api_endpoint_schema == old(factsheet).api_endpoint_schema,
    {
        factsheet.backend_code = Some(code);
        self.attributes.update_state(AgentState::Working);
    }

    /// Which rewrite to request: a feature-completion pass after a clean
    /// round, a fix once a build has failed.
    pub fn work_kind(&self) -> (kind: CodeRewrite)
        ensures
            kind == if self.bug_count == 0 {
                CodeRewrite::Improve
            } else {
                CodeRewrite::Fix
            },
    {
        if self.bug_count == 0 {
            CodeRewrite::Improve
        } else {
            CodeRewrite::Fix
        }
    }

    /// Record the rewritten code and move on to testing it. A new round
    /// begins: the safety gate must be passed again before the build.
    pub fn apply_rewritten_code(&mut self, factsheet: &mut FactSheet, code: String)
        requires
            old(self).wf(),
            !old(self).aborted,
            old(self).attributes.state == AgentState::Working,
        ensures
            final(self).wf(),
            !final(self).aborted,
            final(self).attributes.state == AgentState::UnitTesting,
            final(self).attributes.history@ == old(self).attributes.history@.push(
                AgentState::UnitTesting,
            ),
            final(self).bug_count == old(self).bug_count,
            final(self).build_attempts@ == old(self).build_attempts@,
            !final(self).safety_confirmed,
            !final(self).build_passed,
            final(factsheet).backend_code == Some(code),
            final(factsheet).project_description == old(factsheet).project_description,
            final(factsheet).project_scope == old(factsheet).project_scope,
            final(factsheet).external_urls == old(factsheet).external_urls,
            final(factsheet).api_endpoint_schema == old(factsheet).api_endpoint_schema,
    {
        factsheet.backend_code = Some(code);
        self.safety_confirmed = false;
        self.build_passed = false;
        self.attributes.update_state(AgentState::UnitTesting);
    }

    /// Record the operator's answer to the safety gate. A declined
    /// confirmation aborts the run: this is a deliberate safety gate, not a
    /// recoverable error.
    pub fn apply_safety_confirmation(&mut self, approved: bool) -> (r: Result<(), AgentError>)
        requires
            old(self).wf(),
            !old(self).aborted,
            old(self).attributes.state == AgentState::UnitTesting,
            !old(self).safety_confirmed,
            !old(self).build_passed,
        ensures
            final(self).wf(),
            approved ==> (r == Ok::<(), AgentError>(())
                && !final(self).aborted
                && final(self).safety_confirmed),
            !approved ==> (r == Err::<(), AgentError>(AgentError::OperatorAbort)
                && final(self).aborted),
            final(self).attributes == old(self).attributes,
            final(self).bug_count == old(self).bug_count,
            final(self).bug_errors == old(self).bug_errors,
            final(self).build_attempts@ == old(self).build_attempts@,
            !final(self).build_passed,
            final(self).schema_stored == old(self).schema_stored,
    {
        if approved {
            self.safety_confirmed = true;
            Ok(())
        } else {
            self.aborted = true;
            Err(AgentError::OperatorAbort)
        }
    }

    /// Record a successful build: the failure streak resets to zero and the
    /// round proceeds to schema extraction and probing.
    pub fn apply_build_success(&mut self)
        requires
            old(self).wf(),
            !old(self).aborted,
            old(self).attributes.state == AgentState::UnitTesting,
            old(self).safety_confirmed,
            !old(self).build_passed,
        ensures
            final(self).wf(),
            !final(self).aborted,
            final(self).attributes == old(self).attributes,
            final(self).bug_count == 0,
            final(self).build_passed,
            final(self).build_attempts@ == old(self).build_attempts@ + 1,
            final(self).bug_errors == old(self).bug_errors,
            !final(self).schema_stored,
    {
        let ghost attempts: nat = self.build_attempts@ + 1;
        self.bug_count = 0;
        self.build_passed = true;
        self.build_attempts = Ghost(attempts);
    }

    /// Record a failed build: the captured errors are kept for the fix
    /// prompt. Within the repair budget the stage goes back to working;
    /// beyond it the failure is fatal and the stage directs no further work —
    /// in particular, the run process is never spawned.
    pub fn apply_build_failure(&mut self, stderr: String) -> (r: Result<(), AgentError>)
        requires
            old(self).wf(),
            !old(self).aborted,
            old(self).attributes.state == AgentState::UnitTesting,
            old(self).safety_confirmed,
            !old(self).build_passed,
        ensures
            final(self).wf(),
            final(self).bug_count == old(self).bug_count + 1,
            final(self).bug_errors == Some(stderr),
            final(self).build_attempts@ == old(self).build_attempts@ + 1,
            final(self).build_attempts@ <= 3,
            old(self).bug_count + 1 > 2 ==> (r == Err::<(), AgentError>(AgentError::BuildError)
                && final(self).aborted),
            old(self).bug_count + 1 <= 2 ==> (r == Ok::<(), AgentError>(()) && !final(self).aborted
                && final(self).attributes.state == AgentState::Working
                && final(self).attributes.history@ == old(self).attributes.history@.push(
                AgentState::Working,
            )),
    {
        let ghost attempts: nat = self.build_attempts@ + 1;
        self.bug_count = self.bug_count + 1;
        self.bug_errors = Some(stderr);
        self.build_attempts = Ghost(attempts);
        if self.bug_count > 2 {
            self.aborted = true;
            Err(AgentError::BuildError)
        } else {
            self.safety_confirmed = false;
            self.attributes.update_state(AgentState::Working);
            Ok(())
        }
    }

    /// Record the extracted endpoint schema: keep only the safe-to-probe
    /// subset, store it in the fact sheet — exactly once, after a successful
    /// build — and open the probe session over it.
    pub fn accept_api_endpoints(
        &mut self,
        factsheet: &mut FactSheet,
        routes: Vec<RouteObject>,
    ) -> (session: ProbeSession)
        requires
            old(self).wf(),
            !old(self).aborted,
            old(self).attributes.state == AgentState::UnitTesting,
            old(self).build_passed,
            !old(self).schema_stored,
        ensures
            final(self).wf(),
            !final(self).aborted,
            final(self).attributes == old(self).attributes,
            final(self).build_passed,
            final(self).schema_stored,
            final(self).bug_count == old(self).bug_count,
            final(self).build_attempts@ == old(self).build_attempts@,
            final(factsheet).api_endpoint_schema matches Some(kept) && kept@ == filtered_routes(
                routes@,
            ),
            final(factsheet).project_description == old(factsheet).project_description,
            final(factsheet).project_scope == old(factsheet).project_scope,
            final(factsheet).external_urls == old(factsheet).external_urls,
            final(factsheet).backend_code == old(factsheet).backend_code,
            session.wf(),
            session.routes@ == filtered_routes(routes@),
            session.next_index == 0,
            !session.fatal,
            !session.persisted,
            !session.killed,
            session.kills@ == 0,
    {
        let kept = filter_probe_safe_routes(&routes);
        let probe_list = filter_probe_safe_routes(&routes);
        proof {
            lemma_filtered_routes_safe(routes@);
        }
        factsheet.api_endpoint_schema = Some(kept);
        self.schema_stored = true;
        ProbeSession::new(probe_list)
    }

    /// Close the round after the probe session has run to completion: the
    /// stage is finished.
    pub fn complete_testing(&mut self, session: &ProbeSession)
        requires
            old(self).wf(),
            !old(self).aborted,
            old(self).attributes.state == AgentState::UnitTesting,
            old(self).build_passed,
            old(self).schema_stored,
            session.wf(),
            session.is_complete(),
        ensures
            final(self).wf(),
            !final(self).aborted,
            final(self).attributes.state == AgentState::Finished,
            final(self).attributes.history@ == old(self).attributes.history@.push(
                AgentState::Finished,
            ),
            final(self).bug_count == 0,
            final(self).build_attempts@ == old(self).build_attempts@,
    {
        self.attributes.update_state(AgentState::Finished);
    }
}

/// Retry law: wherever a well-formed build stage stands — fatal or not — it
/// has directed at most three build invocations: the initial one and two
/// repairs.
pub proof fn lemma_build_invocation_ceiling(agent: &AgentBackendDeveloper)
    requires
        agent.wf(),
    ensures
        agent.build_attempts@ <= 3,
{
}

} // verus!
