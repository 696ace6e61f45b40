//! The probe session: the lifecycle of the spawned server while its retained
//! endpoints are health-checked.
//!
//! The session is a scoped-resource protocol around the child process. The
//! driver repeatedly asks `next_action` what to do — probe the next endpoint,
//! persist the extracted schema, terminate the process, or stop — performs
//! that one piece of outside work, and records its outcome. The protocol
//! directs termination on every path, and never twice: a transport error
//! terminates the process immediately, and the unconditional terminate at the
//! end is issued only when no earlier one was.

use crate::factsheet::RouteObject;
use vstd::prelude::*;
use vstd::string::StringExecFns;

verus! {

/// The probe target for a route: the local server joined with the route text.
pub open spec fn probe_url_text(route: Seq<char>) -> Seq<char> {
    "http://localhost:8080"@ + route
}

/// An endpoint is safe to probe without side effects or path parameters.
pub open spec fn probe_safe(r: RouteObject) -> bool {
    r.method@ == "GET"@ && !r.is_dynamic
}

/// Where a probe session stands.
pub enum ProbePhase {
    /// Endpoints remain to be probed.
    Probing,
    /// Probing is over; the extracted schema must be persisted.
    Persisting,
    /// The child process must be terminated now.
    Terminating,
    /// Probing, persistence and termination are all done.
    Complete,
}

/// The one piece of outside work the driver must do next.
pub enum ProbeAction {
    /// Issue an HTTP GET against this URL with the fixed timeout.
    Probe(String),
    /// Persist the unfiltered extracted schema text to durable storage.
    Persist,
    /// Terminate the child server process.
    Terminate,
    /// The session is complete.
    Done,
}

/// The state of one probe run over the retained endpoints.
pub struct ProbeSession {
    /// The safe-to-probe endpoints, in order.
    pub routes: Vec<RouteObject>,
    /// How many endpoints have been probed.
    pub next_index: usize,
    /// A probe failed with a transport error; probing stopped.
    pub fatal: bool,
    /// The extracted schema text has been persisted.
    pub persisted: bool,
    /// The child process has been terminated.
    pub killed: bool,
    /// How many times the child process has been terminated.
    pub kills: Ghost<nat>,
}

impl ProbeSession {
    /// The session invariant: the probe position is in range, every held
    /// endpoint is safe to probe, terminations are counted exactly, and the
    /// process is terminated only on the two paths that direct it.
    pub open spec fn wf(&self) -> bool {
        &&& self.next_index <= self.routes@.len()
        &&& forall|i: int| 0 <= i < self.routes@.len() ==> probe_safe(#[trigger] self.routes@[i])
        &&& self.kills@ == if self.killed {
            1nat
        } else {
            0nat
        }
        &&& self.killed ==> (self.fatal || (self.next_index == self.routes@.len()
            && self.persisted))
    }

    /// No endpoint is left to probe: all were visited, or a transport error
    /// stopped the run.
    pub open spec fn probing_over(&self) -> bool {
        self.fatal || self.next_index == self.routes@.len()
    }

    pub open spec fn phase(&self) -> ProbePhase {
        if self.fatal && !self.killed {
            ProbePhase::Terminating
        } else if !self.probing_over() {
            ProbePhase::Probing
        } else if !self.persisted {
            ProbePhase::Persisting
        } else if !self.killed {
            ProbePhase::Terminating
        } else {
            ProbePhase::Complete
        }
    }

    pub open spec fn is_complete(&self) -> bool {
        self.phase() == ProbePhase::Complete
    }

    /// Begin a session over the retained endpoints, before any probing.
    pub fn new(routes: Vec<RouteObject>) -> (session: ProbeSession)
        requires
            forall|i: int| 0 <= i < routes@.len() ==> probe_safe(#[trigger] routes@[i]),
        ensures
            session.wf(),
            session.routes == routes,
            session.next_index == 0,
            !session.fatal,
            !session.persisted,
            !session.killed,
            session.kills@ == 0,
    {
        let ghost no_kills: nat = 0nat;
        ProbeSession {
            routes,
            next_index: 0,
            fatal: false,
            persisted: false,
            killed: false,
            kills: Ghost(no_kills),
        }
    }

    /// What the driver must do next. A `Probe` names the URL of the next
    /// retained endpoint; every other action is a step of the wind-down.
    pub fn next_action(&self) -> (action: ProbeAction)
        requires
            self.wf(),
        ensures
            match action {
                ProbeAction::Probe(url) => {
                    &&& self.phase() == ProbePhase::Probing
                    &&& self.next_index < self.routes@.len()
                    &&& url@ == probe_url_text(self.routes@[self.next_index as int].route@)
                },
                ProbeAction::Persist => self.phase() == ProbePhase::Persisting,
                ProbeAction::Terminate => self.phase() == ProbePhase::Terminating,
                ProbeAction::Done => self.phase() == ProbePhase::Complete,
            },
    {
        if self.fatal && !self.killed {
            ProbeAction::Terminate
        } else if !self.fatal && self.next_index < self.routes.len() {
            let route: &RouteObject = &self.routes[self.next_index];
            let mut url: String = String::from_str("http://localhost:8080");
            url.append(route.route.as_str());
            ProbeAction::Probe(url)
        } else if !self.persisted {
            ProbeAction::Persist
        } else if !self.killed {
            ProbeAction::Terminate
        } else {
            ProbeAction::Done
        }
    }

    /// Record the status a probe answered with. A status in [200, 299] is a
    /// success; any other is reported as a non-fatal warning, and probing
    /// continues either way.
    pub fn record_status(&mut self, status: u16) -> (warn: bool)
        requires
            old(self).wf(),
            old(self).phase() == ProbePhase::Probing,
        ensures
            final(self).wf(),
            warn == !(200 <= status <= 299),
            final(self).next_index == old(self).next_index + 1,
            final(self).routes == old(self).routes,
            final(self).fatal == old(self).fatal,
            final(self).persisted == old(self).persisted,
            final(self).killed == old(self).killed,
            final(self).kills@ == old(self).kills@,
    {
        let route_count = self.routes.len();
        proof {
            assert(!self.probing_over());
            assert(self.next_index < route_count);
        }
        self.next_index = self.next_index + 1;
        !(200 <= status && status <= 299)
    }

    /// Record that a probe failed with a transport error: fatal for the whole
    /// probe run. Probing stops and the next action terminates the process.
    pub fn record_transport_error(&mut self)
        requires
            old(self).wf(),
            old(self).phase() == ProbePhase::Probing,
        ensures
            final(self).wf(),
            final(self).fatal,
            final(self).phase() == ProbePhase::Terminating,
            final(self).next_index == old(self).next_index,
            final(self).routes == old(self).routes,
            final(self).persisted == old(self).persisted,
            final(self).killed == old(self).killed,
            final(self).kills@ == old(self).kills@,
    {
        self.fatal = true;
    }

    /// Record that the unfiltered extracted schema text was persisted.
    pub fn record_persisted(&mut self)
        requires
            old(self).wf(),
            old(self).phase() == ProbePhase::Persisting,
        ensures
            final(self).wf(),
            final(self).persisted,
            final(self).next_index == old(self).next_index,
            final(self).routes == old(self).routes,
            final(self).fatal == old(self).fatal,
            final(self).killed == old(self).killed,
            final(self).kills@ == old(self).kills@,
    {
        self.persisted = true;
    }

    /// Record that the child process was terminated. Only reachable when the
    /// session directed a termination, so the process is never killed twice.
    pub fn record_terminated(&mut self)
        requires
            old(self).wf(),
            old(self).phase() == ProbePhase::Terminating,
        ensures
            final(self).wf(),
            final(self).killed,
            final(self).kills@ == old(self).kills@ + 1,
            final(self).next_index == old(self).next_index,
            final(self).routes == old(self).routes,
            final(self).fatal == old(self).fatal,
            final(self).persisted == old(self).persisted,
    {
        let ghost one_more: nat = self.kills@ + 1;
        self.killed = true;
        self.kills = Ghost(one_more);
    }
}

/// Termination law: a completed probe session has terminated the spawned
/// process exactly once, on every exit path — including the one where a probe
/// failed with a transport error mid-loop.
pub proof fn lemma_terminated_exactly_once(session: &ProbeSession)
    requires
        session.wf(),
        session.is_complete(),
    ensures
        session.kills@ == 1,
{
}

} // verus!
