//! The shared project document the stages read and write, and the
//! description of one extracted HTTP endpoint.

use vstd::prelude::*;
use vstd::string::StrSliceExecFns;

verus! {

/// Structured scope derived from the project description.
#[derive(Clone, Copy, Debug, PartialEq, Eq, Structural)]
pub struct ProjectScope {
    pub requires_crud: bool,
    pub requires_login: bool,
    pub requires_external_urls: bool,
}

/// True when the route text holds a path-parameter placeholder such as `{id}`.
pub open spec fn has_placeholder(route: Seq<char>) -> bool {
    exists|i: int| 0 <= i < route.len() && route[i] == '{'
}

/// Normalized description of one HTTP endpoint extracted from generated
/// source. `is_dynamic` holds exactly when the route text has a
/// path-parameter placeholder.
#[derive(Debug)]
pub struct RouteObject {
    pub route: String,
    pub is_dynamic: bool,
    pub method: String,
    pub request_body: Option<String>,
    pub response: Option<String>,
}

impl RouteObject {
    /// The endpoint invariant: the dynamic flag reflects the route text.
    pub open spec fn wf(&self) -> bool {
        self.is_dynamic == has_placeholder(self.route@)
    }

    /// Build an endpoint description; the dynamic flag is computed from the
    /// route text, so the invariant holds by construction.
    pub fn new(
        route: String,
        method: String,
        request_body: Option<String>,
        response: Option<String>,
    ) -> (r: RouteObject)
        ensures
            r.wf(),
            r.route == route,
            r.method == method,
            r.request_body == request_body,
            r.response == response,
            r.is_dynamic == has_placeholder(route@),
    {
        let is_dynamic = route_is_dynamic(route.as_str());
        RouteObject { route, is_dynamic, method, request_body, response }
    }
}

impl Clone for RouteObject {
    fn clone(&self) -> (r: Self)
        ensures
            r == *self,
    {
        RouteObject {
            route: self.route.clone(),
            is_dynamic: self.is_dynamic,
            method: self.method.clone(),
            request_body: match &self.request_body {
                Some(b) => Some(b.clone()),
                None => None,
            },
            response: match &self.response {
                Some(b) => Some(b.clone()),
                None => None,
            },
        }
    }
}

/// Decide whether a route text holds a path-parameter placeholder.
pub fn route_is_dynamic(route: &str) -> (b: bool)
    ensures
        b == has_placeholder(route@),
{
    let len = route.unicode_len();
    let mut i: usize = 0;
    while i < len
        invariant
            i <= len,
            len == route@.len(),
            forall|j: int| 0 <= j < i ==> route@[j] != '{',
        decreases len - i,
    {
        if route.get_char(i) == '{' {
            return true;
        }
        i = i + 1;
    }
    false
}

/// The mutable document the stages collaborate over: created once by the
/// orchestrator, then handed by exclusive reference to one stage at a time.
#[derive(Debug)]
pub struct FactSheet {
    /// Set once at creation, never mutated after.
    pub project_description: String,
    /// Written once by the architect stage.
    pub project_scope: Option<ProjectScope>,
    /// Written, then possibly filtered (entries removed, order kept) by the
    /// architect stage.
    pub external_urls: Option<Vec<String>>,
    /// Overwritten by every generation or repair attempt of the build loop.
    pub backend_code: Option<String>,
    /// Written exactly once, after a successful build, filtered to the
    /// safe-to-probe subset.
    pub api_endpoint_schema: Option<Vec<RouteObject>>,
}

impl FactSheet {
    pub fn new(project_description: String) -> (fs: FactSheet)
        ensures
            fs.project_description == project_description,
            fs.project_scope is None,
            fs.external_urls is None,
            fs.backend_code is None,
            fs.api_endpoint_schema is None,
    {
        FactSheet {
            project_description,
            project_scope: None,
            external_urls: None,
            backend_code: None,
            api_endpoint_schema: None,
        }
    }
}

} // verus!
