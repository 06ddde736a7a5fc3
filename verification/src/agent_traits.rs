//! The shared project record threaded through every stage, and the route
//! schema it carries.

use vstd::prelude::*;

verus! {

/// One backend endpoint as the schema-extraction step reports it. The
/// dynamic flag is carried as text exactly as it is decoded ("true" or
/// "false"); the request and response shapes are opaque structured values
/// kept as their JSON text.
#[derive(Debug, PartialEq)]
pub struct RouteObject {
    pub is_route_dynamic: String,
    pub method: String,
    pub request_body: String,
    pub response: String,
    pub route: String,
}

impl Clone for RouteObject {
    fn clone(&self) -> (res: Self)
        ensures
            res == *self,
    {
        RouteObject {
            is_route_dynamic: self.is_route_dynamic.clone(),
            method: self.method.clone(),
            request_body: self.request_body.clone(),
            response: self.response.clone(),
            route: self.route.clone(),
        }
    }
}

/// The three-boolean classification of what the requested site needs.
#[derive(Debug, Clone, Copy, PartialEq, Eq, Structural)]
pub struct ProjectScope {
    pub is_crud_required: bool,
    pub is_user_login_and_logout: bool,
    pub is_external_urls_required: bool,
}

/// The shared project state. Created once by the orchestrator; each stage
/// writes only the fields it owns, and nothing is ever rolled back. A
/// scope stored here always sets at least one of its three flags
/// (`spec_scope_valid`): the solution architect refuses an all-false
/// classification.
#[derive(Debug, Clone, PartialEq)]
pub struct FactSheet {
    pub project_description: String,
    pub project_scope: Option<ProjectScope>,
    pub external_urls: Option<Vec<String>>,
    pub backend_code: Option<String>,
    pub api_endpoint_schema: Option<Vec<RouteObject>>,
}

impl FactSheet {
    /// The record as the orchestrator first creates it: a description and
    /// nothing else.
    pub fn new(project_description: String) -> (r: FactSheet)
        ensures
            r.project_description == project_description,
            r.project_scope is None,
            r.external_urls is None,
            r.backend_code is None,
            r.api_endpoint_schema is None,
    {
        FactSheet {
            project_description,
            project_scope: None,
            external_urls: None,
            backend_code: None,
            api_endpoint_schema: None,
        }
    }
}

/// An optional list seen as an optional sequence of its elements.
pub open spec fn spec_opt_view<T>(o: Option<Vec<T>>) -> Option<Seq<T>> {
    match o {
        Some(v) => Some(v@),
        None => None,
    }
}

/// Whether the scope asks for any backend work at all: the backend stage
/// runs only when CRUD or login capability is required.
pub open spec fn scope_needs_backend(scope: ProjectScope) -> bool {
    scope.is_crud_required || scope.is_user_login_and_logout
}

/// A classification is valid only when at least one capability flag is
/// set; the solution architect refuses an all-false answer, so a scope on
/// the record always satisfies this.
pub open spec fn spec_scope_valid(scope: ProjectScope) -> bool {
    scope.is_crud_required || scope.is_user_login_and_logout
        || scope.is_external_urls_required
}

/// A route is safely auto-testable when it is a GET route with no dynamic
/// path segment.
pub open spec fn spec_route_is_testable(r: RouteObject) -> bool {
    r.method@ == "get"@ && r.is_route_dynamic@ == "false"@
}

/// Executable form of `spec_route_is_testable`.
pub fn route_is_testable(r: &RouteObject) -> (b: bool)
    ensures
        b == spec_route_is_testable(*r),
{
    let is_get: bool = r.method == String::from_str("get");
    let is_static: bool = r.is_route_dynamic == String::from_str("false");
    is_get && is_static
}

/// The safely auto-testable subset of a route schema, in order.
pub open spec fn spec_testable_routes(routes: Seq<RouteObject>) -> Seq<RouteObject> {
    routes.filter(|ro: RouteObject| spec_route_is_testable(ro))
}

/// The safely auto-testable subset of a route schema, in order: exactly the
/// static GET routes.
pub fn testable_routes(routes: &Vec<RouteObject>) -> (r: Vec<RouteObject>)
    ensures
        r@ == spec_testable_routes(routes@),
{
    let mut out: Vec<RouteObject> = Vec::new();
    let mut i: usize = 0;
    while i < routes.len()
        invariant
            i <= routes@.len(),
            out@ == spec_testable_routes(routes@.take(i as int)),
        decreases routes@.len() - i,
    {
        proof {
            reveal_with_fuel(Seq::<RouteObject>::filter, 2);
            assert(routes@.take(i + 1).drop_last() =~= routes@.take(i as int));
            assert(routes@.take(i + 1).last() == routes@[i as int]);
        }
        if route_is_testable(&routes[i]) {
            out.push(routes[i].clone());
        }
        i = i + 1;
    }
    proof {
        assert(routes@.take(routes@.len() as int) =~= routes@);
    }
    out
}

/// The safely auto-testable subset holds only static GET routes, holds
/// every static GET route of the schema, and never grows beyond it; the
/// schema itself is stored unfiltered.
pub proof fn lemma_testable_subset(routes: Seq<RouteObject>)
    ensures
        forall|i: int| 0 <= i < spec_testable_routes(routes).len() ==> spec_route_is_testable(
            #[trigger] spec_testable_routes(routes)[i],
        ),
        forall|i: int| 0 <= i < routes.len() && spec_route_is_testable(routes[i])
            ==> spec_testable_routes(routes).contains(#[trigger] routes[i]),
        spec_testable_routes(routes).len() <= routes.len(),
{
    broadcast use vstd::seq_lib::group_filter_ensures;

}

} // verus!
