//! Which backends there are, and what each of them is asked.

use vstd::prelude::*;

use crate::error::KnowledgeError;
use crate::knowledge::{requirements_on, KnowledgeRequest, RequestView};
use crate::metadata::{backends_contain, backends_distinct, KnowledgeBackendId, RouteView};

verus! {

#[derive(Clone, Copy, Debug, PartialEq, Eq, Structural)]
pub enum KnowledgeRouteError {
    DuplicateBackend,
}

/// The backends that are registered, none twice.
#[derive(Debug)]
pub struct RoutedKnowledgePort {
    backends: Vec<KnowledgeBackendId>,
}

impl View for RoutedKnowledgePort {
    type V = Seq<KnowledgeBackendId>;

    closed spec fn view(&self) -> Seq<KnowledgeBackendId> {
        self.backends@
    }
}

/// The first backend of a route that is not registered.
pub open spec fn first_missing(
    route: Seq<KnowledgeBackendId>,
    registered: Seq<KnowledgeBackendId>,
) -> Option<KnowledgeBackendId>
    decreases route.len(),
{
    if route.len() == 0 {
        None
    } else {
        match first_missing(route.drop_last(), registered) {
            Some(backend) => Some(backend),
            None => if registered.contains(route.last()) {
                None
            } else {
                Some(route.last())
            },
        }
    }
}

/// What one backend is asked.
pub open spec fn backend_request(request: RequestView, backend: KnowledgeBackendId)
    -> RequestView {
    RequestView {
        query: request.query,
        route: RouteView::Single { backend },
        limits: request.limits,
        snapshots: requirements_on(request.snapshots, backend),
    }
}

proof fn missing_in_beginning(
    route: Seq<KnowledgeBackendId>,
    registered: Seq<KnowledgeBackendId>,
    n: int,
)
    requires
        0 <= n <= route.len(),
        first_missing(route.take(n), registered) is Some,
    ensures
        first_missing(route, registered) == first_missing(route.take(n), registered),
    decreases route.len(),
{
    if n < route.len() {
        assert(route.drop_last().take(n) =~= route.take(n));
        missing_in_beginning(route.drop_last(), registered, n);
    } else {
        assert(route.take(n) =~= route);
    }
}

impl RoutedKnowledgePort {
    pub fn new(backends: Vec<KnowledgeBackendId>) -> (r: Result<Self, KnowledgeRouteError>)
        ensures
            match r {
                Ok(port) => backends@.no_duplicates() && port@ == backends@,
                Err(error) => !backends@.no_duplicates() && error
                    == KnowledgeRouteError::DuplicateBackend,
            },
    {
        if !backends_distinct(&backends) {
            return Err(KnowledgeRouteError::DuplicateBackend);
        }
        Ok(RoutedKnowledgePort { backends })
    }

    /// What each backend of the request's route is asked, in the order of the route. A backend
    /// that is not registered fails the request before any is asked.
    pub fn calls(&self, request: &KnowledgeRequest) -> (r: Result<
        Vec<(KnowledgeBackendId, KnowledgeRequest)>,
        KnowledgeError,
    >)
        ensures
            match r {
                Ok(calls) => {
                    let route = request@.route.backends();
                    &&& first_missing(route, self@) is None
                    &&& calls@.len() == route.len()
                    &&& forall|i: int|
                        0 <= i < route.len() ==> (#[trigger] calls@[i]).0 == route[i]
                            && calls@[i].1@ == backend_request(request@, route[i])
                },
                Err(error) => first_missing(request@.route.backends(), self@) is Some && error
                    == KnowledgeError::Unavailable(
                    first_missing(request@.route.backends(), self@)->0,
                ),
            },
    {
        let route = request.route().backends();
        let mut calls: Vec<(KnowledgeBackendId, KnowledgeRequest)> = Vec::new();
        let mut i: usize = 0;
        while i < route.len()
            invariant
                i <= route.len(),
                route@ == request@.route.backends(),
                first_missing(route@.take(i as int), self@) is None,
                calls@.len() == i,
                forall|k: int|
                    0 <= k < i ==> (#[trigger] calls@[k]).0 == route@[k] && calls@[k].1@
                        == backend_request(request@, route@[k]),
            decreases route.len() - i,
        {
            let backend = route[i];
            proof {
                assert(route@.take(i + 1).drop_last() =~= route@.take(i as int));
                assert(route@.take(i + 1).last() == backend);
            }
            if !backends_contain(&self.backends, backend) {
                proof {
                    missing_in_beginning(route@, self@, i + 1);
                }
                return Err(KnowledgeError::Unavailable(backend));
            }
            calls.push((backend, request.for_backend(backend)));
            i = i + 1;
        }
        assert(route@.take(i as int) =~= route@);
        Ok(calls)
    }
}

} // verus!
