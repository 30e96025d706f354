//! Routing of the URLs passed by clients onto endpoint descriptors.
//!
//! The router stores the registry built at startup and answers an exact
//! match lookup; a miss is an error, never a synthesized endpoint.

use vstd::prelude::*;

use crate::endpoint::Endpoint;
use crate::error::PathfinderError;

verus! {

/// A struct which stores the mapping of resources that can be represented
/// in requests and transformed into certain API endpoints of microservices.
pub struct Router {
    endpoints: Vec<Endpoint>,
}

impl Router {
    /// The registry the router answers from.
    pub closed spec fn spec_endpoints(&self) -> Seq<Endpoint> {
        self.endpoints@
    }

    /// Whether some registered endpoint answers for `url`.
    pub open spec fn spec_has_url(&self, url: Seq<char>) -> bool {
        exists|i: int|
            0 <= i < self.spec_endpoints().len() && (#[trigger] self.spec_endpoints()[i]).spec_url()
                == url
    }

    /// Returns a new instance of `Router` that holds the given registry.
    pub fn new(endpoints: Vec<Endpoint>) -> (r: Router)
        ensures
            r.spec_endpoints() == endpoints@,
    {
        Router { endpoints }
    }

    /// Returns the registered endpoint for the passed URL, or
    /// `EndpointNotFound` when no endpoint is registered under it.
    pub fn match_url(&self, url: &str) -> (r: Result<Endpoint, PathfinderError>)
        ensures
            match r {
                Ok(e) => exists|i: int|
                    0 <= i < self.spec_endpoints().len() && (#[trigger] self.spec_endpoints()[i])
                        == e && e.spec_url() == url@,
                Err(err) => !self.spec_has_url(url@) && (err matches PathfinderError::EndpointNotFound(m)
                    && m@ == url@),
            },
    {
        let wanted = url.to_owned();
        let mut i: usize = 0;
        while i < self.endpoints.len()
            invariant
                i <= self.endpoints.len(),
                wanted@ == url@,
                forall|j: int|
                    0 <= j < i ==> (#[trigger] self.endpoints@[j]).spec_url() != url@,
            decreases self.endpoints.len() - i,
        {
            if self.endpoints[i].get_url() == wanted {
                let found = self.endpoints[i].clone();
                proof {
                    assert(self.spec_endpoints()[i as int] == found && found.spec_url() == url@);
                }
                return Ok(found);
            }
            i = i + 1;
        }
        Err(PathfinderError::EndpointNotFound(wanted))
    }
}

} // verus!
