use crate::client::EndpointAddresses;
use vstd::prelude::*;

verus! {

/// What a pool needs to open connections: the addresses that each new
/// connection balances over.
#[derive(Debug)]
pub struct DgraphConnectionManager {
    endpoints: EndpointAddresses,
}

impl DgraphConnectionManager {
    pub closed spec fn spec_endpoints(&self) -> EndpointAddresses {
        self.endpoints
    }

    pub fn new(endpoints: EndpointAddresses) -> (r: Self)
        ensures
            r.spec_endpoints() == endpoints,
    {
        Self { endpoints }
    }

    pub fn endpoints(&self) -> (r: &EndpointAddresses)
        ensures
            *r == self.spec_endpoints(),
    {
        &self.endpoints
    }
}

} // verus!
