use crate::api::{Mutation, Request};
use crate::error::DgraphError;
use std::collections::HashMap;
use tonic::transport::Endpoint;
use vstd::prelude::*;
use vstd::string::StringExecFns;

verus! {

#[verifier::external_type_specification]
#[verifier::external_body]
pub struct ExEndpoint(tonic::transport::Endpoint);

/// Whether tonic accepts `s` as the URI of an endpoint. `Endpoint::from_shared`
/// parses its bytes as a URI and nothing else, so the answer depends on the
/// text alone.
pub uninterp spec fn endpoint_accepted(s: Seq<char>) -> bool;

/// Relies on tonic's `Endpoint::from_shared`: it succeeds exactly on the
/// addresses that parse as a URI; its error is kept as a message.
#[verifier::external_body]
fn endpoint_from_shared(addr: String) -> (r: Result<Endpoint, String>)
    ensures
        r.is_ok() == endpoint_accepted(addr@),
{
    Endpoint::from_shared(addr).map_err(|e| e.to_string())
}

pub open spec fn no_endpoint_message() -> Seq<char> {
    "no endpoint to connect to"@
}

/// The addresses of the servers that a pool balances over, in one of three
/// shapes.
#[derive(Debug)]
pub enum EndpointAddresses {
    Static(&'static Vec<String>),
    Owned(Vec<String>),
    StaticStr(Vec<&'static str>),
}

impl EndpointAddresses {
    /// The addresses, whatever the shape.
    pub open spec fn addresses(&self) -> Seq<Seq<char>> {
        match self {
            EndpointAddresses::Static(v) => Seq::new(v@.len(), |i: int| v@[i]@),
            EndpointAddresses::Owned(v) => Seq::new(v@.len(), |i: int| v@[i]@),
            EndpointAddresses::StaticStr(v) => Seq::new(v@.len(), |i: int| v@[i]@),
        }
    }

    /// Resolves every address to an endpoint, in order. Fails with
    /// `Transport` where there is no address, and with `InvalidArgument`
    /// naming the first address that is not a valid URI.
    pub fn to_endpoints(&self) -> (r: Result<Vec<Endpoint>, DgraphError>)
        ensures
            r.is_ok() <==> self.addresses().len() > 0 && forall|i: int|
                0 <= i < self.addresses().len() ==> endpoint_accepted(#[trigger] self.addresses()[i]),
            r matches Ok(v) ==> v@.len() == self.addresses().len(),
            self.addresses().len() == 0 ==> (r matches Err(e) && e.is_transport(no_endpoint_message())),
            r matches Err(e) ==> self.addresses().len() == 0 || exists|i: int|
                0 <= i < self.addresses().len() && !endpoint_accepted(self.addresses()[i])
                    && (forall|j: int| 0 <= j < i ==> endpoint_accepted(#[trigger] self.addresses()[j]))
                    && e.is_invalid_argument(self.addresses()[i]),
    {
        let n: usize = self.len();
        if n == 0 {
            return Err(DgraphError::Transport(String::from_str("no endpoint to connect to")));
        }
        let mut out: Vec<Endpoint> = Vec::new();
        let mut i: usize = 0;
        while i < n
            invariant
                n == self.addresses().len(),
                i <= n,
                out@.len() == i,
                forall|j: int| 0 <= j < i ==> endpoint_accepted(#[trigger] self.addresses()[j]),
            decreases n - i,
        {
            let addr = self.address(i);
            let a = addr.clone();
            match endpoint_from_shared(addr) {
                Ok(e) => out.push(e),
                Err(_) => {
                    return Err(DgraphError::InvalidArgument(a));
                },
            }
            i = i + 1;
        }
        Ok(out)
    }

    /// The number of addresses.
    pub fn len(&self) -> (r: usize)
        ensures
            r == self.addresses().len(),
    {
        match self {
            EndpointAddresses::Static(v) => v.len(),
            EndpointAddresses::Owned(v) => v.len(),
            EndpointAddresses::StaticStr(v) => v.len(),
        }
    }

    /// The address at index `i`.
    pub fn address(&self, i: usize) -> (r: String)
        requires
            i < self.addresses().len(),
        ensures
            r@ == self.addresses()[i as int],
    {
        match self {
            EndpointAddresses::Static(v) => v[i].clone(),
            EndpointAddresses::Owned(v) => v[i].clone(),
            EndpointAddresses::StaticStr(v) => v[i].to_owned(),
        }
    }
}

/// The single-round-trip facade: every request it builds commits at once
/// and carries the client's fixed read flags.
#[derive(Debug, Clone, Copy)]
pub struct Client {
    best_effort: bool,
    read_only: bool,
}

impl Client {
    /// A best-effort client is always read-only.
    #[verifier::type_invariant]
    spec fn inv(&self) -> bool {
        self.best_effort ==> self.read_only
    }

    pub closed spec fn spec_read_only(&self) -> bool {
        self.read_only
    }

    pub closed spec fn spec_best_effort(&self) -> bool {
        self.best_effort
    }

    pub fn new(read_only: bool, best_effort: bool) -> (r: Client)
        requires
            best_effort ==> read_only,
        ensures
            r.spec_read_only() == read_only,
            r.spec_best_effort() == best_effort,
            r.spec_best_effort() ==> r.spec_read_only(),
    {
        Client { best_effort, read_only }
    }

    pub fn read_only(&self) -> (r: bool)
        ensures
            r == self.spec_read_only(),
    {
        self.read_only
    }

    pub fn best_effort(&self) -> (r: bool)
        ensures
            r == self.spec_best_effort(),
    {
        self.best_effort
    }

    /// The request of a query with variables.
    pub fn query_request(&self, query: String, vars: HashMap<String, String>) -> (r: Request)
        ensures
            r.query == query,
            r.vars == vars,
            r.mutations@.len() == 0,
            r.start_ts == 0,
            r.hash@.len() == 0,
            r.commit_now,
            r.read_only == self.spec_read_only(),
            r.best_effort == self.spec_best_effort(),
            r.best_effort ==> r.read_only,
    {
        proof {
            use_type_invariant(self);
        }
        Request::build(query, vars, Vec::new(), true, self.read_only, self.best_effort)
    }

    /// The request of an upsert: a query with variables and the mutations
    /// that depend on it. A plain mutation is an upsert with an empty query.
    pub fn upsert_request(
        &self,
        query: String,
        vars: HashMap<String, String>,
        mutations: Vec<Mutation>,
    ) -> (r: Request)
        ensures
            r.query == query,
            r.vars == vars,
            r.mutations == mutations,
            r.start_ts == 0,
            r.hash@.len() == 0,
            r.commit_now,
            r.read_only == self.spec_read_only(),
            r.best_effort == self.spec_best_effort(),
            r.best_effort ==> r.read_only,
    {
        proof {
            use_type_invariant(self);
        }
        Request::build(query, vars, mutations, true, self.read_only, self.best_effort)
    }
}

} // verus!
