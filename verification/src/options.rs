//! A wrapper for the options handed to a request's round-trip.

use vstd::prelude::*;

use crate::endpoint::Endpoint;
use crate::serializer::Envelope;

verus! {

/// The data one in-flight request owns: its endpoint, its envelope and the
/// name of its reply queue.
pub struct RpcOptions {
    endpoint: Option<Endpoint>,
    message: Option<Envelope>,
    queue_name: Option<String>,
}

impl RpcOptions {
    /// The endpoint of the request.
    pub closed spec fn spec_endpoint(&self) -> Option<Endpoint> {
        self.endpoint
    }

    /// The request envelope.
    pub closed spec fn spec_message(&self) -> Option<Envelope> {
        self.message
    }

    /// The reply queue's name.
    pub closed spec fn spec_queue_name(&self) -> Option<String> {
        self.queue_name
    }
}

impl Default for RpcOptions {
    /// Returns options with nothing set.
    fn default() -> (r: RpcOptions)
        ensures
            r.spec_endpoint() is None,
            r.spec_message() is None,
            r.spec_queue_name() is None,
    {
        RpcOptions { endpoint: None, message: None, queue_name: None }
    }
}

impl RpcOptions {
    /// Sets the endpoint.
    pub fn with_endpoint(self, value: Endpoint) -> (r: RpcOptions)
        ensures
            r.spec_endpoint() == Some(value),
            r.spec_message() == self.spec_message(),
            r.spec_queue_name() == self.spec_queue_name(),
    {
        RpcOptions { endpoint: Some(value), message: self.message, queue_name: self.queue_name }
    }

    /// Sets the request envelope.
    pub fn with_message(self, value: Envelope) -> (r: RpcOptions)
        ensures
            r.spec_endpoint() == self.spec_endpoint(),
            r.spec_message() == Some(value),
            r.spec_queue_name() == self.spec_queue_name(),
    {
        RpcOptions { endpoint: self.endpoint, message: Some(value), queue_name: self.queue_name }
    }

    /// Sets the reply queue's name.
    pub fn with_queue_name(self, value: String) -> (r: RpcOptions)
        ensures
            r.spec_endpoint() == self.spec_endpoint(),
            r.spec_message() == self.spec_message(),
            r.spec_queue_name() == Some(value),
    {
        RpcOptions { endpoint: self.endpoint, message: self.message, queue_name: Some(value) }
    }

    /// Returns the endpoint.
    pub fn get_endpoint(&self) -> (r: Option<Endpoint>)
        ensures
            r == self.spec_endpoint(),
    {
        match &self.endpoint {
            Some(e) => Some(e.clone()),
            None => None,
        }
    }

    /// Returns the request envelope.
    pub fn get_message(&self) -> (r: Option<Envelope>)
        ensures
            r == self.spec_message(),
    {
        match &self.message {
            Some(m) => Some(m.clone()),
            None => None,
        }
    }

    /// Returns the reply queue's name.
    pub fn get_queue_name(&self) -> (r: Option<String>)
        ensures
            r == self.spec_queue_name(),
    {
        match &self.queue_name {
            Some(q) => Some(q.clone()),
            None => None,
        }
    }
}

} // verus!
