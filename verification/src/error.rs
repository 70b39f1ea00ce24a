//! The error taxonomy of the client.

use vstd::prelude::*;
use crate::api::ApiProblem;

verus! {

/// Everything that can go wrong while driving an ACME order.
#[derive(Debug)]
pub enum Error {
    /// A malformed directory or missing endpoint.
    Config(String),
    /// A key could not be generated, parsed, or used for signing or CSR creation.
    Crypto(String),
    /// The network layer failed below the ACME protocol.
    Transport(String),
    /// The server answered with a problem document, an unexpected status, a
    /// missing required header, or a terminal `invalid` resource.
    Protocol(ApiProblem),
    /// An operation was attempted in a state that does not allow it.
    State(String),
}

impl Error {
    /// A protocol error built from a bare description, for failures that
    /// carry no problem document of their own.
    pub fn protocol(detail: String) -> (r: Error)
        ensures
            r matches Error::Protocol(p) && p.ptype is None && p.detail == Some(detail)
                && p.subproblems@.len() == 0,
    {
        Error::Protocol(ApiProblem { ptype: None, detail: Some(detail), subproblems: Vec::new() })
    }
}

} // verus!
