//! Requests that wait: each carries the identifier that its answer goes out under.

use vstd::prelude::*;

use super::errors::{answer_view, outcome_view, respond, ClientResponse, SliceError};
use crate::json::Json;

verus! {

/// A request that waits, and what it waits with.
#[derive(Debug, PartialEq, Eq)]
pub struct Parked<W> {
    /// The identifier that the client gave the request.
    pub request_id: String,
    pub work: W,
}

/// What becomes of a parked request once something happened to it.
#[derive(Debug, PartialEq, Eq)]
pub enum Next<W> {
    /// Do what its work says, and keep it.
    Go(Parked<W>),
    /// It does not wait for that: nothing follows, and a lease that was offered is
    /// given back.
    Stay(Parked<W>),
    /// Answer the client with that.
    Answer(ClientResponse),
}

impl<W> Parked<W> {
    /// Park a request.
    pub fn new(request_id: &str, work: W) -> (parked: Self)
        ensures
            parked.request_id@ == request_id@,
            parked.work == work,
    {
        Parked { request_id: request_id.to_owned(), work }
    }

    /// The same request with other work.
    pub fn turn<V>(self, work: V) -> (turned: Parked<V>)
        ensures
            turned.request_id@ == self.request_id@,
            turned.work == work,
    {
        Parked { request_id: self.request_id, work }
    }

    /// The response that ends the request.
    pub fn answer(&self, result: Result<Json, SliceError>) -> (response: ClientResponse)
        ensures
            response.id@ == self.request_id@,
            response@ == answer_view(self.request_id@, outcome_view(result)),
    {
        respond(self.request_id.as_str(), result)
    }
}

/// Whether what becomes of a request is told under its own identifier.
pub open spec fn keeps_id<W>(request_id: Seq<char>, next: Next<W>) -> bool {
    match next {
        Next::Go(parked) => parked.request_id@ == request_id,
        Next::Stay(parked) => parked.request_id@ == request_id,
        Next::Answer(response) => response.id@ == request_id,
    }
}

} // verus!
