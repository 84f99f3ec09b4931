mod middleware;
mod reduce;

pub use middleware::{
    NewStreamMiddleware, NewStreamMiddlewareChain, NewStreamMiddlewareReduceChain,
    NewStreamServiceWrapper, StreamMiddleware, StreamMiddlewareChain, StreamMiddlewareReduceChain,
};
pub use reduce::{
    Fold, FoldReduce, FoldedService, NewStreamReduce, NewStreamReduceMiddlewareChain,
    NewStreamServiceReducer, StreamReduce, StreamReduceMiddlewareChain,
};

use crate::handle::ResponseStream;
use crate::ConstructionError;

use std::rc::Rc;
use std::sync::Arc;
use vstd::prelude::*;

verus! {

/// An asynchronous function from a request to a lazy sequence of
/// responses.
///
/// The streaming counterpart of `Service`: each call consumes one request,
/// moves the service to its next state, and immediately hands back a
/// sequence handle. `step` is the state transition and `output` the
/// observable course of the returned sequence — the responses it yields,
/// in order, and the error that ends it, if any.
pub trait StreamService: Sized {
    /// Requests handled by the service.
    type Request;

    /// Responses yielded by the sequences the service produces.
    type Response;

    /// Errors that can end a produced sequence.
    type Error;

    /// The state of the service after handling `req`.
    spec fn step(self, req: Self::Request) -> Self;

    /// The course of the sequence returned for `req`: the responses it
    /// yields and the error that ends it, if any.
    spec fn output(self, req: Self::Request) -> (Seq<Self::Response>, Option<Self::Error>);

    /// Handle one request: returns at once with a sequence handle whose
    /// course is given by `output`, and moves the service to the state
    /// given by `step`.
    fn call(&mut self, req: Self::Request) -> (s: ResponseStream<Self::Response, Self::Error>)
        ensures
            *final(self) == old(self).step(req),
            s@ == old(self).output(req),
    ;
}

/// Exclusive ownership forwards the stream-service contract unchanged.
impl<S: StreamService> StreamService for Box<S> {
    type Request = S::Request;

    type Response = S::Response;

    type Error = S::Error;

    open spec fn step(self, req: S::Request) -> Box<S> {
        Box::new((*self).step(req))
    }

    open spec fn output(self, req: S::Request) -> (Seq<S::Response>, Option<S::Error>) {
        (*self).output(req)
    }

    fn call(&mut self, req: S::Request) -> (s: ResponseStream<S::Response, S::Error>) {
        (&mut **self).call(req)
    }
}

/// Creates new `StreamService` values.
pub trait NewStreamService: Sized {
    /// Requests handled by the produced service.
    type Request;

    /// Responses yielded by the produced service's sequences.
    type Response;

    /// Errors that can end the produced service's sequences.
    type Error;

    /// The `StreamService` value created by this factory.
    type Instance: StreamService<
        Request = Self::Request,
        Response = Self::Response,
        Error = Self::Error,
    >;

    /// The instance this factory builds, or the construction error it
    /// reports.
    spec fn build(self) -> Result<Self::Instance, ConstructionError>;

    /// Create and return a new stream service value.
    fn new_service(&self) -> (r: Result<Self::Instance, ConstructionError>)
        ensures
            r == self.build(),
    ;
}

/// Shared ownership with atomic reference counting forwards the factory
/// contract unchanged.
impl<S: NewStreamService> NewStreamService for Arc<S> {
    type Request = S::Request;

    type Response = S::Response;

    type Error = S::Error;

    type Instance = S::Instance;

    open spec fn build(self) -> Result<S::Instance, ConstructionError> {
        (*self).build()
    }

    fn new_service(&self) -> (r: Result<S::Instance, ConstructionError>) {
        (**self).new_service()
    }
}

/// Shared ownership with single-threaded reference counting forwards the
/// factory contract unchanged.
impl<S: NewStreamService> NewStreamService for Rc<S> {
    type Request = S::Request;

    type Response = S::Response;

    type Error = S::Error;

    type Instance = S::Instance;

    open spec fn build(self) -> Result<S::Instance, ConstructionError> {
        (*self).build()
    }

    fn new_service(&self) -> (r: Result<S::Instance, ConstructionError>) {
        (**self).new_service()
    }
}

/// Law: ownership-forwarding transparency for exclusive ownership of a
/// stream service. A boxed stream service produces the very sequences the
/// service inside produces.
pub proof fn lemma_box_stream_service_transparent<S: StreamService>(s: Box<S>, req: S::Request)
    ensures
        s.output(req) == (*s).output(req),
        *s.step(req) == (*s).step(req),
{
}

} // verus!
