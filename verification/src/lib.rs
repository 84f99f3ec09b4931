mod handle;
mod middleware;
pub mod stream;
pub mod testing;

pub use handle::{AsyncResult, ResponseStream};
pub use middleware::{
    Intercept, Middleware, MiddlewareChain, NewMiddleware, NewMiddlewareChain, NewServiceWrapper,
    WrappedService,
};

use std::rc::Rc;
use std::sync::Arc;
use vstd::prelude::*;

verus! {

/// The error a factory reports when a fresh instance cannot be built.
///
/// Construction failure is distinct from processing failure: it is returned
/// synchronously by `new_service` / `new_middleware`, never through a result
/// handle, and it is never retried by this crate.
#[derive(Debug, Clone, PartialEq, Eq)]
pub struct ConstructionError {
    pub message: String,
}

impl ConstructionError {
    pub fn new(message: &str) -> (e: Self)
        ensures
            e.message@ == message@,
    {
        ConstructionError { message: message.to_owned() }
    }
}

/// An asynchronous function from a request to an eventually-resolved
/// response.
///
/// A service is a transition system: each call consumes one request,
/// moves the service to its next state, and immediately hands back a
/// handle for the eventual response or error. The two spec functions are
/// the system's mathematical model — `step` the state transition,
/// `outcome` the resolution of the returned handle — and `call` is bound
/// to them exactly. A service's externally visible behaviour is thereby a
/// function of its own state and the request alone, so distinct service
/// values can never observably affect one another.
pub trait Service: Sized {
    /// Requests handled by the service.
    type Request;

    /// Responses given by the service.
    type Response;

    /// Errors produced by the service.
    type Error;

    /// The state of the service after handling `req`.
    spec fn step(self, req: Self::Request) -> Self;

    /// What the handle returned for `req` resolves to.
    spec fn outcome(self, req: Self::Request) -> Result<Self::Response, Self::Error>;

    /// Handle one request: returns at once with a handle that resolves to
    /// the response or error given by `outcome`, and moves the service to
    /// the state given by `step`.
    ///
    /// The call itself never fails or signals backpressure synchronously.
    /// Overload is expressed through the handle as an ordinary error, by
    /// the service itself or by a load-shedding middleware around it.
    fn call(&mut self, req: Self::Request) -> (h: AsyncResult<Self::Response, Self::Error>)
        ensures
            *final(self) == old(self).step(req),
            h@ == old(self).outcome(req),
    ;

}

/// Creates new `Service` values.
///
/// `build` is the factory's model: each `new_service` call returns exactly
/// the instance (or construction error) that `build` gives, so successive
/// calls yield equal, fully independent instances.
pub trait NewService: Sized {
    /// Requests handled by the produced service.
    type Request;

    /// Responses given by the produced service.
    type Response;

    /// Errors produced by the produced service.
    type Error;

    /// The `Service` value created by this factory.
    type Instance: Service<
        Request = Self::Request,
        Response = Self::Response,
        Error = Self::Error,
    >;

    /// The instance this factory builds, or the construction error it
    /// reports.
    spec fn build(self) -> Result<Self::Instance, ConstructionError>;

    /// Create and return a new service value.
    fn new_service(&self) -> (r: Result<Self::Instance, ConstructionError>)
        ensures
            r == self.build(),
    ;

}

/// Exclusive ownership forwards the service contract unchanged: a boxed
/// service steps and answers exactly as the service inside it does.
impl<S: Service> Service for Box<S> {
    type Request = S::Request;

    type Response = S::Response;

    type Error = S::Error;

    open spec fn step(self, req: S::Request) -> Box<S> {
        Box::new((*self).step(req))
    }

    open spec fn outcome(self, req: S::Request) -> Result<S::Response, S::Error> {
        (*self).outcome(req)
    }

    fn call(&mut self, req: S::Request) -> (h: AsyncResult<S::Response, S::Error>) {
        (&mut **self).call(req)
    }
}

/// Shared ownership with atomic reference counting forwards the factory
/// contract unchanged.
impl<S: NewService> NewService for Arc<S> {
    type Request = S::Request;

    type Response = S::Response;

    type Error = S::Error;

    type Instance = S::Instance;

    open spec fn build(self) -> Result<S::Instance, ConstructionError> {
        (*self).build()
    }

    fn new_service(&self) -> (r: Result<S::Instance, ConstructionError>) {
        (**self).new_service()
    }
}

/// Shared ownership with single-threaded reference counting forwards the
/// factory contract unchanged.
impl<S: NewService> NewService for Rc<S> {
    type Request = S::Request;

    type Response = S::Response;

    type Error = S::Error;

    type Instance = S::Instance;

    open spec fn build(self) -> Result<S::Instance, ConstructionError> {
        (*self).build()
    }

    fn new_service(&self) -> (r: Result<S::Instance, ConstructionError>) {
        (**self).new_service()
    }
}

/// Law: factory independence. `new_service` returns exactly what `build`
/// gives, so successive calls on one factory yield equal instances, and
/// equal instances answer and evolve alike on every request. Each instance
/// is a separate owned value, and `Service::call` binds the final state of
/// its own receiver alone, so calls on one instance cannot observably
/// affect another — unless a factory shares state deliberately, which
/// takes a shared-ownership wrapper.
pub proof fn lemma_factory_independence<N: NewService>(
    f: N,
    first: N::Instance,
    second: N::Instance,
    req: N::Request,
)
    requires
        f.build() == Ok::<N::Instance, ConstructionError>(first),
        f.build() == Ok::<N::Instance, ConstructionError>(second),
    ensures
        first == second,
        first.outcome(req) == second.outcome(req),
        first.step(req) == second.step(req),
{
}

/// Law: ownership-forwarding transparency for exclusive ownership. A boxed
/// service resolves every request exactly as the service inside does, and
/// steps to the boxed next state of that service.
pub proof fn lemma_box_service_transparent<S: Service>(s: Box<S>, req: S::Request)
    ensures
        s.outcome(req) == (*s).outcome(req),
        *s.step(req) == (*s).step(req),
{
}

/// Law: ownership-forwarding transparency for shared ownership. A
/// reference-counted factory builds exactly what the factory inside builds.
pub proof fn lemma_rc_new_service_transparent<N: NewService>(f: Rc<N>)
    ensures
        f.build() == (*f).build(),
{
}

/// Law: ownership-forwarding transparency for atomically shared ownership.
pub proof fn lemma_arc_new_service_transparent<N: NewService>(f: Arc<N>)
    ensures
        f.build() == (*f).build(),
{
}

} // verus!
