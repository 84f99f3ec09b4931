use vstd::prelude::*;

use crate::stream::{NewStreamService, StreamService};
use crate::ConstructionError;

verus! {

/// A reusable component that wraps a stream service, the same way
/// `Middleware` wraps a `Service`.
pub trait StreamMiddleware<S: StreamService>: Sized {
    /// The stream service produced by wrapping this middleware around
    /// another stream service.
    type WrappedService: StreamService;

    /// The composed stream service that wrapping yields.
    spec fn wrap_spec(self, service: S) -> Self::WrappedService;

    /// Wrap the middleware around a stream service it is able to wrap.
    fn wrap(self, service: S) -> (w: Self::WrappedService)
        ensures
            w == self.wrap_spec(service),
    ;
}

/// Two stream middleware, chained together; the inner middleware is
/// wrapped around the service first, the outer one around the result.
#[derive(Debug, PartialEq, Eq)]
pub struct StreamMiddlewareChain<InnerM, OuterM> {
    pub inner_middleware: InnerM,
    pub outer_middleware: OuterM,
}

impl<InnerM, OuterM> StreamMiddlewareChain<InnerM, OuterM> {
    /// Chain two stream middleware together; `inner_middleware` is the
    /// inner middleware and `outer_middleware` the outer one. A chain can
    /// be built before the service it will apply to is known;
    /// compatibility is checked where the chain is wrapped.
    pub fn chain(inner_middleware: InnerM, outer_middleware: OuterM) -> (c: Self)
        ensures
            c.inner_middleware == inner_middleware,
            c.outer_middleware == outer_middleware,
    {
        StreamMiddlewareChain { inner_middleware, outer_middleware }
    }
}

impl<S, InnerM, OuterM> StreamMiddleware<S> for StreamMiddlewareChain<InnerM, OuterM> where
    S: StreamService,
    InnerM: StreamMiddleware<S>,
    OuterM: StreamMiddleware<InnerM::WrappedService>,
 {
    type WrappedService = OuterM::WrappedService;

    open spec fn wrap_spec(self, service: S) -> OuterM::WrappedService {
        self.outer_middleware.wrap_spec(self.inner_middleware.wrap_spec(service))
    }

    fn wrap(self, service: S) -> (w: OuterM::WrappedService) {
        self.outer_middleware.wrap(self.inner_middleware.wrap(service))
    }
}

/// A stream middleware composed with a stream reducer: wrapping before
/// reducing. Reducing a stream service with this composite wraps the
/// service with the middleware first — so the middleware still operates
/// per element — and folds the wrapped service's sequences afterwards.
#[derive(Debug, PartialEq, Eq)]
pub struct StreamMiddlewareReduceChain<M, R> {
    pub middleware: M,
    pub reducer: R,
}

impl<M, R> StreamMiddlewareReduceChain<M, R> {
    /// Compose a stream middleware with a stream reducer; the middleware
    /// is applied per element, the reducer folds what the wrapped service
    /// yields.
    pub fn chain(middleware: M, reducer: R) -> (c: Self)
        ensures
            c.middleware == middleware,
            c.reducer == reducer,
    {
        StreamMiddlewareReduceChain { middleware, reducer }
    }
}

/// Creates new `StreamMiddleware` values; the factory analogue of
/// `StreamMiddleware`.
pub trait NewStreamMiddleware<S: StreamService>: Sized {
    /// The stream service produced by wrapping a produced middleware
    /// around a stream service.
    type WrappedService: StreamService;

    /// The `StreamMiddleware` value created by this factory.
    type Instance: StreamMiddleware<S, WrappedService = Self::WrappedService>;

    /// The instance this factory builds, or the construction error it
    /// reports.
    spec fn build(self) -> Result<Self::Instance, ConstructionError>;

    /// Create and return a new stream middleware value.
    fn new_middleware(&self) -> (r: Result<Self::Instance, ConstructionError>)
        ensures
            r == self.build(),
    ;

    /// Compose this middleware factory with a stream service factory:
    /// every service the composite produces is a fresh inner service
    /// wrapped in a fresh middleware.
    fn wrap<N>(self, new_service: N) -> (w: NewStreamServiceWrapper<Self, N>) where
        N: NewStreamService<
            Instance = S,
            Request = S::Request,
            Response = S::Response,
            Error = S::Error,
        >,

        ensures
            w.service == new_service,
            w.middleware == self,
    {
        NewStreamServiceWrapper { service: new_service, middleware: self }
    }
}

/// A stream service factory composed with a stream middleware factory.
///
/// Each `new_service` call constructs the inner service and the middleware
/// independently and combines them; if either construction fails, the
/// whole construction fails with that error — the inner service's error
/// first — and no partially-built composite is returned.
#[derive(Debug, PartialEq, Eq)]
pub struct NewStreamServiceWrapper<M, S> {
    pub service: S,
    pub middleware: M,
}

impl<M, S, W> NewStreamService for NewStreamServiceWrapper<M, S> where
    S: NewStreamService,
    M: NewStreamMiddleware<S::Instance, WrappedService = W>,
    W: StreamService,
 {
    type Request = W::Request;

    type Response = W::Response;

    type Error = W::Error;

    type Instance = W;

    open spec fn build(self) -> Result<W, ConstructionError> {
        match self.service.build() {
            Err(e) => Err(e),
            Ok(svc) => match self.middleware.build() {
                Err(e) => Err(e),
                Ok(mw) => Ok(mw.wrap_spec(svc)),
            },
        }
    }

    fn new_service(&self) -> (r: Result<W, ConstructionError>) {
        let svc = match self.service.new_service() {
            Ok(s) => s,
            Err(e) => {
                return Err(e);
            },
        };
        let mw = match self.middleware.new_middleware() {
            Ok(m) => m,
            Err(e) => {
                return Err(e);
            },
        };
        Ok(mw.wrap(svc))
    }
}

/// Two stream middleware factories, chained together. Each
/// `new_middleware` call constructs both sub-middleware and chains them;
/// if either construction fails, the whole construction fails with that
/// error — the inner factory's error first.
#[derive(Debug, PartialEq, Eq)]
pub struct NewStreamMiddlewareChain<InnerM, OuterM> {
    pub inner_middleware: InnerM,
    pub outer_middleware: OuterM,
}

impl<InnerM, OuterM> NewStreamMiddlewareChain<InnerM, OuterM> {
    /// Chain two stream middleware factories; `inner_middleware` produces
    /// the inner middleware and `outer_middleware` the outer one.
    pub fn chain(inner_middleware: InnerM, outer_middleware: OuterM) -> (c: Self)
        ensures
            c.inner_middleware == inner_middleware,
            c.outer_middleware == outer_middleware,
    {
        NewStreamMiddlewareChain { inner_middleware, outer_middleware }
    }
}

impl<S, InnerM, OuterM> NewStreamMiddleware<S> for NewStreamMiddlewareChain<InnerM, OuterM> where
    S: StreamService,
    InnerM: NewStreamMiddleware<S>,
    OuterM: NewStreamMiddleware<InnerM::WrappedService>,
 {
    type WrappedService = OuterM::WrappedService;

    type Instance = StreamMiddlewareChain<InnerM::Instance, OuterM::Instance>;

    open spec fn build(self) -> Result<Self::Instance, ConstructionError> {
        match self.inner_middleware.build() {
            Err(e) => Err(e),
            Ok(im) => match self.outer_middleware.build() {
                Err(e) => Err(e),
                Ok(om) => Ok(StreamMiddlewareChain { inner_middleware: im, outer_middleware: om }),
            },
        }
    }

    fn new_middleware(&self) -> (r: Result<Self::Instance, ConstructionError>) {
        let im = match self.inner_middleware.new_middleware() {
            Ok(m) => m,
            Err(e) => {
                return Err(e);
            },
        };
        let om = match self.outer_middleware.new_middleware() {
            Ok(m) => m,
            Err(e) => {
                return Err(e);
            },
        };
        Ok(StreamMiddlewareChain { inner_middleware: im, outer_middleware: om })
    }
}

/// A stream middleware factory composed with a stream reducer factory.
/// Each `new_reducer` call constructs both and composes them; the
/// middleware factory's error comes first.
#[derive(Debug, PartialEq, Eq)]
pub struct NewStreamMiddlewareReduceChain<M, R> {
    pub middleware: M,
    pub reducer: R,
}

impl<M, R> NewStreamMiddlewareReduceChain<M, R> {
    /// Compose a stream middleware factory with a stream reducer factory.
    pub fn chain(middleware: M, reducer: R) -> (c: Self)
        ensures
            c.middleware == middleware,
            c.reducer == reducer,
    {
        NewStreamMiddlewareReduceChain { middleware, reducer }
    }
}

/// Law: chaining stream middleware is exactly sugar for sequential
/// wrapping, in inner-then-outer order.
pub proof fn lemma_stream_chain_is_sequential_wrap<
    S: StreamService,
    M1: StreamMiddleware<S>,
    M2: StreamMiddleware<M1::WrappedService>,
>(s: S, m1: M1, m2: M2)
    ensures
        (StreamMiddlewareChain { inner_middleware: m1, outer_middleware: m2 }).wrap_spec(s)
            == m2.wrap_spec(m1.wrap_spec(s)),
{
}

/// Law: chaining stream middleware is associative.
pub proof fn lemma_stream_chain_associative<
    S: StreamService,
    M1: StreamMiddleware<S>,
    M2: StreamMiddleware<M1::WrappedService>,
    M3: StreamMiddleware<M2::WrappedService>,
>(s: S, m1: M1, m2: M2, m3: M3)
    ensures
        (StreamMiddlewareChain {
            inner_middleware: m1,
            outer_middleware: (StreamMiddlewareChain {
                inner_middleware: m2,
                outer_middleware: m3,
            }),
        }).wrap_spec(s) == (StreamMiddlewareChain {
            inner_middleware: (StreamMiddlewareChain {
                inner_middleware: m1,
                outer_middleware: m2,
            }),
            outer_middleware: m3,
        }).wrap_spec(s),
{
}

} // verus!
