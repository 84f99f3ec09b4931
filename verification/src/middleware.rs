use vstd::prelude::*;

use crate::handle::AsyncResult;
use crate::{ConstructionError, NewService, Service};

verus! {

/// A reusable component that wraps a service to add a cross-cutting
/// behaviour — a timeout, a retry policy, a counter — independent of the
/// protocol the service speaks.
///
/// Wrapping is a pure construction step: `wrap` consumes the middleware and
/// the service and yields the composed service, exactly the value that
/// `wrap_spec` gives. All call-time behaviour lives in the wrapped service
/// the implementor chooses.
pub trait Middleware<S: Service>: Sized {
    /// The service produced by wrapping this middleware around another
    /// service.
    type WrappedService: Service;

    /// The composed service that wrapping yields.
    spec fn wrap_spec(self, service: S) -> Self::WrappedService;

    /// Wrap the middleware around a service it is able to wrap.
    fn wrap(self, service: S) -> (w: Self::WrappedService)
        ensures
            w == self.wrap_spec(service),
    ;

}

/// Two middleware, chained together.
#[derive(Debug, PartialEq, Eq)]
pub struct MiddlewareChain<InnerM, OuterM> {
    pub inner_middleware: InnerM,
    pub outer_middleware: OuterM,
}

impl<InnerM, OuterM> MiddlewareChain<InnerM, OuterM> {
    /// Chain two middleware together; `inner_middleware` is the inner
    /// middleware and `outer_middleware` the outer one.
    ///
    /// When the chain is wrapped around a service, first the inner
    /// middleware is wrapped around that service, and then the outer
    /// middleware is wrapped around the service the inner one produced. A
    /// chain can therefore be built before the service it will apply to is
    /// known; compatibility is checked where the chain is wrapped.
    pub fn chain(inner_middleware: InnerM, outer_middleware: OuterM) -> (c: Self)
        ensures
            c.inner_middleware == inner_middleware,
            c.outer_middleware == outer_middleware,
    {
        MiddlewareChain { inner_middleware, outer_middleware }
    }
}

impl<S, InnerM, OuterM> Middleware<S> for MiddlewareChain<InnerM, OuterM> where
    S: Service,
    InnerM: Middleware<S>,
    OuterM: Middleware<InnerM::WrappedService>,
 {
    type WrappedService = OuterM::WrappedService;

    open spec fn wrap_spec(self, service: S) -> OuterM::WrappedService {
        self.outer_middleware.wrap_spec(self.inner_middleware.wrap_spec(service))
    }

    fn wrap(self, service: S) -> (w: OuterM::WrappedService) {
        self.outer_middleware.wrap(self.inner_middleware.wrap(service))
    }
}

/// The per-call form of a middleware: its processing logic, given one
/// request and exclusive access to the inner service.
///
/// Per invocation the middleware may call the inner service zero or more
/// times and adds its own logic around those calls; `step` gives the joint
/// next state of middleware and inner service, `outcome` the resolution of
/// the handle it returns. Composing such a middleware with a service through
/// `WrappedService` yields a `Service` again.
pub trait Intercept<S: Service>: Sized {
    /// Requests the middleware accepts.
    type Request;

    /// Responses the middleware produces.
    type Response;

    /// Errors the middleware produces.
    type Error;

    /// The states of the middleware and of the inner service after one
    /// call.
    spec fn step(self, inner: S, req: Self::Request) -> (Self, S);

    /// What the handle returned for `req` resolves to.
    spec fn outcome(self, inner: S, req: Self::Request) -> Result<Self::Response, Self::Error>;

    /// Process one request, borrowing the inner service through the
    /// accessor.
    fn call(&mut self, req: Self::Request, inner: &mut S) -> (h: AsyncResult<
        Self::Response,
        Self::Error,
    >)
        ensures
            *final(self) == old(self).step(*old(inner), req).0,
            *final(inner) == old(self).step(*old(inner), req).1,
            h@ == old(self).outcome(*old(inner), req),
    ;
}

/// A middleware composed with the service it wraps: the accessor to the
/// inner service together with the middleware instance. It satisfies the
/// service contract by delegating every call to the middleware, passing the
/// accessor.
#[derive(Debug, PartialEq, Eq)]
pub struct WrappedService<S, M> {
    pub inner: S,
    pub middleware: M,
}

impl<S: Service, M: Intercept<S>> Service for WrappedService<S, M> {
    type Request = M::Request;

    type Response = M::Response;

    type Error = M::Error;

    open spec fn step(self, req: M::Request) -> Self {
        WrappedService {
            inner: self.middleware.step(self.inner, req).1,
            middleware: self.middleware.step(self.inner, req).0,
        }
    }

    open spec fn outcome(self, req: M::Request) -> Result<M::Response, M::Error> {
        self.middleware.outcome(self.inner, req)
    }

    fn call(&mut self, req: M::Request) -> (h: AsyncResult<M::Response, M::Error>) {
        self.middleware.call(req, &mut self.inner)
    }
}

/// Creates new `Middleware` values; the factory analogue of `Middleware`.
pub trait NewMiddleware<S: Service>: Sized {
    /// The service produced by wrapping a produced middleware around a
    /// service.
    type WrappedService: Service;

    /// The `Middleware` value created by this factory.
    type Instance: Middleware<S, WrappedService = Self::WrappedService>;

    /// The instance this factory builds, or the construction error it
    /// reports.
    spec fn build(self) -> Result<Self::Instance, ConstructionError>;

    /// Create and return a new middleware value.
    fn new_middleware(&self) -> (r: Result<Self::Instance, ConstructionError>)
        ensures
            r == self.build(),
    ;

    /// Compose this middleware factory with a service factory: every
    /// service the composite produces is a fresh inner service wrapped in a
    /// fresh middleware.
    fn wrap<N>(self, new_service: N) -> (w: NewServiceWrapper<Self, N>) where
        N: NewService<
            Instance = S,
            Request = S::Request,
            Response = S::Response,
            Error = S::Error,
        >,

        ensures
            w.service == new_service,
            w.middleware == self,
    {
        NewServiceWrapper { service: new_service, middleware: self }
    }

}

/// A service factory composed with a middleware factory: the value produced
/// by `NewMiddleware::wrap`.
///
/// Each `new_service` call constructs the inner service and the middleware
/// independently and combines them; if either construction fails, the whole
/// construction fails with that error — the inner service's error first —
/// and no partially-built composite is returned.
#[derive(Debug, PartialEq, Eq)]
pub struct NewServiceWrapper<M, S> {
    pub service: S,
    pub middleware: M,
}

impl<M, S, W> NewService for NewServiceWrapper<M, S> where
    S: NewService,
    M: NewMiddleware<S::Instance, WrappedService = W>,
    W: Service,
 {
    type Request = W::Request;

    type Response = W::Response;

    type Error = W::Error;

    type Instance = W;

    open spec fn build(self) -> Result<W, ConstructionError> {
        match self.service.build() {
            Err(e) => Err(e),
            Ok(svc) => match self.middleware.build() {
                Err(e) => Err(e),
                Ok(mw) => Ok(mw.wrap_spec(svc)),
            },
        }
    }

    fn new_service(&self) -> (r: Result<W, ConstructionError>) {
        let svc = match self.service.new_service() {
            Ok(s) => s,
            Err(e) => {
                return Err(e);
            },
        };
        let mw = match self.middleware.new_middleware() {
            Ok(m) => m,
            Err(e) => {
                return Err(e);
            },
        };
        Ok(mw.wrap(svc))
    }
}

/// Two middleware factories, chained together. Each `new_middleware`
/// call constructs both
/// sub-middleware and chains them; if either construction fails, the whole
/// construction fails with that error — the inner factory's error first.
#[derive(Debug, PartialEq, Eq)]
pub struct NewMiddlewareChain<InnerM, OuterM> {
    pub inner_middleware: InnerM,
    pub outer_middleware: OuterM,
}

impl<InnerM, OuterM> NewMiddlewareChain<InnerM, OuterM> {
    /// Chain two middleware factories; `inner_middleware` produces the
    /// inner middleware and `outer_middleware` the outer one.
    pub fn chain(inner_middleware: InnerM, outer_middleware: OuterM) -> (c: Self)
        ensures
            c.inner_middleware == inner_middleware,
            c.outer_middleware == outer_middleware,
    {
        NewMiddlewareChain { inner_middleware, outer_middleware }
    }
}

impl<S, InnerM, OuterM> NewMiddleware<S> for NewMiddlewareChain<InnerM, OuterM> where
    S: Service,
    InnerM: NewMiddleware<S>,
    OuterM: NewMiddleware<InnerM::WrappedService>,
 {
    type WrappedService = OuterM::WrappedService;

    type Instance = MiddlewareChain<InnerM::Instance, OuterM::Instance>;

    open spec fn build(self) -> Result<Self::Instance, ConstructionError> {
        match self.inner_middleware.build() {
            Err(e) => Err(e),
            Ok(im) => match self.outer_middleware.build() {
                Err(e) => Err(e),
                Ok(om) => Ok(MiddlewareChain { inner_middleware: im, outer_middleware: om }),
            },
        }
    }

    fn new_middleware(&self) -> (r: Result<Self::Instance, ConstructionError>) {
        let im = match self.inner_middleware.new_middleware() {
            Ok(m) => m,
            Err(e) => {
                return Err(e);
            },
        };
        let om = match self.outer_middleware.new_middleware() {
            Ok(m) => m,
            Err(e) => {
                return Err(e);
            },
        };
        Ok(MiddlewareChain { inner_middleware: im, outer_middleware: om })
    }
}

/// Law: a wrapped service delegates. Calling the composite of a middleware
/// and a service resolves to exactly what the middleware's own call over
/// the accessor to that service resolves to, and the composite steps to the
/// joint next state of the two.
pub proof fn lemma_wrapped_service_delegates<S: Service, M: Intercept<S>>(
    w: WrappedService<S, M>,
    req: M::Request,
)
    ensures
        w.outcome(req) == w.middleware.outcome(w.inner, req),
        w.step(req) == (WrappedService {
            inner: w.middleware.step(w.inner, req).1,
            middleware: w.middleware.step(w.inner, req).0,
        }),
{
}

/// Law: composite construction is atomic. The composed factory succeeds
/// exactly when both parts do; the inner service factory's error is
/// reported first; and on success the instance is the fresh middleware
/// wrapped around the fresh service — never a half-built composite.
pub proof fn lemma_wrapper_builds_atomically<M, S, W>(f: NewServiceWrapper<M, S>)
    where
        S: NewService,
        M: NewMiddleware<S::Instance, WrappedService = W>,
        W: Service,
    ensures
        f.build() is Ok <==> (f.service.build() is Ok && f.middleware.build() is Ok),
        f.service.build() is Err ==> f.build() == Err::<W, ConstructionError>(
            f.service.build()->Err_0,
        ),
        f.service.build() is Ok && f.middleware.build() is Err ==> f.build() == Err::<
            W,
            ConstructionError,
        >(f.middleware.build()->Err_0),
        f.service.build() is Ok && f.middleware.build() is Ok ==> f.build() == Ok::<
            W,
            ConstructionError,
        >(f.middleware.build()->Ok_0.wrap_spec(f.service.build()->Ok_0)),
{
}

/// Law: chaining is exactly sugar for sequential wrapping. Wrapping a
/// service with `chain(m1, m2)` yields the very value obtained by wrapping
/// with the inner middleware `m1` first and the outer middleware `m2`
/// second — not a reordering.
pub proof fn lemma_chain_is_sequential_wrap<
    S: Service,
    M1: Middleware<S>,
    M2: Middleware<M1::WrappedService>,
>(s: S, m1: M1, m2: M2)
    ensures
        (MiddlewareChain { inner_middleware: m1, outer_middleware: m2 }).wrap_spec(s)
            == m2.wrap_spec(m1.wrap_spec(s)),
{
}

/// Law: chaining is associative. For compatible middleware `m1`, `m2`, `m3`
/// and any service, wrapping with `chain(m1, chain(m2, m3))` and with
/// `chain(chain(m1, m2), m3)` yields the same wrapped service.
pub proof fn lemma_chain_associative<
    S: Service,
    M1: Middleware<S>,
    M2: Middleware<M1::WrappedService>,
    M3: Middleware<M2::WrappedService>,
>(s: S, m1: M1, m2: M2, m3: M3)
    ensures
        (MiddlewareChain {
            inner_middleware: m1,
            outer_middleware: (MiddlewareChain { inner_middleware: m2, outer_middleware: m3 }),
        }).wrap_spec(s) == (MiddlewareChain {
            inner_middleware: (MiddlewareChain { inner_middleware: m1, outer_middleware: m2 }),
            outer_middleware: m3,
        }).wrap_spec(s),
{
}

/// Law: chaining middleware factories is associative as well. Either
/// nesting builds middleware that wrap any service identically, and both
/// nestings fail on exactly the same factories, with the same error — the
/// first failure in inner-to-outer order.
pub proof fn lemma_new_chain_associative<
    S: Service,
    F1: NewMiddleware<S>,
    F2: NewMiddleware<F1::WrappedService>,
    F3: NewMiddleware<F2::WrappedService>,
>(s: S, f1: F1, f2: F2, f3: F3)
    ensures
        ({
            let left = (NewMiddlewareChain {
                inner_middleware: f1,
                outer_middleware: (NewMiddlewareChain {
                    inner_middleware: f2,
                    outer_middleware: f3,
                }),
            }).build();
            let right = (NewMiddlewareChain {
                inner_middleware: (NewMiddlewareChain {
                    inner_middleware: f1,
                    outer_middleware: f2,
                }),
                outer_middleware: f3,
            }).build();
            &&& left is Ok <==> right is Ok
            &&& left is Err ==> right is Err && left->Err_0 == right->Err_0
            &&& left is Ok ==> left->Ok_0.wrap_spec(s) == right->Ok_0.wrap_spec(s)
        }),
{
}

} // verus!
