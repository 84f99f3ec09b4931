use vstd::prelude::*;

use crate::handle::AsyncResult;
use crate::middleware::{Middleware, MiddlewareChain, NewMiddleware};
use crate::stream::middleware::{
    NewStreamMiddleware, NewStreamMiddlewareReduceChain, StreamMiddleware, StreamMiddlewareChain,
    StreamMiddlewareReduceChain,
};
use crate::stream::{NewStreamService, StreamService};
use crate::{ConstructionError, NewService, Service};

verus! {

/// Folds the sequence a stream service produces per call back into a
/// single response or error: the bridge from the streaming hierarchy to
/// the single-response hierarchy.
pub trait StreamReduce<S: StreamService>: Sized {
    /// The single-response service that reducing yields.
    type ReducedService: Service;

    /// The reduced service that `reduce` yields.
    spec fn reduce_spec(self, service: S) -> Self::ReducedService;

    /// Fold the given stream service into a single-response service.
    fn reduce(self, service: S) -> (r: Self::ReducedService)
        ensures
            r == self.reduce_spec(service),
    ;
}

/// A stream reducer composed with an ordinary middleware: reducing before
/// wrapping. Reducing a stream service with this composite folds the
/// service's sequences first and applies the middleware to the folded,
/// single-response service.
#[derive(Debug, PartialEq, Eq)]
pub struct StreamReduceMiddlewareChain<R, M> {
    pub reducer: R,
    pub middleware: M,
}

impl<R, M> StreamReduceMiddlewareChain<R, M> {
    /// Compose a stream reducer with an ordinary middleware; the reducer
    /// folds first, the middleware wraps the folded service.
    pub fn chain(reducer: R, middleware: M) -> (c: Self)
        ensures
            c.reducer == reducer,
            c.middleware == middleware,
    {
        StreamReduceMiddlewareChain { reducer, middleware }
    }
}

impl<S, R, M> StreamReduce<S> for StreamReduceMiddlewareChain<R, M> where
    S: StreamService,
    R: StreamReduce<S>,
    M: Middleware<R::ReducedService>,
 {
    type ReducedService = M::WrappedService;

    open spec fn reduce_spec(self, service: S) -> M::WrappedService {
        self.middleware.wrap_spec(self.reducer.reduce_spec(service))
    }

    fn reduce(self, service: S) -> (r: M::WrappedService) {
        self.middleware.wrap(self.reducer.reduce(service))
    }
}

impl<S, M, R> StreamReduce<S> for StreamMiddlewareReduceChain<M, R> where
    S: StreamService,
    M: StreamMiddleware<S>,
    R: StreamReduce<M::WrappedService>,
 {
    type ReducedService = R::ReducedService;

    open spec fn reduce_spec(self, service: S) -> R::ReducedService {
        self.reducer.reduce_spec(self.middleware.wrap_spec(service))
    }

    fn reduce(self, service: S) -> (r: R::ReducedService) {
        self.reducer.reduce(self.middleware.wrap(service))
    }
}

/// Creates new `StreamReduce` values; the factory analogue of
/// `StreamReduce`.
pub trait NewStreamReduce<S: StreamService>: Sized {
    /// The single-response service that a produced reducer yields.
    type ReducedService: Service;

    /// The `StreamReduce` value created by this factory.
    type Instance: StreamReduce<S, ReducedService = Self::ReducedService>;

    /// The instance this factory builds, or the construction error it
    /// reports.
    spec fn build(self) -> Result<Self::Instance, ConstructionError>;

    /// Create and return a new reducer value.
    fn new_reducer(&self) -> (r: Result<Self::Instance, ConstructionError>)
        ensures
            r == self.build(),
    ;

    /// Compose this reducer factory with a stream service factory: every
    /// service the composite produces is a fresh stream service folded by
    /// a fresh reducer.
    fn reduce<N>(self, new_service: N) -> (w: NewStreamServiceReducer<Self, N>) where
        N: NewStreamService<
            Instance = S,
            Request = S::Request,
            Response = S::Response,
            Error = S::Error,
        >,

        ensures
            w.service == new_service,
            w.reducer == self,
    {
        NewStreamServiceReducer { service: new_service, reducer: self }
    }
}

/// A stream service factory composed with a reducer factory: a factory of
/// single-response services.
///
/// Each `new_service` call constructs the stream service and the reducer
/// independently and combines them; if either construction fails, the
/// whole construction fails with that error — the stream service's error
/// first — and no partially-built composite is returned.
#[derive(Debug, PartialEq, Eq)]
pub struct NewStreamServiceReducer<R, S> {
    pub service: S,
    pub reducer: R,
}

impl<R, S, W> NewService for NewStreamServiceReducer<R, S> where
    S: NewStreamService,
    R: NewStreamReduce<S::Instance, ReducedService = W>,
    W: Service,
 {
    type Request = W::Request;

    type Response = W::Response;

    type Error = W::Error;

    type Instance = W;

    open spec fn build(self) -> Result<W, ConstructionError> {
        match self.service.build() {
            Err(e) => Err(e),
            Ok(svc) => match self.reducer.build() {
                Err(e) => Err(e),
                Ok(red) => Ok(red.reduce_spec(svc)),
            },
        }
    }

    fn new_service(&self) -> (r: Result<W, ConstructionError>) {
        let svc = match self.service.new_service() {
            Ok(s) => s,
            Err(e) => {
                return Err(e);
            },
        };
        let red = match self.reducer.new_reducer() {
            Ok(m) => m,
            Err(e) => {
                return Err(e);
            },
        };
        Ok(red.reduce(svc))
    }
}

/// A stream reducer factory composed with an ordinary middleware factory.
/// Each `new_reducer` call constructs both and composes them; the reducer
/// factory's error comes first.
#[derive(Debug, PartialEq, Eq)]
pub struct NewStreamReduceMiddlewareChain<R, M> {
    pub reducer: R,
    pub middleware: M,
}

impl<R, M> NewStreamReduceMiddlewareChain<R, M> {
    /// Compose a stream reducer factory with an ordinary middleware
    /// factory; produced reducers fold first and wrap the folded service.
    pub fn chain(reducer: R, middleware: M) -> (c: Self)
        ensures
            c.reducer == reducer,
            c.middleware == middleware,
    {
        NewStreamReduceMiddlewareChain { reducer, middleware }
    }
}

impl<S, R, M> NewStreamReduce<S> for NewStreamReduceMiddlewareChain<R, M> where
    S: StreamService,
    R: NewStreamReduce<S>,
    M: NewMiddleware<R::ReducedService>,
 {
    type ReducedService = M::WrappedService;

    type Instance = StreamReduceMiddlewareChain<R::Instance, M::Instance>;

    open spec fn build(self) -> Result<Self::Instance, ConstructionError> {
        match self.reducer.build() {
            Err(e) => Err(e),
            Ok(red) => match self.middleware.build() {
                Err(e) => Err(e),
                Ok(mw) => Ok(StreamReduceMiddlewareChain { reducer: red, middleware: mw }),
            },
        }
    }

    fn new_reducer(&self) -> (r: Result<Self::Instance, ConstructionError>) {
        let red = match self.reducer.new_reducer() {
            Ok(m) => m,
            Err(e) => {
                return Err(e);
            },
        };
        let mw = match self.middleware.new_middleware() {
            Ok(m) => m,
            Err(e) => {
                return Err(e);
            },
        };
        Ok(StreamReduceMiddlewareChain { reducer: red, middleware: mw })
    }
}

impl<S, M, R> NewStreamReduce<S> for NewStreamMiddlewareReduceChain<M, R> where
    S: StreamService,
    M: NewStreamMiddleware<S>,
    R: NewStreamReduce<M::WrappedService>,
 {
    type ReducedService = R::ReducedService;

    type Instance = StreamMiddlewareReduceChain<M::Instance, R::Instance>;

    open spec fn build(self) -> Result<Self::Instance, ConstructionError> {
        match self.middleware.build() {
            Err(e) => Err(e),
            Ok(mw) => match self.reducer.build() {
                Err(e) => Err(e),
                Ok(red) => Ok(StreamMiddlewareReduceChain { middleware: mw, reducer: red }),
            },
        }
    }

    fn new_reducer(&self) -> (r: Result<Self::Instance, ConstructionError>) {
        let mw = match self.middleware.new_middleware() {
            Ok(m) => m,
            Err(e) => {
                return Err(e);
            },
        };
        let red = match self.reducer.new_reducer() {
            Ok(m) => m,
            Err(e) => {
                return Err(e);
            },
        };
        Ok(StreamMiddlewareReduceChain { middleware: mw, reducer: red })
    }
}

/// A folding policy: how one finite course of a sequence — the responses
/// it yielded and the error that ended it, if any — folds into a single
/// response or error. A stream reducer owns such a policy.
pub trait Fold: Sized {
    /// Responses the folded sequences yield.
    type Item;

    /// The single response a fold produces.
    type Response;

    /// Errors: both those that end a sequence and those a fold produces.
    type Error;

    /// The fold itself, as a mathematical function of the sequence's
    /// course.
    spec fn fold_spec(self, items: Seq<Self::Item>, failure: Option<Self::Error>) -> Result<
        Self::Response,
        Self::Error,
    >;

    /// Fold one drained sequence.
    fn fold(&self, items: Vec<Self::Item>, failure: Option<Self::Error>) -> (r: Result<
        Self::Response,
        Self::Error,
    >)
        ensures
            r == self.fold_spec(items@, failure),
    ;
}

/// A stream service folded by a policy: the single-response service that
/// `FoldReduce` yields. Each call runs the stream service once and folds
/// the whole course of the returned sequence with the policy.
#[derive(Debug, PartialEq, Eq)]
pub struct FoldedService<S, F> {
    pub stream_service: S,
    pub policy: F,
}

impl<S, F> Service for FoldedService<S, F> where
    S: StreamService,
    F: Fold<Item = S::Response, Error = S::Error>,
 {
    type Request = S::Request;

    type Response = F::Response;

    type Error = F::Error;

    open spec fn step(self, req: S::Request) -> Self {
        FoldedService { stream_service: self.stream_service.step(req), policy: self.policy }
    }

    open spec fn outcome(self, req: S::Request) -> Result<F::Response, F::Error> {
        self.policy.fold_spec(
            self.stream_service.output(req).0,
            self.stream_service.output(req).1,
        )
    }

    fn call(&mut self, req: S::Request) -> (h: AsyncResult<F::Response, F::Error>) {
        let produced = self.stream_service.call(req);
        let (items, failure) = produced.drain();
        AsyncResult::resolved(self.policy.fold(items, failure))
    }
}

/// A stream reducer given by its folding policy: reducing a stream
/// service yields the `FoldedService` of that service and the policy.
#[derive(Debug, PartialEq, Eq)]
pub struct FoldReduce<F> {
    pub policy: F,
}

impl<F> FoldReduce<F> {
    /// A reducer that folds every produced sequence with `policy`.
    pub fn new(policy: F) -> (r: Self)
        ensures
            r.policy == policy,
    {
        FoldReduce { policy }
    }
}

impl<S, F> StreamReduce<S> for FoldReduce<F> where
    S: StreamService,
    F: Fold<Item = S::Response, Error = S::Error>,
 {
    type ReducedService = FoldedService<S, F>;

    open spec fn reduce_spec(self, service: S) -> FoldedService<S, F> {
        FoldedService { stream_service: service, policy: self.policy }
    }

    fn reduce(self, service: S) -> (r: FoldedService<S, F>) {
        FoldedService { stream_service: service, policy: self.policy }
    }
}

/// Law: fold correctness of the reduction bridge. For a stream service
/// whose sequence for `req` yields `items` and ends in `failure`, the
/// folded service resolves `req` to exactly the policy's fold of `items`
/// and `failure` — deterministically — and steps by stepping the stream
/// service alone.
pub proof fn lemma_folded_service_folds<S, F>(w: FoldedService<S, F>, req: S::Request)
    where S: StreamService, F: Fold<Item = S::Response, Error = S::Error>,
    ensures
        w.outcome(req) == w.policy.fold_spec(
            w.stream_service.output(req).0,
            w.stream_service.output(req).1,
        ),
        w.step(req) == (FoldedService {
            stream_service: w.stream_service.step(req),
            policy: w.policy,
        }),
{
}

/// Law: reducing then wrapping. A reducer chained with an ordinary
/// middleware reduces a stream service to exactly the middleware-wrapped
/// folded service: the middleware applies to the folded result.
pub proof fn lemma_reduce_then_wrap<S, R, M>(s: S, r: R, m: M)
    where S: StreamService, R: StreamReduce<S>, M: Middleware<R::ReducedService>,
    ensures
        (StreamReduceMiddlewareChain { reducer: r, middleware: m }).reduce_spec(s)
            == m.wrap_spec(r.reduce_spec(s)),
{
}

/// Law: wrapping then reducing. A stream middleware chained with a
/// reducer reduces a stream service to exactly the fold of the wrapped
/// service: the middleware still operates per element, before reduction.
pub proof fn lemma_wrap_then_reduce<S, M, R>(s: S, m: M, r: R)
    where S: StreamService, M: StreamMiddleware<S>, R: StreamReduce<M::WrappedService>,
    ensures
        (StreamMiddlewareReduceChain { middleware: m, reducer: r }).reduce_spec(s)
            == r.reduce_spec(m.wrap_spec(s)),
{
}

/// Law: reduce-then-wrap chains associate with middleware chains. Chaining
/// a reducer with two middleware one after the other, and chaining it with
/// their chain, reduce every stream service to the same wrapped service.
pub proof fn lemma_reduce_chain_associative<S, R, M1, M2>(s: S, r: R, m1: M1, m2: M2)
    where
        S: StreamService,
        R: StreamReduce<S>,
        M1: Middleware<R::ReducedService>,
        M2: Middleware<M1::WrappedService>,
    ensures
        (StreamReduceMiddlewareChain {
            reducer: (StreamReduceMiddlewareChain { reducer: r, middleware: m1 }),
            middleware: m2,
        }).reduce_spec(s) == (StreamReduceMiddlewareChain {
            reducer: r,
            middleware: (MiddlewareChain { inner_middleware: m1, outer_middleware: m2 }),
        }).reduce_spec(s),
{
}

/// Law: wrap-then-reduce chains associate with stream middleware chains.
/// Wrapping with two stream middleware and then reducing, however the
/// three are nested, reduces every stream service to the same service.
pub proof fn lemma_wrap_reduce_chain_associative<S, M1, M2, R>(s: S, m1: M1, m2: M2, r: R)
    where
        S: StreamService,
        M1: StreamMiddleware<S>,
        M2: StreamMiddleware<M1::WrappedService>,
        R: StreamReduce<M2::WrappedService>,
    ensures
        (StreamMiddlewareReduceChain {
            middleware: m1,
            reducer: (StreamMiddlewareReduceChain { middleware: m2, reducer: r }),
        }).reduce_spec(s) == (StreamMiddlewareReduceChain {
            middleware: (StreamMiddlewareChain { inner_middleware: m1, outer_middleware: m2 }),
            reducer: r,
        }).reduce_spec(s),
{
}

} // verus!
