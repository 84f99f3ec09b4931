//! Small concrete services, middleware, factories, and folding policies.
//!
//! The core of this crate is deliberately abstract: traits and composition
//! combinators. The types here are the smallest concrete instances of those
//! traits — an echo service, a counting middleware, a rejecting middleware,
//! prefixing middleware, a replayed finite stream, a summing reducer — so
//! that the composition algebra can be exercised end to end.

use vstd::prelude::*;

use crate::handle::{AsyncResult, ResponseStream};
use crate::middleware::{Intercept, Middleware, NewMiddleware, WrappedService};
use crate::stream::{
    Fold, FoldReduce, FoldedService, NewStreamMiddleware, NewStreamReduce, NewStreamService,
    StreamMiddleware, StreamService,
};
use crate::{ConstructionError, NewService, Service};

verus! {

/// The processing error the fixture services produce: an error carrying a
/// text message.
#[derive(Debug, Clone, PartialEq, Eq)]
pub struct TextError {
    pub message: String,
}

impl TextError {
    pub fn new(message: &str) -> (e: Self)
        ensures
            e.message@ == message@,
    {
        TextError { message: message.to_owned() }
    }

    /// An equal copy of this error.
    pub fn duplicate(&self) -> (e: Self)
        ensures
            e == self,
    {
        TextError { message: self.message.clone() }
    }
}

/// A piece of text as a list of characters.
///
/// Unlike `String`, whose identity in specifications is abstract, this type
/// is built from characters and boxes alone, so equal contents are equal
/// values. Middleware that edit responses — such as `PrefixMiddleware` —
/// can therefore promise the exact value they produce.
#[derive(Debug, PartialEq, Eq)]
pub enum Text {
    Empty,
    Char(char, Box<Text>),
}

impl Text {
    /// The concatenation of `a` and `b`.
    pub open spec fn append_spec(a: Text, b: Text) -> Text
        decreases a,
    {
        match a {
            Text::Empty => b,
            Text::Char(c, rest) => Text::Char(c, Box::new(Text::append_spec(*rest, b))),
        }
    }

    /// Concatenate two texts.
    pub fn append(self, other: Text) -> (r: Text)
        ensures
            r == Text::append_spec(self, other),
        decreases self,
    {
        match self {
            Text::Empty => other,
            Text::Char(c, rest) => Text::Char(c, Box::new((*rest).append(other))),
        }
    }

    /// An equal copy of this text.
    pub fn duplicate(&self) -> (r: Text)
        ensures
            r == self,
        decreases self,
    {
        match self {
            Text::Empty => Text::Empty,
            Text::Char(c, rest) => Text::Char(*c, Box::new((**rest).duplicate())),
        }
    }
}

/// A service that answers every request with the request itself, never
/// fails, and never changes state.
#[derive(Debug, PartialEq, Eq)]
pub struct EchoService;

impl Service for EchoService {
    type Request = Text;

    type Response = Text;

    type Error = TextError;

    open spec fn step(self, req: Text) -> EchoService {
        self
    }

    open spec fn outcome(self, req: Text) -> Result<Text, TextError> {
        Ok(req)
    }

    fn call(&mut self, req: Text) -> (h: AsyncResult<Text, TextError>) {
        AsyncResult::succeeded(req)
    }
}

/// A factory whose every invocation yields a fresh `EchoService`.
#[derive(Debug, PartialEq, Eq)]
pub struct NewEchoService;

impl NewService for NewEchoService {
    type Request = Text;

    type Response = Text;

    type Error = TextError;

    type Instance = EchoService;

    open spec fn build(self) -> Result<EchoService, ConstructionError> {
        Ok(EchoService)
    }

    fn new_service(&self) -> (r: Result<EchoService, ConstructionError>) {
        Ok(EchoService)
    }
}

/// A factory that always fails to construct, with a fixed message.
#[derive(Debug, PartialEq, Eq)]
pub struct FailingNewService {
    pub message: String,
}

impl NewService for FailingNewService {
    type Request = Text;

    type Response = Text;

    type Error = TextError;

    type Instance = EchoService;

    open spec fn build(self) -> Result<EchoService, ConstructionError> {
        Err(ConstructionError { message: self.message })
    }

    fn new_service(&self) -> (r: Result<EchoService, ConstructionError>) {
        Err(ConstructionError { message: self.message.clone() })
    }
}

/// A middleware that counts the calls passing through it and otherwise
/// delegates unchanged.
#[derive(Debug, PartialEq, Eq)]
pub struct CountingMiddleware {
    pub count: u64,
}

impl CountingMiddleware {
    /// The count after one more call; the counter holds at the largest
    /// value rather than wrapping.
    pub open spec fn next_count(self) -> u64 {
        if self.count == u64::MAX {
            u64::MAX
        } else {
            (self.count + 1) as u64
        }
    }
}

impl<S: Service> Intercept<S> for CountingMiddleware {
    type Request = S::Request;

    type Response = S::Response;

    type Error = S::Error;

    open spec fn step(self, inner: S, req: S::Request) -> (Self, S) {
        (CountingMiddleware { count: self.next_count() }, inner.step(req))
    }

    open spec fn outcome(self, inner: S, req: S::Request) -> Result<S::Response, S::Error> {
        inner.outcome(req)
    }

    fn call(&mut self, req: S::Request, inner: &mut S) -> (h: AsyncResult<
        S::Response,
        S::Error,
    >) {
        if self.count < u64::MAX {
            self.count = self.count + 1;
        }
        inner.call(req)
    }
}

impl<S: Service> Middleware<S> for CountingMiddleware {
    type WrappedService = WrappedService<S, CountingMiddleware>;

    open spec fn wrap_spec(self, service: S) -> WrappedService<S, CountingMiddleware> {
        WrappedService { inner: service, middleware: self }
    }

    fn wrap(self, service: S) -> (w: WrappedService<S, CountingMiddleware>) {
        WrappedService { inner: service, middleware: self }
    }
}

/// A factory whose every invocation yields a fresh `CountingMiddleware`
/// with its counter at zero.
#[derive(Debug, PartialEq, Eq)]
pub struct NewCountingMiddleware;

impl<S: Service> NewMiddleware<S> for NewCountingMiddleware {
    type WrappedService = WrappedService<S, CountingMiddleware>;

    type Instance = CountingMiddleware;

    open spec fn build(self) -> Result<CountingMiddleware, ConstructionError> {
        Ok(CountingMiddleware { count: 0 })
    }

    fn new_middleware(&self) -> (r: Result<CountingMiddleware, ConstructionError>) {
        Ok(CountingMiddleware { count: 0 })
    }
}

/// A middleware factory that always fails to construct, with a fixed
/// message.
#[derive(Debug, PartialEq, Eq)]
pub struct FailingNewMiddleware {
    pub message: String,
}

impl<S: Service> NewMiddleware<S> for FailingNewMiddleware {
    type WrappedService = WrappedService<S, CountingMiddleware>;

    type Instance = CountingMiddleware;

    open spec fn build(self) -> Result<CountingMiddleware, ConstructionError> {
        Err(ConstructionError { message: self.message })
    }

    fn new_middleware(&self) -> (r: Result<CountingMiddleware, ConstructionError>) {
        Err(ConstructionError { message: self.message.clone() })
    }
}

/// A middleware that wraps a counted service and rejects once the counter
/// has passed `limit`.
///
/// Per call it first lets the counted inner service handle the request —
/// which advances the counter — and then inspects the counter: beyond the
/// limit it resolves to the configured error instead of the response.
#[derive(Debug, PartialEq, Eq)]
pub struct RejectingMiddleware {
    pub limit: u64,
    pub error: TextError,
}

impl<S> Intercept<WrappedService<S, CountingMiddleware>> for RejectingMiddleware where
    S: Service<Error = TextError>,
 {
    type Request = S::Request;

    type Response = S::Response;

    type Error = TextError;

    open spec fn step(
        self,
        inner: WrappedService<S, CountingMiddleware>,
        req: S::Request,
    ) -> (Self, WrappedService<S, CountingMiddleware>) {
        (self, inner.step(req))
    }

    open spec fn outcome(
        self,
        inner: WrappedService<S, CountingMiddleware>,
        req: S::Request,
    ) -> Result<S::Response, TextError> {
        if inner.middleware.next_count() > self.limit {
            Err(self.error)
        } else {
            inner.outcome(req)
        }
    }

    fn call(
        &mut self,
        req: S::Request,
        inner: &mut WrappedService<S, CountingMiddleware>,
    ) -> (h: AsyncResult<S::Response, TextError>) {
        let produced = inner.call(req);
        let r = produced.resolve();
        if inner.middleware.count > self.limit {
            AsyncResult::failed(self.error.duplicate())
        } else {
            AsyncResult::resolved(r)
        }
    }
}

impl<S> Middleware<WrappedService<S, CountingMiddleware>> for RejectingMiddleware where
    S: Service<Error = TextError>,
 {
    type WrappedService = WrappedService<
        WrappedService<S, CountingMiddleware>,
        RejectingMiddleware,
    >;

    open spec fn wrap_spec(self, service: WrappedService<S, CountingMiddleware>) -> Self::WrappedService {
        WrappedService { inner: service, middleware: self }
    }

    fn wrap(self, service: WrappedService<S, CountingMiddleware>) -> (w: Self::WrappedService) {
        WrappedService { inner: service, middleware: self }
    }
}

/// A middleware that prepends a fixed prefix to every successful response
/// and passes errors through unchanged.
#[derive(Debug, PartialEq, Eq)]
pub struct PrefixMiddleware {
    pub prefix: Text,
}

impl<S> Intercept<S> for PrefixMiddleware where S: Service<Response = Text, Error = TextError> {
    type Request = S::Request;

    type Response = Text;

    type Error = TextError;

    open spec fn step(self, inner: S, req: S::Request) -> (Self, S) {
        (self, inner.step(req))
    }

    open spec fn outcome(self, inner: S, req: S::Request) -> Result<Text, TextError> {
        match inner.outcome(req) {
            Ok(t) => Ok(Text::append_spec(self.prefix, t)),
            Err(e) => Err(e),
        }
    }

    fn call(&mut self, req: S::Request, inner: &mut S) -> (h: AsyncResult<Text, TextError>) {
        let produced = inner.call(req);
        match produced.resolve() {
            Ok(t) => AsyncResult::succeeded(self.prefix.duplicate().append(t)),
            Err(e) => AsyncResult::failed(e),
        }
    }
}

impl<S> Middleware<S> for PrefixMiddleware where S: Service<Response = Text, Error = TextError> {
    type WrappedService = WrappedService<S, PrefixMiddleware>;

    open spec fn wrap_spec(self, service: S) -> WrappedService<S, PrefixMiddleware> {
        WrappedService { inner: service, middleware: self }
    }

    fn wrap(self, service: S) -> (w: WrappedService<S, PrefixMiddleware>) {
        WrappedService { inner: service, middleware: self }
    }
}

/// A factory whose every invocation yields a fresh `PrefixMiddleware` with
/// an equal prefix.
#[derive(Debug, PartialEq, Eq)]
pub struct NewPrefixMiddleware {
    pub prefix: Text,
}

impl<S> NewMiddleware<S> for NewPrefixMiddleware where
    S: Service<Response = Text, Error = TextError>,
 {
    type WrappedService = WrappedService<S, PrefixMiddleware>;

    type Instance = PrefixMiddleware;

    open spec fn build(self) -> Result<PrefixMiddleware, ConstructionError> {
        Ok(PrefixMiddleware { prefix: self.prefix })
    }

    fn new_middleware(&self) -> (r: Result<PrefixMiddleware, ConstructionError>) {
        Ok(PrefixMiddleware { prefix: self.prefix.duplicate() })
    }
}

/// A stream service that replays the same finite course on every call: it
/// yields the stored responses in order and then completes, or ends in the
/// stored error.
#[derive(Debug, PartialEq, Eq)]
pub struct FixedStreamService<const N: usize> {
    pub items: [u64; N],
    pub failure: Option<TextError>,
}

impl<const N: usize> StreamService for FixedStreamService<N> {
    type Request = u64;

    type Response = u64;

    type Error = TextError;

    open spec fn step(self, req: u64) -> Self {
        self
    }

    open spec fn output(self, req: u64) -> (Seq<u64>, Option<TextError>) {
        (self.items@, self.failure)
    }

    fn call(&mut self, req: u64) -> (s: ResponseStream<u64, TextError>) {
        let mut items: Vec<u64> = Vec::new();
        let mut i: usize = 0;
        while i < N
            invariant
                i <= N,
                items@ == self.items@.take(i as int),
            decreases N - i,
        {
            items.push(self.items[i]);
            proof {
                assert(self.items@.take(i as int).push(self.items@[i as int]) =~= self.items@.take(
                    i as int + 1,
                ));
            }
            i = i + 1;
        }
        proof {
            assert(self.items@.take(N as int) =~= self.items@);
        }
        match &self.failure {
            None => ResponseStream::completed(items),
            Some(e) => ResponseStream::interrupted(items, e.duplicate()),
        }
    }
}

/// A factory whose every invocation yields a fresh `FixedStreamService`
/// replaying an equal course.
#[derive(Debug, PartialEq, Eq)]
pub struct NewFixedStreamService<const N: usize> {
    pub items: [u64; N],
    pub failure: Option<TextError>,
}

impl<const N: usize> NewStreamService for NewFixedStreamService<N> {
    type Request = u64;

    type Response = u64;

    type Error = TextError;

    type Instance = FixedStreamService<N>;

    open spec fn build(self) -> Result<FixedStreamService<N>, ConstructionError> {
        Ok(FixedStreamService { items: self.items, failure: self.failure })
    }

    fn new_service(&self) -> (r: Result<FixedStreamService<N>, ConstructionError>) {
        let failure = match &self.failure {
            None => None,
            Some(e) => Some(e.duplicate()),
        };
        Ok(FixedStreamService { items: self.items, failure })
    }
}

/// Twice `v`, holding at the largest value rather than overflowing.
pub open spec fn double_capped(v: u64) -> u64 {
    if v > u64::MAX / 2 {
        u64::MAX
    } else {
        (v * 2) as u64
    }
}

/// A stream service wrapped by `DoublingStreamMiddleware`: every yielded
/// response is doubled, element by element; completion and errors pass
/// through unchanged.
#[derive(Debug, PartialEq, Eq)]
pub struct DoubledStreamService<S> {
    pub inner: S,
}

impl<S> StreamService for DoubledStreamService<S> where S: StreamService<Response = u64> {
    type Request = S::Request;

    type Response = u64;

    type Error = S::Error;

    open spec fn step(self, req: S::Request) -> Self {
        DoubledStreamService { inner: self.inner.step(req) }
    }

    open spec fn output(self, req: S::Request) -> (Seq<u64>, Option<S::Error>) {
        (self.inner.output(req).0.map_values(|v: u64| double_capped(v)), self.inner.output(req).1)
    }

    fn call(&mut self, req: S::Request) -> (s: ResponseStream<u64, S::Error>) {
        let produced = self.inner.call(req);
        let (items, failure) = produced.drain();
        let mut doubled: Vec<u64> = Vec::new();
        let mut i: usize = 0;
        while i < items.len()
            invariant
                i <= items.len(),
                doubled@ == items@.take(i as int).map_values(|v: u64| double_capped(v)),
            decreases items.len() - i,
        {
            let v = items[i];
            if v > u64::MAX / 2 {
                doubled.push(u64::MAX);
            } else {
                doubled.push(v * 2);
            }
            proof {
                assert(items@.take(i as int + 1).map_values(|v: u64| double_capped(v)) =~= items@
                    .take(i as int).map_values(|v: u64| double_capped(v)).push(
                    double_capped(items@[i as int]),
                ));
            }
            i = i + 1;
        }
        proof {
            assert(items@.take(items@.len() as int) =~= items@);
        }
        match failure {
            None => ResponseStream::completed(doubled),
            Some(e) => ResponseStream::interrupted(doubled, e),
        }
    }
}

/// A per-element stream middleware: wrapping yields the stream service
/// that doubles every response.
#[derive(Debug, PartialEq, Eq)]
pub struct DoublingStreamMiddleware;

impl<S> StreamMiddleware<S> for DoublingStreamMiddleware where S: StreamService<Response = u64> {
    type WrappedService = DoubledStreamService<S>;

    open spec fn wrap_spec(self, service: S) -> DoubledStreamService<S> {
        DoubledStreamService { inner: service }
    }

    fn wrap(self, service: S) -> (w: DoubledStreamService<S>) {
        DoubledStreamService { inner: service }
    }
}

/// A factory whose every invocation yields a fresh
/// `DoublingStreamMiddleware`.
#[derive(Debug, PartialEq, Eq)]
pub struct NewDoublingStreamMiddleware;

impl<S> NewStreamMiddleware<S> for NewDoublingStreamMiddleware where
    S: StreamService<Response = u64>,
 {
    type WrappedService = DoubledStreamService<S>;

    type Instance = DoublingStreamMiddleware;

    open spec fn build(self) -> Result<DoublingStreamMiddleware, ConstructionError> {
        Ok(DoublingStreamMiddleware)
    }

    fn new_middleware(&self) -> (r: Result<DoublingStreamMiddleware, ConstructionError>) {
        Ok(DoublingStreamMiddleware)
    }
}

/// The sum of a sequence of numbers, holding at the largest value rather
/// than overflowing.
pub open spec fn sum_capped(items: Seq<u64>) -> u64
    decreases items.len(),
{
    if items.len() == 0 {
        0
    } else {
        let rest = sum_capped(items.drop_last());
        if rest + items.last() > u64::MAX {
            u64::MAX
        } else {
            (rest + items.last()) as u64
        }
    }
}

/// A folding policy that sums the yielded responses; an error ending the
/// sequence short-circuits the fold.
#[derive(Debug, PartialEq, Eq)]
pub struct SumPolicy;

impl Fold for SumPolicy {
    type Item = u64;

    type Response = u64;

    type Error = TextError;

    open spec fn fold_spec(self, items: Seq<u64>, failure: Option<TextError>) -> Result<
        u64,
        TextError,
    > {
        match failure {
            Some(e) => Err(e),
            None => Ok(sum_capped(items)),
        }
    }

    fn fold(&self, items: Vec<u64>, failure: Option<TextError>) -> (r: Result<u64, TextError>) {
        match failure {
            Some(e) => Err(e),
            None => {
                let mut acc: u64 = 0;
                let mut i: usize = 0;
                while i < items.len()
                    invariant
                        i <= items.len(),
                        acc == sum_capped(items@.take(i as int)),
                    decreases items.len() - i,
                {
                    let x = items[i];
                    proof {
                        assert(items@.take(i as int + 1).drop_last() =~= items@.take(i as int));
                        assert(items@.take(i as int + 1).last() == items@[i as int]);
                    }
                    if acc > u64::MAX - x {
                        acc = u64::MAX;
                    } else {
                        acc = acc + x;
                    }
                    i = i + 1;
                }
                proof {
                    assert(items@.take(items@.len() as int) =~= items@);
                }
                Ok(acc)
            },
        }
    }
}

/// A factory whose every invocation yields a fresh summing reducer.
#[derive(Debug, PartialEq, Eq)]
pub struct NewSumReduce;

impl<S> NewStreamReduce<S> for NewSumReduce where
    S: StreamService<Response = u64, Error = TextError>,
 {
    type ReducedService = FoldedService<S, SumPolicy>;

    type Instance = FoldReduce<SumPolicy>;

    open spec fn build(self) -> Result<FoldReduce<SumPolicy>, ConstructionError> {
        Ok(FoldReduce { policy: SumPolicy })
    }

    fn new_reducer(&self) -> (r: Result<FoldReduce<SumPolicy>, ConstructionError>) {
        Ok(FoldReduce { policy: SumPolicy })
    }
}

} // verus!
