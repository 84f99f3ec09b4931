use vstd::prelude::*;

verus! {

/// A single-resolution handle: the value a service call hands back at once,
/// standing for a response or error that becomes available later.
///
/// The composition algebra never inspects how a result is produced; all it
/// relies on is that the handle resolves exactly once, to a response or to an
/// error. The handle is therefore modelled by that resolution: its view is
/// the `Result` it will resolve to, and `resolve` consumes the handle, so a
/// second resolution is impossible. Driving the underlying work belongs to an
/// external poller, outside this crate.
pub struct AsyncResult<T, E> {
    resolution: Result<T, E>,
}

impl<T, E> View for AsyncResult<T, E> {
    type V = Result<T, E>;

    closed spec fn view(&self) -> Result<T, E> {
        self.resolution
    }
}

impl<T, E> AsyncResult<T, E> {
    /// Make a handle that will resolve to the given outcome.
    pub fn resolved(outcome: Result<T, E>) -> (h: Self)
        ensures
            h@ == outcome,
    {
        AsyncResult { resolution: outcome }
    }

    /// Make a handle that will resolve successfully to `value`.
    pub fn succeeded(value: T) -> (h: Self)
        ensures
            h@ == Result::<T, E>::Ok(value),
    {
        AsyncResult { resolution: Ok(value) }
    }

    /// Make a handle that will resolve to the error `error`.
    pub fn failed(error: E) -> (h: Self)
        ensures
            h@ == Result::<T, E>::Err(error),
    {
        AsyncResult { resolution: Err(error) }
    }

    /// Wait for the handle: yields the response or error it resolves to.
    /// Consumes the handle, so it resolves exactly once.
    pub fn resolve(self) -> (r: Result<T, E>)
        ensures
            r == self@,
    {
        self.resolution
    }
}

/// A sequence handle: the value a stream-service call hands back at once,
/// standing for a lazy sequence of responses.
///
/// The algebra relies only on the observable course of the sequence: the
/// responses it yields, in order, and whether it then completes normally or
/// ends in an error. The handle is modelled by that course; its view is the
/// pair of the yielded responses and the optional terminating error.
pub struct ResponseStream<T, E> {
    items: Vec<T>,
    failure: Option<E>,
}

impl<T, E> View for ResponseStream<T, E> {
    type V = (Seq<T>, Option<E>);

    closed spec fn view(&self) -> (Seq<T>, Option<E>) {
        (self.items@, self.failure)
    }
}

impl<T, E> ResponseStream<T, E> {
    /// Make a handle for a sequence that yields `items` and then completes.
    pub fn completed(items: Vec<T>) -> (s: Self)
        ensures
            s@ == (items@, Option::<E>::None),
    {
        ResponseStream { items, failure: None }
    }

    /// Make a handle for a sequence that yields `items` and then ends in
    /// `error`.
    pub fn interrupted(items: Vec<T>, error: E) -> (s: Self)
        ensures
            s@ == (items@, Option::<E>::Some(error)),
    {
        ResponseStream { items, failure: Some(error) }
    }

    /// Drain the handle: the responses it yields, and the error that ended
    /// the sequence, if any. Consumes the handle; the sequence cannot be
    /// restarted.
    pub fn drain(self) -> (r: (Vec<T>, Option<E>))
        ensures
            (r.0@, r.1) == self@,
    {
        (self.items, self.failure)
    }
}

} // verus!
