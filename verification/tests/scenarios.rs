use service_stack::stream::{FoldReduce, StreamReduce};
use service_stack::testing::{
    CountingMiddleware, EchoService, FixedStreamService, NewEchoService, NewPrefixMiddleware,
    RejectingMiddleware, SumPolicy, Text, TextError,
};
use service_stack::{Middleware, NewMiddleware, NewMiddlewareChain, NewService, Service};

fn text(s: &str) -> Text {
    let mut t = Text::Empty;
    for c in s.chars().rev() {
        t = Text::Char(c, Box::new(t));
    }
    t
}

fn flatten(t: &Text) -> String {
    let mut out = String::new();
    let mut cur = t;
    loop {
        match cur {
            Text::Empty => return out,
            Text::Char(c, rest) => {
                out.push(*c);
                cur = rest;
            }
        }
    }
}

/// An echo service wrapped with a counting middleware and then a rejecting
/// middleware with limit 2: calls 1 and 2 echo the request unchanged, call
/// 3 resolves to the "limit exceeded" error.
#[test]
fn limit_of_two_rejects_third_call() {
    let counted = CountingMiddleware { count: 0 }.wrap(EchoService);
    let rejecting = RejectingMiddleware { limit: 2, error: TextError::new("limit exceeded") };
    let mut svc = rejecting.wrap(counted);

    let r1 = svc.call(text("first")).resolve();
    assert_eq!(r1, Ok(text("first")));
    let r2 = svc.call(text("second")).resolve();
    assert_eq!(r2, Ok(text("second")));
    let r3 = svc.call(text("third")).resolve();
    assert_eq!(r3, Err(TextError::new("limit exceeded")));
}

#[test]
fn limit_of_zero_rejects_first_call() {
    let counted = CountingMiddleware { count: 0 }.wrap(EchoService);
    let rejecting = RejectingMiddleware { limit: 0, error: TextError::new("limit exceeded") };
    let mut svc = rejecting.wrap(counted);

    let r1 = svc.call(text("first")).resolve();
    assert_eq!(r1, Err(TextError::new("limit exceeded")));
}

/// A stream service emitting [1, 2, 3] and then completing, reduced by a
/// summing reducer, yields a service whose call resolves to 6.
#[test]
fn sum_of_one_two_three_is_six() {
    let stream = FixedStreamService::<3> { items: [1, 2, 3], failure: None };
    let mut svc = FoldReduce { policy: SumPolicy }.reduce(stream);
    assert_eq!(svc.call(0).resolve(), Ok(6));
}

#[test]
fn sum_of_empty_stream_is_zero() {
    let stream = FixedStreamService::<0> { items: [], failure: None };
    let mut svc = FoldReduce { policy: SumPolicy }.reduce(stream);
    assert_eq!(svc.call(0).resolve(), Ok(0));
}

#[test]
fn sum_replays_on_every_call() {
    let stream = FixedStreamService::<2> { items: [10, 20], failure: None };
    let mut svc = FoldReduce { policy: SumPolicy }.reduce(stream);
    assert_eq!(svc.call(0).resolve(), Ok(30));
    assert_eq!(svc.call(1).resolve(), Ok(30));
}

#[test]
fn sum_saturates_instead_of_overflowing() {
    let stream = FixedStreamService::<2> { items: [u64::MAX, 1], failure: None };
    let mut svc = FoldReduce { policy: SumPolicy }.reduce(stream);
    assert_eq!(svc.call(0).resolve(), Ok(u64::MAX));
}

/// A stream that ends in an error after two responses: the summing reducer
/// surfaces the error observed at that position.
#[test]
fn stream_error_short_circuits_sum() {
    let stream = FixedStreamService::<2> { items: [1, 2], failure: Some(TextError::new("boom")) };
    let mut svc = FoldReduce { policy: SumPolicy }.reduce(stream);
    assert_eq!(svc.call(0).resolve(), Err(TextError::new("boom")));
}

#[test]
fn stream_error_at_position_zero_surfaces() {
    let stream = FixedStreamService::<0> { items: [], failure: Some(TextError::new("boom")) };
    let mut svc = FoldReduce { policy: SumPolicy }.reduce(stream);
    assert_eq!(svc.call(0).resolve(), Err(TextError::new("boom")));
}

/// Chaining prefix middleware factories A and B around an echo factory:
/// the inner middleware A is applied first on the way out, the outer B
/// last, so request "x" resolves to "B:A:x".
#[test]
fn chained_prefixes_apply_outer_last() {
    let a = NewPrefixMiddleware { prefix: text("A:") };
    let b = NewPrefixMiddleware { prefix: text("B:") };
    let factory = NewMiddlewareChain::chain(a, b).wrap(NewEchoService);

    let mut svc = factory.new_service().unwrap();
    let response = svc.call(text("x")).resolve().unwrap();
    assert_eq!(flatten(&response), "B:A:x");
    assert_eq!(response, text("B:A:x"));
}

#[test]
fn single_prefix_applies_once() {
    let a = NewPrefixMiddleware { prefix: text("A:") };
    let factory = a.wrap(NewEchoService);
    let mut svc = factory.new_service().unwrap();
    let response = svc.call(text("x")).resolve().unwrap();
    assert_eq!(flatten(&response), "A:x");
}
