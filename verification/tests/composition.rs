use std::rc::Rc;
use std::sync::Arc;

use service_stack::stream::{
    FoldReduce, NewStreamService, StreamMiddleware, StreamMiddlewareChain,
    StreamMiddlewareReduceChain, StreamReduce, StreamReduceMiddlewareChain, StreamService,
};
use service_stack::testing::{
    CountingMiddleware, DoublingStreamMiddleware, EchoService, FixedStreamService,
    NewCountingMiddleware, NewEchoService, NewFixedStreamService, PrefixMiddleware, SumPolicy,
    Text, TextError,
};
use service_stack::{Intercept, Middleware, MiddlewareChain, NewMiddleware, NewService, Service};

fn text(s: &str) -> Text {
    let mut t = Text::Empty;
    for c in s.chars().rev() {
        t = Text::Char(c, Box::new(t));
    }
    t
}

/// Calling a wrapped service is the middleware's own call over the
/// accessor to the inner service: same response, same inner state.
#[test]
fn wrapped_service_call_equals_middleware_call() {
    let mut wrapped = CountingMiddleware { count: 0 }.wrap(EchoService);
    let via_wrapped = wrapped.call(text("ping")).resolve();

    let mut middleware = CountingMiddleware { count: 0 };
    let mut inner = EchoService;
    let via_middleware = middleware.call(text("ping"), &mut inner).resolve();

    assert_eq!(via_wrapped, via_middleware);
    assert_eq!(wrapped.middleware, middleware);
    assert_eq!(wrapped.inner, inner);
}

/// Wrapping with a chain is exactly wrapping with the inner middleware
/// first and the outer middleware second.
#[test]
fn chain_is_sequential_wrapping() {
    let sequential = PrefixMiddleware { prefix: text("B:") }
        .wrap(PrefixMiddleware { prefix: text("A:") }.wrap(EchoService));
    let chained = MiddlewareChain::chain(
        PrefixMiddleware { prefix: text("A:") },
        PrefixMiddleware { prefix: text("B:") },
    )
    .wrap(EchoService);
    assert_eq!(sequential, chained);

    let mut sequential = sequential;
    let mut chained = chained;
    assert_eq!(
        sequential.call(text("x")).resolve(),
        chained.call(text("x")).resolve()
    );
}

/// Either nesting of three chained middleware wraps a service into the
/// same value, with the same call behaviour.
#[test]
fn chain_is_associative() {
    let left = MiddlewareChain::chain(
        PrefixMiddleware { prefix: text("A:") },
        MiddlewareChain::chain(
            PrefixMiddleware { prefix: text("B:") },
            PrefixMiddleware { prefix: text("C:") },
        ),
    )
    .wrap(EchoService);
    let right = MiddlewareChain::chain(
        MiddlewareChain::chain(
            PrefixMiddleware { prefix: text("A:") },
            PrefixMiddleware { prefix: text("B:") },
        ),
        PrefixMiddleware { prefix: text("C:") },
    )
    .wrap(EchoService);
    assert_eq!(left, right);

    let mut left = left;
    let mut right = right;
    let lr = left.call(text("x")).resolve();
    let rr = right.call(text("x")).resolve();
    assert_eq!(lr, rr);
    assert_eq!(lr, Ok(text("C:B:A:x")));
}

/// A boxed service resolves identically to the service inside, with the
/// same number of underlying calls (visible through the counter).
#[test]
fn boxed_service_is_transparent() {
    let mut plain = CountingMiddleware { count: 0 }.wrap(EchoService);
    let mut boxed = Box::new(CountingMiddleware { count: 0 }.wrap(EchoService));

    assert_eq!(
        plain.call(text("x")).resolve(),
        boxed.call(text("x")).resolve()
    );
    assert_eq!(plain.middleware.count, 1);
    assert_eq!(boxed.middleware.count, 1);
}

/// Reference-counted factories build exactly what the factory inside
/// builds.
#[test]
fn shared_factories_are_transparent() {
    let direct = NewEchoService.new_service().unwrap();
    let via_rc = Rc::new(NewEchoService).new_service().unwrap();
    let via_arc = Arc::new(NewEchoService).new_service().unwrap();
    assert_eq!(direct, via_rc);
    assert_eq!(direct, via_arc);

    let stream_factory = NewFixedStreamService::<2> { items: [7, 8], failure: None };
    let direct = stream_factory.new_service().unwrap();
    let via_rc = Rc::new(NewFixedStreamService::<2> { items: [7, 8], failure: None })
        .new_service()
        .unwrap();
    let via_arc = Arc::new(NewFixedStreamService::<2> { items: [7, 8], failure: None })
        .new_service()
        .unwrap();
    assert_eq!(direct, via_rc);
    assert_eq!(direct, via_arc);
}

/// A boxed stream service produces the very sequences the service inside
/// produces.
#[test]
fn boxed_stream_service_is_transparent() {
    let mut plain = FixedStreamService::<3> { items: [1, 2, 3], failure: None };
    let mut boxed = Box::new(FixedStreamService::<3> { items: [1, 2, 3], failure: None });
    assert_eq!(plain.call(0).drain(), boxed.call(0).drain());
}

/// Two services built by the same factory are independent: calls on the
/// first leave the second's state and responses untouched.
#[test]
fn factory_instances_are_independent() {
    let factory = NewCountingMiddleware.wrap(NewEchoService);
    let mut first = factory.new_service().unwrap();
    let mut second = factory.new_service().unwrap();

    assert_eq!(first, second);

    first.call(text("one")).resolve().unwrap();
    first.call(text("two")).resolve().unwrap();

    assert_eq!(first.middleware.count, 2);
    assert_eq!(second.middleware.count, 0);
    assert_eq!(second.call(text("fresh")).resolve(), Ok(text("fresh")));
    assert_eq!(second.middleware.count, 1);
    assert_eq!(first.middleware.count, 2);
}

/// The counter holds at the largest value instead of wrapping around.
#[test]
fn counter_saturates_at_maximum() {
    let mut svc = CountingMiddleware { count: u64::MAX }.wrap(EchoService);
    assert_eq!(svc.call(text("x")).resolve(), Ok(text("x")));
    assert_eq!(svc.middleware.count, u64::MAX);
}

/// Chained per-element stream middleware apply in inner-then-outer order
/// to every element.
#[test]
fn stream_chain_applies_per_element() {
    let chain = StreamMiddlewareChain::chain(DoublingStreamMiddleware, DoublingStreamMiddleware);
    let mut svc = chain.wrap(FixedStreamService::<3> { items: [1, 2, 3], failure: None });
    let (items, failure) = svc.call(0).drain();
    assert_eq!(items, vec![4, 8, 12]);
    assert_eq!(failure, None);
}

/// Wrapping before reducing: the stream middleware operates per element,
/// and the reducer folds the transformed sequence.
#[test]
fn wrap_then_reduce_transforms_elements_first() {
    let composite =
        StreamMiddlewareReduceChain::chain(DoublingStreamMiddleware, FoldReduce { policy: SumPolicy });
    let mut svc = composite.reduce(FixedStreamService::<3> { items: [1, 2, 3], failure: None });
    assert_eq!(svc.call(0).resolve(), Ok(12));
}

/// Reducing before wrapping: the scalar middleware applies to the folded
/// result.
#[test]
fn reduce_then_wrap_applies_middleware_to_fold() {
    let composite = StreamReduceMiddlewareChain::chain(
        FoldReduce { policy: SumPolicy },
        CountingMiddleware { count: 0 },
    );
    let mut svc = composite.reduce(FixedStreamService::<3> { items: [1, 2, 3], failure: None });
    assert_eq!(svc.call(0).resolve(), Ok(6));
    assert_eq!(svc.middleware.count, 1);
}

/// Per-element doubling holds at the largest value instead of
/// overflowing.
#[test]
fn doubling_saturates_at_maximum() {
    let mut svc =
        DoublingStreamMiddleware.wrap(FixedStreamService::<2> { items: [u64::MAX / 2 + 1, 3], failure: None });
    let (items, failure) = svc.call(0).drain();
    assert_eq!(items, vec![u64::MAX, 6]);
    assert_eq!(failure, None);
}
