use service_stack::stream::{
    NewStreamMiddleware, NewStreamMiddlewareChain, NewStreamMiddlewareReduceChain,
    NewStreamReduce, NewStreamReduceMiddlewareChain, NewStreamService, StreamReduce,
    StreamService,
};
use service_stack::testing::{
    EchoService, FailingNewMiddleware, FailingNewService, FixedStreamService,
    NewCountingMiddleware, NewDoublingStreamMiddleware, NewEchoService, NewFixedStreamService,
    NewSumReduce, Text, TextError,
};
use service_stack::{ConstructionError, NewMiddleware, NewMiddlewareChain, NewService, Service};

fn text(s: &str) -> Text {
    let mut t = Text::Empty;
    for c in s.chars().rev() {
        t = Text::Char(c, Box::new(t));
    }
    t
}

#[test]
fn construction_error_carries_message() {
    let e = ConstructionError::new("no capacity");
    assert_eq!(e.message, "no capacity");
}

#[test]
fn failing_service_factory_reports_its_error() {
    let factory = FailingNewService { message: String::from("no socket") };
    assert_eq!(
        factory.new_service(),
        Err(ConstructionError { message: String::from("no socket") })
    );
}

/// If the inner service construction fails, the composite factory fails
/// with that error and builds nothing else.
#[test]
fn wrapper_fails_when_service_construction_fails() {
    let factory =
        NewCountingMiddleware.wrap(FailingNewService { message: String::from("no socket") });
    assert_eq!(
        factory.new_service(),
        Err(ConstructionError { message: String::from("no socket") })
    );
}

/// If the middleware construction fails, the composite factory fails with
/// that error.
#[test]
fn wrapper_fails_when_middleware_construction_fails() {
    let factory =
        FailingNewMiddleware { message: String::from("no timer") }.wrap(NewEchoService);
    assert_eq!(
        factory.new_service(),
        Err(ConstructionError { message: String::from("no timer") })
    );
}

/// When both constructions would fail, the inner service's error comes
/// first.
#[test]
fn wrapper_reports_service_error_first() {
    let factory = FailingNewMiddleware { message: String::from("no timer") }
        .wrap(FailingNewService { message: String::from("no socket") });
    assert_eq!(
        factory.new_service(),
        Err(ConstructionError { message: String::from("no socket") })
    );
}

#[test]
fn wrapper_builds_working_composite() {
    let factory = NewCountingMiddleware.wrap(NewEchoService);
    let mut svc = factory.new_service().unwrap();
    assert_eq!(svc.call(text("x")).resolve(), Ok(text("x")));
    assert_eq!(svc.middleware.count, 1);
}

/// A chained middleware factory fails atomically with the inner factory's
/// error first.
#[test]
fn chained_factory_reports_inner_error_first() {
    let chain = NewMiddlewareChain::chain(
        FailingNewMiddleware { message: String::from("inner down") },
        NewCountingMiddleware,
    );
    let factory = chain.wrap(NewEchoService);
    assert_eq!(
        factory.new_service(),
        Err(ConstructionError { message: String::from("inner down") })
    );
}

#[test]
fn stream_wrapper_builds_wrapped_stream_service() {
    let factory = NewDoublingStreamMiddleware
        .wrap(NewFixedStreamService::<3> { items: [1, 2, 3], failure: None });
    let mut svc = factory.new_service().unwrap();
    let (items, failure) = svc.call(0).drain();
    assert_eq!(items, vec![2, 4, 6]);
    assert_eq!(failure, None);
}

#[test]
fn chained_stream_factories_double_twice() {
    let chain =
        NewStreamMiddlewareChain::chain(NewDoublingStreamMiddleware, NewDoublingStreamMiddleware);
    let factory = chain.wrap(NewFixedStreamService::<3> { items: [1, 2, 3], failure: None });
    let mut svc = factory.new_service().unwrap();
    let (items, failure) = svc.call(0).drain();
    assert_eq!(items, vec![4, 8, 12]);
    assert_eq!(failure, None);
}

/// A reducer factory composed with a stream service factory yields a
/// factory of single-response services.
#[test]
fn reducer_factory_builds_folding_service() {
    let factory =
        NewSumReduce.reduce(NewFixedStreamService::<3> { items: [1, 2, 3], failure: None });
    let mut svc = factory.new_service().unwrap();
    assert_eq!(svc.call(0).resolve(), Ok(6));
}

/// A reducer factory chained with a scalar middleware factory: produced
/// reducers fold first, then wrap the folded service.
#[test]
fn reduce_then_wrap_factory_composes() {
    let chain = NewStreamReduceMiddlewareChain::chain(NewSumReduce, NewCountingMiddleware);
    let reducer =
        NewStreamReduce::<FixedStreamService<3>>::new_reducer(&chain).unwrap();
    let stream = NewFixedStreamService::<3> { items: [1, 2, 3], failure: None }
        .new_service()
        .unwrap();
    let mut svc = reducer.reduce(stream);
    assert_eq!(svc.call(0).resolve(), Ok(6));
    assert_eq!(svc.middleware.count, 1);
}

/// A stream middleware factory chained with a reducer factory: produced
/// reducers transform per element, then fold.
#[test]
fn wrap_then_reduce_factory_composes() {
    let chain = NewStreamMiddlewareReduceChain::chain(NewDoublingStreamMiddleware, NewSumReduce);
    let reducer =
        NewStreamReduce::<FixedStreamService<3>>::new_reducer(&chain).unwrap();
    let stream = NewFixedStreamService::<3> { items: [1, 2, 3], failure: None }
        .new_service()
        .unwrap();
    let mut svc = reducer.reduce(stream);
    assert_eq!(svc.call(0).resolve(), Ok(12));
}

#[test]
fn stream_factory_replays_equal_courses() {
    let factory = NewFixedStreamService::<2> { items: [4, 5], failure: Some(TextError::new("end")) };
    let mut a = factory.new_service().unwrap();
    let mut b = factory.new_service().unwrap();
    assert_eq!(a.call(0).drain(), b.call(0).drain());
}

#[test]
fn echo_factory_yields_ready_service() {
    let mut svc = NewEchoService.new_service().unwrap();
    assert_eq!(svc, EchoService);
    assert_eq!(svc.call(text("hello")).resolve(), Ok(text("hello")));
}
