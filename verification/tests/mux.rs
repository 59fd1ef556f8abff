use gpio::mux::EdgeMultiplexer;
use gpio::GpioError;

#[test]
fn registration_assigns_sequential_slots() {
    let mut mux = EdgeMultiplexer::new();
    assert_eq!(mux.len(), 0);
    assert_eq!(mux.next_slot(), 0);
    assert_eq!(mux.register("a"), 0);
    assert_eq!(mux.next_slot(), 1);
    assert_eq!(mux.register("b"), 1);
    assert_eq!(mux.register("c"), 2);
    assert_eq!(mux.len(), 3);
}

#[test]
fn token_resolves_to_the_registered_handle() {
    // Registering A, B, C and then waking with B's token yields B,
    // not A or C.
    let mut mux = EdgeMultiplexer::new();
    mux.register("a");
    let token_b = mux.register("b");
    mux.register("c");
    assert_eq!(mux.resolve_wait(1, token_b), Ok(&"b"));
    assert_eq!(mux.resolve_wait(1, 0), Ok(&"a"));
    assert_eq!(mux.resolve_wait(1, 2), Ok(&"c"));
}

#[test]
fn token_resolution_is_order_independent() {
    // The same pins registered in a different order: the token returned
    // for B still resolves to B.
    let mut mux = EdgeMultiplexer::new();
    mux.register("c");
    mux.register("a");
    let token_b = mux.register("b");
    assert_eq!(mux.resolve_wait(1, token_b), Ok(&"b"));
}

#[test]
fn zero_events_is_a_timeout_and_the_registry_survives() {
    let mut mux = EdgeMultiplexer::new();
    mux.timeout_ms(50);
    mux.register("a");
    assert_eq!(mux.resolve_wait(0, 0), Err(GpioError::Timeout));
    // The next wait can still resolve: the registry was not consumed.
    assert_eq!(mux.resolve_wait(1, 0), Ok(&"a"));
}

#[test]
fn unexpected_event_count_is_reported() {
    let mut mux = EdgeMultiplexer::new();
    mux.register("a");
    assert_eq!(
        mux.resolve_wait(2, 0),
        Err(GpioError::UnexpectedEventCount(2))
    );
    assert_eq!(
        mux.resolve_wait(17, 0),
        Err(GpioError::UnexpectedEventCount(17))
    );
}

#[test]
fn out_of_range_token_is_reported() {
    let mut mux = EdgeMultiplexer::new();
    mux.register("a");
    assert_eq!(
        mux.resolve_wait(1, 1),
        Err(GpioError::UnexpectedCorrelationToken(1))
    );
    assert_eq!(
        mux.resolve_wait(1, u64::MAX),
        Err(GpioError::UnexpectedCorrelationToken(u64::MAX))
    );
}

#[test]
fn empty_registry_rejects_every_token() {
    let mux: EdgeMultiplexer<u16> = EdgeMultiplexer::new();
    assert_eq!(
        mux.resolve_wait(1, 0),
        Err(GpioError::UnexpectedCorrelationToken(0))
    );
}

#[test]
fn timeout_is_pure_configuration() {
    let mut mux = EdgeMultiplexer::new();
    mux.register("a");
    assert_eq!(mux.wait_timeout_ms(), None);
    mux.timeout_ms(120);
    assert_eq!(mux.wait_timeout_ms(), Some(120));
    assert_eq!(mux.len(), 1);
    mux.timeout_ms(0);
    assert_eq!(mux.wait_timeout_ms(), Some(0));
}
