use font_context::instrumented::InstrumentedFontService;

#[test]
fn fresh_service_has_no_live_references() {
    let service = InstrumentedFontService::new();
    assert_eq!(service.live_count(), 0);
}

#[test]
fn open_and_clone_raise_the_live_count() {
    let mut service = InstrumentedFontService::new();
    let first = service.open();
    assert_eq!(service.live_count(), 1);
    let second = service.clone_token(&first);
    assert_eq!(service.live_count(), 2);
    service.close(first);
    assert_eq!(service.live_count(), 1);
    service.close(second);
    assert_eq!(service.live_count(), 0);
}

#[test]
fn balanced_lifecycle_returns_counter_to_zero() {
    // Three references opened through the real path, one of them cloned,
    // then all four released: no reference leaks.
    let mut service = InstrumentedFontService::new();
    let first = service.open();
    let second = service.open();
    let third = service.open();
    assert_eq!(service.live_count(), 3);
    let fourth = service.clone_token(&first);
    assert_eq!(service.live_count(), 4);
    service.close(first);
    service.close(second);
    service.close(third);
    service.close(fourth);
    assert_eq!(service.live_count(), 0);
}
