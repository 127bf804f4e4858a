use dubbo_rpc::time::TimeSpan;
use dubbo_rpc::time::NANOS_PER_SEC;
use dubbo_rpc::timeout::Settled;
use dubbo_rpc::timeout::TimeoutError;
use dubbo_rpc::timeout::TimeoutLayer;

#[test]
fn time_span_holds_seconds_and_nanoseconds() {
    assert_eq!(NANOS_PER_SEC, 1_000_000_000);
    let s = TimeSpan::new(2, 999_999_999).unwrap();
    assert_eq!(s.secs(), 2);
    assert_eq!(s.subsec_nanos(), 999_999_999);
    assert_eq!(TimeSpan::new(0, 1_000_000_000), None);
    assert_eq!(TimeSpan::new(5, u32::MAX), None);
    assert_eq!(TimeSpan::from_secs(20), TimeSpan::new(20, 0).unwrap());
    assert_eq!(TimeSpan::from_millis(1500), TimeSpan::new(1, 500_000_000).unwrap());
    assert_eq!(TimeSpan::from_millis(0), TimeSpan::new(0, 0).unwrap());
    assert_eq!(TimeSpan::from_millis(999), TimeSpan::new(0, 999_000_000).unwrap());
    assert_eq!(TimeSpan::from_millis(u64::MAX).secs(), u64::MAX / 1000);
    assert_eq!(TimeSpan::from_millis(u64::MAX).subsec_nanos(), 615_000_000);
}

#[test]
fn time_span_compares_by_length() {
    let a = TimeSpan::new(1, 0).unwrap();
    let b = TimeSpan::new(0, 999_999_999).unwrap();
    let c = TimeSpan::new(1, 1).unwrap();
    assert!(a.at_least(&b));
    assert!(!b.at_least(&a));
    assert!(a.at_least(&a));
    assert!(c.at_least(&a));
    assert!(!a.at_least(&c));
    assert!(TimeSpan::from_secs(u64::MAX).at_least(&c));
}

#[test]
fn timeout_fires_at_the_deadline_not_at_the_end_of_the_inner_call() {
    // The inner call would take two seconds; the deadline is one second.
    let layer = TimeoutLayer::new(TimeSpan::from_secs(1));
    assert_eq!(layer.deadline(), TimeSpan::from_secs(1));
    let none: Option<Result<u8, String>> = None;
    assert_eq!(layer.settle(none.clone(), &TimeSpan::from_millis(0)), Settled::Pending);
    assert_eq!(layer.settle(none.clone(), &TimeSpan::from_millis(999)), Settled::Pending);
    assert_eq!(
        layer.settle(none.clone(), &TimeSpan::from_millis(1000)),
        Settled::Done(Err(TimeoutError::Elapsed))
    );
    assert_eq!(
        layer.settle(none.clone(), &TimeSpan::from_millis(1001)),
        Settled::Done(Err(TimeoutError::Elapsed))
    );
    assert_eq!(
        layer.settle(none, &TimeSpan::from_secs(2)),
        Settled::Done(Err(TimeoutError::Elapsed))
    );
}

#[test]
fn timeout_keeps_a_result_that_is_there() {
    let layer = TimeoutLayer::new(TimeSpan::from_secs(1));
    let ok: Option<Result<u8, String>> = Some(Ok(7));
    let err: Option<Result<u8, String>> = Some(Err("broken".to_string()));
    assert_eq!(layer.settle(ok.clone(), &TimeSpan::from_millis(10)), Settled::Done(Ok(7)));
    assert_eq!(layer.settle(ok, &TimeSpan::from_secs(5)), Settled::Done(Ok(7)));
    assert_eq!(
        layer.settle(err.clone(), &TimeSpan::from_millis(10)),
        Settled::Done(Err(TimeoutError::Inner("broken".to_string())))
    );
    assert_eq!(
        layer.settle(err, &TimeSpan::from_secs(5)),
        Settled::Done(Err(TimeoutError::Inner("broken".to_string())))
    );
}

#[test]
fn zero_deadline_is_overdue_at_once() {
    let layer = TimeoutLayer::new(TimeSpan::from_secs(0));
    let none: Option<Result<(), ()>> = None;
    assert_eq!(layer.settle(none, &TimeSpan::from_secs(0)), Settled::Done(Err(TimeoutError::Elapsed)));
}
