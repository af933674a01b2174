use sfo_reuseport::concurrency::worker_limits;
use sfo_reuseport::WorkerConcurrencyLimit;

#[test]
fn try_acquire_is_unlimited_without_configured_max() {
    let mut limit = WorkerConcurrencyLimit::new(None);

    let _first = limit.try_acquire().unwrap();
    let _second = limit.try_acquire().unwrap();
}

#[test]
fn try_acquire_returns_none_while_limit_is_full() {
    let mut limit = WorkerConcurrencyLimit::new(Some(1));

    let first = limit.try_acquire().unwrap();
    assert!(limit.try_acquire().is_none());

    limit.release(first);
    assert!(limit.try_acquire().is_some());
}

#[test]
fn zero_max_means_unlimited() {
    let mut limit = WorkerConcurrencyLimit::new(Some(0));
    assert!(!limit.is_limited());
    for _ in 0..100 {
        assert!(limit.try_acquire().is_some());
    }
    assert_eq!(limit.active(), 0);
}

#[test]
fn acquire_then_release_restores_count() {
    let mut limit = WorkerConcurrencyLimit::new(Some(3));
    let a = limit.try_acquire().unwrap();
    let b = limit.try_acquire().unwrap();
    assert_eq!(limit.active(), 2);
    let c = limit.try_acquire().unwrap();
    assert_eq!(limit.active(), 3);
    assert!(limit.try_acquire().is_none());
    assert!(limit.release(c));
    assert_eq!(limit.active(), 2);
    assert!(limit.release(b));
    assert!(limit.release(a));
    assert_eq!(limit.active(), 0);
}

#[test]
fn uncounted_permit_release_does_not_wake() {
    let mut unlimited = WorkerConcurrencyLimit::new(None);
    let permit = unlimited.try_acquire().unwrap();
    let mut limited = WorkerConcurrencyLimit::new(Some(2));
    assert!(!limited.release(permit));
    assert_eq!(limited.active(), 0);
}

#[test]
fn worker_limits_builds_one_limit_per_worker() {
    let mut limits = worker_limits(3, Some(1));
    assert_eq!(limits.len(), 3);
    for limit in limits.iter_mut() {
        assert!(limit.is_limited());
        assert!(limit.try_acquire().is_some());
        assert!(limit.try_acquire().is_none());
    }
}

#[test]
fn permits_name_the_worker_whose_limit_issued_them() {
    let mut limit = WorkerConcurrencyLimit::for_worker(3, Some(1));
    assert_eq!(limit.worker_index(), 3);
    let permit = limit.try_acquire().unwrap();
    assert_eq!(permit.worker_index(), 3);
    assert!(limit.try_acquire().is_none());
    assert!(limit.release(permit));
    assert!(limit.try_acquire().is_some());
}

#[test]
fn worker_limits_belong_to_their_positions() {
    let limits = worker_limits(3, None);
    for (i, limit) in limits.iter().enumerate() {
        assert_eq!(limit.worker_index(), i);
    }
}
