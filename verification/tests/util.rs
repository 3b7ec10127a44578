use concurrent_qs::util::park::Parker;
use concurrent_qs::util::CacheAligned;

#[test]
fn cache_aligned_round_trip() {
    let wrapped = CacheAligned::new(42u64);
    assert_eq!(wrapped.value, 42);
    assert_eq!(wrapped.into_inner(), 42);
}

#[test]
fn parker_notify_before_park() {
    // a wake-up posted before the waiter arrives is not lost: the
    // next park attempt returns without waiting
    let mut p = Parker::new();
    assert!(!p.unpark());
    let must_wait = p.park_begin();
    assert!(!must_wait);
}

#[test]
fn parker_park_then_unpark() {
    let mut p = Parker::new();
    let must_wait = p.park_begin();
    assert!(must_wait);
    // the waiter announced it sleeps, so the notifier must signal it
    let wake_needed = p.unpark();
    assert!(wake_needed);
    // the woken waiter finds its notification on the re-check
    assert!(p.park_check());
}

#[test]
fn parker_spurious_wake() {
    let mut p = Parker::new();
    assert!(p.park_begin());
    // woken without a notification: the waiter must sleep again
    assert!(!p.park_check());
    assert!(p.unpark());
    assert!(p.park_check());
}

#[test]
fn parker_notification_consumed_once() {
    let mut p = Parker::new();
    p.unpark();
    assert!(!p.park_begin());
    // the pending notification was consumed; the next attempt waits
    assert!(p.park_begin());
}
