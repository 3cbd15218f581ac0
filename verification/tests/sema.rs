use conc::RecvErr;
use conc::Sema;
use conc::UnboundedQ;
use std::time::Duration;

/// Blocks the calling thread for roughly `d` by waiting on a queue nobody
/// ever fills.
fn pause(d: Duration) {
    let idle = UnboundedQ::<i32>::new();
    assert!(matches!(idle.pop_timeout(d), Err(RecvErr::Timeout)));
}

#[test]
fn sema_accounting() {
    let sema = &Sema::new(2);

    sema.acquiren(2);
    assert_eq!(sema.available(), 0);

    crossbeam_utils::thread::scope(|s| {
        s.spawn(move |_| {
            pause(Duration::from_millis(200));
            sema.release();
        });
        // blocks until the delayed release lands
        sema.acquire();
    })
    .unwrap();

    assert_eq!(sema.available(), 0);
}

#[test]
fn sema_acquiren_waits_for_batch() {
    let sema = &Sema::new(0);

    crossbeam_utils::thread::scope(|s| {
        s.spawn(move |_| {
            pause(Duration::from_millis(100));
            sema.releasen(1);
            pause(Duration::from_millis(100));
            sema.releasen(2);
        });
        // needs all three permits at once
        sema.acquiren(3);
    })
    .unwrap();

    assert_eq!(sema.available(), 0);
}

#[test]
fn sema_set_dispatches_on_sign() {
    let sema = Sema::new(0);
    sema.set(3);
    assert_eq!(sema.available(), 3);
    sema.set(-2);
    assert_eq!(sema.available(), 1);
    sema.set(0);
    assert_eq!(sema.available(), 1);
}

#[test]
fn sema_negative_start_counts_up() {
    let sema = Sema::new(-1);
    assert_eq!(sema.available(), -1);
    sema.release();
    assert_eq!(sema.available(), 0);
    sema.releasen(2);
    assert_eq!(sema.available(), 2);
}

#[test]
fn sema_reset_restores_initial() {
    let sema = Sema::new(5);
    sema.acquiren(4);
    assert_eq!(sema.available(), 1);
    sema.reset();
    assert_eq!(sema.available(), 5);
    sema.reset_permits(-7);
    assert_eq!(sema.available(), -7);
    sema.reset();
    assert_eq!(sema.available(), 5);
}

#[test]
fn sema_acquire_zero_is_free() {
    let sema = Sema::new(0);
    sema.acquiren(0);
    assert_eq!(sema.available(), 0);
}
