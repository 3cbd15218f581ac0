use conc::BoundedBlockQueue;
use conc::BoundedQ;
use conc::RecvErr;
use conc::SendErr;
use conc::UnboundedQ;
use rand::thread_rng;
use rand::Rng;
use std::time::Duration;

/// Blocks the calling thread for roughly `d` by waiting on a queue nobody
/// ever fills.
fn delay(d: Duration) {
    let idle = UnboundedQ::<i32>::new();
    assert!(matches!(idle.pop_timeout(d), Err(RecvErr::Timeout)));
}

#[test]
fn bounded_test() {
    let mut assert_size: usize = 0;
    let q = &BoundedQ::new(20);

    crossbeam_utils::thread::scope(|s| {
        for (i, enqueue, n) in (1..=201).map(|x| {
            let r = thread_rng().gen_range(-100..100_i32);
            (x, x % 2 == 1, r)
        }) {
            if enqueue {
                assert_size += 1;
            } else {
                assert_size -= 1;
            }

            println!(
                "{i}. [[ {} ]] => [ {} ]",
                if enqueue { "ENQUEUE" } else { "DEQUEUE" },
                if enqueue { n.to_string() } else { "".to_string() },
            );

            s.spawn(move |_| {
                if enqueue {
                    q.push(n);
                } else {
                    let ele = q.pop();
                    println!("dequeue element: {ele}");
                }
            });
        }
    })
    .unwrap();

    println!("////////// END SIZE: {:?} /////////", q.len());
    assert_eq!(assert_size, q.len());
}

#[test]
fn queue_test() {
    let mut assert_size: usize = 0;
    let q = &<BoundedQ<i32> as BoundedBlockQueue<i32>>::new(20);

    crossbeam_utils::thread::scope(|s| {
        for (i, enqueue, n) in (1..=201).map(|x| {
            let r = thread_rng().gen_range(-100..100_i32);
            (x, x % 2 == 1, r)
        }) {
            if enqueue {
                assert_size += 1;
            } else {
                assert_size -= 1;
            }

            println!(
                "{i}. [[ {} ]] => [ {} ]",
                if enqueue { "ENQUEUE" } else { "DEQUEUE" },
                if enqueue { n.to_string() } else { "".to_string() },
            );

            s.spawn(move |_| {
                if enqueue {
                    q.enqueue(n);
                } else {
                    let ele = q.dequeue();
                    println!("dequeue element: {ele}");
                }
            });
        }
    })
    .unwrap();

    println!("////////// END SIZE: {:?} /////////", BoundedBlockQueue::<i32>::len(q));
    assert_eq!(assert_size, BoundedBlockQueue::<i32>::len(q));
}

#[test]
fn test_timeout() {
    let q = &UnboundedQ::<i32>::new();

    crossbeam_utils::thread::scope(|s| {
        s.spawn(move |_| {
            let r = q.pop_timeout(Duration::from_secs(1));
            println!("{:?}", r);
            assert!(matches!(r, Err(RecvErr::Timeout)));
        });
    })
    .unwrap();
}

#[test]
fn test_blocking() {
    let q = &UnboundedQ::<i32>::new();

    crossbeam_utils::thread::scope(|s| {
        s.spawn(move |_| {
            delay(Duration::from_millis(200));
            q.push(1);
        });
        s.spawn(move |_| {
            // blocks until the delayed push lands
            let first = q.pop();
            println!("{:?}", first);
            assert_eq!(first, 1);
            println!("{:?}", q.len());
            assert_eq!(q.len(), 0);
        });
    })
    .unwrap();
}

#[test]
fn bounded_push_timeout_on_full_returns_value() {
    let q = BoundedQ::new(2);
    q.push(10);
    q.push(11);
    assert_eq!(q.len(), 2);

    match q.push_timeout(12, Duration::from_millis(0)) {
        Err(SendErr::Timeout(v)) => assert_eq!(v, 12),
        Ok(()) => panic!("a full queue must refuse a zero-budget insert"),
    }
    assert_eq!(q.len(), 2);
}

#[test]
fn pop_timeout_on_empty_returns_timeout() {
    let b = BoundedQ::<i32>::new(3);
    assert!(matches!(b.pop_timeout(Duration::from_millis(0)), Err(RecvErr::Timeout)));
    assert_eq!(b.len(), 0);
    assert!(b.is_empty());

    let u = UnboundedQ::<i32>::new();
    assert!(matches!(u.pop_timeout(Duration::from_millis(0)), Err(RecvErr::Timeout)));
    assert_eq!(u.len(), 0);
    assert!(u.is_empty());
}

#[test]
fn stack_order_bounded() {
    let q = BoundedQ::new(8);
    q.push(1);
    q.push(2);
    assert_eq!(q.pop(), 2);
    assert_eq!(q.pop(), 1);
}

#[test]
fn stack_order_unbounded() {
    let q = UnboundedQ::with_capacity(2);
    q.push(1);
    q.push(2);
    assert_eq!(q.pop(), 2);
    assert_eq!(q.pop(), 1);
}

#[test]
fn push_timeout_succeeds_with_space() {
    let q = BoundedQ::new(1);
    assert!(q.push_timeout(7, Duration::from_millis(0)).is_ok());
    assert_eq!(q.pop(), 7);
}

#[test]
fn no_lost_wakeups() {
    // far more traffic than the capacity allows at once: the run must
    // neither deadlock nor lose an element
    let q = &BoundedQ::new(4);
    let producers = 8;
    let per_thread = 50;

    crossbeam_utils::thread::scope(|s| {
        for t in 0..producers {
            s.spawn(move |_| {
                for k in 0..per_thread {
                    q.push(t * per_thread + k);
                }
            });
            s.spawn(move |_| {
                for _ in 0..per_thread {
                    q.pop();
                }
            });
        }
    })
    .unwrap();

    assert_eq!(q.len(), 0);
}

#[test]
fn capacity_never_exceeded() {
    let q = &BoundedQ::new(3);

    crossbeam_utils::thread::scope(|s| {
        for t in 0..4 {
            s.spawn(move |_| {
                for k in 0..25 {
                    q.push(t * 25 + k);
                }
            });
            s.spawn(move |_| {
                for _ in 0..25 {
                    assert!(q.len() <= 3);
                    q.pop();
                    assert!(q.len() <= 3);
                }
            });
        }
    })
    .unwrap();

    assert!(q.len() <= 3);
}

#[test]
fn unbounded_push_grows_past_any_reservation() {
    let q = UnboundedQ::with_capacity(1);
    for k in 0..64 {
        q.push(k);
    }
    assert_eq!(q.len(), 64);
    assert_eq!(q.pop(), 63);
}

#[test]
fn bounded_default_capacity_is_twenty() {
    let q = BoundedQ::<i32>::default();
    for k in 0..20 {
        q.push(k);
    }
    // the twenty-first insert must refuse on a zero budget
    assert!(matches!(
        q.push_timeout(99, Duration::from_millis(0)),
        Err(SendErr::Timeout(99))
    ));
    assert_eq!(q.len(), 20);
}

#[test]
fn zero_capacity_push_can_only_time_out() {
    let q = BoundedQ::new(0);
    assert!(matches!(
        q.push_timeout(5, Duration::from_millis(0)),
        Err(SendErr::Timeout(5))
    ));
    assert_eq!(q.len(), 0);
}
