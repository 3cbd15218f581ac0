use conc::channel::mpmc::DefaultChannel;
use conc::channel::Len;
use conc::channel::MpmcChannel;
use conc::channel::Receiver;
use conc::channel::Sender;
use conc::RecvErr;
use conc::SendErr;
use std::time::Duration;

#[test]
fn mpmc_test() {
    let (tx, rx) = DefaultChannel::unbounded();

    crossbeam_utils::thread::scope(|s| {
        for n in 0..10 {
            let tx = tx.clone();

            s.spawn(move |_| {
                tx.send(n).unwrap();
                println!("{:?}", tx.len());
            });

            let rx = rx.clone();

            s.spawn(move |_| {
                let res = rx.recv();
                println!("{:?}", res);
            });
        }
    })
    .unwrap();
}

#[test]
fn bounded_channel_round_trip() {
    let (tx, rx) = DefaultChannel::bounded(4);
    tx.send(5).unwrap();
    tx.send(6).unwrap();
    assert_eq!(rx.len(), 2);
    assert_eq!(rx.recv(), Ok(6));
    assert_eq!(rx.recv(), Ok(5));
    assert!(rx.is_empty());
}

#[test]
fn clones_observe_one_shared_queue() {
    let (tx, rx) = DefaultChannel::bounded(10);
    let tx2 = tx.clone();
    let rx2 = rx.clone();

    tx.send(1).unwrap();
    assert_eq!(tx.len(), 1);
    assert_eq!(tx2.len(), 1);
    assert_eq!(rx.len(), 1);
    assert_eq!(rx2.len(), 1);

    tx2.send(2).unwrap();
    assert_eq!(rx.len(), 2);

    assert_eq!(rx2.recv(), Ok(2));
    assert_eq!(tx.len(), 1);
    assert_eq!(rx.recv(), Ok(1));
    assert_eq!(tx2.len(), 0);
    assert!(rx2.is_empty());
}

#[test]
fn unbounded_send_timeout_never_times_out() {
    let (tx, rx) = DefaultChannel::unbounded();
    assert_eq!(tx.send_timeout(9, Duration::from_millis(0)), Ok(()));
    assert_eq!(rx.recv_timeout(Duration::from_millis(0)), Ok(9));
}

#[test]
fn bounded_send_timeout_full_and_recv_timeout_empty() {
    let (tx, rx) = DefaultChannel::bounded(1);
    assert_eq!(tx.send_timeout(1, Duration::from_millis(0)), Ok(()));
    assert_eq!(
        tx.send_timeout(2, Duration::from_millis(0)),
        Err(SendErr::Timeout(2))
    );
    assert_eq!(rx.recv_timeout(Duration::from_millis(0)), Ok(1));
    assert_eq!(
        rx.recv_timeout(Duration::from_millis(0)),
        Err(RecvErr::Timeout)
    );
}

#[test]
fn zero_capacity_channel_send_timeout_fails() {
    let (tx, rx) = DefaultChannel::bounded(0);
    assert_eq!(
        tx.send_timeout(1, Duration::from_millis(50)),
        Err(SendErr::Timeout(1))
    );
    assert_eq!(rx.len(), 0);
    assert_eq!(tx.len(), 0);
}
