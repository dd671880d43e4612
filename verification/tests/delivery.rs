use control_plane_worker::delivery::deliver;
use control_plane_worker::llhls::LlHlsInner;
use control_plane_worker::protocol::HlsQuery;
use futures_channel::oneshot::{channel, Sender};

#[test]
fn answers_reach_the_requests_that_wait() {
    let (tx1, mut rx1) = channel::<String>();
    let (tx2, rx2) = channel::<String>();
    let (tx3, mut rx3) = channel::<String>();
    drop(rx2);
    let taken = deliver(vec![
        (tx1, "one".to_string()),
        (tx2, "two".to_string()),
        (tx3, "three".to_string()),
    ]);
    assert_eq!(taken, vec![Ok(()), Err("two".to_string()), Ok(())]);
    assert_eq!(rx1.try_recv(), Ok(Some("one".to_string())));
    assert_eq!(rx3.try_recv(), Ok(Some("three".to_string())));
}

#[test]
fn nobody_waits_and_nothing_is_delivered() {
    assert!(deliver(Vec::new()).is_empty());
}

#[test]
fn a_timeout_answers_a_real_request() {
    let (tx, mut rx) = channel::<String>();
    let mut object: LlHlsInner<Sender<String>, u32> = LlHlsInner::default();
    object.restore(Some(4), Some(1), Some("#EXTM3U".to_string()));
    object.wait_for_playlist(&HlsQuery { msn: 9, part: 0 }, tx);
    assert_eq!(rx.try_recv(), Ok(None));
    assert_eq!(deliver(object.drain_on_timeout()), vec![Ok(())]);
    assert_eq!(rx.try_recv(), Ok(Some("#EXTM3U".to_string())));
}

#[test]
fn a_dropped_object_drops_its_requests() {
    let (tx, mut rx) = channel::<String>();
    let mut object: LlHlsInner<Sender<String>, u32> = LlHlsInner::default();
    object.wait_for_master(tx);
    drop(object);
    assert!(rx.try_recv().is_err());
}
