use concurrent_qs::error::{TryRecvError, TrySendError};
use concurrent_qs::spsc::bounded;
use std::rc::Rc;

#[test]
fn st_insert_remove() {
    let (mut ch, src, sink) = bounded::channel::<i32>(4);

    assert_eq!(src.try_send(&mut ch, 1), Ok(()));
    assert_eq!(src.try_send(&mut ch, 2), Ok(()));
    assert_eq!(src.try_send(&mut ch, 3), Ok(()));
    assert_eq!(src.try_send(&mut ch, 4), Ok(()));
    assert_eq!(src.try_send(&mut ch, 5), Err(TrySendError::Full(5)));

    assert_eq!(sink.try_recv(&mut ch), Ok(1));
    assert_eq!(sink.try_recv(&mut ch), Ok(2));
    assert_eq!(sink.try_recv(&mut ch), Ok(3));
    assert_eq!(sink.try_recv(&mut ch), Ok(4));
    assert_eq!(sink.try_recv(&mut ch), Err(TryRecvError::Empty));
}

#[test]
fn st_insert_remove_blocking() {
    let (mut ch, src, sink) = bounded::channel::<i32>(4);

    assert_eq!(src.send(&mut ch, 1), Ok(()));
    assert_eq!(src.send(&mut ch, 2), Ok(()));
    assert_eq!(src.send(&mut ch, 3), Ok(()));
    assert_eq!(src.send(&mut ch, 4), Ok(()));

    assert_eq!(sink.recv(&mut ch), Ok(1));
    assert_eq!(sink.recv(&mut ch), Ok(2));
    assert_eq!(sink.recv(&mut ch), Ok(3));
    assert_eq!(sink.recv(&mut ch), Ok(4));
}

#[test]
fn st_sender_disconnect() {
    let (mut ch, src, sink) = bounded::channel::<i32>(0);
    src.disconnect(&mut ch);
    assert_eq!(sink.try_recv(&mut ch), Err(TryRecvError::Disconnected));
}

#[test]
fn st_receiver_disconnect() {
    let (mut ch, src, sink) = bounded::channel::<i32>(0);
    sink.disconnect(&mut ch);
    assert_eq!(src.try_send(&mut ch, 1), Err(TrySendError::Disconnected(1)));
}

#[test]
fn send_non_copy() {
    let (mut ch, src, _sink) = bounded::channel::<Box<str>>(1);
    src.send(&mut ch, "Hello".to_owned().into_boxed_str()).unwrap();
}

#[test]
fn requested_capacity_rounds_up() {
    // a request for three slots rounds up to four: four sends
    // succeed, the fifth reports a full channel, and the four items
    // come back in order before the channel reports empty
    let (mut ch, src, sink) = bounded::channel::<i32>(3);
    assert_eq!(ch.capacity(), 4);

    assert_eq!(src.try_send(&mut ch, 1), Ok(()));
    assert_eq!(src.try_send(&mut ch, 2), Ok(()));
    assert_eq!(src.try_send(&mut ch, 3), Ok(()));
    assert_eq!(src.try_send(&mut ch, 4), Ok(()));
    assert_eq!(src.try_send(&mut ch, 5), Err(TrySendError::Full(5)));

    assert_eq!(sink.try_recv(&mut ch), Ok(1));
    assert_eq!(sink.try_recv(&mut ch), Ok(2));
    assert_eq!(sink.try_recv(&mut ch), Ok(3));
    assert_eq!(sink.try_recv(&mut ch), Ok(4));
    assert_eq!(sink.try_recv(&mut ch), Err(TryRecvError::Empty));
}

#[test]
fn drain_before_disconnect() {
    // items sent before the sender leaves are still handed out, in
    // order, before the receiver learns of the disconnect
    let (mut ch, src, sink) = bounded::channel::<i32>(4);
    assert_eq!(src.try_send(&mut ch, 1), Ok(()));
    assert_eq!(src.try_send(&mut ch, 2), Ok(()));
    assert_eq!(src.try_send(&mut ch, 3), Ok(()));
    src.disconnect(&mut ch);

    assert!(!sink.sender_connected(&ch));
    assert_eq!(sink.try_recv(&mut ch), Ok(1));
    assert_eq!(sink.try_recv(&mut ch), Ok(2));
    assert_eq!(sink.try_recv(&mut ch), Ok(3));
    assert_eq!(sink.try_recv(&mut ch), Err(TryRecvError::Disconnected));
    assert_eq!(sink.recv(&mut ch), Err(concurrent_qs::error::RecvError {}));
}

#[test]
fn disconnect_observation_is_permanent() {
    // the peer reads the disconnect from the moment the endpoint
    // retires and the answer never reverts
    let (mut ch, src, sink) = bounded::channel::<i32>(2);
    assert!(src.receiver_connected(&ch));
    assert!(sink.sender_connected(&ch));

    sink.disconnect(&mut ch);
    assert!(!src.receiver_connected(&ch));
    assert_eq!(src.try_send(&mut ch, 9), Err(TrySendError::Disconnected(9)));
    assert!(!src.receiver_connected(&ch));
}

#[test]
fn teardown_frees_once_and_returns_undelivered() {
    // the first endpoint out is told not to free, the second one is
    // told to free, and the drain hands back exactly the items that
    // were sent but never received
    let (mut ch, src, sink) = bounded::channel::<i32>(4);
    assert_eq!(src.try_send(&mut ch, 10), Ok(()));
    assert_eq!(src.try_send(&mut ch, 20), Ok(()));
    assert_eq!(src.try_send(&mut ch, 30), Ok(()));
    assert_eq!(sink.try_recv(&mut ch), Ok(10));

    let freed_first = src.disconnect(&mut ch);
    let freed_second = sink.disconnect(&mut ch);
    assert!(!freed_first);
    assert!(freed_second);

    let leftover = ch.teardown();
    assert_eq!(leftover, vec![20, 30]);
}

#[test]
fn teardown_order_receiver_first() {
    let (mut ch, src, sink) = bounded::channel::<i32>(2);
    assert_eq!(src.try_send(&mut ch, 5), Ok(()));

    let freed_first = sink.disconnect(&mut ch);
    let freed_second = src.disconnect(&mut ch);
    assert!(!freed_first);
    assert!(freed_second);

    let leftover = ch.teardown();
    assert_eq!(leftover, vec![5]);
}

#[test]
fn values_dropped_exactly_once() {
    // every sent value is dropped exactly once: received values by
    // the receiver, undelivered ones by the teardown drain
    let rc = Rc::new(());
    {
        let (mut ch, src, sink) = bounded::channel::<Rc<()>>(8);
        for _ in 0..5 {
            src.send(&mut ch, rc.clone()).unwrap();
        }
        assert!(sink.try_recv(&mut ch).is_ok());
        assert!(sink.try_recv(&mut ch).is_ok());
        src.disconnect(&mut ch);
        sink.disconnect(&mut ch);
        let leftover = ch.teardown();
        assert_eq!(leftover.len(), 3);
    }
    assert_eq!(Rc::strong_count(&rc), 1);
}
