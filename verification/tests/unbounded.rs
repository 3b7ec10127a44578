use concurrent_qs::error::{RecvError, SendError, TryRecvError};
use concurrent_qs::spsc::unbounded;
use std::rc::Rc;

#[test]
fn order() {
    // ten values submitted first, then ten blocking reads: they
    // arrive in exactly the order they were sent
    let (mut ch, src, sink) = unbounded::channel::<u8>();
    for i in 0..10 {
        src.send(&mut ch, i).unwrap();
    }
    for i in 0..10 {
        assert_eq!(sink.recv(&mut ch).unwrap(), i);
    }
}

#[test]
fn drop() {
    // every clone handed to the channel is dropped exactly once
    let rc = Rc::new(());
    {
        let (mut ch, src, _sink) = unbounded::channel();
        src.send(&mut ch, rc.clone()).unwrap();
        src.send(&mut ch, rc.clone()).unwrap();
        src.send(&mut ch, rc.clone()).unwrap();
        src.send(&mut ch, rc.clone()).unwrap();
        src.send(&mut ch, rc.clone()).unwrap();
        let leftover = ch.teardown();
        assert_eq!(leftover.len(), 5);
    }
    assert_eq!(Rc::strong_count(&rc), 1);
}

#[test]
fn sender_dc() {
    let (mut ch, src, sink) = unbounded::channel::<()>();
    src.disconnect(&mut ch);
    assert_eq!(sink.recv(&mut ch), Err(RecvError {}));
}

#[test]
fn receiver_dc() {
    let (mut ch, src, sink) = unbounded::channel::<()>();
    sink.disconnect(&mut ch);
    assert_eq!(src.send(&mut ch, ()), Err(SendError(())));
}

#[test]
fn unbounded_growth_keeps_order() {
    // far more pending items than the initial slot count: the ring
    // grows as needed and order is kept
    let (mut ch, src, sink) = unbounded::channel::<u32>();
    for i in 0..100 {
        src.send(&mut ch, i).unwrap();
    }
    for i in 0..100 {
        assert_eq!(sink.try_recv(&mut ch), Ok(i));
    }
    assert_eq!(sink.try_recv(&mut ch), Err(TryRecvError::Empty));
}

#[test]
fn unbounded_reuses_slots() {
    // steady state: interleaved sends and receives cycle through
    // the same slots without losing order
    let (mut ch, src, sink) = unbounded::channel::<u32>();
    for round in 0..20 {
        src.send(&mut ch, 2 * round).unwrap();
        src.send(&mut ch, 2 * round + 1).unwrap();
        assert_eq!(sink.try_recv(&mut ch), Ok(2 * round));
        assert_eq!(sink.try_recv(&mut ch), Ok(2 * round + 1));
    }
    assert_eq!(sink.try_recv(&mut ch), Err(TryRecvError::Empty));
}

#[test]
fn unbounded_drain_before_disconnect() {
    let (mut ch, src, sink) = unbounded::channel::<i64>();
    src.send(&mut ch, 1).unwrap();
    src.send(&mut ch, 2).unwrap();
    src.disconnect(&mut ch);

    assert!(!sink.sender_connected(&ch));
    assert_eq!(sink.try_recv(&mut ch), Ok(1));
    assert_eq!(sink.try_recv(&mut ch), Ok(2));
    assert_eq!(sink.try_recv(&mut ch), Err(TryRecvError::Disconnected));
}

#[test]
fn unbounded_teardown_frees_once() {
    let (mut ch, src, sink) = unbounded::channel::<i64>();
    src.send(&mut ch, 7).unwrap();
    let freed_first = sink.disconnect(&mut ch);
    let freed_second = src.disconnect(&mut ch);
    assert!(!freed_first);
    assert!(freed_second);
    assert_eq!(ch.teardown(), vec![7]);
}

#[test]
fn send_after_disconnect_returns_item() {
    let (mut ch, src, sink) = unbounded::channel::<String>();
    sink.disconnect(&mut ch);
    let item = String::from("kept");
    match src.send(&mut ch, item) {
        Err(SendError(s)) => assert_eq!(s, "kept"),
        Ok(()) => panic!("send should fail after the receiver left"),
    }
}
