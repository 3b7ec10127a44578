use concurrent_qs::spsc::Queue;

#[test]
fn st_ref_test() {
    let q = Queue::<i32, 4>::new();
    let (src, sink) = q.ref_split();
    let mut q = q;

    assert_eq!(sink.pop(&mut q), None);

    assert_eq!(src.push(&mut q, 1), Ok(()));
    assert_eq!(src.push(&mut q, 2), Ok(()));
    assert_eq!(src.push(&mut q, 3), Ok(()));
    assert_eq!(src.push(&mut q, 4), Ok(()));
    assert_eq!(src.push(&mut q, 5), Err(5));

    assert_eq!(sink.pop(&mut q), Some(1));
    assert_eq!(sink.pop(&mut q), Some(2));
    assert_eq!(sink.pop(&mut q), Some(3));
    assert_eq!(sink.pop(&mut q), Some(4));
    assert_eq!(sink.pop(&mut q), None);
}

#[test]
fn st_arc_test() {
    let (mut q, src, sink) = Queue::<i32, 4>::new().split();

    assert_eq!(sink.pop(&mut q), None);

    assert_eq!(src.push(&mut q, 1), Ok(()));
    assert_eq!(src.push(&mut q, 2), Ok(()));
    assert_eq!(src.push(&mut q, 3), Ok(()));
    assert_eq!(src.push(&mut q, 4), Ok(()));
    assert_eq!(src.push(&mut q, 5), Err(5));

    assert_eq!(sink.pop(&mut q), Some(1));
    assert_eq!(sink.pop(&mut q), Some(2));
    assert_eq!(sink.pop(&mut q), Some(3));
    assert_eq!(sink.pop(&mut q), Some(4));
    assert_eq!(sink.pop(&mut q), None);
}

#[test]
fn queue_wraps_around() {
    // interleaved pushes and pops drive the cursors past the end of
    // the slot block several times; order must be kept throughout
    let mut q = Queue::<u64, 4>::new();
    for round in 0..5u64 {
        assert_eq!(q.push(10 * round), Ok(()));
        assert_eq!(q.push(10 * round + 1), Ok(()));
        assert_eq!(q.pop(), Some(10 * round));
        assert_eq!(q.pop(), Some(10 * round + 1));
    }
    assert_eq!(q.pop(), None);
}

#[test]
fn queue_fifo_order() {
    // all pushes complete before any pop: values come back in
    // exactly the order they went in
    let mut q = Queue::<u64, 8>::new();
    for i in 0..8u64 {
        assert_eq!(q.push(i), Ok(()));
    }
    for i in 0..8u64 {
        assert_eq!(q.pop(), Some(i));
    }
    assert_eq!(q.pop(), None);
}

#[test]
fn queue_capacity_one() {
    let mut q = Queue::<u8, 1>::new();
    assert_eq!(q.push(7), Ok(()));
    assert_eq!(q.push(8), Err(8));
    assert_eq!(q.pop(), Some(7));
    assert_eq!(q.pop(), None);
}
