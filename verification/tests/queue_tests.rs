use ralg::queue::Queue;

#[test]
fn queue_push_n_pop() {
    let mut queue = Queue::new();
    assert!(queue.pop().is_none());

    for x in 0..3 {
        queue.push(x);
    }
    for x in 0..3 {
        assert_eq!(queue.pop(), Some(x));
    }

    assert!(queue.pop().is_none());
}

#[test]
fn queue_into_iter() {
    let mut queue = Queue::new();
    for x in 0..3 {
        queue.push(x);
    }

    // Check iterator
    let mut iter = queue.into_iter();
    for x in 0..3 {
        assert_eq!(iter.next(), Some(x));
    }
    assert!(iter.next().is_none());
}

#[test]
fn queue_iter() {
    let mut queue = Queue::new();
    for x in 0..3 {
        queue.push(x);
    }

    // Check iterator
    let mut iter = queue.iter();
    for x in 0..3 {
        assert_eq!(iter.next(), Some(&x));
    }
    assert_eq!(iter.next(), None);

    // Check for integrity of the original `queue`
    for x in 0..3 {
        assert_eq!(queue.pop(), Some(x));
    }
    assert!(queue.pop().is_none());
}

#[test]
fn queue_peek() {
    let mut queue = Queue::new();
    for x in 0..3 {
        queue.push(x);
    }

    for x in 0..3 {
        assert_eq!(queue.peek(), Some(&x));
        queue.pop();
    }
    assert_eq!(queue.peek(), None);
}

#[test]
fn peek_mut() {
    let mut queue = Queue::new();
    for x in 0..4 {
        queue.push(x);
    }

    for mut x in 0..3 {
        assert_eq!(queue.peek_mut(), Some(&mut x));
        queue.pop();
    }

    // Assert mutability
    let key = queue.peek_mut().unwrap();
    assert_eq!(key, &mut 3);
    *key += 3;
    assert_eq!(queue.peek_mut(), Some(&mut 6));

    assert_eq!(queue.pop(), Some(6));
    assert!(queue.peek().is_none());
}
