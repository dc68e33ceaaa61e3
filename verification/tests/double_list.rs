use ralg::double::DoubleLinked;

#[test]
fn front_push_n_pop() {
    let mut list = DoubleLinked::new();
    assert_eq!(list.pop_front(), None);
    for x in 0..3 {
        list.push_front(x);
    }
    for x in (0..3).rev() {
        assert_eq!(list.pop_front(), Some(x));
    }
    assert_eq!(list.pop_front(), None);
}

#[test]
fn back_push_n_pop() {
    let mut list = DoubleLinked::new();
    assert_eq!(list.pop_back(), None);
    for x in 0..3 {
        list.push_back(x);
    }
    for x in (0..3).rev() {
        assert_eq!(list.pop_back(), Some(x));
    }
    assert_eq!(list.pop_back(), None);
}

#[test]
fn is_empty() {
    let mut list = DoubleLinked::new();
    assert!(list.is_empty());

    list.push_front(3);
    assert!(!list.is_empty());

    // ensure that `is_empty` call didn't mess up with the list
    assert!(!list.is_empty());

    list.pop_front();
    assert!(list.is_empty());
}

#[test]
fn peek_front() {
    let mut list = DoubleLinked::new();

    let check_empty = |node: Option<&i32>| match node {
        Some(_) => assert!(false),
        None => assert!(true),
    };
    check_empty(list.peek_front());

    for x in 0..3 {
        list.push_front(x);
    }
    for x in (0..3).rev() {
        assert_eq!(&*list.peek_front().unwrap(), &x);
        list.pop_front();
    }

    check_empty(list.peek_front());
}

#[test]
fn peek_back() {
    let mut list = DoubleLinked::new();
    assert!(list.peek_back().is_none());

    for x in 0..3 {
        list.push_back(x);
    }
    for x in (0..3).rev() {
        assert_eq!(&*list.peek_back().unwrap(), &x);
        list.pop_back();
    }

    assert!(list.peek_back().is_none());
}

#[test]
fn peek_front_mut() {
    let mut list = DoubleLinked::new();
    assert!(list.peek_front_mut().is_none());

    for x in 0..4 {
        list.push_front(x);
    }
    for mut x in (1..4).rev() {
        assert_eq!(&*list.peek_front_mut().unwrap(), &mut x);
        list.pop_front();
    }
    assert_eq!(&*list.peek_front_mut().unwrap(), &mut 0);

    {
        // Check for the mutability of the peek method
        let node_key = list.peek_front_mut().unwrap();
        assert_eq!(*node_key, 0);
        *node_key = 5;
    }
    assert_eq!(&*list.peek_front_mut().unwrap(), &mut 5);
}

#[test]
fn peek_back_mut() {
    let mut list = DoubleLinked::new();
    assert!(list.peek_back_mut().is_none());

    for x in 0..4 {
        list.push_back(x);
    }
    for mut x in (1..4).rev() {
        assert_eq!(&*list.peek_back_mut().unwrap(), &mut x);
        list.pop_back();
    }
    assert_eq!(&*list.peek_back_mut().unwrap(), &mut 0);

    {
        // Check for the mutability of the peek method
        let node_key = list.peek_back_mut().unwrap();
        assert_eq!(*node_key, 0);
        *node_key = 5;
    }
    assert_eq!(&*list.peek_back_mut().unwrap(), &mut 5);
}

#[test]
fn double_into_iter() {
    // Iter next
    let mut list = DoubleLinked::new();
    for x in 0..3 {
        list.push_front(x);
    }
    let mut iter = list.into_iter();
    for x in (0..3).rev() {
        assert_eq!(iter.next(), Some(x));
    }
    assert!(iter.next().is_none());

    // Iter next back
    let mut list = DoubleLinked::new();
    for x in 0..3 {
        list.push_front(x);
    }
    let mut iter = list.into_iter();
    for x in 0..3 {
        assert_eq!(iter.next_back(), Some(x));
    }
    assert!(iter.next().is_none());
}
