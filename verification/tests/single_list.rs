use ralg::single::SingleLinked;

#[test]
fn single_push_n_pop() {
    let mut list = SingleLinked::new();

    // Verify the correctness of pop for the empty case
    assert_eq!(list.pop(), None);

    for x in 0..4 {
        list.push(x);
    }

    for x in (0..4).rev() {
        assert_eq!(list.pop(), Some(x));
    }

    assert_eq!(list.pop(), None);
}

#[test]
fn single_peek() {
    let mut list = SingleLinked::new();
    assert_eq!(list.peek(), None);
    assert_eq!(list.peek_mut(), None);

    list.push(1);
    assert_eq!(list.peek(), Some(&1));

    list.peek_mut().map(|key| {
        *key += 2;
    });
    assert_eq!(list.peek_mut(), Some(&mut 3));
    assert_eq!(list.peek(), Some(&3));
}

#[test]
fn single_into_iter() {
    let mut list = SingleLinked::new();
    for x in 0..3 {
        list.push(x);
    }
    let mut iter = list.into_iter();
    for x in (0..3).rev() {
        assert_eq!(iter.next(), Some(x));
    }
    assert_eq!(iter.next(), None);
}

#[test]
fn single_iter() {
    let mut list = SingleLinked::new();
    for x in 0..3 {
        list.push(x);
    }
    let mut iter = list.iter();
    for x in (0..3).rev() {
        assert_eq!(iter.next(), Some(&x));
    }
    assert_eq!(iter.next(), None);
}
